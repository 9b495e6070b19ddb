//! Resolution of logical model paths for the asset loader.
//!
//! Object model paths in a world document are logical identifiers rooted at
//! a fixed mount prefix; resolution is pure string concatenation, with no
//! escaping or traversal protection. The loader itself — mesh decoding and
//! scene generation — belongs to the host and stays outside this crate.

use vstd::prelude::*;

verus! {

/// Resolves a logical model path to the loader-addressable path under the
/// fixed mount prefix.
pub fn path_solver(path: &str) -> (r: String)
    ensures
        r@ == "res://models/"@ + path@,
{
    let mut s = "res://models/".to_owned();
    s.append(path);
    s
}

} // verus!
