//! The transform codec and the in-memory transform value.
//!
//! Converts between the serialized ten-scalar representation
//! ([`SuteraTransformSpecs`](crate::world_format::SuteraTransformSpecs)) and
//! the in-memory [`SuteraTransform`]. Decoding checks the ten keys in a
//! fixed order — position x, y, z; rotation x, y, z, w; scale x, y, z — and
//! fails fast on the first absent or non-numeric key, so error messages are
//! deterministic. Values themselves pass through untouched.

use vstd::prelude::*;
use crate::error::{ErrorView, SpanErr, WorldLoadingError};
use crate::raw::{number_field, scalar_clone, spec_number_field, Yaml};
use crate::world_format::SuteraTransformSpecs;

verus! {

/// A 3-component vector, its scalars in the document's representation.
#[derive(Debug, PartialEq)]
pub struct Vector3 {
    pub x: serde_yaml::Number,
    pub y: serde_yaml::Number,
    pub z: serde_yaml::Number,
}

/// A 4-component quaternion; never renormalised here.
#[derive(Debug, PartialEq)]
pub struct Quaternion {
    pub x: serde_yaml::Number,
    pub y: serde_yaml::Number,
    pub z: serde_yaml::Number,
    pub w: serde_yaml::Number,
}

/// Position, rotation and non-uniform scale applied to a loaded subtree.
#[derive(Debug, PartialEq)]
pub struct SuteraTransform {
    pub position: Vector3,
    pub rotation: Quaternion,
    pub scale: Vector3,
}

impl SuteraTransform {
    /// Packs the three components.
    pub fn new(position: Vector3, rotation: Quaternion, scale: Vector3) -> (r: SuteraTransform)
        ensures
            r == (SuteraTransform { position, rotation, scale }),
    {
        SuteraTransform { position, rotation, scale }
    }
}

/// A sink that can take a decoded transform: the host scene node type (or
/// a test double) applies position, then rotation, then non-uniform scale,
/// in that order.
pub trait SetSuteraTransform {
    /// Applies the transform to this node.
    fn set_sutera_transform(&mut self, transform: &SuteraTransform);
}

/// The transform that the ten serialized scalars denote.
pub open spec fn spec_transform_of(t: SuteraTransformSpecs) -> SuteraTransform {
    SuteraTransform {
        position: Vector3 { x: t.position_x, y: t.position_y, z: t.position_z },
        rotation: Quaternion { x: t.rotation_x, y: t.rotation_y, z: t.rotation_z, w: t.rotation_w },
        scale: Vector3 { x: t.scale_x, y: t.scale_y, z: t.scale_z },
    }
}

impl From<SuteraTransformSpecs> for SuteraTransform {
    fn from(value: SuteraTransformSpecs) -> (r: SuteraTransform) {
        let SuteraTransformSpecs {
            position_x,
            position_y,
            position_z,
            rotation_x,
            rotation_y,
            rotation_z,
            rotation_w,
            scale_x,
            scale_y,
            scale_z,
        } = value;
        SuteraTransform {
            position: Vector3 { x: position_x, y: position_y, z: position_z },
            rotation: Quaternion { x: rotation_x, y: rotation_y, z: rotation_z, w: rotation_w },
            scale: Vector3 { x: scale_x, y: scale_y, z: scale_z },
        }
    }
}

impl vstd::std_specs::convert::FromSpecImpl<SuteraTransformSpecs> for SuteraTransform {
    open spec fn obeys_from_spec() -> bool {
        true
    }

    open spec fn from_spec(t: SuteraTransformSpecs) -> SuteraTransform {
        spec_transform_of(t)
    }
}

impl SuteraTransformSpecs {
    /// The in-memory transform these scalars denote, leaving `self` intact.
    pub fn to_transform(&self) -> (r: SuteraTransform)
        ensures
            r == spec_transform_of(*self),
    {
        SuteraTransform {
            position: Vector3 {
                x: scalar_clone(&self.position_x),
                y: scalar_clone(&self.position_y),
                z: scalar_clone(&self.position_z),
            },
            rotation: Quaternion {
                x: scalar_clone(&self.rotation_x),
                y: scalar_clone(&self.rotation_y),
                z: scalar_clone(&self.rotation_z),
                w: scalar_clone(&self.rotation_w),
            },
            scale: Vector3 {
                x: scalar_clone(&self.scale_x),
                y: scalar_clone(&self.scale_y),
                z: scalar_clone(&self.scale_z),
            },
        }
    }
}

/// What decoding a transform mapping at document path `ctx` yields: the
/// first of the ten keys, in codec order, that is absent gives
/// `KeyMissing`; the first whose value is not a numeric scalar gives
/// `WrongType`; otherwise all ten scalars, as they stand in the document.
pub open spec fn spec_decode_transform(entries: Seq<(Yaml, Yaml)>, ctx: Seq<char>) -> Result<
    SuteraTransformSpecs,
    ErrorView,
> {
    let position_x = spec_number_field(entries, "position_x"@, ctx);
    let position_y = spec_number_field(entries, "position_y"@, ctx);
    let position_z = spec_number_field(entries, "position_z"@, ctx);
    let rotation_x = spec_number_field(entries, "rotation_x"@, ctx);
    let rotation_y = spec_number_field(entries, "rotation_y"@, ctx);
    let rotation_z = spec_number_field(entries, "rotation_z"@, ctx);
    let rotation_w = spec_number_field(entries, "rotation_w"@, ctx);
    let scale_x = spec_number_field(entries, "scale_x"@, ctx);
    let scale_y = spec_number_field(entries, "scale_y"@, ctx);
    let scale_z = spec_number_field(entries, "scale_z"@, ctx);
    if position_x is Err {
        Err(position_x->Err_0)
    } else if position_y is Err {
        Err(position_y->Err_0)
    } else if position_z is Err {
        Err(position_z->Err_0)
    } else if rotation_x is Err {
        Err(rotation_x->Err_0)
    } else if rotation_y is Err {
        Err(rotation_y->Err_0)
    } else if rotation_z is Err {
        Err(rotation_z->Err_0)
    } else if rotation_w is Err {
        Err(rotation_w->Err_0)
    } else if scale_x is Err {
        Err(scale_x->Err_0)
    } else if scale_y is Err {
        Err(scale_y->Err_0)
    } else if scale_z is Err {
        Err(scale_z->Err_0)
    } else {
        Ok(
            SuteraTransformSpecs {
                position_x: position_x->Ok_0,
                position_y: position_y->Ok_0,
                position_z: position_z->Ok_0,
                rotation_x: rotation_x->Ok_0,
                rotation_y: rotation_y->Ok_0,
                rotation_z: rotation_z->Ok_0,
                rotation_w: rotation_w->Ok_0,
                scale_x: scale_x->Ok_0,
                scale_y: scale_y->Ok_0,
                scale_z: scale_z->Ok_0,
            },
        )
    }
}

/// The ten serialized keys, in codec order: position x, y, z; rotation
/// x, y, z, w; scale x, y, z.
pub open spec fn transform_key(i: int) -> Seq<char> {
    if i == 0 {
        "position_x"@
    } else if i == 1 {
        "position_y"@
    } else if i == 2 {
        "position_z"@
    } else if i == 3 {
        "rotation_x"@
    } else if i == 4 {
        "rotation_y"@
    } else if i == 5 {
        "rotation_z"@
    } else if i == 6 {
        "rotation_w"@
    } else if i == 7 {
        "scale_x"@
    } else if i == 8 {
        "scale_y"@
    } else {
        "scale_z"@
    }
}

/// The scalar of `t` that belongs under the `i`-th serialized key.
pub open spec fn transform_scalar(t: SuteraTransformSpecs, i: int) -> serde_yaml::Number {
    if i == 0 {
        t.position_x
    } else if i == 1 {
        t.position_y
    } else if i == 2 {
        t.position_z
    } else if i == 3 {
        t.rotation_x
    } else if i == 4 {
        t.rotation_y
    } else if i == 5 {
        t.rotation_z
    } else if i == 6 {
        t.rotation_w
    } else if i == 7 {
        t.scale_x
    } else if i == 8 {
        t.scale_y
    } else {
        t.scale_z
    }
}

/// The entries of a freshly encoded transform: exactly the ten keys in
/// codec order, each bound to the matching scalar of `t`.
pub open spec fn is_transform_encoding(es: Seq<(Yaml, Yaml)>, t: SuteraTransformSpecs) -> bool {
    &&& es.len() == 10
    &&& forall|i: int|
        0 <= i < 10 ==> ((#[trigger] es[i]).0 matches Yaml::Str(s) && s@ == transform_key(i))
    &&& forall|i: int| 0 <= i < 10 ==> (#[trigger] es[i]).1 == Yaml::Num(transform_scalar(t, i))
}

/// Decodes the ten scalar fields of a transform mapping, failing fast on
/// the first absent or mistyped key in codec order.
pub fn decode_transform(entries: &Vec<(Yaml, Yaml)>, ctx: &str) -> (r: Result<
    SuteraTransformSpecs,
    SpanErr<WorldLoadingError>,
>)
    ensures
        match r {
            Ok(t) => spec_decode_transform(entries@, ctx@) == Ok::<SuteraTransformSpecs, ErrorView>(
                t,
            ),
            Err(e) => spec_decode_transform(entries@, ctx@) matches Err(ev) && e.error@ == ev,
        },
{
    let position_x = match number_field(entries, "position_x", ctx) {
        Ok(n) => n,
        Err(e) => {
            return Err(e);
        },
    };
    let position_y = match number_field(entries, "position_y", ctx) {
        Ok(n) => n,
        Err(e) => {
            return Err(e);
        },
    };
    let position_z = match number_field(entries, "position_z", ctx) {
        Ok(n) => n,
        Err(e) => {
            return Err(e);
        },
    };
    let rotation_x = match number_field(entries, "rotation_x", ctx) {
        Ok(n) => n,
        Err(e) => {
            return Err(e);
        },
    };
    let rotation_y = match number_field(entries, "rotation_y", ctx) {
        Ok(n) => n,
        Err(e) => {
            return Err(e);
        },
    };
    let rotation_z = match number_field(entries, "rotation_z", ctx) {
        Ok(n) => n,
        Err(e) => {
            return Err(e);
        },
    };
    let rotation_w = match number_field(entries, "rotation_w", ctx) {
        Ok(n) => n,
        Err(e) => {
            return Err(e);
        },
    };
    let scale_x = match number_field(entries, "scale_x", ctx) {
        Ok(n) => n,
        Err(e) => {
            return Err(e);
        },
    };
    let scale_y = match number_field(entries, "scale_y", ctx) {
        Ok(n) => n,
        Err(e) => {
            return Err(e);
        },
    };
    let scale_z = match number_field(entries, "scale_z", ctx) {
        Ok(n) => n,
        Err(e) => {
            return Err(e);
        },
    };
    Ok(
        SuteraTransformSpecs {
            position_x: scalar_clone(position_x),
            position_y: scalar_clone(position_y),
            position_z: scalar_clone(position_z),
            rotation_x: scalar_clone(rotation_x),
            rotation_y: scalar_clone(rotation_y),
            rotation_z: scalar_clone(rotation_z),
            rotation_w: scalar_clone(rotation_w),
            scale_x: scalar_clone(scale_x),
            scale_y: scalar_clone(scale_y),
            scale_z: scalar_clone(scale_z),
        },
    )
}

/// Re-encodes a transform into a document mapping: the ten keys in codec
/// order, each scalar exactly as held, so nothing is lost on the way out.
pub fn encode_transform(t: &SuteraTransformSpecs) -> (r: Yaml)
    ensures
        r matches Yaml::Mapping(es) && is_transform_encoding(es@, *t),
{
    let mut es: Vec<(Yaml, Yaml)> = Vec::new();
    es.push((Yaml::Str("position_x".to_owned()), Yaml::Num(scalar_clone(&t.position_x))));
    es.push((Yaml::Str("position_y".to_owned()), Yaml::Num(scalar_clone(&t.position_y))));
    es.push((Yaml::Str("position_z".to_owned()), Yaml::Num(scalar_clone(&t.position_z))));
    es.push((Yaml::Str("rotation_x".to_owned()), Yaml::Num(scalar_clone(&t.rotation_x))));
    es.push((Yaml::Str("rotation_y".to_owned()), Yaml::Num(scalar_clone(&t.rotation_y))));
    es.push((Yaml::Str("rotation_z".to_owned()), Yaml::Num(scalar_clone(&t.rotation_z))));
    es.push((Yaml::Str("rotation_w".to_owned()), Yaml::Num(scalar_clone(&t.rotation_w))));
    es.push((Yaml::Str("scale_x".to_owned()), Yaml::Num(scalar_clone(&t.scale_x))));
    es.push((Yaml::Str("scale_y".to_owned()), Yaml::Num(scalar_clone(&t.scale_y))));
    es.push((Yaml::Str("scale_z".to_owned()), Yaml::Num(scalar_clone(&t.scale_z))));
    Yaml::Mapping(es)
}

proof fn seq_char_neq(a: Seq<char>, b: Seq<char>, i: int)
    requires
        0 <= i < a.len(),
        0 <= i < b.len(),
        a[i] != b[i],
    ensures
        a != b,
{
}

/// The ten serialized keys are pairwise distinct.
proof fn lemma_transform_keys_distinct()
    ensures
        forall|i: int, j: int|
            0 <= i < 10 && 0 <= j < 10 && i != j ==> transform_key(i) != transform_key(j),
{
    reveal_strlit("position_x");
    reveal_strlit("position_y");
    reveal_strlit("position_z");
    reveal_strlit("rotation_x");
    reveal_strlit("rotation_y");
    reveal_strlit("rotation_z");
    reveal_strlit("rotation_w");
    reveal_strlit("scale_x");
    reveal_strlit("scale_y");
    reveal_strlit("scale_z");
    // Within the position group and the rotation group the keys differ in
    // their last character; position and rotation keys differ in the first;
    // scale keys differ from both groups in length and among themselves in
    // the last character.
    seq_char_neq("position_x"@, "position_y"@, 9);
    seq_char_neq("position_x"@, "position_z"@, 9);
    seq_char_neq("position_y"@, "position_z"@, 9);
    seq_char_neq("rotation_x"@, "rotation_y"@, 9);
    seq_char_neq("rotation_x"@, "rotation_z"@, 9);
    seq_char_neq("rotation_x"@, "rotation_w"@, 9);
    seq_char_neq("rotation_y"@, "rotation_z"@, 9);
    seq_char_neq("rotation_y"@, "rotation_w"@, 9);
    seq_char_neq("rotation_z"@, "rotation_w"@, 9);
    seq_char_neq("scale_x"@, "scale_y"@, 6);
    seq_char_neq("scale_x"@, "scale_z"@, 6);
    seq_char_neq("scale_y"@, "scale_z"@, 6);
    seq_char_neq("position_x"@, "rotation_x"@, 0);
    seq_char_neq("position_x"@, "rotation_y"@, 0);
    seq_char_neq("position_x"@, "rotation_z"@, 0);
    seq_char_neq("position_x"@, "rotation_w"@, 0);
    seq_char_neq("position_y"@, "rotation_x"@, 0);
    seq_char_neq("position_y"@, "rotation_y"@, 0);
    seq_char_neq("position_y"@, "rotation_z"@, 0);
    seq_char_neq("position_y"@, "rotation_w"@, 0);
    seq_char_neq("position_z"@, "rotation_x"@, 0);
    seq_char_neq("position_z"@, "rotation_y"@, 0);
    seq_char_neq("position_z"@, "rotation_z"@, 0);
    seq_char_neq("position_z"@, "rotation_w"@, 0);
}

/// Looking a key up finds the first entry that carries it.
proof fn lemma_lookup_at(es: Seq<(Yaml, Yaml)>, i: int, key: Seq<char>)
    requires
        0 <= i < es.len(),
        es[i].0 matches Yaml::Str(s) && s@ == key,
        forall|j: int|
            0 <= j < i ==> !((#[trigger] es[j]).0 matches Yaml::Str(s) && s@ == key),
    ensures
        crate::raw::spec_lookup(es, key) == Some(es[i].1),
    decreases i,
{
    if i > 0 {
        lemma_lookup_at(es.drop_first(), i - 1, key);
    }
}

/// In a fresh encoding, each of the ten keys looks up to its scalar.
proof fn lemma_encoding_lookup(es: Seq<(Yaml, Yaml)>, t: SuteraTransformSpecs, i: int)
    requires
        is_transform_encoding(es, t),
        0 <= i < 10,
    ensures
        crate::raw::spec_lookup(es, transform_key(i)) == Some(
            Yaml::Num(transform_scalar(t, i)),
        ),
{
    lemma_transform_keys_distinct();
    assert forall|j: int|
        0 <= j < i implies !((#[trigger] es[j]).0 matches Yaml::Str(s) && s@ == transform_key(
        i,
    )) by {
        assert(es[j].0 matches Yaml::Str(s) && s@ == transform_key(j));
        assert(transform_key(j) != transform_key(i));
    }
    lemma_lookup_at(es, i, transform_key(i));
}

/// Round trip: decoding a freshly encoded transform gives back exactly the
/// ten scalars that went in, whatever the context path.
pub proof fn lemma_transform_round_trip(
    es: Seq<(Yaml, Yaml)>,
    t: SuteraTransformSpecs,
    ctx: Seq<char>,
)
    requires
        is_transform_encoding(es, t),
    ensures
        spec_decode_transform(es, ctx) == Ok::<SuteraTransformSpecs, ErrorView>(t),
{
    assert(transform_key(0) == "position_x"@);
    assert(transform_key(1) == "position_y"@);
    assert(transform_key(2) == "position_z"@);
    assert(transform_key(3) == "rotation_x"@);
    assert(transform_key(4) == "rotation_y"@);
    assert(transform_key(5) == "rotation_z"@);
    assert(transform_key(6) == "rotation_w"@);
    assert(transform_key(7) == "scale_x"@);
    assert(transform_key(8) == "scale_y"@);
    assert(transform_key(9) == "scale_z"@);
    lemma_encoding_lookup(es, t, 0);
    lemma_encoding_lookup(es, t, 1);
    lemma_encoding_lookup(es, t, 2);
    lemma_encoding_lookup(es, t, 3);
    lemma_encoding_lookup(es, t, 4);
    lemma_encoding_lookup(es, t, 5);
    lemma_encoding_lookup(es, t, 6);
    lemma_encoding_lookup(es, t, 7);
    lemma_encoding_lookup(es, t, 8);
    lemma_encoding_lookup(es, t, 9);
}

/// Omitting any one of the ten keys, the others present and numeric, fails
/// with `KeyMissing` naming exactly that key.
pub proof fn lemma_decode_transform_key_missing(es: Seq<(Yaml, Yaml)>, ctx: Seq<char>, i: int)
    requires
        0 <= i < 10,
        crate::raw::spec_lookup(es, transform_key(i)) is None,
        forall|j: int|
            0 <= j < 10 && j != i ==> crate::raw::spec_number_field(
                es,
                #[trigger] transform_key(j),
                ctx,
            ) is Ok,
    ensures
        spec_decode_transform(es, ctx) == Err::<SuteraTransformSpecs, ErrorView>(
            ErrorView::KeyMissing(transform_key(i), ctx),
        ),
{
    assert(transform_key(0) == "position_x"@);
    assert(transform_key(1) == "position_y"@);
    assert(transform_key(2) == "position_z"@);
    assert(transform_key(3) == "rotation_x"@);
    assert(transform_key(4) == "rotation_y"@);
    assert(transform_key(5) == "rotation_z"@);
    assert(transform_key(6) == "rotation_w"@);
    assert(transform_key(7) == "scale_x"@);
    assert(transform_key(8) == "scale_y"@);
    assert(transform_key(9) == "scale_z"@);
}

/// Binding any one of the ten keys to a non-numeric value, the others
/// present and numeric, fails with `WrongType` naming exactly that key.
pub proof fn lemma_decode_transform_wrong_type(es: Seq<(Yaml, Yaml)>, ctx: Seq<char>, i: int)
    requires
        0 <= i < 10,
        crate::raw::spec_lookup(es, transform_key(i)) matches Some(v) && !(v is Num),
        forall|j: int|
            0 <= j < 10 && j != i ==> crate::raw::spec_number_field(
                es,
                #[trigger] transform_key(j),
                ctx,
            ) is Ok,
    ensures
        spec_decode_transform(es, ctx) == Err::<SuteraTransformSpecs, ErrorView>(
            ErrorView::WrongType(transform_key(i), ctx),
        ),
{
    assert(transform_key(0) == "position_x"@);
    assert(transform_key(1) == "position_y"@);
    assert(transform_key(2) == "position_z"@);
    assert(transform_key(3) == "rotation_x"@);
    assert(transform_key(4) == "rotation_y"@);
    assert(transform_key(5) == "rotation_z"@);
    assert(transform_key(6) == "rotation_w"@);
    assert(transform_key(7) == "scale_x"@);
    assert(transform_key(8) == "scale_y"@);
    assert(transform_key(9) == "scale_z"@);
}

} // verus!
