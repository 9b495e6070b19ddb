//! The raw document tree.
//!
//! A world file is structured text. The outside parser turns it into its own
//! value tree; this module carries that tree over, step by step, into the
//! crate's [`Yaml`] type, which the verified decoder reads. Scalars keep the
//! parser's numeric representation: the schema passes them through unchanged
//! (no range or finiteness checks), so the decoder only ever asks whether a
//! value *is* a number, never which one.

use vstd::prelude::*;
use crate::error::{ErrorView, SpanErr, WorldLoadingError};

verus! {

#[verifier::external_type_specification]
#[verifier::external_body]
pub struct ExValue(serde_yaml::Value);

#[verifier::external_type_specification]
#[verifier::external_body]
pub struct ExNumber(serde_yaml::Number);

/// One node of the raw document, its children still in the outside
/// representation.
pub enum RawNode {
    Null,
    Bool(bool),
    Num(serde_yaml::Number),
    Str(String),
    Sequence(Vec<serde_yaml::Value>),
    Mapping(Vec<(serde_yaml::Value, serde_yaml::Value)>),
    Tagged(serde_yaml::Value),
}

/// The crate's own document tree: what the decoder reads.
pub enum Yaml {
    Null,
    Bool(bool),
    Num(serde_yaml::Number),
    Str(String),
    Sequence(Vec<Yaml>),
    Mapping(Vec<(Yaml, Yaml)>),
}

/// What the outside parser yields for given source text: its raw value
/// tree, or its error message. The parse and its error rendering are
/// functions of the text alone; nothing states what the tree is on any
/// given text, so every check on values reaches the verified logic behind
/// this name.
pub uninterp spec fn spec_yaml_parse(s: Seq<char>) -> Result<serde_yaml::Value, Seq<char>>;

/// The one-step decomposition of a raw parser value: which variant it is
/// and what it holds. A function of the value alone.
pub uninterp spec fn spec_value_node(v: serde_yaml::Value) -> RawNode;

/// Relies on `serde_yaml::from_str::<Value>`: parses the text as one YAML
/// document into the parser's raw value tree, or fails with its error,
/// rendered by `serde_yaml::Error`'s `Display`. Both depend on the text
/// alone; [`spec_yaml_parse`] names their joint result.
#[verifier::external_body]
fn parse_yaml(s: &str) -> (r: Result<serde_yaml::Value, String>)
    ensures
        match r {
            Ok(v) => spec_yaml_parse(s@) == Ok::<serde_yaml::Value, Seq<char>>(v),
            Err(m) => spec_yaml_parse(s@) matches Err(e) && m@ == e,
        },
{
    match serde_yaml::from_str::<serde_yaml::Value>(s) {
        Ok(v) => Ok(v),
        Err(e) => Err(e.to_string()),
    }
}

/// Relies on the variants of `serde_yaml::Value`: each arm moves one
/// variant's payload out; a mapping's entries come out in document order,
/// which `serde_yaml` preserves. [`spec_value_node`] names the
/// decomposition.
#[verifier::external_body]
fn value_node(v: serde_yaml::Value) -> (r: RawNode)
    ensures
        r == spec_value_node(v),
{
    match v {
        serde_yaml::Value::Null => RawNode::Null,
        serde_yaml::Value::Bool(b) => RawNode::Bool(b),
        serde_yaml::Value::Number(n) => RawNode::Num(n),
        serde_yaml::Value::String(s) => RawNode::Str(s),
        serde_yaml::Value::Sequence(s) => RawNode::Sequence(s),
        serde_yaml::Value::Mapping(m) => RawNode::Mapping(m.into_iter().collect()),
        serde_yaml::Value::Tagged(t) => RawNode::Tagged(t.value),
    }
}

/// Relies on `serde_yaml::Number`'s `Clone`: the copy is the same scalar.
#[verifier::external_body]
pub fn scalar_clone(n: &serde_yaml::Number) -> (r: serde_yaml::Number)
    ensures
        r == *n,
{
    n.clone()
}

/// Deepest nesting accepted in a document; the world schema needs six
/// levels, so nothing real is lost.
pub const MAX_DEPTH: u64 = 64;

/// `y` is the crate's reading of the raw value `v`, within `depth` levels
/// of nesting: the same scalars, strings, sequences and mappings, node for
/// node. A tagged value has no reading — it lies outside the fixed schema.
pub open spec fn converts_to(v: serde_yaml::Value, y: Yaml, depth: int) -> bool
    decreases depth, 0int,
{
    depth > 0 && match spec_value_node(v) {
        RawNode::Null => y == Yaml::Null,
        RawNode::Bool(b) => y == Yaml::Bool(b),
        RawNode::Num(n) => y == Yaml::Num(n),
        RawNode::Str(s) => y == Yaml::Str(s),
        RawNode::Sequence(items) => y matches Yaml::Sequence(ys) && seq_converts_to(
            items@,
            ys@,
            depth - 1,
        ),
        RawNode::Mapping(entries) => y matches Yaml::Mapping(ys) && pairs_convert_to(
            entries@,
            ys@,
            depth - 1,
        ),
        RawNode::Tagged(_) => false,
    }
}

/// Element-wise reading of a raw sequence.
pub open spec fn seq_converts_to(vs: Seq<serde_yaml::Value>, ys: Seq<Yaml>, depth: int) -> bool
    decreases depth, vs.len() + 1,
{
    if vs.len() == 0 {
        ys.len() == 0
    } else {
        &&& ys.len() == vs.len()
        &&& converts_to(vs[0], ys[0], depth)
        &&& seq_converts_to(vs.drop_first(), ys.drop_first(), depth)
    }
}

/// Entry-wise reading of a raw mapping, keys and values alike, order kept.
pub open spec fn pairs_convert_to(
    vs: Seq<(serde_yaml::Value, serde_yaml::Value)>,
    ys: Seq<(Yaml, Yaml)>,
    depth: int,
) -> bool
    decreases depth, vs.len() + 1,
{
    if vs.len() == 0 {
        ys.len() == 0
    } else {
        &&& ys.len() == vs.len()
        &&& converts_to(vs[0].0, ys[0].0, depth)
        &&& converts_to(vs[0].1, ys[0].1, depth)
        &&& pairs_convert_to(vs.drop_first(), ys.drop_first(), depth)
    }
}

/// Whether a raw value has a reading within `depth` levels of nesting.
pub open spec fn can_convert(v: serde_yaml::Value, depth: int) -> bool
    decreases depth, 0int,
{
    depth > 0 && match spec_value_node(v) {
        RawNode::Null => true,
        RawNode::Bool(_) => true,
        RawNode::Num(_) => true,
        RawNode::Str(_) => true,
        RawNode::Sequence(items) => all_convertible(items@, depth - 1),
        RawNode::Mapping(entries) => all_pairs_convertible(entries@, depth - 1),
        RawNode::Tagged(_) => false,
    }
}

/// Whether every element of a raw sequence has a reading.
pub open spec fn all_convertible(vs: Seq<serde_yaml::Value>, depth: int) -> bool
    decreases depth, vs.len() + 1,
{
    vs.len() == 0 || (can_convert(vs[0], depth) && all_convertible(vs.drop_first(), depth))
}

/// Whether every key and value of a raw mapping has a reading.
pub open spec fn all_pairs_convertible(
    vs: Seq<(serde_yaml::Value, serde_yaml::Value)>,
    depth: int,
) -> bool
    decreases depth, vs.len() + 1,
{
    vs.len() == 0 || (can_convert(vs[0].0, depth) && can_convert(vs[0].1, depth)
        && all_pairs_convertible(vs.drop_first(), depth))
}

proof fn lemma_seq_converts_snoc(
    vs: Seq<serde_yaml::Value>,
    ys: Seq<Yaml>,
    v2: serde_yaml::Value,
    y2: Yaml,
    depth: int,
)
    requires
        seq_converts_to(vs, ys, depth),
        converts_to(v2, y2, depth),
    ensures
        seq_converts_to(vs.push(v2), ys.push(y2), depth),
    decreases vs.len(),
{
    if vs.len() == 0 {
        assert(vs.push(v2).drop_first() =~= vs);
        assert(ys.push(y2).drop_first() =~= ys);
    } else {
        lemma_seq_converts_snoc(vs.drop_first(), ys.drop_first(), v2, y2, depth);
        assert(vs.push(v2).drop_first() =~= vs.drop_first().push(v2));
        assert(ys.push(y2).drop_first() =~= ys.drop_first().push(y2));
    }
}

proof fn lemma_pairs_convert_snoc(
    vs: Seq<(serde_yaml::Value, serde_yaml::Value)>,
    ys: Seq<(Yaml, Yaml)>,
    v2: (serde_yaml::Value, serde_yaml::Value),
    y2: (Yaml, Yaml),
    depth: int,
)
    requires
        pairs_convert_to(vs, ys, depth),
        converts_to(v2.0, y2.0, depth),
        converts_to(v2.1, y2.1, depth),
    ensures
        pairs_convert_to(vs.push(v2), ys.push(y2), depth),
    decreases vs.len(),
{
    if vs.len() == 0 {
        assert(vs.push(v2).drop_first() =~= vs);
        assert(ys.push(y2).drop_first() =~= ys);
    } else {
        lemma_pairs_convert_snoc(vs.drop_first(), ys.drop_first(), v2, y2, depth);
        assert(vs.push(v2).drop_first() =~= vs.drop_first().push(v2));
        assert(ys.push(y2).drop_first() =~= ys.drop_first().push(y2));
    }
}

proof fn lemma_all_convertible_index(vs: Seq<serde_yaml::Value>, depth: int, k: int)
    requires
        0 <= k < vs.len(),
        all_convertible(vs, depth),
    ensures
        can_convert(vs[k], depth),
    decreases k,
{
    if k > 0 {
        lemma_all_convertible_index(vs.drop_first(), depth, k - 1);
    }
}

proof fn lemma_all_pairs_convertible_index(
    vs: Seq<(serde_yaml::Value, serde_yaml::Value)>,
    depth: int,
    k: int,
)
    requires
        0 <= k < vs.len(),
        all_pairs_convertible(vs, depth),
    ensures
        can_convert(vs[k].0, depth),
        can_convert(vs[k].1, depth),
    decreases k,
{
    if k > 0 {
        lemma_all_pairs_convertible_index(vs.drop_first(), depth, k - 1);
    }
}

fn convert(v: serde_yaml::Value, depth: u64) -> (r: Option<Yaml>)
    ensures
        match r {
            Some(y) => converts_to(v, y, depth as int),
            None => !can_convert(v, depth as int),
        },
    decreases depth,
{
    if depth == 0 {
        return None;
    }
    let node = value_node(v);
    match node {
        RawNode::Null => Some(Yaml::Null),
        RawNode::Bool(b) => Some(Yaml::Bool(b)),
        RawNode::Num(n) => Some(Yaml::Num(n)),
        RawNode::Str(s) => Some(Yaml::Str(s)),
        RawNode::Sequence(items) => {
            let ghost orig = items@;
            let mut items = items;
            let mut out: Vec<Yaml> = Vec::new();
            while items.len() > 0
                invariant
                    depth >= 1,
                    spec_value_node(v) matches RawNode::Sequence(it) && it@ == orig,
                    orig.len() == out@.len() + items@.len(),
                    orig.skip(out@.len() as int) == items@,
                    seq_converts_to(orig.take(out@.len() as int), out@, depth - 1),
                decreases items.len(),
            {
                let ghost k = out@.len() as int;
                proof {
                    assert(orig.skip(k)[0] == orig[k]);
                    assert(orig.skip(k).drop_first() =~= orig.skip(k + 1));
                }
                let item = items.remove(0);
                match convert(item, depth - 1) {
                    Some(y) => {
                        proof {
                            lemma_seq_converts_snoc(orig.take(k), out@, item, y, depth - 1);
                            assert(orig.take(k + 1) =~= orig.take(k).push(item));
                        }
                        out.push(y);
                    },
                    None => {
                        proof {
                            if can_convert(v, depth as int) {
                                lemma_all_convertible_index(orig, depth - 1, k);
                            }
                        }
                        return None;
                    },
                }
            }
            proof {
                assert(orig.take(out@.len() as int) =~= orig);
            }
            Some(Yaml::Sequence(out))
        },
        RawNode::Mapping(entries) => {
            let ghost orig = entries@;
            let mut entries = entries;
            let mut out: Vec<(Yaml, Yaml)> = Vec::new();
            while entries.len() > 0
                invariant
                    depth >= 1,
                    spec_value_node(v) matches RawNode::Mapping(es) && es@ == orig,
                    orig.len() == out@.len() + entries@.len(),
                    orig.skip(out@.len() as int) == entries@,
                    pairs_convert_to(orig.take(out@.len() as int), out@, depth - 1),
                decreases entries.len(),
            {
                let ghost k = out@.len() as int;
                proof {
                    assert(orig.skip(k)[0] == orig[k]);
                    assert(orig.skip(k).drop_first() =~= orig.skip(k + 1));
                }
                let (key, value) = entries.remove(0);
                let key = match convert(key, depth - 1) {
                    Some(y) => y,
                    None => {
                        proof {
                            if can_convert(v, depth as int) {
                                lemma_all_pairs_convertible_index(orig, depth - 1, k);
                            }
                        }
                        return None;
                    },
                };
                let value = match convert(value, depth - 1) {
                    Some(y) => y,
                    None => {
                        proof {
                            if can_convert(v, depth as int) {
                                lemma_all_pairs_convertible_index(orig, depth - 1, k);
                            }
                        }
                        return None;
                    },
                };
                proof {
                    lemma_pairs_convert_snoc(orig.take(k), out@, orig[k], (key, value), depth - 1);
                    assert(orig.take(k + 1) =~= orig.take(k).push(orig[k]));
                }
                out.push((key, value));
            }
            proof {
                assert(orig.take(out@.len() as int) =~= orig);
            }
            Some(Yaml::Mapping(out))
        },
        // A tag marks a value outside the fixed world schema.
        RawNode::Tagged(_) => None,
    }
}

/// Relies on `str`'s `PartialEq`: two string slices are equal exactly when
/// their character sequences are.
#[verifier::external_body]
pub fn str_eq(a: &str, b: &str) -> (r: bool)
    ensures
        r == (a@ == b@),
{
    a == b
}

/// The value under the first entry of `entries` whose key is the string
/// `key`, if any. Later duplicates of a key are shadowed by the first.
pub open spec fn spec_lookup(entries: Seq<(Yaml, Yaml)>, key: Seq<char>) -> Option<Yaml>
    decreases entries.len(),
{
    if entries.len() == 0 {
        None
    } else if entries[0].0 matches Yaml::Str(s) && s@ == key {
        Some(entries[0].1)
    } else {
        spec_lookup(entries.drop_first(), key)
    }
}

/// Finds the value under a string key in a mapping's entries.
pub fn yaml_lookup<'a>(entries: &'a Vec<(Yaml, Yaml)>, key: &str) -> (r: Option<&'a Yaml>)
    ensures
        match r {
            Some(v) => spec_lookup(entries@, key@) == Some(*v),
            None => spec_lookup(entries@, key@) is None,
        },
{
    let n = entries.len();
    proof {
        assert(entries@.skip(0) =~= entries@);
    }
    for i in 0..n
        invariant
            n == entries@.len(),
            spec_lookup(entries@, key@) == spec_lookup(entries@.skip(i as int), key@),
    {
        proof {
            assert(entries@.skip(i as int)[0] == entries@[i as int]);
            assert(entries@.skip(i as int).drop_first() =~= entries@.skip(i + 1 as int));
        }
        match &entries[i].0 {
            Yaml::Str(s) => {
                if str_eq(s.as_str(), key) {
                    return Some(&entries[i].1);
                }
            },
            _ => {},
        }
    }
    proof {
        assert(entries@.skip(n as int) =~= Seq::<(Yaml, Yaml)>::empty());
    }
    None
}

/// The string under `key` in a mapping at document path `ctx`: absent keys
/// and non-string values are told apart.
pub open spec fn spec_string_field(
    entries: Seq<(Yaml, Yaml)>,
    key: Seq<char>,
    ctx: Seq<char>,
) -> Result<String, ErrorView> {
    match spec_lookup(entries, key) {
        None => Err(ErrorView::KeyMissing(key, ctx)),
        Some(v) => match v {
            Yaml::Str(s) => Ok(s),
            _ => Err(ErrorView::WrongType(key, ctx)),
        },
    }
}

/// The numeric scalar under `key` in a mapping at document path `ctx`.
pub open spec fn spec_number_field(
    entries: Seq<(Yaml, Yaml)>,
    key: Seq<char>,
    ctx: Seq<char>,
) -> Result<serde_yaml::Number, ErrorView> {
    match spec_lookup(entries, key) {
        None => Err(ErrorView::KeyMissing(key, ctx)),
        Some(v) => match v {
            Yaml::Num(n) => Ok(n),
            _ => Err(ErrorView::WrongType(key, ctx)),
        },
    }
}

/// The child mapping under `key` in a mapping at document path `ctx`.
pub open spec fn spec_mapping_field(
    entries: Seq<(Yaml, Yaml)>,
    key: Seq<char>,
    ctx: Seq<char>,
) -> Result<Seq<(Yaml, Yaml)>, ErrorView> {
    match spec_lookup(entries, key) {
        None => Err(ErrorView::KeyMissing(key, ctx)),
        Some(v) => match v {
            Yaml::Mapping(es) => Ok(es@),
            _ => Err(ErrorView::WrongType(key, ctx)),
        },
    }
}

/// The child sequence under `key` in a mapping at document path `ctx`.
pub open spec fn spec_sequence_field(
    entries: Seq<(Yaml, Yaml)>,
    key: Seq<char>,
    ctx: Seq<char>,
) -> Result<Seq<Yaml>, ErrorView> {
    match spec_lookup(entries, key) {
        None => Err(ErrorView::KeyMissing(key, ctx)),
        Some(v) => match v {
            Yaml::Sequence(items) => Ok(items@),
            _ => Err(ErrorView::WrongType(key, ctx)),
        },
    }
}

/// Reads a required string field.
pub fn string_field<'a>(entries: &'a Vec<(Yaml, Yaml)>, key: &str, ctx: &str) -> (r: Result<
    &'a String,
    SpanErr<WorldLoadingError>,
>)
    ensures
        match r {
            Ok(s) => spec_string_field(entries@, key@, ctx@) == Ok::<String, ErrorView>(*s),
            Err(e) => spec_string_field(entries@, key@, ctx@) matches Err(ev) && e.error@ == ev,
        },
{
    match yaml_lookup(entries, key) {
        None => Err(
            SpanErr::from(WorldLoadingError::KeyMissing(key.to_owned(), ctx.to_owned())),
        ),
        Some(v) => match v {
            Yaml::Str(s) => Ok(s),
            _ => Err(
                SpanErr::from(WorldLoadingError::WrongType(key.to_owned(), ctx.to_owned())),
            ),
        },
    }
}

/// Reads a required numeric scalar field.
pub fn number_field<'a>(entries: &'a Vec<(Yaml, Yaml)>, key: &str, ctx: &str) -> (r: Result<
    &'a serde_yaml::Number,
    SpanErr<WorldLoadingError>,
>)
    ensures
        match r {
            Ok(n) => spec_number_field(entries@, key@, ctx@) == Ok::<serde_yaml::Number, ErrorView>(
                *n,
            ),
            Err(e) => spec_number_field(entries@, key@, ctx@) matches Err(ev) && e.error@ == ev,
        },
{
    match yaml_lookup(entries, key) {
        None => Err(
            SpanErr::from(WorldLoadingError::KeyMissing(key.to_owned(), ctx.to_owned())),
        ),
        Some(v) => match v {
            Yaml::Num(n) => Ok(n),
            _ => Err(
                SpanErr::from(WorldLoadingError::WrongType(key.to_owned(), ctx.to_owned())),
            ),
        },
    }
}

/// Reads a required child mapping.
pub fn mapping_field<'a>(entries: &'a Vec<(Yaml, Yaml)>, key: &str, ctx: &str) -> (r: Result<
    &'a Vec<(Yaml, Yaml)>,
    SpanErr<WorldLoadingError>,
>)
    ensures
        match r {
            Ok(es) => spec_mapping_field(entries@, key@, ctx@) == Ok::<
                Seq<(Yaml, Yaml)>,
                ErrorView,
            >(es@),
            Err(e) => spec_mapping_field(entries@, key@, ctx@) matches Err(ev) && e.error@ == ev,
        },
{
    match yaml_lookup(entries, key) {
        None => Err(
            SpanErr::from(WorldLoadingError::KeyMissing(key.to_owned(), ctx.to_owned())),
        ),
        Some(v) => match v {
            Yaml::Mapping(es) => Ok(es),
            _ => Err(
                SpanErr::from(WorldLoadingError::WrongType(key.to_owned(), ctx.to_owned())),
            ),
        },
    }
}

/// Reads a required child sequence.
pub fn sequence_field<'a>(entries: &'a Vec<(Yaml, Yaml)>, key: &str, ctx: &str) -> (r: Result<
    &'a Vec<Yaml>,
    SpanErr<WorldLoadingError>,
>)
    ensures
        match r {
            Ok(items) => spec_sequence_field(entries@, key@, ctx@) == Ok::<Seq<Yaml>, ErrorView>(
                items@,
            ),
            Err(e) => spec_sequence_field(entries@, key@, ctx@) matches Err(ev) && e.error@ == ev,
        },
{
    match yaml_lookup(entries, key) {
        None => Err(
            SpanErr::from(WorldLoadingError::KeyMissing(key.to_owned(), ctx.to_owned())),
        ),
        Some(v) => match v {
            Yaml::Sequence(items) => Ok(items),
            _ => Err(
                SpanErr::from(WorldLoadingError::WrongType(key.to_owned(), ctx.to_owned())),
            ),
        },
    }
}

/// The parse stage yields the tree `y` for source text `s`: the text
/// parses, and the crate's reading of the parser's value, within the fixed
/// depth bound, is `y`. For given text, at most one tree satisfies this.
pub open spec fn parse_yields(s: Seq<char>, y: Yaml) -> bool {
    spec_yaml_parse(s) matches Ok(v) && converts_to(v, y, MAX_DEPTH as int)
}

/// The parse stage fails on source text `s` with the reason `reason`:
/// either the parser's own error message, or the fixed reason for a parsed
/// value outside the schema's shape (a tag, or nesting past the bound).
pub open spec fn parse_fails_with(s: Seq<char>, reason: Seq<char>) -> bool {
    match spec_yaml_parse(s) {
        Err(m) => reason == m,
        Ok(v) => !can_convert(v, MAX_DEPTH as int) && reason
            == "unsupported document structure"@,
    }
}

/// Parses world source text into the crate's document tree. Every failure
/// of this stage — unparsable text, or a structure outside the schema's
/// shape — is a `ParseFailed` carrying the stage's reason; success is owed
/// whenever the text parses to a convertible value.
pub fn parse_document(s: &str) -> (r: Result<Yaml, SpanErr<WorldLoadingError>>)
    ensures
        match r {
            Ok(y) => parse_yields(s@, y),
            Err(e) => e.error@ matches ErrorView::ParseFailed(m) && parse_fails_with(s@, m),
        },
{
    match parse_yaml(s) {
        Err(m) => Err(SpanErr::from(WorldLoadingError::ParseFailed(m))),
        Ok(v) => match convert(v, MAX_DEPTH) {
            None => Err(
                SpanErr::from(
                    WorldLoadingError::ParseFailed("unsupported document structure".to_owned()),
                ),
            ),
            Some(y) => Ok(y),
        },
    }
}

} // verus!
