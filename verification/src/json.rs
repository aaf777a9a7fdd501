//! The boundary to `serde_json`: the outside types that pass through the
//! library, names for what its functions return, and the calls themselves.
//! Nothing in this module is proved; every contract here is taken from the
//! source of `serde_json`.
//!
//! The contracts hold of `serde_json` with its default features. There an
//! object is a map ordered by its keys, so that what is written for a value
//! depends on the tree it holds and not on how it was built.
use vstd::prelude::*;
use crate::tree::{TreeValue, TreeView};

verus! {

/// `serde_json::Number`, carried through unopened.
#[verifier::external_type_specification]
#[verifier::external_body]
pub struct ExNumber(serde_json::Number);

/// `serde_json::Value`, carried through unopened.
#[verifier::external_type_specification]
#[verifier::external_body]
pub struct ExValue(serde_json::Value);

/// `serde_json::Error`, carried through unopened.
#[verifier::external_type_specification]
#[verifier::external_body]
pub struct ExError(serde_json::Error);

/// The text that `Display` writes for a `serde_json::Number`, which is also
/// the text that the serializer writes for it.
pub uninterp spec fn number_text(n: serde_json::Number) -> Seq<char>;

/// The tree that a `serde_json::Value` holds: variant for variant the same
/// node, with a number as its text and an object as the map of its fields.
pub uninterp spec fn json_tree(v: serde_json::Value) -> TreeView;

/// What `serde_json::from_str` makes of a text: the tree of the value it
/// returns, or `None` where it returns an error.
pub uninterp spec fn parsed_json(text: Seq<char>) -> Option<TreeView>;

/// What `serde_json::to_string` makes of a value that holds `tree`: the text
/// it returns, or `None` where it returns an error.
pub uninterp spec fn compact_json(tree: TreeView) -> Option<Seq<char>>;

/// What `serde_json::to_string_pretty` makes of a value that holds `tree`: the
/// text it returns, or `None` where it returns an error.
pub uninterp spec fn pretty_json(tree: TreeView) -> Option<Seq<char>>;

/// Calls `Clone::clone` of `serde_json::Number`. The copy is the same number,
/// so it has the same text.
#[verifier::external_body]
pub(crate) fn number_clone(n: &serde_json::Number) -> (r: serde_json::Number)
    ensures
        number_text(r) == number_text(*n),
{
    n.clone()
}

/// Calls `ToString::to_string` of `serde_json::Number`, which goes through its
/// `Display`.
#[verifier::external_body]
pub(crate) fn number_to_string(n: &serde_json::Number) -> (r: String)
    ensures
        r@ == number_text(*n),
{
    n.to_string()
}

/// Calls `serde_json::from_str` for a `serde_json::Value`. The result depends
/// on the text alone.
#[verifier::external_body]
pub(crate) fn json_from_str(text: &str) -> (r: Result<serde_json::Value, serde_json::Error>)
    ensures
        match r {
            Ok(v) => parsed_json(text@) == Some(json_tree(v)),
            Err(_) => parsed_json(text@) is None,
        },
{
    serde_json::from_str::<serde_json::Value>(text)
}

/// Calls `serde_json::to_string` on a `serde_json::Value`. The result depends
/// on the tree alone. Nothing is said about which trees give an error.
#[verifier::external_body]
pub(crate) fn json_to_string(v: &serde_json::Value) -> (r: Result<String, serde_json::Error>)
    ensures
        match r {
            Ok(text) => compact_json(json_tree(*v)) == Some(text@),
            Err(_) => compact_json(json_tree(*v)) is None,
        },
{
    serde_json::to_string(v)
}

/// Calls `serde_json::to_string_pretty` on a `serde_json::Value`. The result
/// depends on the tree alone. Nothing is said about which trees give an error.
#[verifier::external_body]
pub(crate) fn json_to_string_pretty(v: &serde_json::Value) -> (r: Result<String, serde_json::Error>)
    ensures
        match r {
            Ok(text) => pretty_json(json_tree(*v)) == Some(text@),
            Err(_) => pretty_json(json_tree(*v)) is None,
        },
{
    serde_json::to_string_pretty(v)
}

/// Takes a `serde_json::Value` apart, variant by variant, into a `TreeValue`
/// that holds the same tree. The fields of an object come out of
/// `serde_json::Map` once each.
#[verifier::external_body]
pub(crate) fn tree_from_json(v: serde_json::Value) -> (r: TreeValue)
    ensures
        r@ == json_tree(v),
{
    match v {
        serde_json::Value::Null => TreeValue::Null,
        serde_json::Value::Bool(b) => TreeValue::Bool(b),
        serde_json::Value::Number(n) => TreeValue::Number(n),
        serde_json::Value::String(s) => TreeValue::String(s),
        serde_json::Value::Array(items) => TreeValue::Array(items.into_iter().map(tree_from_json).collect()),
        serde_json::Value::Object(fields) => TreeValue::Object(
            fields.into_iter().map(|(key, child)| (key, tree_from_json(child))).collect(),
        ),
    }
}

/// Builds the `serde_json::Value` that holds the same tree as a `TreeValue`.
/// The fields of an object go into a `serde_json::Map` by `insert`, in order,
/// so that of two entries with one key the later one stays.
#[verifier::external_body]
pub(crate) fn tree_to_json(tree: &TreeValue) -> (r: serde_json::Value)
    ensures
        json_tree(r) == tree@,
{
    match tree {
        TreeValue::Null => serde_json::Value::Null,
        TreeValue::Bool(b) => serde_json::Value::Bool(*b),
        TreeValue::Number(n) => serde_json::Value::Number(n.clone()),
        TreeValue::String(s) => serde_json::Value::String(s.clone()),
        TreeValue::Array(items) => serde_json::Value::Array(items.iter().map(tree_to_json).collect()),
        TreeValue::Object(entries) => {
            let mut fields = serde_json::Map::new();
            for (key, child) in entries { fields.insert(key.clone(), tree_to_json(child)); }
            serde_json::Value::Object(fields)
        },
    }
}

} // verus!
