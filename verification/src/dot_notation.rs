//! Reading and writing a tree by a dot-separated key path such as
//! `preferences.theme`.
//!
//! Every segment of a path is the key of an object's field. Only objects are
//! entered: an array is never indexed by a segment, whatever the segment looks
//! like. The empty path string is one empty segment, the field named `""` of
//! the root.
use vstd::prelude::*;
use crate::error::SettingsError;
use crate::text::{split, split_text, strings_view};
use crate::tree::{
    TreeValue,
    TreeView,
    entries_view,
    find_key,
    lemma_entries_view_keys,
    lemma_entries_view_update,
};

verus! {

/// The segments of a path: the pieces between its dots. A path without a dot,
/// the empty one too, is a single segment.
pub open spec fn path_segments(path: Seq<char>) -> Seq<Seq<char>> {
    split_text(path, '.')
}

/// The tree is an object with a field of this name.
pub open spec fn has_child(tree: TreeView, key: Seq<char>) -> bool {
    tree matches TreeView::Object(fields) && fields.contains_key(key)
}

/// The field of this name, or null where the tree has none.
pub open spec fn child(tree: TreeView, key: Seq<char>) -> TreeView {
    match tree {
        TreeView::Object(fields) => if fields.contains_key(key) {
            fields[key]
        } else {
            TreeView::Null
        },
        _ => TreeView::Null,
    }
}

/// The fields of an object; none for any other tree.
pub open spec fn fields_of(tree: TreeView) -> Map<Seq<char>, TreeView> {
    match tree {
        TreeView::Object(fields) => fields,
        _ => Map::empty(),
    }
}

/// The node that a path leads to. A step that finds no field leads to null,
/// and every step from null leads to null.
pub open spec fn path_get(tree: TreeView, path: Seq<Seq<char>>) -> TreeView
    decreases path.len(),
{
    if path.len() == 0 {
        tree
    } else {
        path_get(child(tree, path[0]), path.drop_first())
    }
}

/// Every step of the path finds a field. The node at the end may be null.
pub open spec fn path_exists(tree: TreeView, path: Seq<Seq<char>>) -> bool
    decreases path.len(),
{
    if path.len() == 0 {
        true
    } else {
        has_child(tree, path[0]) && path_exists(child(tree, path[0]), path.drop_first())
    }
}

/// The tree with `value` at the end of the path. On the way every node that is
/// not an object is replaced by one: what it held is lost. The other fields of
/// the objects on the way stay.
pub open spec fn path_set(tree: TreeView, path: Seq<Seq<char>>, value: TreeView) -> TreeView
    decreases path.len(),
{
    if path.len() == 0 {
        value
    } else {
        TreeView::Object(
            fields_of(tree).insert(
                path[0],
                path_set(child(tree, path[0]), path.drop_first(), value),
            ),
        )
    }
}

/// The keys as sequences of characters.
pub open spec fn keys_view(keys: Seq<String>) -> Seq<Seq<char>> {
    strings_view(keys)
}

/// A path that is not present reads as null.
pub proof fn absent_path_reads_null(tree: TreeView, path: Seq<Seq<char>>)
    requires
        !path_exists(tree, path),
    ensures
        path_get(tree, path) == TreeView::Null,
    decreases path.len(),
{
    if has_child(tree, path[0]) {
        absent_path_reads_null(child(tree, path[0]), path.drop_first());
    } else {
        null_reads_null(path.drop_first());
    }
}

/// Every path reads as null in the null tree.
pub proof fn null_reads_null(path: Seq<Seq<char>>)
    ensures
        path_get(TreeView::Null, path) == TreeView::Null,
    decreases path.len(),
{
    if path.len() > 0 {
        null_reads_null(path.drop_first());
    }
}

/// After a value is set at a path, the path is present and reads as that
/// value.
pub proof fn set_then_get(tree: TreeView, path: Seq<Seq<char>>, value: TreeView)
    ensures
        path_exists(path_set(tree, path, value), path),
        path_get(path_set(tree, path, value), path) == value,
    decreases path.len(),
{
    if path.len() > 0 {
        set_then_get(child(tree, path[0]), path.drop_first(), value);
    }
}

/// Setting the same value at the same path a second time changes nothing.
pub proof fn set_is_idempotent(tree: TreeView, path: Seq<Seq<char>>, value: TreeView)
    ensures
        path_set(path_set(tree, path, value), path, value) == path_set(tree, path, value),
    decreases path.len(),
{
    if path.len() > 0 {
        let below = path_set(child(tree, path[0]), path.drop_first(), value);
        set_is_idempotent(child(tree, path[0]), path.drop_first(), value);
        assert(fields_of(tree).insert(path[0], below).insert(path[0], below) == fields_of(
            tree,
        ).insert(path[0], below));
    }
}

/// Setting a value at a path leaves alone every field of the root that the
/// path does not start with.
pub proof fn set_keeps_other_fields(
    tree: TreeView,
    path: Seq<Seq<char>>,
    value: TreeView,
    key: Seq<char>,
)
    requires
        path.len() > 0,
        key != path[0],
    ensures
        has_child(path_set(tree, path, value), key) == has_child(tree, key),
        child(path_set(tree, path, value), key) == child(tree, key),
{
}

/// Setting a value below a node that is no object does not merge with what
/// the node held: the result is the same as for null in its place.
pub proof fn set_replaces_what_is_no_object(tree: TreeView, path: Seq<Seq<char>>, value: TreeView)
    requires
        path.len() > 0,
        !(tree is Object),
    ensures
        path_set(tree, path, value) == path_set(TreeView::Null, path, value),
{
}

/// Splits a path at its dots.
pub fn split_path(path: &str) -> (keys: Vec<String>)
    ensures
        keys_view(keys@) == path_segments(path@),
{
    split(path, '.')
}

/// The child of a node under a key, if the node is an object that has it.
fn child_of<'a>(tree: &'a TreeValue, key: &String) -> (r: Option<&'a TreeValue>)
    ensures
        r is Some == has_child(tree@, key@),
        r matches Some(node) ==> node@ == child(tree@, key@),
{
    match tree {
        TreeValue::Object(entries) => {
            proof {
                lemma_entries_view_keys(entries@, key@);
            }
            match find_key(entries, key) {
                Some(i) => Some(&entries[i].1),
                None => None,
            }
        },
        _ => None,
    }
}

/// Checks whether a key path is present in the settings: whether every
/// segment, taken in turn from the root, names a field of the object reached
/// so far. The value at the end may be null. Never fails.
pub fn exists_dot_notation(settings: &TreeValue, path: &str) -> (r: Result<bool, SettingsError>)
    ensures
        r matches Ok(found) && found == path_exists(settings@, path_segments(path@)),
{
    let keys = split_path(path);
    let ghost segments = keys_view(keys@);
    let mut node = settings;
    let mut i: usize = 0;
    assert(segments.skip(0) == segments);
    while i < keys.len()
        invariant
            i <= keys.len(),
            segments == keys_view(keys@),
            segments == path_segments(path@),
            path_exists(settings@, segments) == path_exists(node@, segments.skip(i as int)),
        decreases keys.len() - i,
    {
        assert(segments.skip(i as int).drop_first() == segments.skip(i + 1));
        match child_of(node, &keys[i]) {
            Some(below) => {
                node = below;
            },
            None => {
                return Ok(false);
            },
        }
        i = i + 1;
    }
    Ok(true)
}

/// Gets the value that a key path leads to, as a copy. A path that is not
/// present gives null. Never fails.
pub fn get_dot_notation(settings: &TreeValue, path: &str) -> (r: Result<TreeValue, SettingsError>)
    ensures
        r matches Ok(value) && value@ == path_get(settings@, path_segments(path@)),
{
    let keys = split_path(path);
    let ghost segments = keys_view(keys@);
    let mut node = settings;
    let mut i: usize = 0;
    assert(segments.skip(0) == segments);
    while i < keys.len()
        invariant
            i <= keys.len(),
            segments == keys_view(keys@),
            segments == path_segments(path@),
            path_get(settings@, segments) == path_get(node@, segments.skip(i as int)),
        decreases keys.len() - i,
    {
        assert(segments.skip(i as int).drop_first() == segments.skip(i + 1));
        match child_of(node, &keys[i]) {
            Some(below) => {
                node = below;
            },
            None => {
                proof {
                    null_reads_null(segments.skip(i + 1));
                }
                return Ok(TreeValue::Null);
            },
        }
        i = i + 1;
    }
    Ok(node.clone())
}

/// Sets `value` at the end of the keys from `start` on, below `tree`.
fn set_at(tree: &mut TreeValue, keys: &Vec<String>, start: usize, value: TreeValue)
    requires
        start <= keys.len(),
    ensures
        final(tree)@ == path_set(old(tree)@, keys_view(keys@).skip(start as int), value@),
    decreases keys.len() - start,
{
    if start == keys.len() {
        *tree = value;
        return;
    }
    let ghost path = keys_view(keys@).skip(start as int);
    let ghost rest = keys_view(keys@).skip(start + 1);
    assert(path.drop_first() == rest);
    match tree {
        TreeValue::Object(_) => {},
        _ => {
            *tree = TreeValue::empty_object();
        },
    }
    let ghost node = tree@;
    match tree {
        TreeValue::Object(entries) => {
            let ghost before = entries@;
            proof {
                lemma_entries_view_keys(before, path[0]);
            }
            match find_key(entries, &keys[start]) {
                Some(i) => {
                    set_at(&mut entries[i].1, keys, start + 1, value);
                    proof {
                        lemma_entries_view_update(before, i as int, entries@[i as int]);
                    }
                },
                None => {
                    let mut below = TreeValue::Null;
                    set_at(&mut below, keys, start + 1, value);
                    entries.push((keys[start].clone(), below));
                    assert(entries@.drop_last() == before);
                },
            }
            assert(entries_view(entries@) == fields_of(node).insert(
                path[0],
                path_set(child(node, path[0]), rest, value@),
            ));
        },
        _ => {},
    }
}

/// Sets the value that a key path leads to, and makes the path where it is
/// missing: every node on the way that is not an object, a scalar or an array
/// too, is replaced by an object. Never fails.
pub fn set_dot_notation(settings: &mut TreeValue, path: &str, new_value: TreeValue) -> (r: Result<
    (),
    SettingsError,
>)
    ensures
        r is Ok,
        final(settings)@ == path_set(old(settings)@, path_segments(path@), new_value@),
{
    let keys = split_path(path);
    assert(keys_view(keys@).skip(0) == keys_view(keys@));
    set_at(settings, &keys, 0, new_value);
    Ok(())
}

} // verus!
