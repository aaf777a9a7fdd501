//! The tree value of a settings document and its mathematical model.
use vstd::prelude::*;
use vstd::std_specs::cmp::PartialEqSpecImpl;
use crate::json::{number_clone, number_text, number_to_string};

verus! {

/// One node of a settings document.
///
/// An object is kept as a list of entries. Where two entries have the same
/// key, the later one is the field and the earlier one is dead.
#[derive(Debug)]
pub enum TreeValue {
    /// Nothing; also what a path that is not present reads as.
    Null,
    Bool(bool),
    /// A number, kept as `serde_json` holds it. Two numbers are the same when
    /// they are written the same: `1` and `1.0` are not.
    Number(serde_json::Number),
    String(String),
    Array(Vec<TreeValue>),
    /// The entries of an object, each a key with its value.
    Object(Vec<(String, TreeValue)>),
}

/// What a `TreeValue` stands for: a number is its text, an array a sequence,
/// an object a finite map from keys to trees.
pub enum TreeView {
    Null,
    Bool(bool),
    Number(Seq<char>),
    String(Seq<char>),
    Array(Seq<TreeView>),
    Object(Map<Seq<char>, TreeView>),
}

/// The fields that a list of entries stands for: each entry is inserted in
/// turn, so a later entry replaces an earlier one with the same key.
pub open spec fn entries_view(entries: Seq<(String, TreeValue)>) -> Map<Seq<char>, TreeView>
    decreases entries,
{
    if entries.len() == 0 {
        Map::empty()
    } else {
        entries_view(entries.drop_last()).insert(entries.last().0@, entries.last().1.view())
    }
}

/// The elements that a list of items stands for.
pub open spec fn items_view(items: Seq<TreeValue>) -> Seq<TreeView> {
    Seq::new(items.len(), |i: int| items[i].view())
}

impl TreeValue {
    /// The tree that this value stands for.
    pub open spec fn view(&self) -> TreeView
        decreases self,
    {
        match self {
            TreeValue::Null => TreeView::Null,
            TreeValue::Bool(b) => TreeView::Bool(*b),
            TreeValue::Number(n) => TreeView::Number(number_text(*n)),
            TreeValue::String(s) => TreeView::String(s@),
            TreeValue::Array(items) => TreeView::Array(
                Seq::new(
                    items@.len(),
                    |i: int|
                        if 0 <= i < items@.len() {
                            items@[i].view()
                        } else {
                            TreeView::Null
                        },
                ),
            ),
            TreeValue::Object(entries) => TreeView::Object(entries_view(entries@)),
        }
    }

    /// An object without fields.
    pub fn empty_object() -> (r: TreeValue)
        ensures
            r@ == TreeView::Object(Map::empty()),
    {
        let entries: Vec<(String, TreeValue)> = Vec::new();
        assert(entries_view(entries@) == Map::<Seq<char>, TreeView>::empty());
        TreeValue::Object(entries)
    }
}

/// `i` is the place of the last entry with this key.
pub open spec fn is_last_index(entries: Seq<(String, TreeValue)>, key: Seq<char>, i: int) -> bool {
    &&& 0 <= i < entries.len()
    &&& entries[i].0@ == key
    &&& forall|j: int| i < j < entries.len() ==> (#[trigger] entries[j]).0@ != key
}

/// Some entry has this key.
pub open spec fn has_key(entries: Seq<(String, TreeValue)>, key: Seq<char>) -> bool {
    exists|i: int| 0 <= i < entries.len() && (#[trigger] entries[i]).0@ == key
}

/// The view of an array is the view of its items, one by one.
pub proof fn lemma_array_view(items: Vec<TreeValue>)
    ensures
        TreeValue::Array(items)@ == TreeView::Array(items_view(items@)),
{
    assert(TreeValue::Array(items)@->Array_0 =~= items_view(items@));
}

/// A key is a field exactly if some entry has it, and the field's value is
/// that of the last such entry.
pub proof fn lemma_entries_view_keys(entries: Seq<(String, TreeValue)>, key: Seq<char>)
    ensures
        entries_view(entries).contains_key(key) <==> has_key(entries, key),
        forall|i: int|
            is_last_index(entries, key, i) ==> entries_view(entries)[key] == entries[i].1@,
    decreases entries.len(),
{
    let n = entries.len();
    if n > 0 {
        let init = entries.drop_last();
        lemma_entries_view_keys(init, key);
        if has_key(init, key) {
            let i = choose|i: int| 0 <= i < init.len() && (#[trigger] init[i]).0@ == key;
            assert(entries[i].0@ == key);
        }
        if has_key(entries, key) {
            let i = choose|i: int| 0 <= i < entries.len() && (#[trigger] entries[i]).0@ == key;
            if i < n - 1 {
                assert(init[i].0@ == key);
            }
        }
        assert forall|i: int| is_last_index(entries, key, i) implies entries_view(entries)[key]
            == entries[i].1@ by {
            if i < n - 1 {
                assert(is_last_index(init, key, i)) by {
                    assert forall|j: int| i < j < init.len() implies (#[trigger] init[j]).0@
                        != key by {
                        assert(entries[j].0@ != key);
                    }
                }
            }
        }
    }
}

/// Replacing the last entry of a key replaces the field.
pub proof fn lemma_entries_view_update(
    entries: Seq<(String, TreeValue)>,
    i: int,
    entry: (String, TreeValue),
)
    requires
        is_last_index(entries, entry.0@, i),
    ensures
        entries_view(entries.update(i, entry)) == entries_view(entries).insert(
            entry.0@,
            entry.1@,
        ),
    decreases entries.len(),
{
    let n = entries.len();
    let updated = entries.update(i, entry);
    if i == n - 1 {
        assert(updated.drop_last() == entries.drop_last());
    } else {
        let init = entries.drop_last();
        assert(is_last_index(init, entry.0@, i)) by {
            assert forall|j: int| i < j < init.len() implies (#[trigger] init[j]).0@
                != entry.0@ by {
                assert(entries[j].0@ != entry.0@);
            }
        }
        lemma_entries_view_update(init, i, entry);
        assert(updated.drop_last() == init.update(i, entry));
    }
}

/// Two lists of entries with the same keys and the same values, place by
/// place, stand for the same fields.
pub proof fn lemma_entries_view_pointwise(
    a: Seq<(String, TreeValue)>,
    b: Seq<(String, TreeValue)>,
)
    requires
        a.len() == b.len(),
        forall|i: int| 0 <= i < a.len() ==> a[i].0@ == b[i].0@ && a[i].1@ == b[i].1@,
    ensures
        entries_view(a) == entries_view(b),
    decreases a.len(),
{
    if a.len() > 0 {
        lemma_entries_view_pointwise(a.drop_last(), b.drop_last());
    }
}

/// The place of the last entry with the given key, if there is one.
pub fn find_key(entries: &Vec<(String, TreeValue)>, key: &String) -> (r: Option<usize>)
    ensures
        match r {
            Some(i) => is_last_index(entries@, key@, i as int),
            None => !has_key(entries@, key@),
        },
{
    let mut i: usize = entries.len();
    while i > 0
        invariant
            i <= entries.len(),
            forall|j: int| i <= j < entries.len() ==> (#[trigger] entries@[j]).0@ != key@,
        decreases i,
    {
        i = i - 1;
        if entries[i].0 == *key {
            return Some(i);
        }
    }
    None
}

impl Clone for TreeValue {
    /// A copy that stands for the same tree.
    fn clone(&self) -> (r: Self)
        ensures
            r@ == self@,
        decreases self,
    {
        match self {
            TreeValue::Null => TreeValue::Null,
            TreeValue::Bool(b) => TreeValue::Bool(*b),
            TreeValue::Number(n) => TreeValue::Number(number_clone(n)),
            TreeValue::String(s) => TreeValue::String(s.clone()),
            TreeValue::Array(items) => {
                let mut copy: Vec<TreeValue> = Vec::new();
                let mut i: usize = 0;
                while i < items.len()
                    invariant
                        i <= items.len(),
                        copy.len() == i,
                        *self == TreeValue::Array(*items),
                        forall|j: int| 0 <= j < i ==> (#[trigger] copy@[j])@ == items@[j]@,
                    decreases items.len() - i,
                {
                    let item = &items[i];
                    assert(decreases_to!(*self => self->Array_0));
                    copy.push(item.clone());
                    i = i + 1;
                }
                proof {
                    lemma_array_view(copy);
                    lemma_array_view(*items);
                    assert(items_view(copy@) =~= items_view(items@));
                }
                TreeValue::Array(copy)
            },
            TreeValue::Object(entries) => {
                let mut copy: Vec<(String, TreeValue)> = Vec::new();
                let mut i: usize = 0;
                while i < entries.len()
                    invariant
                        i <= entries.len(),
                        copy.len() == i,
                        *self == TreeValue::Object(*entries),
                        forall|j: int|
                            0 <= j < i ==> (#[trigger] copy@[j]).0@ == entries@[j].0@ && copy@[j].1@
                                == entries@[j].1@,
                    decreases entries.len() - i,
                {
                    let entry = &entries[i];
                    assert(decreases_to!(*self => self->Object_0));
                    copy.push((entry.0.clone(), entry.1.clone()));
                    i = i + 1;
                }
                proof {
                    lemma_entries_view_pointwise(copy@, entries@);
                }
                TreeValue::Object(copy)
            },
        }
    }
}

/// Whether two trees stand for the same value.
fn same_tree(a: &TreeValue, b: &TreeValue) -> (r: bool)
    ensures
        r == (a@ == b@),
    decreases a,
{
    match (a, b) {
        (TreeValue::Null, TreeValue::Null) => true,
        (TreeValue::Bool(x), TreeValue::Bool(y)) => *x == *y,
        (TreeValue::Number(x), TreeValue::Number(y)) => number_to_string(x) == number_to_string(y),
        (TreeValue::String(x), TreeValue::String(y)) => *x == *y,
        (TreeValue::Array(xs), TreeValue::Array(ys)) => {
            proof {
                lemma_array_view(*xs);
                lemma_array_view(*ys);
            }
            if xs.len() != ys.len() {
                assert(items_view(xs@).len() != items_view(ys@).len());
                return false;
            }
            let mut i: usize = 0;
            while i < xs.len()
                invariant
                    i <= xs.len(),
                    xs.len() == ys.len(),
                    *a == TreeValue::Array(*xs),
                    a@ == TreeView::Array(items_view(xs@)),
                    b@ == TreeView::Array(items_view(ys@)),
                    forall|j: int| 0 <= j < i ==> (#[trigger] xs@[j])@ == ys@[j]@,
                decreases xs.len() - i,
            {
                let x = &xs[i];
                if !same_tree(x, &ys[i]) {
                    assert(items_view(xs@)[i as int] != items_view(ys@)[i as int]);
                    return false;
                }
                i = i + 1;
            }
            assert(items_view(xs@) =~= items_view(ys@));
            true
        },
        (TreeValue::Object(xs), TreeValue::Object(ys)) => {
            let ghost fx = entries_view(xs@);
            let ghost fy = entries_view(ys@);
            let mut i: usize = 0;
            while i < xs.len()
                invariant
                    i <= xs.len(),
                    *a == TreeValue::Object(*xs),
                    fx == entries_view(xs@),
                    fy == entries_view(ys@),
                    a@ == TreeView::Object(fx),
                    b@ == TreeView::Object(fy),
                    forall|j: int|
                        0 <= j < i ==> fx.contains_key((#[trigger] xs@[j]).0@) && fy.contains_key(
                            xs@[j].0@,
                        ) && fx[xs@[j].0@] == fy[xs@[j].0@],
                decreases xs.len() - i,
            {
                let key = &xs[i].0;
                proof {
                    lemma_entries_view_keys(xs@, key@);
                    lemma_entries_view_keys(ys@, key@);
                }
                match (find_key(xs, key), find_key(ys, key)) {
                    (Some(ix), Some(iy)) => {
                        let x = &xs[ix].1;
                        if !same_tree(x, &ys[iy].1) {
                            return false;
                        }
                    },
                    _ => {
                        return false;
                    },
                }
                i = i + 1;
            }
            let mut k: usize = 0;
            while k < ys.len()
                invariant
                    k <= ys.len(),
                    fx == entries_view(xs@),
                    fy == entries_view(ys@),
                    a@ == TreeView::Object(fx),
                    b@ == TreeView::Object(fy),
                    forall|j: int| 0 <= j < k ==> fx.contains_key((#[trigger] ys@[j]).0@),
                decreases ys.len() - k,
            {
                let key = &ys[k].0;
                proof {
                    lemma_entries_view_keys(xs@, key@);
                    lemma_entries_view_keys(ys@, key@);
                }
                if find_key(xs, key).is_none() {
                    return false;
                }
                k = k + 1;
            }
            proof {
                assert forall|key: Seq<char>| #[trigger]
                    fx.dom().contains(key) implies fy.dom().contains(key) && fx[key] == fy[key] by {
                    lemma_entries_view_keys(xs@, key);
                    let j = choose|j: int| 0 <= j < xs@.len() && (#[trigger] xs@[j]).0@ == key;
                    assert(fy.contains_key(xs@[j].0@));
                }
                assert forall|key: Seq<char>| #[trigger]
                    fy.dom().contains(key) implies fx.dom().contains(key) by {
                    lemma_entries_view_keys(ys@, key);
                    let j = choose|j: int| 0 <= j < ys@.len() && (#[trigger] ys@[j]).0@ == key;
                    assert(fx.contains_key(ys@[j].0@));
                }
                assert(fx =~= fy);
            }
            true
        },
        _ => false,
    }
}

impl PartialEq for TreeValue {
    /// Two trees are equal when they stand for the same value: the order of an
    /// object's entries does not count.
    fn eq(&self, other: &Self) -> (r: bool) {
        same_tree(self, other)
    }
}

impl PartialEqSpecImpl for TreeValue {
    open spec fn obeys_eq_spec() -> bool {
        true
    }

    open spec fn eq_spec(&self, other: &Self) -> bool {
        self@ == other@
    }
}

} // verus!
