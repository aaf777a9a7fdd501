//! Paths of settings files, taken as text and resolved without looking at the
//! disk.
//!
//! A path is cut at `/`. Empty components and `.` are dropped, and `..` takes
//! back the component before it. A path is absolute when it starts with `/`;
//! above the root of an absolute path there is only the root again.
use vstd::prelude::*;
use vstd::string::{StrSliceExecFns, StringExecFns};
use crate::text::{join_text, split, split_text, strings_view};

verus! {

/// The path starts at the root.
pub open spec fn is_absolute(path: Seq<char>) -> bool {
    path.len() > 0 && path[0] == '/'
}

/// The component `..`, which names the directory above.
pub open spec fn parent_mark() -> Seq<char> {
    seq!['.', '.']
}

/// The component `.`, which names the directory itself.
pub open spec fn here_mark() -> Seq<char> {
    seq!['.']
}

/// A component that names an entry of a directory.
pub open spec fn is_plain(part: Seq<char>) -> bool {
    part.len() > 0 && part != here_mark() && part != parent_mark()
}

/// The components reached after one more component is followed.
pub open spec fn step(stack: Seq<Seq<char>>, part: Seq<char>, absolute: bool) -> Seq<Seq<char>> {
    if part.len() == 0 || part == here_mark() {
        stack
    } else if part == parent_mark() {
        if stack.len() > 0 && stack.last() != parent_mark() {
            stack.drop_last()
        } else if absolute {
            stack
        } else {
            stack.push(part)
        }
    } else {
        stack.push(part)
    }
}

/// The components reached from `stack` after `parts` are followed in turn.
pub open spec fn resolve_onto(stack: Seq<Seq<char>>, parts: Seq<Seq<char>>, absolute: bool) -> Seq<
    Seq<char>,
>
    decreases parts.len(),
{
    if parts.len() == 0 {
        stack
    } else {
        step(resolve_onto(stack, parts.drop_last(), absolute), parts.last(), absolute)
    }
}

/// The components that a path resolves to.
pub open spec fn resolved(path: Seq<char>) -> Seq<Seq<char>> {
    resolve_onto(Seq::empty(), split_text(path, '/'), is_absolute(path))
}

/// The components that `path` resolves to when it is followed from the
/// directory `scope`. An absolute path is followed from the root instead.
pub open spec fn resolved_in(scope: Seq<char>, path: Seq<char>) -> Seq<Seq<char>> {
    if is_absolute(path) {
        resolved(path)
    } else {
        resolve_onto(resolved(scope), split_text(path, '/'), is_absolute(scope))
    }
}

/// `parts` lies in the directory `scope`, or is that directory: it begins with
/// the components of `scope` and does not climb after them.
pub open spec fn within(scope: Seq<Seq<char>>, parts: Seq<Seq<char>>) -> bool {
    &&& scope.len() <= parts.len()
    &&& forall|i: int| 0 <= i < scope.len() ==> parts[i] == scope[i]
    &&& forall|i: int| scope.len() <= i < parts.len() ==> parts[i] != parent_mark()
}

/// Followed from `scope`, `path` does not leave it.
pub open spec fn stays_in_scope(scope: Seq<char>, path: Seq<char>) -> bool {
    &&& is_absolute(path) ==> is_absolute(scope)
    &&& within(resolved(scope), resolved_in(scope, path))
}

/// The text of a resolved path. The relative path without components is `.`.
pub open spec fn path_text(absolute: bool, parts: Seq<Seq<char>>) -> Seq<char> {
    if absolute {
        seq!['/'] + join_text(parts, '/')
    } else if parts.len() == 0 {
        here_mark()
    } else {
        join_text(parts, '/')
    }
}

/// The text of the path that `path` resolves to when followed from `base`.
pub open spec fn joined_text(base: Seq<char>, path: Seq<char>) -> Seq<char> {
    path_text(is_absolute(base) || is_absolute(path), resolved_in(base, path))
}

/// Below an absolute path every resolved component is a plain name: no `..`,
/// no `.` and no empty component is left.
pub proof fn resolved_parts_are_plain(stack: Seq<Seq<char>>, parts: Seq<Seq<char>>)
    requires
        forall|i: int| 0 <= i < stack.len() ==> is_plain(#[trigger] stack[i]),
    ensures
        forall|i: int|
            0 <= i < resolve_onto(stack, parts, true).len() ==> is_plain(
                #[trigger] resolve_onto(stack, parts, true)[i],
            ),
    decreases parts.len(),
{
    if parts.len() > 0 {
        let before = resolve_onto(stack, parts.drop_last(), true);
        let after = step(before, parts.last(), true);
        resolved_parts_are_plain(stack, parts.drop_last());
        assert forall|i: int| 0 <= i < after.len() implies is_plain(#[trigger] after[i]) by {
            if i < before.len() {
                assert(is_plain(before[i]));
            }
        }
    }
}

/// A path that stays in an absolute scope resolves to the components of the
/// scope followed by plain names only.
pub proof fn scoped_path_extends_scope(scope: Seq<char>, path: Seq<char>)
    requires
        is_absolute(scope),
        stays_in_scope(scope, path),
    ensures
        resolved_in(scope, path).take(resolved(scope).len() as int) == resolved(scope),
        forall|i: int|
            0 <= i < resolved_in(scope, path).len() ==> is_plain(
                #[trigger] resolved_in(scope, path)[i],
            ),
{
    resolved_parts_are_plain(Seq::empty(), split_text(scope, '/'));
    if is_absolute(path) {
        resolved_parts_are_plain(Seq::empty(), split_text(path, '/'));
    } else {
        resolved_parts_are_plain(resolved(scope), split_text(path, '/'));
    }
}

/// Whether a path starts at the root.
pub fn starts_at_root(path: &str) -> (r: bool)
    ensures
        r == is_absolute(path@),
{
    path.unicode_len() > 0 && path.get_char(0) == '/'
}

fn is_here_mark(part: &String) -> (r: bool)
    ensures
        r == (part@ == here_mark()),
{
    let text = part.as_str();
    let found = text.unicode_len() == 1 && text.get_char(0) == '.';
    assert(found == (part@ =~= here_mark()));
    found
}

fn is_parent_mark(part: &String) -> (r: bool)
    ensures
        r == (part@ == parent_mark()),
{
    let text = part.as_str();
    let found = text.unicode_len() == 2 && text.get_char(0) == '.' && text.get_char(1) == '.';
    assert(found == (part@ =~= parent_mark()));
    found
}

/// Follows the components `parts` from the place that `stack` holds.
fn follow(stack: &mut Vec<String>, parts: &Vec<String>, absolute: bool)
    ensures
        strings_view(final(stack)@) == resolve_onto(
            strings_view(old(stack)@),
            strings_view(parts@),
            absolute,
        ),
{
    let ghost from = strings_view(stack@);
    let ghost all = strings_view(parts@);
    let mut i: usize = 0;
    while i < parts.len()
        invariant
            i <= parts.len(),
            all == strings_view(parts@),
            strings_view(stack@) == resolve_onto(from, all.take(i as int), absolute),
        decreases parts.len() - i,
    {
        let part = &parts[i];
        assert(all.take(i + 1).drop_last() == all.take(i as int));
        let stays = part.as_str().unicode_len() == 0 || is_here_mark(part);
        if !stays {
            if is_parent_mark(part) {
                let climbs = stack.len() > 0 && !is_parent_mark(&stack[stack.len() - 1]);
                if climbs {
                    stack.pop();
                } else if !absolute {
                    stack.push(part.clone());
                }
            } else {
                stack.push(part.clone());
            }
        }
        i = i + 1;
    }
    assert(all.take(parts.len() as int) == all);
}

/// Whether `parts` begins with `scope` and does not climb after it.
fn lies_within(scope: &Vec<String>, parts: &Vec<String>) -> (r: bool)
    ensures
        r == within(strings_view(scope@), strings_view(parts@)),
{
    if scope.len() > parts.len() {
        return false;
    }
    let mut i: usize = 0;
    while i < scope.len()
        invariant
            i <= scope.len() <= parts.len(),
            forall|j: int| 0 <= j < i ==> strings_view(parts@)[j] == strings_view(scope@)[j],
        decreases scope.len() - i,
    {
        if parts[i] != scope[i] {
            assert(strings_view(parts@)[i as int] != strings_view(scope@)[i as int]);
            return false;
        }
        i = i + 1;
    }
    while i < parts.len()
        invariant
            scope.len() <= i <= parts.len(),
            forall|j: int| 0 <= j < scope.len() ==> strings_view(parts@)[j] == strings_view(scope@)[j],
            forall|j: int| scope.len() <= j < i ==> strings_view(parts@)[j] != parent_mark(),
        decreases parts.len() - i,
    {
        if is_parent_mark(&parts[i]) {
            assert(strings_view(parts@)[i as int] == parent_mark());
            return false;
        }
        i = i + 1;
    }
    true
}

/// Writes resolved components as a path.
fn write_path(absolute: bool, parts: &Vec<String>) -> (r: String)
    ensures
        r@ == path_text(absolute, strings_view(parts@)),
{
    proof {
        reveal_strlit("/");
        reveal_strlit(".");
    }
    let ghost all = strings_view(parts@);
    let mut text = String::new();
    if absolute {
        text.append("/");
    } else if parts.len() == 0 {
        text.append(".");
        return text;
    }
    let ghost lead = text@;
    let mut i: usize = 0;
    while i < parts.len()
        invariant
            i <= parts.len(),
            all == strings_view(parts@),
            "/"@ == seq!['/'],
            text@ == lead + join_text(all.take(i as int), '/'),
        decreases parts.len() - i,
    {
        assert(all.take(i + 1).drop_last() == all.take(i as int));
        if i > 0 {
            text.append("/");
        }
        text.append(parts[i].as_str());
        i = i + 1;
    }
    assert(all.take(parts.len() as int) == all);
    text
}

/// The components that `path` resolves to when followed from `base`.
fn follow_from(base: &str, path: &str) -> (target: Vec<String>)
    ensures
        strings_view(target@) == resolved_in(base@, path@),
{
    let mut target: Vec<String> = Vec::new();
    assert(strings_view(target@) == Seq::<Seq<char>>::empty());
    if starts_at_root(path) {
        follow(&mut target, &split(path, '/'), true);
    } else {
        follow(&mut target, &split(base, '/'), starts_at_root(base));
        follow(&mut target, &split(path, '/'), starts_at_root(base));
    }
    target
}

/// Resolves `path` from the directory `base`. An absolute `path` is resolved
/// from the root.
pub fn join_path(base: &str, path: &str) -> (r: String)
    ensures
        r@ == joined_text(base@, path@),
{
    let target = follow_from(base, path);
    write_path(starts_at_root(base) || starts_at_root(path), &target)
}

/// Resolves `path` from the directory `scope` and gives the resolved path,
/// unless it leaves the scope: then the answer is `None`.
pub fn resolve_in_scope(scope: &str, path: &str) -> (r: Option<String>)
    ensures
        match r {
            Some(text) => stays_in_scope(scope@, path@) && text@ == joined_text(scope@, path@),
            None => !stays_in_scope(scope@, path@),
        },
{
    let scope_absolute = starts_at_root(scope);
    if starts_at_root(path) && !scope_absolute {
        return None;
    }
    let mut base: Vec<String> = Vec::new();
    assert(strings_view(base@) == Seq::<Seq<char>>::empty());
    follow(&mut base, &split(scope, '/'), scope_absolute);
    let target = follow_from(scope, path);
    if lies_within(&base, &target) {
        Some(write_path(scope_absolute, &target))
    } else {
        None
    }
}

} // verus!
