//! Cutting a text at a separator character.
use vstd::prelude::*;
use vstd::string::StrSliceExecFns;

verus! {

/// The pieces of a text between the occurrences of a separator. A text
/// without the separator, the empty one too, is a single piece; a separator at
/// either end gives an empty piece there.
pub open spec fn split_text(text: Seq<char>, separator: char) -> Seq<Seq<char>>
    decreases text.len(),
{
    if text.len() == 0 {
        seq![Seq::empty()]
    } else {
        let before = split_text(text.drop_last(), separator);
        if text.last() == separator {
            before.push(Seq::empty())
        } else {
            before.drop_last().push(before.last().push(text.last()))
        }
    }
}

/// The strings as sequences of characters.
pub open spec fn strings_view(strings: Seq<String>) -> Seq<Seq<char>> {
    Seq::new(strings.len(), |i: int| strings[i]@)
}

/// The pieces put together again, with the separator between them.
pub open spec fn join_text(pieces: Seq<Seq<char>>, separator: char) -> Seq<char>
    decreases pieces.len(),
{
    if pieces.len() == 0 {
        Seq::empty()
    } else if pieces.len() == 1 {
        pieces[0]
    } else {
        join_text(pieces.drop_last(), separator).push(separator) + pieces.last()
    }
}

/// Cutting never gives an empty list, no piece holds the separator, and the
/// pieces joined by the separator are the text again.
pub proof fn split_then_join(text: Seq<char>, separator: char)
    ensures
        split_text(text, separator).len() >= 1,
        forall|i: int, j: int|
            0 <= i < split_text(text, separator).len() && 0 <= j < split_text(
                text,
                separator,
            )[i].len() ==> split_text(text, separator)[i][j] != separator,
        join_text(split_text(text, separator), separator) == text,
    decreases text.len(),
{
    if text.len() > 0 {
        let shorter = text.drop_last();
        let before = split_text(shorter, separator);
        split_then_join(shorter, separator);
        if text.last() == separator {
            assert(before.push(Seq::empty()).drop_last() == before);
        } else {
            let grown = before.last().push(text.last());
            assert(before.drop_last().push(grown).drop_last() == before.drop_last());
            assert(shorter.push(text.last()) == text);
        }
    }
}

/// Cuts a text at every occurrence of a separator.
pub fn split(text: &str, separator: char) -> (pieces: Vec<String>)
    ensures
        strings_view(pieces@) == split_text(text@, separator),
{
    broadcast use vstd::string::group_string_axioms;

    let total = text.unicode_len();
    let mut pieces: Vec<String> = Vec::new();
    let mut start: usize = 0;
    let mut i: usize = 0;
    assert(text@.take(0) == Seq::<char>::empty());
    for c in it: text.chars()
        invariant
            it.seq() == text@,
            i == it.index(),
            total == text@.len(),
            start <= i <= total,
            split_text(text@.take(i as int), separator) == strings_view(pieces@).push(
                text@.subrange(start as int, i as int),
            ),
    {
        assert(text@.take(i + 1).drop_last() == text@.take(i as int));
        if c == separator {
            let piece = text.substring_char(start, i).to_owned();
            pieces.push(piece);
            start = i + 1;
            assert(text@.subrange(start as int, i + 1) == Seq::<char>::empty());
        } else {
            assert(text@.subrange(start as int, i as int).push(c) == text@.subrange(
                start as int,
                i + 1,
            ));
        }
        i = i + 1;
    }
    assert(text@.take(total as int) == text@);
    let piece = text.substring_char(start, total).to_owned();
    pieces.push(piece);
    pieces
}

} // verus!
