//! Character sequences: conversion between strings and character vectors,
//! splitting at a separator, and splitting a text into lines.
//!
//! Every specification here speaks of `Seq<char>`, the view of `str` and
//! `String`; the executable functions work on character vectors and slices.

use vstd::prelude::*;
use vstd::slice::slice_subrange;

verus! {

/// Specifies `String::push` of the standard library: the string afterwards is
/// the string before with `ch` added at its end.
pub assume_specification[ String::push ](s: &mut String, ch: char)
    ensures
        final(s)@ == old(s)@.push(ch),
;

/// The position of the first `c` in `s`, or `s.len()` where `s` holds none.
pub open spec fn first_at(s: Seq<char>, c: char) -> nat
    decreases s.len(),
{
    if s.len() == 0 || s[0] == c {
        0
    } else {
        1 + first_at(s.drop_first(), c)
    }
}

/// The fields of `s`: the pieces between the occurrences of `sep`, in order.
/// A sequence without `sep` is one field (the empty sequence too), and `n`
/// separators make `n + 1` fields.
pub open spec fn split(s: Seq<char>, sep: char) -> Seq<Seq<char>>
    decreases s.len(),
{
    let i = first_at(s, sep) as int;
    if i >= s.len() {
        seq![s]
    } else {
        seq![s.take(i)] + split(s.skip(i + 1), sep)
    }
}

/// The fields put together again, with `sep` between each two.
pub open spec fn join(fields: Seq<Seq<char>>, sep: char) -> Seq<char>
    decreases fields.len(),
{
    if fields.len() == 0 {
        Seq::empty()
    } else if fields.len() == 1 {
        fields[0]
    } else {
        fields[0] + seq![sep] + join(fields.drop_first(), sep)
    }
}

/// Whether `c` occurs nowhere in `s`.
pub open spec fn free_of(s: Seq<char>, c: char) -> bool {
    forall|k: int| 0 <= k < s.len() ==> s[k] != c
}

/// `s` without one carriage return at its end, if it has one.
pub open spec fn strip_cr(s: Seq<char>) -> Seq<char> {
    if s.len() > 0 && s.last() == '\r' {
        s.drop_last()
    } else {
        s
    }
}

/// The lines of `text`. A line ends at a line feed; a carriage return just
/// before that line feed belongs to the line ending. What follows the last
/// line feed is a line of its own unless it is empty, so the empty text has
/// no line and a final line feed opens no further line.
pub open spec fn lines_of(text: Seq<char>) -> Seq<Seq<char>> {
    let pieces = split(text, '\n');
    let n = if pieces.last().len() == 0 {
        pieces.len() - 1
    } else {
        pieces.len() as int
    };
    Seq::new(
        n as nat,
        |i: int|
            if i + 1 < pieces.len() {
                strip_cr(pieces[i])
            } else {
                pieces[i]
            },
    )
}

/// The views of a vector of character vectors.
pub open spec fn views_of(rows: Seq<Vec<char>>) -> Seq<Seq<char>> {
    Seq::new(rows.len(), |i: int| rows[i]@)
}

/// `first_at` is the one position before which no `c` stands and at which
/// one does, or the length.
pub proof fn lemma_first_at(s: Seq<char>, c: char, j: int)
    requires
        0 <= j <= s.len(),
        forall|k: int| 0 <= k < j ==> s[k] != c,
        j < s.len() ==> s[j] == c,
    ensures
        first_at(s, c) == j,
    decreases j,
{
    if j > 0 {
        lemma_first_at(s.drop_first(), c, j - 1);
    }
}

/// `first_at` stays within the sequence, no `c` stands before it, and one
/// stands at it unless it is the length.
pub proof fn lemma_first_at_is_first(s: Seq<char>, c: char)
    ensures
        first_at(s, c) <= s.len(),
        forall|k: int| 0 <= k < first_at(s, c) ==> s[k] != c,
        first_at(s, c) < s.len() ==> s[first_at(s, c) as int] == c,
    decreases s.len(),
{
    if s.len() != 0 && s[0] != c {
        let t = s.drop_first();
        lemma_first_at_is_first(t, c);
        assert forall|k: int| 0 <= k < first_at(s, c) implies s[k] != c by {
            if k > 0 {
                assert(s[k] == t[k - 1]);
            }
        }
    }
}

/// A sequence without the separator is a single field.
pub proof fn lemma_split_plain(s: Seq<char>, sep: char)
    requires
        free_of(s, sep),
    ensures
        split(s, sep) == seq![s],
{
    lemma_first_at(s, sep, s.len() as int);
}

/// The first field ends at the first separator, and the rest is split in
/// the same way.
pub proof fn lemma_split_step(s: Seq<char>, sep: char, j: int)
    requires
        0 <= j < s.len(),
        forall|k: int| 0 <= k < j ==> s[k] != sep,
        s[j] == sep,
    ensures
        split(s, sep) == seq![s.take(j)] + split(s.skip(j + 1), sep),
{
    lemma_first_at(s, sep, j);
}

/// A split yields at least one field, and no field holds the separator.
pub proof fn lemma_split_fields(s: Seq<char>, sep: char)
    ensures
        split(s, sep).len() >= 1,
        forall|i: int| 0 <= i < split(s, sep).len() ==> free_of(#[trigger] split(s, sep)[i], sep),
    decreases s.len(),
{
    lemma_first_at_is_first(s, sep);
    let j = first_at(s, sep) as int;
    if j < s.len() {
        lemma_split_fields(s.skip(j + 1), sep);
    }
}

/// Joining the fields of a split gives the sequence back.
pub proof fn lemma_join_split(s: Seq<char>, sep: char)
    ensures
        join(split(s, sep), sep) == s,
    decreases s.len(),
{
    lemma_first_at_is_first(s, sep);
    let j = first_at(s, sep) as int;
    if j < s.len() {
        lemma_join_split(s.skip(j + 1), sep);
        assert(split(s, sep).drop_first() =~= split(s.skip(j + 1), sep));
    }
}

/// Splitting a join gives the fields back, where there is at least one field
/// and none holds the separator.
pub proof fn lemma_split_join(fields: Seq<Seq<char>>, sep: char)
    requires
        fields.len() >= 1,
        forall|i: int| 0 <= i < fields.len() ==> free_of(#[trigger] fields[i], sep),
    ensures
        split(join(fields, sep), sep) == fields,
    decreases fields.len(),
{
    if fields.len() == 1 {
        lemma_split_plain(fields[0], sep);
    } else {
        let head = fields[0];
        let tail = fields.drop_first();
        let s = join(fields, sep);
        lemma_split_join(tail, sep);
        let j = head.len() as int;
        lemma_split_step(s, sep, j);
        assert(s.take(j) =~= head);
        assert(s.skip(j + 1) =~= join(tail, sep));
    }
}

/// The characters of a string, in a vector.
pub fn to_chars(s: &str) -> (chars: Vec<char>)
    ensures
        chars@ == s@,
{
    let mut chars: Vec<char> = Vec::new();
    for c in it: s.chars()
        invariant
            chars@ == it.seq().take(it.index()),
    {
        chars.push(c);
    }
    chars
}

/// The string made of the given characters.
pub fn string_of(chars: &[char]) -> (s: String)
    ensures
        s@ == chars@,
{
    let mut s = String::new();
    let mut i: usize = 0;
    while i < chars.len()
        invariant
            i <= chars.len(),
            s@ == chars@.take(i as int),
        decreases chars.len() - i,
    {
        s.push(chars[i]);
        i += 1;
    }
    s
}

/// Splits `s` at every `sep`.
pub fn split_chars(s: &[char], sep: char) -> (fields: Vec<Vec<char>>)
    ensures
        views_of(fields@) == split(s@, sep),
{
    let mut fields: Vec<Vec<char>> = Vec::new();
    let mut current: Vec<char> = Vec::new();
    let ghost mut start: int = 0;
    let mut i: usize = 0;
    proof {
        assert(s@.skip(0) =~= s@);
    }
    while i < s.len()
        invariant
            0 <= start <= i <= s.len(),
            current@ == s@.subrange(start, i as int),
            forall|k: int| start <= k < i ==> s@[k] != sep,
            split(s@, sep) == views_of(fields@) + split(s@.skip(start), sep),
        decreases s.len() - i,
    {
        let c = s[i];
        if c == sep {
            proof {
                let rest = s@.skip(start);
                let j = i - start;
                lemma_split_step(rest, sep, j);
                assert(rest.take(j) =~= current@);
                assert(rest.skip(j + 1) =~= s@.skip(i + 1));
            }
            fields.push(current);
            current = Vec::new();
            proof {
                start = i + 1;
            }
        } else {
            current.push(c);
        }
        i += 1;
    }
    proof {
        lemma_split_plain(s@.skip(start), sep);
    }
    fields.push(current);
    fields
}

/// Splits `text` into its lines.
pub fn split_lines(text: &[char]) -> (lines: Vec<Vec<char>>)
    ensures
        views_of(lines@) == lines_of(text@),
{
    let pieces = split_chars(text, '\n');
    let ghost all = split(text@, '\n');
    let last = pieces.len() - 1;
    let mut lines: Vec<Vec<char>> = Vec::new();
    let mut i: usize = 0;
    while i < last
        invariant
            i <= last,
            last + 1 == pieces.len(),
            views_of(pieces@) == all,
            all == split(text@, '\n'),
            views_of(lines@) == lines_of(text@).take(i as int),
        decreases last - i,
    {
        let piece = pieces[i].as_slice();
        let n = piece.len();
        let line = if n > 0 && piece[n - 1] == '\r' {
            copy_chars(slice_subrange(piece, 0, n - 1))
        } else {
            copy_chars(piece)
        };
        lines.push(line);
        proof {
            assert(lines_of(text@).take(i + 1) =~= lines_of(text@).take(i as int).push(line@));
        }
        i += 1;
    }
    let piece = pieces[last].as_slice();
    if piece.len() > 0 {
        lines.push(copy_chars(piece));
        proof {
            assert(lines_of(text@) =~= lines_of(text@).take(last as int).push(piece@));
        }
    }
    lines
}

/// A vector with the characters of `chars`.
pub fn copy_chars(chars: &[char]) -> (copy: Vec<char>)
    ensures
        copy@ == chars@,
{
    let mut copy: Vec<char> = Vec::new();
    let mut i: usize = 0;
    while i < chars.len()
        invariant
            i <= chars.len(),
            copy@ == chars@.take(i as int),
        decreases chars.len() - i,
    {
        copy.push(chars[i]);
        i += 1;
    }
    copy
}

} // verus!
