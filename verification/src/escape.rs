//! The escape convention of the scan listing.
//!
//! The listing separates its fields with colons and writes a colon that
//! belongs to a field as a backslash followed by a colon. Before a line is
//! split, every such pair is replaced by one placeholder character; after the
//! split, the placeholders of the hardware address become colons again.

use crate::text::free_of;
use vstd::prelude::*;

verus! {

/// The character that stands for an escaped colon while a line is split.
pub const PLACEHOLDER: char = '-';

/// `s` with every backslash-colon pair, taken from the left, replaced by the
/// placeholder.
pub open spec fn mask_escapes(s: Seq<char>) -> Seq<char>
    decreases s.len(),
{
    if s.len() == 0 {
        s
    } else if s.len() >= 2 && s[0] == '\\' && s[1] == ':' {
        seq![PLACEHOLDER] + mask_escapes(s.skip(2))
    } else {
        seq![s[0]] + mask_escapes(s.skip(1))
    }
}

/// The character that a character of a masked field stands for.
pub open spec fn unmask_char(c: char) -> char {
    if c == PLACEHOLDER {
        ':'
    } else {
        c
    }
}

/// `s` with every placeholder turned into a colon.
pub open spec fn unmask(s: Seq<char>) -> Seq<char> {
    s.map_values(|c: char| unmask_char(c))
}

/// `s` with the placeholder in the place of every colon.
pub open spec fn mask_colons(s: Seq<char>) -> Seq<char> {
    s.map_values(
        |c: char|
            if c == ':' {
                PLACEHOLDER
            } else {
                c
            },
    )
}

/// `s` as the listing writes it: a backslash before every colon.
pub open spec fn escape_colons(s: Seq<char>) -> Seq<char>
    decreases s.len(),
{
    if s.len() == 0 {
        s
    } else if s[0] == ':' {
        seq!['\\', ':'] + escape_colons(s.skip(1))
    } else {
        seq![s[0]] + escape_colons(s.skip(1))
    }
}

/// Masking goes through a concatenation whose left part is an escaped
/// field: no escape pair reaches from the one part into the other.
pub proof fn lemma_mask_after_escaped(field: Seq<char>, rest: Seq<char>)
    requires
        free_of(field, '\\'),
    ensures
        mask_escapes(escape_colons(field) + rest) == mask_escapes(escape_colons(field))
            + mask_escapes(rest),
    decreases field.len(),
{
    if field.len() > 0 {
        let e = escape_colons(field);
        let et = escape_colons(field.skip(1));
        lemma_mask_after_escaped(field.skip(1), rest);
        if field[0] == ':' {
            assert((e + rest).skip(2) =~= et + rest);
            assert(e.skip(2) =~= et);
        } else {
            assert((e + rest).skip(1) =~= et + rest);
            assert(e.skip(1) =~= et);
        }
    }
}

/// A field without a backslash, written with the escape convention and then
/// masked, is the field with the placeholder in the place of each colon: it
/// holds no colon, and it is the field itself where the field holds none.
pub proof fn lemma_masked_escape(field: Seq<char>)
    requires
        free_of(field, '\\'),
    ensures
        mask_escapes(escape_colons(field)) == mask_colons(field),
        free_of(mask_escapes(escape_colons(field)), ':'),
        free_of(field, ':') ==> mask_escapes(escape_colons(field)) == field,
    decreases field.len(),
{
    if field.len() > 0 {
        let e = escape_colons(field);
        let et = escape_colons(field.skip(1));
        lemma_masked_escape(field.skip(1));
        if field[0] == ':' {
            assert(e.skip(2) =~= et);
        } else {
            assert(e.skip(1) =~= et);
        }
    }
}

/// A field written with the escape convention, then masked and unmasked, is
/// the field again, where it holds neither a backslash nor the placeholder.
pub proof fn lemma_escape_round_trip(field: Seq<char>)
    requires
        free_of(field, '\\'),
        free_of(field, PLACEHOLDER),
    ensures
        unmask(mask_escapes(escape_colons(field))) == field,
{
    lemma_masked_escape(field);
}

/// Replaces every backslash-colon pair of `s` by the placeholder.
pub fn mask_chars(s: &[char]) -> (masked: Vec<char>)
    ensures
        masked@ == mask_escapes(s@),
{
    let mut masked: Vec<char> = Vec::new();
    let mut i: usize = 0;
    proof {
        assert(s@.skip(0) =~= s@);
    }
    while i < s.len()
        invariant
            i <= s.len(),
            mask_escapes(s@) == masked@ + mask_escapes(s@.skip(i as int)),
        decreases s.len() - i,
    {
        let ghost rest = s@.skip(i as int);
        if s[i] == '\\' && i + 1 < s.len() && s[i + 1] == ':' {
            masked.push(PLACEHOLDER);
            proof {
                assert(rest.skip(2) =~= s@.skip(i + 2));
            }
            i += 2;
        } else {
            masked.push(s[i]);
            proof {
                assert(rest.skip(1) =~= s@.skip(i + 1));
            }
            i += 1;
        }
    }
    masked
}

/// Turns every placeholder of `s` into a colon.
pub fn unmask_chars(s: &[char]) -> (plain: Vec<char>)
    ensures
        plain@ == unmask(s@),
{
    let mut plain: Vec<char> = Vec::new();
    let mut i: usize = 0;
    while i < s.len()
        invariant
            i <= s.len(),
            plain@ == unmask(s@.take(i as int)),
        decreases s.len() - i,
    {
        let c = s[i];
        if c == PLACEHOLDER {
            plain.push(':');
        } else {
            plain.push(c);
        }
        i += 1;
    }
    plain
}

} // verus!
