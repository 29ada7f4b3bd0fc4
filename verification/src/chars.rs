//! ASCII character classification and case folding.
//!
//! Identifier transformations fold case ASCII-only: characters outside the
//! ASCII letter ranges pass through unchanged.

use vstd::prelude::*;

verus! {

/// True when `c` is an ASCII uppercase letter.
pub open spec fn is_ascii_upper(c: char) -> bool {
    ('A' as u32) <= (c as u32) && (c as u32) <= ('Z' as u32)
}

/// True when `c` is an ASCII lowercase letter.
pub open spec fn is_ascii_lower(c: char) -> bool {
    ('a' as u32) <= (c as u32) && (c as u32) <= ('z' as u32)
}

/// ASCII lowercase folding of a single character.
pub open spec fn to_lower_char(c: char) -> char {
    if is_ascii_upper(c) {
        (((c as u32) + 32) as u8) as char
    } else {
        c
    }
}

/// ASCII uppercase folding of a single character.
pub open spec fn to_upper_char(c: char) -> char {
    if is_ascii_lower(c) {
        (((c as u32) - 32) as u8) as char
    } else {
        c
    }
}

pub fn lower_char(c: char) -> (r: char)
    ensures
        r == to_lower_char(c),
{
    let u = c as u32;
    if ('A' as u32) <= u && u <= ('Z' as u32) {
        ((u + 32) as u8) as char
    } else {
        c
    }
}

pub fn upper_char(c: char) -> (r: char)
    ensures
        r == to_upper_char(c),
{
    let u = c as u32;
    if ('a' as u32) <= u && u <= ('z' as u32) {
        ((u - 32) as u8) as char
    } else {
        c
    }
}

/// Relies on `String::push`: appends exactly one character at the end.
#[verifier::external_body]
pub(crate) fn push_char(s: &mut String, c: char)
    ensures
        final(s)@ == old(s)@.push(c),
{
    s.push(c)
}

/// Character-wise string equality, decided without any assumption on the
/// byte encoding.
pub fn str_eq(a: &str, b: &str) -> (r: bool)
    ensures
        r == (a@ == b@),
{
    let na = a.unicode_len();
    let nb = b.unicode_len();
    if na != nb {
        return false;
    }
    let mut i: usize = 0;
    while i < na
        invariant
            i <= na,
            na == a@.len(),
            nb == b@.len(),
            na == nb,
            forall|j: int| 0 <= j < i ==> a@[j] == b@[j],
        decreases na - i,
    {
        if a.get_char(i) != b.get_char(i) {
            return false;
        }
        i += 1;
    }
    proof {
        assert(a@ =~= b@);
    }
    true
}

} // verus!
