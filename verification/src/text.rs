//! ASCII helpers for the names of enumerated values.

use vstd::prelude::*;
use vstd::string::StringSliceAdditionalSpecFns;
use vstd::utf8::{is_ascii_chars, is_ascii_chars_encode_utf8};

verus! {

/// A name that stands for no value of the kind asked for.
#[derive(Debug, Clone, PartialEq, Eq)]
pub struct ParseError {
    pub kind: &'static str,
    pub value: String,
}

/// Whether `b` is ASCII whitespace: space, tab, line feed, form feed or
/// carriage return.
pub open spec fn is_space(b: u8) -> bool {
    b == 0x20 || b == 0x09 || b == 0x0A || b == 0x0C || b == 0x0D
}

/// `b` with an ASCII capital letter turned into the small one.
pub open spec fn lower(b: u8) -> u8 {
    if 0x41 <= b <= 0x5A {
        (b + 32) as u8
    } else {
        b
    }
}

/// Offset of the first byte at or after `from` that is no whitespace.
pub open spec fn trim_start(s: Seq<u8>, from: int) -> int
    decreases s.len() - from,
{
    if 0 <= from < s.len() && is_space(s[from]) {
        trim_start(s, from + 1)
    } else {
        from
    }
}

/// Offset after the last byte before `to` that is no whitespace, and not
/// before `start`.
pub open spec fn trim_end(s: Seq<u8>, start: int, to: int) -> int
    decreases to,
{
    if 0 <= start < to <= s.len() && is_space(s[to - 1]) {
        trim_end(s, start, to - 1)
    } else {
        to
    }
}

/// `s` without the whitespace at its two ends.
pub open spec fn trimmed(s: Seq<u8>) -> Seq<u8> {
    s.subrange(trim_start(s, 0), trim_end(s, trim_start(s, 0), s.len() as int))
}

/// Whether `a` and `b` are equal up to the case of ASCII letters.
pub open spec fn same_letters(a: Seq<u8>, b: Seq<u8>) -> bool {
    a.len() == b.len() && forall|i: int| 0 <= i < a.len() ==> lower(a[i]) == lower(b[i])
}

fn byte_is_space(b: u8) -> (r: bool)
    ensures
        r == is_space(b),
{
    b == 0x20 || b == 0x09 || b == 0x0A || b == 0x0C || b == 0x0D
}

fn byte_lower(b: u8) -> (r: u8)
    ensures
        r == lower(b),
{
    if 0x41 <= b && b <= 0x5A {
        b + 32
    } else {
        b
    }
}

/// Strips ASCII whitespace from both ends.
pub fn trim_ascii(s: &[u8]) -> (r: &[u8])
    ensures
        r@ == trimmed(s@),
{
    let mut start: usize = 0;
    while start < s.len() && byte_is_space(s[start])
        invariant
            start <= s.len(),
            trim_start(s@, 0) == trim_start(s@, start as int),
        decreases s.len() - start,
    {
        start = start + 1;
    }
    let mut end: usize = s.len();
    while end > start && byte_is_space(s[end - 1])
        invariant
            start <= end <= s.len(),
            trim_end(s@, start as int, s@.len() as int) == trim_end(s@, start as int, end as int),
        decreases end,
    {
        end = end - 1;
    }
    vstd::slice::slice_subrange(s, start, end)
}

/// Compares two byte strings without regard to the case of ASCII letters.
pub fn eq_ignore_ascii_case(a: &[u8], b: &[u8]) -> (r: bool)
    ensures
        r == same_letters(a@, b@),
{
    if a.len() != b.len() {
        return false;
    }
    let mut i: usize = 0;
    while i < a.len()
        invariant
            i <= a.len(),
            a@.len() == b@.len(),
            forall|j: int| 0 <= j < i ==> lower(a@[j]) == lower(b@[j]),
        decreases a.len() - i,
    {
        if byte_lower(a[i]) != byte_lower(b[i]) {
            return false;
        }
        i = i + 1;
    }
    true
}

/// The bytes of a word of ASCII characters are its characters, one byte
/// each.
pub proof fn lemma_word_bytes(word: &str, chars: Seq<char>)
    requires
        word@ == chars,
        is_ascii_chars(chars),
    ensures
        word.spec_bytes() == Seq::new(chars.len(), |i: int| chars[i] as u8),
{
    is_ascii_chars_encode_utf8(chars);
}

/// Trimming takes nothing from a byte string that neither starts nor ends
/// with whitespace.
pub proof fn lemma_trimmed_is_whole(s: Seq<u8>)
    requires
        s.len() > 0,
        !is_space(s[0]),
        !is_space(s[s.len() - 1]),
    ensures
        trimmed(s) == s,
{
}

} // verus!
