//! ASCII case folding and the two key-equality relations of the library:
//! case-insensitive equality (header names) and exact equality (parameter and
//! cookie names). Both are decided on the UTF-8 encodings of the strings, so
//! they are total over arbitrary Unicode text; folding touches only the ASCII
//! uppercase letters, which occupy exactly one byte each in UTF-8.

use vstd::prelude::*;
use vstd::utf8::{decode_utf8, encode_utf8, is_ascii_chars};

verus! {

/// A sequence of key/value string pairs, the common model of the library's
/// maps and of their iterators.
pub type KeyValueSeq = Seq<(Seq<char>, Seq<char>)>;

/// A byte with any ASCII uppercase letter replaced by its lowercase form.
pub open spec fn spec_fold_byte(b: u8) -> u8 {
    if 65 <= b && b <= 90 {
        (b + 32) as u8
    } else {
        b
    }
}

/// A byte sequence folded bytewise to ASCII lowercase.
pub open spec fn fold_bytes(s: Seq<u8>) -> Seq<u8> {
    s.map_values(|b: u8| spec_fold_byte(b))
}

/// The case-insensitive identity of a string: its UTF-8 encoding folded to
/// ASCII lowercase. Multi-byte (non-ASCII) encodings use only bytes at or
/// above 0x80, so folding leaves them untouched.
pub open spec fn key_ident(k: Seq<char>) -> Seq<u8> {
    fold_bytes(encode_utf8(k))
}

/// Two strings are equal ignoring ASCII case.
pub open spec fn keys_ci_equal(a: Seq<char>, b: Seq<char>) -> bool {
    key_ident(a) == key_ident(b)
}

/// Two characters are ASCII characters equal up to ASCII case.
pub open spec fn ascii_eq_char(a: char, b: char) -> bool {
    &&& '\0' <= a <= '\u{7f}'
    &&& '\0' <= b <= '\u{7f}'
    &&& spec_fold_byte(a as u8) == spec_fold_byte(b as u8)
}

/// `b` is `a` with the case of some ASCII letters changed: the strings have
/// the same length and agree at every position up to ASCII case.
pub open spec fn ascii_case_variant(a: Seq<char>, b: Seq<char>) -> bool {
    a.len() == b.len() && forall|i: int| 0 <= i < a.len() ==> ascii_eq_char(a[i], b[i])
}

/// An ASCII case-variant of a string shares its case-insensitive identity.
pub proof fn lemma_ascii_case_variant_ci_equal(a: Seq<char>, b: Seq<char>)
    requires
        ascii_case_variant(a, b),
    ensures
        keys_ci_equal(a, b),
{
    assert forall|i: int| 0 <= i < a.len() implies ('\0' <= a[i] && a[i] <= '\u{7f}') by {
        assert(ascii_eq_char(a[i], b[i]));
    }
    assert forall|i: int| 0 <= i < b.len() implies ('\0' <= b[i] && b[i] <= '\u{7f}') by {
        assert(ascii_eq_char(a[i], b[i]));
    }
    assert(is_ascii_chars(a));
    assert(is_ascii_chars(b));
    vstd::utf8::is_ascii_chars_encode_utf8(a);
    vstd::utf8::is_ascii_chars_encode_utf8(b);
    assert(fold_bytes(encode_utf8(a)) =~= fold_bytes(encode_utf8(b)));
}

fn fold_byte(b: u8) -> (r: u8)
    ensures
        r == spec_fold_byte(b),
{
    if 65 <= b && b <= 90 {
        b + 32
    } else {
        b
    }
}

/// Whether two strings are equal ignoring ASCII case, decided on their UTF-8
/// encodings.
pub fn str_eq_ignore_ascii_case(a: &str, b: &str) -> (r: bool)
    ensures
        r == keys_ci_equal(a@, b@),
{
    let ab = a.as_bytes();
    let bb = b.as_bytes();
    if ab.len() != bb.len() {
        assert(fold_bytes(ab@).len() != fold_bytes(bb@).len());
        return false;
    }
    let n = ab.len();
    let mut i: usize = 0;
    while i < n
        invariant
            n == ab.len() == bb.len(),
            0 <= i <= n,
            ab@ == encode_utf8(a@),
            bb@ == encode_utf8(b@),
            forall|j: int| 0 <= j < i ==> spec_fold_byte(ab@[j]) == spec_fold_byte(bb@[j]),
        decreases n - i,
    {
        if fold_byte(ab[i]) != fold_byte(bb[i]) {
            assert(fold_bytes(ab@)[i as int] != fold_bytes(bb@)[i as int]);
            return false;
        }
        i += 1;
    }
    assert(fold_bytes(ab@) =~= fold_bytes(bb@));
    true
}

/// Whether two strings are equal, decided on their UTF-8 encodings.
pub fn str_eq(a: &str, b: &str) -> (r: bool)
    ensures
        r == (a@ == b@),
{
    proof {
        broadcast use vstd::utf8::encode_utf8_decode_utf8;

    }
    let ab = a.as_bytes();
    let bb = b.as_bytes();
    if ab.len() != bb.len() {
        return false;
    }
    let n = ab.len();
    let mut i: usize = 0;
    while i < n
        invariant
            n == ab.len() == bb.len(),
            0 <= i <= n,
            ab@ == encode_utf8(a@),
            bb@ == encode_utf8(b@),
            forall|j: int| 0 <= j < i ==> ab@[j] == bb@[j],
        decreases n - i,
    {
        if ab[i] != bb[i] {
            return false;
        }
        i += 1;
    }
    assert(encode_utf8(a@) =~= encode_utf8(b@));
    assert(decode_utf8(encode_utf8(a@)) == decode_utf8(encode_utf8(b@)));
    true
}

} // verus!
