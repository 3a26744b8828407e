//! Byte-level helpers for working on UTF-8 text.

use vstd::prelude::*;
use vstd::string::*;
use vstd::utf8::*;

verus! {

/// Compares two byte slices element by element.
pub fn bytes_eq(a: &[u8], b: &[u8]) -> (same: bool)
    ensures
        same == (a@ == b@),
{
    if a.len() != b.len() {
        return false;
    }
    let mut i: usize = 0;
    while i < a.len()
        invariant
            i <= a.len(),
            a.len() == b.len(),
            forall|j: int| 0 <= j < i ==> a@[j] == b@[j],
        decreases a.len() - i,
    {
        if a[i] != b[i] {
            return false;
        }
        i += 1;
    }
    assert(a@ =~= b@);
    true
}

/// Two strings hold the same characters exactly when their encodings agree.
pub proof fn lemma_same_bytes_same_chars(a: Seq<char>, b: Seq<char>)
    ensures
        (encode_utf8(a) == encode_utf8(b)) == (a == b),
{
    encode_utf8_decode_utf8(a);
    encode_utf8_decode_utf8(b);
}

/// Compares two strings by content.
pub fn str_eq(a: &str, b: &str) -> (same: bool)
    ensures
        same == (a@ == b@),
{
    proof {
        lemma_same_bytes_same_chars(a@, b@);
    }
    bytes_eq(a.as_bytes(), b.as_bytes())
}

/// An ASCII byte always starts a character.
pub proof fn lemma_boundary_at_ascii(bytes: Seq<u8>, at: int)
    requires
        valid_utf8(bytes),
        0 <= at < bytes.len(),
        bytes[at] < 0x80,
    ensures
        is_char_boundary(bytes, at),
{
    is_char_boundary_iff_not_is_continuation_byte(bytes, at);
}

/// The position right after an ASCII byte starts a character or ends the text.
pub proof fn lemma_boundary_after_ascii(bytes: Seq<u8>, at: int)
    requires
        valid_utf8(bytes),
        0 <= at < bytes.len(),
        bytes[at] < 0x80,
    ensures
        is_char_boundary(bytes, at + 1),
    decreases bytes.len(),
{
    let rest = pop_first_scalar(bytes);
    let width = length_of_first_scalar(bytes);
    if at == 0 {
        assert(width == 1);
        assert(is_char_boundary(rest, 0));
        assert(is_char_boundary(bytes, 1));
    } else {
        lemma_boundary_at_ascii(bytes, at);
        assert(1 <= width <= 4);
        assert(is_char_boundary(rest, at - width));
        if at < width {
            assert(!is_char_boundary(rest, at - width));
        }
        assert(rest[at - width] == bytes[at]);
        lemma_boundary_after_ascii(rest, at - width);
        assert(is_char_boundary(bytes, at + 1));
    }
}

/// Every string is the decoding of its own bytes.
pub proof fn lemma_chars_of_bytes(s: &str)
    ensures
        valid_utf8(s.spec_bytes()),
        s@ == decode_utf8(s.spec_bytes()),
{
    encode_utf8_valid_utf8(s@);
    encode_utf8_decode_utf8(s@);
}

} // verus!
