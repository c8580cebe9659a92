//! Comparing strings by their characters, computed on their UTF-8 bytes.

use vstd::prelude::*;
use vstd::string::StringSliceAdditionalSpecFns;
use vstd::utf8::*;

verus! {

/// `s` ends with `suffix`.
pub open spec fn ends_with<T>(s: Seq<T>, suffix: Seq<T>) -> bool {
    suffix.len() <= s.len() && s.subrange(s.len() - suffix.len(), s.len() as int) == suffix
}

/// Two character sequences are equal exactly when their encodings are.
pub proof fn lemma_encoding_injective(a: Seq<char>, b: Seq<char>)
    ensures
        (encode_utf8(a) == encode_utf8(b)) <==> a == b,
{
    encode_utf8_decode_utf8(a);
    encode_utf8_decode_utf8(b);
}

/// Whether two byte slices hold the same bytes.
pub fn bytes_eq(a: &[u8], b: &[u8]) -> (same: bool)
    ensures
        same == (a@ == b@),
{
    if a.len() != b.len() {
        return false;
    }
    let mut i: usize = 0;
    while i < a.len()
        invariant
            a@.len() == b@.len(),
            i <= a@.len(),
            forall|k: int| 0 <= k < i ==> a@[k] == b@[k],
        decreases a@.len() - i,
    {
        if a[i] != b[i] {
            return false;
        }
        i += 1;
    }
    assert(a@ =~= b@);
    true
}

/// Whether two strings hold the same characters.
pub fn str_eq(a: &str, b: &str) -> (same: bool)
    ensures
        same == (a@ == b@),
{
    proof {
        lemma_encoding_injective(a@, b@);
    }
    bytes_eq(a.as_bytes(), b.as_bytes())
}

/// A string ends with another by characters exactly when it does by bytes.
pub proof fn lemma_ends_with_encoded(s: Seq<char>, suffix: Seq<char>)
    ensures
        ends_with(encode_utf8(s), encode_utf8(suffix)) <==> ends_with(s, suffix),
{
    let bs = encode_utf8(s);
    let bx = encode_utf8(suffix);
    encode_utf8_valid_utf8(s);
    encode_utf8_valid_utf8(suffix);
    encode_utf8_decode_utf8(s);
    encode_utf8_decode_utf8(suffix);
    if ends_with(s, suffix) {
        let head = s.subrange(0, s.len() - suffix.len());
        assert(s =~= head + suffix);
        let bh = encode_utf8(head);
        encode_utf8_valid_utf8(head);
        encode_utf8_decode_utf8(head);
        let joined = bh + bx;
        valid_utf8_concat(bh, bx);
        lemma_boundary_after_prefix(bh, bx);
        decode_utf8_split(joined, bh.len() as int);
        assert(joined.subrange(0, bh.len() as int) =~= bh);
        assert(joined.subrange(bh.len() as int, joined.len() as int) =~= bx);
        assert(decode_utf8(joined) =~= s);
        decode_utf8_encode_utf8(joined);
        assert(bs == joined);
        assert(bs.subrange(bs.len() - bx.len(), bs.len() as int) =~= bx);
    }
    if ends_with(bs, bx) {
        let at = bs.len() - bx.len();
        let bh = bs.subrange(0, at);
        assert(bs =~= bh + bx);
        if bx.len() == 0 {
            is_char_boundary_start_end_of_seq(bs);
        } else {
            is_char_boundary_start_end_of_seq(bx);
            is_char_boundary_iff_not_is_continuation_byte(bx, 0);
            is_char_boundary_iff_not_is_continuation_byte(bs, at);
        }
        decode_utf8_split(bs, at);
        let head = decode_utf8(bh);
        assert(s =~= head + suffix);
        assert(s.subrange(s.len() - suffix.len(), s.len() as int) =~= suffix);
    }
}

/// The seam between two valid encodings is a character boundary of their
/// concatenation.
proof fn lemma_boundary_after_prefix(head: Seq<u8>, tail: Seq<u8>)
    requires
        valid_utf8(head),
        valid_utf8(tail),
    ensures
        is_char_boundary(head + tail, head.len() as int),
{
    let joined = head + tail;
    valid_utf8_concat(head, tail);
    if tail.len() == 0 {
        assert(joined =~= head);
        is_char_boundary_start_end_of_seq(joined);
    } else {
        is_char_boundary_start_end_of_seq(tail);
        is_char_boundary_iff_not_is_continuation_byte(tail, 0);
        is_char_boundary_iff_not_is_continuation_byte(joined, head.len() as int);
    }
}

/// Whether `s` ends with the characters of `suffix`.
pub fn str_ends_with(s: &str, suffix: &str) -> (found: bool)
    ensures
        found == ends_with(s@, suffix@),
{
    let a = s.as_bytes();
    let b = suffix.as_bytes();
    proof {
        lemma_ends_with_encoded(s@, suffix@);
    }
    if b.len() > a.len() {
        return false;
    }
    let start: usize = a.len() - b.len();
    let mut i: usize = 0;
    while i < b.len()
        invariant
            b.len() <= a.len(),
            start == a.len() - b.len(),
            i <= b.len(),
            forall|k: int| 0 <= k < i ==> a@[start + k] == b@[k],
            ends_with(a@, b@) <==> ends_with(s@, suffix@),
        decreases b.len() - i,
    {
        if a[start + i] != b[i] {
            assert(a@.subrange(start as int, a@.len() as int)[i as int] != b@[i as int]);
            return false;
        }
        i += 1;
    }
    assert(a@.subrange(start as int, a@.len() as int) =~= b@);
    true
}

} // verus!
