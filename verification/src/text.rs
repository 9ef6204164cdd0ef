//! Conversion of fixed-capacity native text buffers into owned strings.
//!
//! A native text field is a byte buffer that may or may not hold a zero
//! terminator within its capacity: the text is everything before the
//! first zero byte, or the whole buffer when no zero byte occurs.

use vstd::prelude::*;
use vstd::utf8::decode_utf8;
use vstd::utf8::valid_utf8;

verus! {

/// Length of the text held in a native field: the number of bytes before
/// the first zero byte, or the whole length when none is zero.
pub open spec fn spec_text_len(bytes: Seq<u8>) -> int
    decreases bytes.len(),
{
    if bytes.len() == 0 {
        0
    } else if bytes[0] == 0 {
        0
    } else {
        1 + spec_text_len(bytes.drop_first())
    }
}

/// The text bytes held in a native field: everything before the first
/// zero byte, or the whole buffer when no byte is zero.
pub open spec fn field_text(bytes: Seq<u8>) -> Seq<u8> {
    bytes.take(spec_text_len(bytes))
}

/// `spec_text_len` is a position in the buffer, no byte before it is
/// zero, and the byte at it (when inside the buffer) is zero.
pub proof fn lemma_text_len_characterization(bytes: Seq<u8>)
    ensures
        0 <= spec_text_len(bytes) <= bytes.len(),
        forall|j: int| 0 <= j < spec_text_len(bytes) ==> bytes[j] != 0,
        spec_text_len(bytes) < bytes.len() ==> bytes[spec_text_len(bytes)] == 0,
    decreases bytes.len(),
{
    if bytes.len() == 0 {
    } else if bytes[0] == 0 {
    } else {
        let rest = bytes.drop_first();
        lemma_text_len_characterization(rest);
        assert forall|j: int| 0 <= j < spec_text_len(bytes) implies bytes[j] != 0 by {
            if j > 0 {
                assert(bytes[j] == rest[j - 1]);
            }
        }
    }
}

/// Any position bounded by the buffer, preceded only by non-zero bytes,
/// and either at the end or at a zero byte, is `spec_text_len`.
proof fn lemma_text_len_unique(bytes: Seq<u8>, l: int)
    requires
        0 <= l <= bytes.len(),
        forall|j: int| 0 <= j < l ==> bytes[j] != 0,
        l < bytes.len() ==> bytes[l] == 0,
    ensures
        spec_text_len(bytes) == l,
{
    lemma_text_len_characterization(bytes);
}

/// A buffer with a zero byte converts to exactly the bytes before the
/// first one: the terminator and the padding behind it are not text.
pub proof fn lemma_field_text_stops_at_nul(bytes: Seq<u8>, i: int)
    requires
        0 <= i < bytes.len(),
        bytes[i] == 0,
        forall|j: int| 0 <= j < i ==> bytes[j] != 0,
    ensures
        field_text(bytes) == bytes.take(i),
{
    lemma_text_len_unique(bytes, i);
}

/// A capacity-filled buffer with no zero byte converts to the whole
/// capacity, with no error.
pub proof fn lemma_field_text_no_nul(bytes: Seq<u8>)
    requires
        forall|j: int| 0 <= j < bytes.len() ==> bytes[j] != 0,
    ensures
        field_text(bytes) == bytes,
{
    lemma_text_len_unique(bytes, bytes.len() as int);
    assert(bytes.take(bytes.len() as int) =~= bytes);
}

/// The text bytes of a native field: scans up to the capacity and stops
/// at the first zero byte, if one occurs.
pub fn truncate_at_nul(bytes: &Vec<u8>) -> (r: Vec<u8>)
    ensures
        r@ == field_text(bytes@),
{
    let mut out: Vec<u8> = Vec::new();
    let mut i: usize = 0;
    while i < bytes.len() && bytes[i] != 0
        invariant
            i <= bytes@.len(),
            out@ == bytes@.take(i as int),
            forall|j: int| 0 <= j < i ==> bytes@[j] != 0,
        decreases bytes@.len() - i,
    {
        out.push(bytes[i]);
        assert(out@ =~= bytes@.take(i + 1));
        i = i + 1;
    }
    proof {
        lemma_text_len_unique(bytes@, i as int);
    }
    out
}

/// Relies on `String::from_utf8`: it returns `Ok` exactly when the bytes
/// are a valid UTF-8 encoding, and the string then holds the characters
/// that encoding decodes to.
#[verifier::external_body]
fn utf8_to_string(bytes: Vec<u8>) -> (r: Option<String>)
    ensures
        r is Some <==> valid_utf8(bytes@),
        r matches Some(s) ==> s@ == decode_utf8(bytes@),
{
    String::from_utf8(bytes).ok()
}

/// Decodes a native text field: truncates at the first zero byte (or
/// keeps the whole capacity) and decodes the remainder as UTF-8. `None`
/// exactly when that remainder is not valid UTF-8.
pub fn text_from_bytes(bytes: &Vec<u8>) -> (r: Option<String>)
    ensures
        r is Some <==> valid_utf8(field_text(bytes@)),
        r matches Some(s) ==> s@ == decode_utf8(field_text(bytes@)),
{
    let t = truncate_at_nul(bytes);
    utf8_to_string(t)
}

} // verus!
