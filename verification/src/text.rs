//! Lossy UTF-8 decoding of designation bytes.
//!
//! Designation names travel as raw bytes; when shown as text they are
//! decoded lossily, replacing invalid sequences instead of rejecting them.

use vstd::prelude::*;

verus! {

/// The characters that lossy UTF-8 decoding yields on a byte sequence.
/// Invalid sequences are replaced, never rejected, so the result is defined
/// on every input and depends on the bytes alone.
pub uninterp spec fn lossy_of(bytes: Seq<u8>) -> Seq<char>;

/// Relies on String::from_utf8_lossy: the result is a function of the bytes
/// alone, and bytes that already are valid UTF-8 decode unchanged.
#[verifier::external_body]
pub(crate) fn lossy_utf8(bytes: &[u8]) -> (r: String)
    ensures
        r@ == lossy_of(bytes@),
        vstd::utf8::valid_utf8(bytes@) ==> r@ == vstd::utf8::decode_utf8(bytes@),
{
    String::from_utf8_lossy(bytes).into_owned()
}

} // verus!
