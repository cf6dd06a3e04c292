//! Text out of bytes that may not be text.

use vstd::prelude::*;

verus! {

/// What `String::from_utf8_lossy` makes of a byte sequence.
pub uninterp spec fn lossy_text(bytes: Seq<u8>) -> Seq<char>;

/// Decode bytes as UTF-8, replacing what is not: `String::from_utf8_lossy`.
///
/// Claimed of it: the text depends on the bytes alone, and bytes that are valid
/// UTF-8 are decoded as what they encode. Where replacement characters go for
/// invalid bytes is not said here.
#[verifier::external_body]
pub(crate) fn utf8_lossy(bytes: &[u8]) -> (r: String)
    ensures
        r@ == lossy_text(bytes@),
        vstd::utf8::valid_utf8(bytes@) ==> r@ == vstd::utf8::decode_utf8(bytes@),
{
    String::from_utf8_lossy(bytes).into_owned()
}

} // verus!
