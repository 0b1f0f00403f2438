//! Decoding of bytes into host text.

use vstd::prelude::*;
use vstd::utf8::{decode_utf8, valid_utf8};

verus! {

/// The text that `String::from_utf8_lossy` makes of `bytes`.
pub uninterp spec fn lossy_utf8(bytes: Seq<u8>) -> Seq<char>;

/// Whether `text` is the lossy decoding of `bytes`: what the lossy decoder
/// makes of them, which for valid UTF-8 is the text they encode.
pub open spec fn is_lossy_decoding(text: Seq<char>, bytes: Seq<u8>) -> bool {
    &&& text == lossy_utf8(bytes)
    &&& valid_utf8(bytes) ==> text == decode_utf8(bytes)
}

/// Decodes `bytes` as UTF-8, putting U+FFFD in place of what is not valid.
///
/// Calls `String::from_utf8_lossy` of the standard library and copies the
/// result into a `String`. Two things are taken on trust from its
/// documentation: that the result depends on the bytes alone, and that valid
/// UTF-8 decodes to the text it encodes. What it makes of invalid input is
/// left to it.
#[verifier::external_body]
pub(crate) fn decode_lossy(bytes: &[u8]) -> (s: String)
    ensures
        s@ == lossy_utf8(bytes@),
        valid_utf8(bytes@) ==> s@ == decode_utf8(bytes@),
{
    String::from_utf8_lossy(bytes).into_owned()
}

} // verus!
