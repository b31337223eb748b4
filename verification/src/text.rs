//! Turning the bytes of a text field into a `String`.

use vstd::prelude::*;

verus! {

/// The text that `String::from_utf8_lossy` makes of `bytes`: the decoded
/// characters, with each invalid sequence replaced by U+FFFD.
pub uninterp spec fn lossy_utf8(bytes: Seq<u8>) -> Seq<char>;

/// Calls `String::from_utf8_lossy` and takes the result as an owned
/// `String`. Claims that the result is `lossy_utf8(bytes)`, and that for
/// valid UTF-8 input it is the decoded text, as std documents.
#[verifier::external_body]
pub(crate) fn utf8_lossy(bytes: &[u8]) -> (s: String)
    ensures
        s@ == lossy_utf8(bytes@),
        vstd::utf8::valid_utf8(bytes@) ==> s@ == vstd::utf8::decode_utf8(bytes@),
{
    String::from_utf8_lossy(bytes).into_owned()
}

} // verus!
