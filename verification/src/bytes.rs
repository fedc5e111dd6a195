//! Bytes that are shown as text.

use vstd::prelude::*;
use vstd::utf8::*;

verus! {

/// The text that bytes are shown as, whether or not they are UTF-8: what is not is replaced.
pub uninterp spec fn lossy_text(bytes: Seq<u8>) -> Seq<char>;

/// `String::from_utf8_lossy` gives the text of the bytes where they are UTF-8. Elsewhere it
/// puts replacement characters in the place of what is not; how many of them is left to its
/// name here.
#[verifier::external_body]
pub(crate) fn text_of_bytes(bytes: &[u8]) -> (text: String)
    ensures
        text@ == lossy_text(bytes@),
        valid_utf8(bytes@) ==> text@ == decode_utf8(bytes@),
{
    String::from_utf8_lossy(bytes).into_owned()
}

} // verus!
