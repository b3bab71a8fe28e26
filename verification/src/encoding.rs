//! Base64 text for document payloads, as the `base64` crate's standard engine
//! (the standard alphabet, with padding) writes and reads it.

use base64::Engine;
use vstd::prelude::*;

verus! {

/// The text the standard engine encodes `data` to.
pub uninterp spec fn base64_encode(data: Seq<u8>) -> Seq<char>;

/// The bytes the standard engine decodes `text` to, or `None` where it
/// rejects the text.
pub uninterp spec fn base64_decode(text: Seq<char>) -> Option<Seq<u8>>;

/// `base64::prelude::BASE64_STANDARD.encode`: the result is the encoding of
/// the bytes, a function of the bytes alone.  The engine panics only where
/// the encoded length overflows `usize`, which no `Vec<u8>` reaches: a vector
/// holds at most `isize::MAX` bytes and the encoding is a third longer.
#[verifier::external_body]
pub(crate) fn encode(data: &Vec<u8>) -> (text: String)
    ensures
        text@ == base64_encode(data@),
{
    base64::prelude::BASE64_STANDARD.encode(data)
}

/// `base64::prelude::BASE64_STANDARD.decode`: the decoded bytes where the
/// engine accepts the text, `None` where it reports a decode error; which of
/// the two is a function of the text alone.
#[verifier::external_body]
pub(crate) fn decode(text: &str) -> (data: Option<Vec<u8>>)
    ensures
        match data {
            Some(bytes) => base64_decode(text@) == Some(bytes@),
            None => base64_decode(text@) is None,
        },
{
    base64::prelude::BASE64_STANDARD.decode(text).ok()
}

} // verus!
