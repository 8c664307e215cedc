//! Base64, as the `base64` crate's standard engine computes it.
//!
//! Nothing here is proved: the two functions hand their argument to the
//! engine, and the two spec functions below give what comes back a name that
//! the codec's contracts can speak of.

use base64::Engine;
use vstd::prelude::*;

verus! {

/// The standard-alphabet, padded base64 text of `bytes`.
pub uninterp spec fn base64_encoded(bytes: Seq<u8>) -> Seq<char>;

/// The bytes that `text` stands for in standard-alphabet, padded base64, or
/// `None` where `text` is no such encoding.
pub uninterp spec fn base64_decoded(text: Seq<char>) -> Option<Seq<u8>>;

/// Calls `Engine::encode` on `base64::engine::general_purpose::STANDARD`.
///
/// The claim is only that the text returned is a function of the bytes. The
/// engine computes the length of the text as four characters for every three
/// bytes, rounded up; that fits `usize` for every slice, whose length is at
/// most `isize::MAX`.
#[verifier::external_body]
pub(crate) fn encode_base64(bytes: &[u8]) -> (text: String)
    ensures
        text@ == base64_encoded(bytes@),
{
    base64::engine::general_purpose::STANDARD.encode(bytes)
}

/// Calls `Engine::decode` on `base64::engine::general_purpose::STANDARD` and
/// drops the error's detail.
///
/// The claim is only that success, and the bytes returned, are a function of
/// the text.
#[verifier::external_body]
pub(crate) fn decode_base64(text: &str) -> (bytes: Option<Vec<u8>>)
    ensures
        match bytes {
            Some(decoded) => base64_decoded(text@) == Some(decoded@),
            None => base64_decoded(text@) is None,
        },
{
    base64::engine::general_purpose::STANDARD.decode(text).ok()
}

} // verus!
