//! The interface to the game's text encoding.
//!
//! The game stores names in an encoding of its own. The decoders of this
//! crate do not know that encoding: they take the codec as a function from
//! the raw bytes of a name to its text, and state their results in terms of
//! what that function returned. The codec must be a [`text_codec`]: it takes
//! every byte string, and its answer depends on the bytes alone.

use vstd::prelude::*;
use vstd::utf8::{decode_utf8, valid_utf8};

verus! {

/// `String::from_utf8` of std: the text that `bytes` hold as UTF-8, or
/// nothing where they are no valid UTF-8.
#[verifier::external_body]
pub(crate) fn utf8_text(bytes: Vec<u8>) -> (text: Option<String>)
    ensures
        match text {
            Some(t) => valid_utf8(bytes@) && t@ == decode_utf8(bytes@),
            None => !valid_utf8(bytes@),
        },
{
    String::from_utf8(bytes).ok()
}

/// The failure of a text codec on bytes that it cannot decode.
#[derive(Debug, Clone, Copy, PartialEq, Eq)]
pub struct DecodeError;

/// The codec accepts every byte string.
pub open spec fn codec_total<F: Fn(&[u8]) -> Result<String, DecodeError>>(decode: F) -> bool {
    forall|bytes: &[u8]| call_requires(decode, (bytes,))
}

/// The codec gives one answer for one byte string: equal bytes decode to
/// equal text, or fail alike.
pub open spec fn codec_deterministic<F: Fn(&[u8]) -> Result<String, DecodeError>>(
    decode: F,
) -> bool {
    forall|a: &[u8], b: &[u8], ra: Result<String, DecodeError>, rb: Result<String, DecodeError>|
        a@ == b@ && #[trigger] call_ensures(decode, (a,), ra) && #[trigger] call_ensures(
            decode,
            (b,),
            rb,
        ) ==> decoded_text(ra) == decoded_text(rb)
}

/// `decode` is a text codec: a function of the bytes that takes every byte
/// string. This is what the decoders of this crate ask of the codec that
/// they are given.
pub open spec fn text_codec<F: Fn(&[u8]) -> Result<String, DecodeError>>(decode: F) -> bool {
    codec_total(decode) && codec_deterministic(decode)
}

/// The text that stands for a codec result: the decoded characters, or
/// nothing where the codec failed.
pub open spec fn decoded_text(r: Result<String, DecodeError>) -> Option<Seq<char>> {
    match r {
        Ok(s) => Some(s@),
        Err(_) => None,
    }
}

/// `r` is a possible answer of the codec for `bytes`.
pub open spec fn codec_answers<F: Fn(&[u8]) -> Result<String, DecodeError>>(
    decode: F,
    bytes: Seq<u8>,
    r: Option<Seq<char>>,
) -> bool {
    exists|input: &[u8], out: Result<String, DecodeError>|
        input@ == bytes && #[trigger] call_ensures(decode, (input,), out) && r == decoded_text(out)
}

} // verus!
