//! Audio travels as base64 text in requests and responses. The coding itself
//! is that of the `base64` crate, with its standard alphabet and padding.

use crate::error::{bytes_result, ErrorModel, PipelineError};
use base64::Engine;
use vstd::prelude::*;

verus! {

/// `base64::DecodeError`, carried as it is: nothing of its contents is
/// claimed.
#[verifier::external_type_specification]
#[verifier::external_body]
pub struct ExDecodeError(base64::DecodeError);

/// The base64 text of a sequence of bytes, as the standard engine of the
/// `base64` crate writes it.
pub uninterp spec fn base64_text(bytes: Seq<u8>) -> Seq<char>;

/// The bytes that a base64 text stands for, as the standard engine of the
/// `base64` crate reads it; `None` where it refuses the text.
pub uninterp spec fn base64_bytes(text: Seq<char>) -> Option<Seq<u8>>;

/// Calls `Engine::encode` on `general_purpose::STANDARD`. The text for given
/// bytes is always the same one, named by [`base64_text`]. The engine panics
/// where the length of the text overflows `usize`; no input of at most
/// `isize::MAX` bytes comes near that.
#[verifier::external_body]
fn encode_standard(bytes: &[u8]) -> (text: String)
    requires
        bytes@.len() <= isize::MAX,
    ensures
        text@ == base64_text(bytes@),
{
    base64::engine::general_purpose::STANDARD.encode(bytes)
}

/// Calls `Engine::decode` on `general_purpose::STANDARD`. The bytes for a
/// given text are always the same, named by [`base64_bytes`]; the call fails
/// exactly where that is `None`.
#[verifier::external_body]
fn decode_standard(text: &str) -> (decoded: Result<Vec<u8>, base64::DecodeError>)
    ensures
        decoded is Ok <==> base64_bytes(text@) is Some,
        decoded is Ok ==> base64_bytes(text@) == Some(decoded->Ok_0@),
{
    base64::engine::general_purpose::STANDARD.decode(text)
}

/// What decoding the audio of a request gives: its bytes, or `DecodeError`.
pub open spec fn decoded_audio(text: Seq<char>) -> Result<Seq<u8>, ErrorModel> {
    match base64_bytes(text) {
        Some(bytes) => Ok(bytes),
        None => Err(ErrorModel::DecodeError),
    }
}

/// What encoding audio gives: its base64 text, for every input of at most
/// `isize::MAX` bytes.
pub open spec fn encoded_audio(bytes: Seq<u8>) -> Option<Seq<char>> {
    if bytes.len() <= isize::MAX {
        Some(base64_text(bytes))
    } else {
        None
    }
}

/// Decodes the base64 audio of a request. Text that is no valid base64 is
/// refused with `DecodeError`.
pub fn decode_audio(text: &str) -> (audio: Result<Vec<u8>, PipelineError>)
    ensures
        bytes_result(audio) == decoded_audio(text@),
{
    match decode_standard(text) {
        Ok(bytes) => Ok(bytes),
        Err(_) => Err(PipelineError::DecodeError),
    }
}

/// Encodes audio as base64 text. The result is `None` only for an input of
/// more than `isize::MAX` bytes.
pub fn encode_audio(bytes: &[u8]) -> (text: Option<String>)
    ensures
        match text {
            Some(text) => encoded_audio(bytes@) == Some(text@),
            None => encoded_audio(bytes@) is None,
        },
{
    if bytes.len() <= usize::MAX / 2 {
        Some(encode_standard(bytes))
    } else {
        None
    }
}

} // verus!
