//! Decoding of the endpoint's reply: a JSON object whose member `data` is an
//! object whose member `v_str` is a string of base64, which holds the audio.

use vstd::prelude::*;
use crate::base64::base64_decoded;
use crate::base64::decode_base64;
use crate::error::DecodeFailure;
use crate::error::SpeechError;
use crate::json::member;
use crate::json::member_of;
use crate::json::parse_document;
use crate::json::parsed_document;
use crate::json::string;
use crate::json::string_of;

verus! {

/// The text at `data.v_str` in a parsed document, where there is one.
pub open spec fn audio_text_in(document: Option<serde_json::Value>) -> Option<Seq<char>> {
    match document {
        None => None,
        Some(root) => match member_of(root, "data"@) {
            None => None,
            Some(data) => match member_of(data, "v_str"@) {
                None => None,
                Some(field) => string_of(field),
            },
        },
    }
}

/// The text at `data.v_str` in the reply `body`, where `body` is JSON of
/// that shape.
pub open spec fn audio_text_of(body: Seq<char>) -> Option<Seq<char>> {
    audio_text_in(parsed_document(body))
}

/// What a decoded base64 text yields: its bytes, or the encoding failure.
pub open spec fn audio_from(decoded: Option<Seq<u8>>) -> Result<Seq<u8>, DecodeFailure> {
    match decoded {
        Some(bytes) => Ok(bytes),
        None => Err(DecodeFailure::Encoding),
    }
}

/// What a reply yields: the audio bytes, or the reason why there are none.
pub open spec fn audio_of(body: Seq<char>) -> Result<Seq<u8>, DecodeFailure> {
    match audio_text_of(body) {
        None => Err(DecodeFailure::Shape),
        Some(text) => audio_from(base64_decoded(text)),
    }
}

/// Whether `outcome` reports exactly what `expected` says: the same bytes,
/// or a decode error of the same kind.
pub open spec fn reports(
    outcome: Result<Vec<u8>, SpeechError>,
    expected: Result<Seq<u8>, DecodeFailure>,
) -> bool {
    match expected {
        Ok(bytes) => outcome matches Ok(audio) && audio@ == bytes,
        Err(failure) => outcome matches Err(SpeechError::Decode(kind)) && kind == failure,
    }
}

/// A reply fails in one of two ways, and which one is decided by where it
/// goes wrong: by its shape exactly where it holds no text at `data.v_str`,
/// by its encoding exactly where it holds one that is not base64. Where
/// neither is the case the audio is what the base64 text decodes to.
pub proof fn reply_fails_by_shape_or_encoding(body: Seq<char>)
    ensures
        audio_of(body) == Err::<Seq<u8>, DecodeFailure>(DecodeFailure::Shape) <==> audio_text_of(
            body,
        ) is None,
        audio_of(body) == Err::<Seq<u8>, DecodeFailure>(DecodeFailure::Encoding) <==> (
        audio_text_of(body) is Some && base64_decoded(audio_text_of(body)->Some_0) is None),
        audio_of(body) is Ok <==> (audio_text_of(body) is Some && base64_decoded(
            audio_text_of(body)->Some_0,
        ) is Some),
        audio_of(body) is Ok ==> Some(audio_of(body)->Ok_0) == base64_decoded(
            audio_text_of(body)->Some_0,
        ),
{
}

/// What is read of a reply: the base64 text at `data.v_str`.
#[derive(Debug, Clone)]
pub struct SynthesisResponse {
    pub v_str: String,
}

impl View for SynthesisResponse {
    type V = Seq<char>;

    open spec fn view(&self) -> Seq<char> {
        self.v_str@
    }
}

/// Whether `found` is what `expected` says: a response with that text, or
/// none.
pub open spec fn holds_text(found: Option<SynthesisResponse>, expected: Option<Seq<char>>) -> bool {
    match expected {
        Some(text) => found matches Some(response) && response@ == text,
        None => found is None,
    }
}

/// Finds the text at `data.v_str` in a parsed document. There is none where
/// parsing failed, where the document or its member `data` is no object or
/// lacks the member asked for, and where `v_str` is no string.
pub fn response_in(document: &Result<serde_json::Value, serde_json::Error>) -> (found: Option<
    SynthesisResponse,
>)
    ensures
        holds_text(found, audio_text_in(document.ok())),
{
    match document {
        Err(_) => None,
        Ok(root) => match member(root, "data") {
            None => None,
            Some(data) => match member(data, "v_str") {
                None => None,
                Some(field) => match string(field) {
                    None => None,
                    Some(text) => Some(SynthesisResponse { v_str: text.to_owned() }),
                },
            },
        },
    }
}

/// Reads a reply: parses the body and finds the text at `data.v_str`.
pub fn parse_response(body: &str) -> (found: Option<SynthesisResponse>)
    ensures
        holds_text(found, audio_text_of(body@)),
{
    let document = parse_document(body);
    response_in(&document)
}

/// Turns the outcome of base64 decoding into the outcome of the stage: the
/// bytes as they are, or the encoding failure.
pub fn audio_from_decoded(decoded: Result<Vec<u8>, data_encoding::DecodeError>) -> (outcome: Result<
    Vec<u8>,
    SpeechError,
>)
    ensures
        match decoded {
            Ok(bytes) => outcome == Ok::<Vec<u8>, SpeechError>(bytes),
            Err(_) => outcome == Err::<Vec<u8>, SpeechError>(
                SpeechError::Decode(DecodeFailure::Encoding),
            ),
        },
{
    match decoded {
        Ok(bytes) => Ok(bytes),
        Err(_) => Err(SpeechError::Decode(DecodeFailure::Encoding)),
    }
}

impl SynthesisResponse {
    /// Decodes the base64 text into audio bytes.
    pub fn audio(&self) -> (outcome: Result<Vec<u8>, SpeechError>)
        ensures
            reports(outcome, audio_from(base64_decoded(self@))),
    {
        audio_from_decoded(decode_base64(self.v_str.as_str()))
    }
}

/// Decodes a reply into audio bytes. A body that is not JSON, or that has no
/// string at `data.v_str`, fails by its shape; a string there that is not
/// base64 fails by its encoding. Other members of the reply are ignored.
pub fn decode_response(body: &str) -> (outcome: Result<Vec<u8>, SpeechError>)
    ensures
        reports(outcome, audio_of(body@)),
{
    match parse_response(body) {
        None => Err(SpeechError::Decode(DecodeFailure::Shape)),
        Some(response) => response.audio(),
    }
}

} // verus!
