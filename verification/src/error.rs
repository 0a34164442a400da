//! The ways in which a run can fail.

use vstd::prelude::*;
use vstd::string::StringExecFns;

verus! {

/// Why a reply could not be turned into audio bytes.
#[derive(Debug, Clone, Copy, PartialEq, Eq, Structural)]
pub enum DecodeFailure {
    /// The body is not JSON, or holds no string at `data.v_str`.
    Shape,
    /// The string at `data.v_str` is not padded standard base64.
    Encoding,
}

/// A failure that ends the run.
#[derive(Debug, Clone)]
pub enum SpeechError {
    /// The requested voice is not in the catalog; carries that voice.
    InvalidVoice(String),
    /// Standard input could not be read as text.
    Input,
    /// The endpoint could not be reached.
    Network,
    /// The reply could not be decoded.
    Decode(DecodeFailure),
    /// The audio could not be written.
    Output,
}

/// A `SpeechError` with its text as a sequence of characters.
pub enum SpeechErrorView {
    InvalidVoice(Seq<char>),
    Input,
    Network,
    Decode(DecodeFailure),
    Output,
}

impl View for SpeechError {
    type V = SpeechErrorView;

    open spec fn view(&self) -> SpeechErrorView {
        match *self {
            SpeechError::InvalidVoice(voice) => SpeechErrorView::InvalidVoice(voice@),
            SpeechError::Input => SpeechErrorView::Input,
            SpeechError::Network => SpeechErrorView::Network,
            SpeechError::Decode(failure) => SpeechErrorView::Decode(failure),
            SpeechError::Output => SpeechErrorView::Output,
        }
    }
}

/// The message shown to the user for each failure.
pub open spec fn message_of(error: SpeechErrorView) -> Seq<char> {
    match error {
        SpeechErrorView::InvalidVoice(voice) => "Invalid voice: "@ + voice,
        SpeechErrorView::Input => "Could not read the text from standard input"@,
        SpeechErrorView::Network => "Could not reach the speech endpoint"@,
        SpeechErrorView::Decode(DecodeFailure::Shape) => "The reply holds no audio"@,
        SpeechErrorView::Decode(DecodeFailure::Encoding) => "The audio in the reply is not valid base64"@,
        SpeechErrorView::Output => "Could not write the audio"@,
    }
}

impl SpeechError {
    /// The message for the user.
    pub fn message(&self) -> (text: String)
        ensures
            text@ == message_of(self@),
    {
        match self {
            SpeechError::InvalidVoice(voice) => {
                String::from_str("Invalid voice: ").concat(voice.as_str())
            },
            SpeechError::Input => String::from_str("Could not read the text from standard input"),
            SpeechError::Network => String::from_str("Could not reach the speech endpoint"),
            SpeechError::Decode(DecodeFailure::Shape) => String::from_str(
                "The reply holds no audio",
            ),
            SpeechError::Decode(DecodeFailure::Encoding) => String::from_str(
                "The audio in the reply is not valid base64",
            ),
            SpeechError::Output => String::from_str("Could not write the audio"),
        }
    }
}

} // verus!
