//! The request that is sent to the synthesis endpoint.

use vstd::prelude::*;
use vstd::string::StringExecFns;

verus! {

/// The address of the synthesis endpoint, with its fixed query parameter.
pub open spec fn endpoint() -> Seq<char> {
    "https://api16-normal-useast5.us.tiktokv.com/media/api/text/speech/invoke/?speaker_map_type=0"@
}

/// The query parameters that go with one request, in order, each a name
/// and a value before any encoding: the voice, then the text.
pub open spec fn query_of(text: Seq<char>, voice: Seq<char>) -> Seq<(Seq<char>, Seq<char>)> {
    seq![("text_speaker"@, voice), ("req_text"@, text)]
}

/// The names and values of a list of parameters as sequences of characters.
pub open spec fn parameters_view(parameters: Seq<(String, String)>) -> Seq<(Seq<char>, Seq<char>)> {
    Seq::new(parameters.len(), |i: int| (parameters[i].0@, parameters[i].1@))
}

/// A text and the voice that is to speak it.
#[derive(Debug, Clone)]
pub struct SynthesisRequest {
    pub text: String,
    pub voice: String,
}

/// A `SynthesisRequest` with its texts as sequences of characters.
pub struct SynthesisRequestView {
    pub text: Seq<char>,
    pub voice: Seq<char>,
}

impl View for SynthesisRequest {
    type V = SynthesisRequestView;

    open spec fn view(&self) -> SynthesisRequestView {
        SynthesisRequestView { text: self.text@, voice: self.voice@ }
    }
}

impl SynthesisRequest {
    /// The address to which the request is posted.
    pub fn url(&self) -> (address: &'static str)
        ensures
            address@ == endpoint(),
    {
        "https://api16-normal-useast5.us.tiktokv.com/media/api/text/speech/invoke/?speaker_map_type=0"
    }

    /// The query parameters of the request, unencoded.
    pub fn query(&self) -> (parameters: Vec<(String, String)>)
        ensures
            parameters_view(parameters@) == query_of(self.text@, self.voice@),
    {
        let mut parameters: Vec<(String, String)> = Vec::new();
        parameters.push((String::from_str("text_speaker"), self.voice.clone()));
        parameters.push((String::from_str("req_text"), self.text.clone()));
        assert(parameters_view(parameters@) =~= query_of(self.text@, self.voice@));
        parameters
    }
}

} // verus!
