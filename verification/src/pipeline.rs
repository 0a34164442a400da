//! One run, stage by stage: resolve the inputs, check the voice, send the
//! request, decode the reply, write the audio. Each function here takes what
//! the run holds and what just happened outside, and says what to do next.
//! The caller reads, sends and writes.

use vstd::prelude::*;
use crate::catalog::default_voice;
use crate::catalog::is_catalog_voice;
use crate::catalog::resolve_voice;
use crate::catalog::resolved_voice;
use crate::catalog::validate_voice;
use crate::error::DecodeFailure;
use crate::error::SpeechError;
use crate::error::SpeechErrorView;
use crate::request::SynthesisRequest;
use crate::request::SynthesisRequestView;
use crate::response::audio_of;
use crate::response::decode_response;

verus! {

/// What was asked for on the command line.
#[derive(Debug, Clone)]
pub struct Arguments {
    /// The file to write to; standard output where there is none.
    pub output: Option<String>,
    /// The text to speak; standard input is read where there is none.
    pub text: Option<String>,
    /// The voice; the default voice where there is none.
    pub voice: Option<String>,
}

/// An optional text as an optional sequence of characters.
pub open spec fn optional_text(text: Option<String>) -> Option<Seq<char>> {
    match text {
        Some(s) => Some(s@),
        None => None,
    }
}

/// `Arguments` with its texts as sequences of characters.
pub struct ArgumentsView {
    pub output: Option<Seq<char>>,
    pub text: Option<Seq<char>>,
    pub voice: Option<Seq<char>>,
}

impl View for Arguments {
    type V = ArgumentsView;

    open spec fn view(&self) -> ArgumentsView {
        ArgumentsView {
            output: optional_text(self.output),
            text: optional_text(self.text),
            voice: optional_text(self.voice),
        }
    }
}

/// Where the audio goes.
#[derive(Debug, Clone)]
pub enum OutputTarget {
    /// To the file at this path, which is created or truncated.
    File(String),
    /// To standard output.
    StandardOutput,
}

/// An `OutputTarget` with its path as a sequence of characters.
pub enum OutputTargetView {
    File(Seq<char>),
    StandardOutput,
}

impl View for OutputTarget {
    type V = OutputTargetView;

    open spec fn view(&self) -> OutputTargetView {
        match *self {
            OutputTarget::File(path) => OutputTargetView::File(path@),
            OutputTarget::StandardOutput => OutputTargetView::StandardOutput,
        }
    }
}

/// The target that an output argument selects.
pub open spec fn target_of(output: Option<Seq<char>>) -> OutputTargetView {
    match output {
        Some(path) => OutputTargetView::File(path),
        None => OutputTargetView::StandardOutput,
    }
}

/// What the run does next, with what it keeps for the stage after.
#[derive(Debug, Clone)]
pub enum Step {
    /// Read all of standard input as the text.
    ReadInput { voice: String, output: OutputTarget },
    /// Post the request to the endpoint, once.
    Send { request: SynthesisRequest, output: OutputTarget },
    /// Write the audio to the target.
    Write { output: OutputTarget, audio: Vec<u8> },
    /// Nothing more: the audio has been written.
    Done,
    /// Nothing more: the run has failed.
    Abort(SpeechError),
}

/// A `Step` with its texts and bytes as sequences.
pub enum StepView {
    ReadInput { voice: Seq<char>, output: OutputTargetView },
    Send { request: SynthesisRequestView, output: OutputTargetView },
    Write { output: OutputTargetView, audio: Seq<u8> },
    Done,
    Abort(SpeechErrorView),
}

impl View for Step {
    type V = StepView;

    open spec fn view(&self) -> StepView {
        match *self {
            Step::ReadInput { voice, output } => StepView::ReadInput {
                voice: voice@,
                output: output@,
            },
            Step::Send { request, output } => StepView::Send { request: request@, output: output@ },
            Step::Write { output, audio } => StepView::Write { output: output@, audio: audio@ },
            Step::Done => StepView::Done,
            Step::Abort(error) => StepView::Abort(error@),
        }
    }
}

/// The step once text, voice and target are known: the request goes out
/// where the voice is in the catalog, and the run fails where it is not.
pub open spec fn submitted(text: Seq<char>, voice: Seq<char>, output: OutputTargetView) -> StepView {
    if is_catalog_voice(voice) {
        StepView::Send { request: SynthesisRequestView { text, voice }, output }
    } else {
        StepView::Abort(SpeechErrorView::InvalidVoice(voice))
    }
}

/// The first step of a run. A text argument is used as it is, and standard
/// input is read only where there is none.
pub open spec fn started(arguments: ArgumentsView) -> StepView {
    match arguments.text {
        Some(text) => submitted(
            text,
            resolved_voice(arguments.voice),
            target_of(arguments.output),
        ),
        None => StepView::ReadInput {
            voice: resolved_voice(arguments.voice),
            output: target_of(arguments.output),
        },
    }
}

/// The step after standard input was read: `input` is what was read, or
/// `None` where reading failed.
pub open spec fn input_taken(
    voice: Seq<char>,
    output: OutputTargetView,
    input: Option<Seq<char>>,
) -> StepView {
    match input {
        Some(text) => submitted(text, voice, output),
        None => StepView::Abort(SpeechErrorView::Input),
    }
}

/// The step for each outcome of decoding a reply.
pub open spec fn decoded(output: OutputTargetView, audio: Result<Seq<u8>, DecodeFailure>) -> StepView {
    match audio {
        Ok(bytes) => StepView::Write { output, audio: bytes },
        Err(failure) => StepView::Abort(SpeechErrorView::Decode(failure)),
    }
}

/// The step after the endpoint was asked: `reply` is the body that came
/// back, whatever its status, or `None` where the exchange failed.
pub open spec fn replied(output: OutputTargetView, reply: Option<Seq<char>>) -> StepView {
    match reply {
        Some(body) => decoded(output, audio_of(body)),
        None => StepView::Abort(SpeechErrorView::Network),
    }
}

/// The step after the audio was written, or could not be.
pub open spec fn written(done: bool) -> StepView {
    if done {
        StepView::Done
    } else {
        StepView::Abort(SpeechErrorView::Output)
    }
}

/// How far a step is along the run: reading, sending, writing, ended.
pub open spec fn progress(step: StepView) -> nat {
    match step {
        StepView::ReadInput { .. } => 1,
        StepView::Send { .. } => 2,
        StepView::Write { .. } => 3,
        StepView::Done => 4,
        StepView::Abort(_) => 4,
    }
}

/// A run without a voice argument goes as the run that names the default
/// voice, from its first step on.
pub proof fn absent_voice_runs_as_default(arguments: ArgumentsView)
    requires
        arguments.voice is None,
    ensures
        started(arguments) == started(
            ArgumentsView { voice: Some(default_voice()), ..arguments },
        ),
{
}

/// A text argument is used character for character, and standard input is
/// then never asked for; without one, standard input is read first.
pub proof fn text_argument_comes_first(arguments: ArgumentsView)
    ensures
        arguments.text is Some ==> !(started(arguments) is ReadInput),
        arguments.text is Some ==> (started(arguments) matches StepView::Send { request, .. }
            ==> request.text == arguments.text->Some_0),
        arguments.text is None ==> started(arguments) is ReadInput,
{
}

/// A request goes out exactly where the voice is in the catalog, and it
/// carries that voice; any other voice ends the run with that voice in the
/// error, before anything is sent.
pub proof fn only_catalog_voices_are_sent(
    text: Seq<char>,
    voice: Seq<char>,
    output: OutputTargetView,
)
    ensures
        is_catalog_voice(voice) <==> submitted(text, voice, output) is Send,
        submitted(text, voice, output) matches StepView::Send { request, .. } ==> request.voice
            == voice && is_catalog_voice(request.voice),
        !is_catalog_voice(voice) ==> submitted(text, voice, output) == StepView::Abort(
            SpeechErrorView::InvalidVoice(voice),
        ),
{
}

/// The audio goes where the output argument says: to the named file, or to
/// standard output where none is named. Every step up to the write carries
/// that target on.
pub proof fn target_follows_output_argument(
    arguments: ArgumentsView,
    input: Option<Seq<char>>,
    reply: Option<Seq<char>>,
)
    ensures
        arguments.output is None ==> target_of(arguments.output)
            == OutputTargetView::StandardOutput,
        arguments.output matches Some(path) ==> target_of(arguments.output)
            == OutputTargetView::File(path),
        started(arguments) matches StepView::ReadInput { output, .. } ==> output == target_of(
            arguments.output,
        ),
        started(arguments) matches StepView::Send { output, .. } ==> output == target_of(
            arguments.output,
        ),
        input_taken(resolved_voice(arguments.voice), target_of(arguments.output), input)
            matches StepView::Send { output, .. } ==> output == target_of(arguments.output),
        replied(target_of(arguments.output), reply) matches StepView::Write { output, .. }
            ==> output == target_of(arguments.output),
{
}

/// A reply leads to a write exactly where it decodes, and the bytes to
/// write are the decoded bytes; no write is asked for after a reply that
/// does not decode, or after none.
pub proof fn write_needs_decoded_reply(output: OutputTargetView, reply: Option<Seq<char>>)
    ensures
        replied(output, reply) is Write <==> (reply matches Some(body) && audio_of(body) is Ok),
        replied(output, reply) matches StepView::Write { audio, .. } ==> audio == audio_of(
            reply->Some_0,
        )->Ok_0,
        reply is Some && audio_of(reply->Some_0) is Err ==> replied(output, reply)
            == StepView::Abort(SpeechErrorView::Decode(audio_of(reply->Some_0)->Err_0)),
        reply is None ==> replied(output, reply) == StepView::Abort(SpeechErrorView::Network),
{
}

/// The run only moves forward: each stage hands on to a later one or ends
/// the run, so no stage is entered twice.
pub proof fn run_only_moves_forward(
    arguments: ArgumentsView,
    voice: Seq<char>,
    output: OutputTargetView,
    input: Option<Seq<char>>,
    reply: Option<Seq<char>>,
    done: bool,
)
    ensures
        progress(started(arguments)) >= 1,
        progress(input_taken(voice, output, input)) > 1,
        progress(replied(output, reply)) > 2,
        progress(written(done)) > 3,
{
}

/// Selects the target: the file that was named, else standard output.
pub fn output_target(output: Option<String>) -> (target: OutputTarget)
    ensures
        target@ == target_of(optional_text(output)),
        output matches Some(path) ==> target == OutputTarget::File(path),
{
    match output {
        Some(path) => OutputTarget::File(path),
        None => OutputTarget::StandardOutput,
    }
}

/// Checks the voice and, where it is in the catalog, asks for the request
/// to be sent with the text and the voice as they are.
pub fn submit(text: String, voice: String, output: OutputTarget) -> (step: Step)
    ensures
        step@ == submitted(text@, voice@, output@),
{
    match validate_voice(voice) {
        Ok(voice) => Step::Send { request: SynthesisRequest { text, voice }, output },
        Err(error) => Step::Abort(error),
    }
}

/// Begins a run.
pub fn start(arguments: Arguments) -> (step: Step)
    ensures
        step@ == started(arguments@),
{
    let voice = resolve_voice(arguments.voice);
    let output = output_target(arguments.output);
    match arguments.text {
        Some(text) => submit(text, voice, output),
        None => Step::ReadInput { voice, output },
    }
}

/// Goes on after standard input was read.
pub fn with_input(voice: String, output: OutputTarget, input: Option<String>) -> (step: Step)
    ensures
        step@ == input_taken(voice@, output@, optional_text(input)),
{
    match input {
        Some(text) => submit(text, voice, output),
        None => Step::Abort(SpeechError::Input),
    }
}

/// Goes on after decoding: the audio is to be written, or the run fails
/// with the error that decoding gave.
pub fn with_audio(output: OutputTarget, audio: Result<Vec<u8>, SpeechError>) -> (step: Step)
    ensures
        match audio {
            Ok(bytes) => step == (Step::Write { output, audio: bytes }),
            Err(error) => step == Step::Abort(error),
        },
{
    match audio {
        Ok(bytes) => Step::Write { output, audio: bytes },
        Err(error) => Step::Abort(error),
    }
}

/// Goes on after the endpoint was asked. The body is decoded whatever
/// status came with it.
pub fn with_reply(output: OutputTarget, reply: Option<String>) -> (step: Step)
    ensures
        step@ == replied(output@, optional_text(reply)),
{
    match reply {
        Some(body) => with_audio(output, decode_response(body.as_str())),
        None => Step::Abort(SpeechError::Network),
    }
}

/// Ends the run after the write.
pub fn with_write(done: bool) -> (step: Step)
    ensures
        step@ == written(done),
{
    if done {
        Step::Done
    } else {
        Step::Abort(SpeechError::Output)
    }
}

} // verus!
