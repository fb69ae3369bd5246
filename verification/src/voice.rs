//! The voice flow: from captured audio to a spoken reply. The flow is a
//! state machine. It says which outside work comes next and reads what that
//! work gave; doing the work is left to the caller, who hands each outcome
//! back as an event.
//!
//! The stages follow one another in a fixed order: transcode, transcribe,
//! generate, synthesize. The first failure ends the flow.

use crate::encoding::{base64_bytes, encode_audio, encoded_audio, decode_audio};
use crate::error::{fault_for, ErrorModel, Fault, PipelineError};
use crate::generation::{generated_of, generation_of, generation_prompt, prompt_for, read_generation};
use crate::http::{accepted_body, HttpOutcome, OutcomeModel};
use crate::json::{Json, JsonTree};
use crate::language::{language_of, parse_language, Language};
use crate::persona::{persona_of_code, ModeFlags};
use crate::store::{turn_models, ChatTurn, TurnModel};
use crate::synthesis::{read_synthesis, speech_body, synthesis_body, synthesis_of};
use crate::transcode::{
    command_for, converter_command, read_transcode, transcoded, CommandModel, ConverterCommand,
    TranscodeModel, TranscodeOutcome,
};
use crate::transcription::{
    read_transcription, transcript_of, transcription_of, transcription_upload, upload_for,
    TranscriptionModel, TranscriptionRequest,
};
use vstd::prelude::*;

verus! {

/// A request of the voice flow.
#[derive(Clone, Debug, PartialEq, Eq)]
pub struct VoiceRequest {
    pub audio_base64: String,
    pub language: String,
    pub modes: ModeFlags,
}

/// The mathematical value of a [`VoiceRequest`].
pub struct VoiceRequestModel {
    pub audio_base64: Seq<char>,
    pub language: Seq<char>,
    pub modes: ModeFlags,
}

impl View for VoiceRequest {
    type V = VoiceRequestModel;

    open spec fn view(&self) -> VoiceRequestModel {
        VoiceRequestModel {
            audio_base64: self.audio_base64@,
            language: self.language@,
            modes: self.modes,
        }
    }
}

/// The response of the voice flow: the synthesized speech as base64 text,
/// and the text that is spoken.
#[derive(Clone, Debug, PartialEq, Eq)]
pub struct VoiceResponse {
    pub audio_base64: String,
    pub response_text: String,
}

/// The mathematical value of a [`VoiceResponse`].
pub struct VoiceResponseModel {
    pub audio_base64: Seq<char>,
    pub response_text: Seq<char>,
}

impl View for VoiceResponse {
    type V = VoiceResponseModel;

    open spec fn view(&self) -> VoiceResponseModel {
        VoiceResponseModel {
            audio_base64: self.audio_base64@,
            response_text: self.response_text@,
        }
    }
}

/// Where a voice flow stands: which outcome it waits for, and what it keeps
/// for the stages to come.
#[derive(Clone, Debug, PartialEq, Eq)]
pub enum VoiceState {
    /// Waiting for the converter.
    Transcoding { language: Language, modes: ModeFlags },
    /// Waiting for the transcript.
    Transcribing { language: Language, modes: ModeFlags },
    /// Waiting for the generated text.
    Generating { language: Language },
    /// Waiting for the speech.
    Synthesizing { response_text: String },
    /// The flow has ended, with a response or a failure.
    Finished,
}

/// The mathematical value of a [`VoiceState`].
pub enum VoiceStateModel {
    Transcoding { language: Language, modes: ModeFlags },
    Transcribing { language: Language, modes: ModeFlags },
    Generating { language: Language },
    Synthesizing { response_text: Seq<char> },
    Finished,
}

impl View for VoiceState {
    type V = VoiceStateModel;

    open spec fn view(&self) -> VoiceStateModel {
        match self {
            VoiceState::Transcoding { language, modes } => VoiceStateModel::Transcoding {
                language: *language,
                modes: *modes,
            },
            VoiceState::Transcribing { language, modes } => VoiceStateModel::Transcribing {
                language: *language,
                modes: *modes,
            },
            VoiceState::Generating { language } => VoiceStateModel::Generating {
                language: *language,
            },
            VoiceState::Synthesizing { response_text } => VoiceStateModel::Synthesizing {
                response_text: response_text@,
            },
            VoiceState::Finished => VoiceStateModel::Finished,
        }
    }
}

/// What the caller of the flow is to do next.
#[derive(Debug, PartialEq, Eq)]
pub enum VoiceAction {
    /// Run the converter and hand back how it ended.
    Transcode(ConverterCommand),
    /// Upload the audio to the transcription service.
    Transcribe(TranscriptionRequest),
    /// Post the body to the chat-completion service.
    Generate { body: Json },
    /// Post the body to the synthesis service.
    Synthesize { body: Json },
    /// Answer the request: the flow has succeeded.
    Respond(VoiceResponse),
    /// Report the failure: the flow has failed.
    Fail(PipelineError),
    /// Do nothing: the event did not answer what the flow waits for.
    Nothing,
}

/// The mathematical value of a [`VoiceAction`].
pub enum VoiceActionModel {
    Transcode(CommandModel),
    Transcribe(TranscriptionModel),
    Generate { body: JsonTree },
    Synthesize { body: JsonTree },
    Respond(VoiceResponseModel),
    Fail(ErrorModel),
    Nothing,
}

impl View for VoiceAction {
    type V = VoiceActionModel;

    open spec fn view(&self) -> VoiceActionModel {
        match self {
            VoiceAction::Transcode(command) => VoiceActionModel::Transcode(command@),
            VoiceAction::Transcribe(request) => VoiceActionModel::Transcribe(request@),
            VoiceAction::Generate { body } => VoiceActionModel::Generate { body: body@ },
            VoiceAction::Synthesize { body } => VoiceActionModel::Synthesize { body: body@ },
            VoiceAction::Respond(response) => VoiceActionModel::Respond(response@),
            VoiceAction::Fail(error) => VoiceActionModel::Fail(error@),
            VoiceAction::Nothing => VoiceActionModel::Nothing,
        }
    }
}

/// What the caller hands back to the flow.
#[derive(Clone, Debug, PartialEq, Eq)]
pub enum VoiceEvent {
    /// How the converter ended.
    Transcoded(TranscodeOutcome),
    /// How the call to a service ended.
    Replied(HttpOutcome),
}

/// The mathematical value of a [`VoiceEvent`].
pub enum VoiceEventModel {
    Transcoded(TranscodeModel),
    Replied(OutcomeModel),
}

impl View for VoiceEvent {
    type V = VoiceEventModel;

    open spec fn view(&self) -> VoiceEventModel {
        match self {
            VoiceEvent::Transcoded(outcome) => VoiceEventModel::Transcoded(outcome@),
            VoiceEvent::Replied(outcome) => VoiceEventModel::Replied(outcome@),
        }
    }
}

/// The end of a flow that has failed.
pub open spec fn voice_failure(error: ErrorModel) -> (VoiceStateModel, VoiceActionModel) {
    (VoiceStateModel::Finished, VoiceActionModel::Fail(error))
}

/// How a voice flow begins. The language is validated first, then the audio
/// is decoded; only then is the converter asked for.
pub open spec fn voice_begin(request: VoiceRequestModel) -> (VoiceStateModel, VoiceActionModel) {
    match language_of(request.language) {
        None => voice_failure(ErrorModel::InvalidLanguage),
        Some(language) => match base64_bytes(request.audio_base64) {
            None => voice_failure(ErrorModel::DecodeError),
            Some(input) => (
                VoiceStateModel::Transcoding { language, modes: request.modes },
                VoiceActionModel::Transcode(converter_command(input)),
            ),
        },
    }
}

/// The response for synthesized audio, where the audio can be encoded for
/// transport; audio that cannot is a `MalformedResponse`.
pub open spec fn voice_response(audio: Seq<u8>, response_text: Seq<char>) -> (
    VoiceStateModel,
    VoiceActionModel,
) {
    match encoded_audio(audio) {
        Some(audio_base64) => (
            VoiceStateModel::Finished,
            VoiceActionModel::Respond(VoiceResponseModel { audio_base64, response_text }),
        ),
        None => voice_failure(ErrorModel::MalformedResponse),
    }
}

/// How a voice flow goes on: the state that follows a state and an event,
/// and what the caller is to do next. The prompt of the voice flow has no
/// history.
pub open spec fn voice_next(state: VoiceStateModel, event: VoiceEventModel) -> (
    VoiceStateModel,
    VoiceActionModel,
) {
    match (state, event) {
        (
            VoiceStateModel::Transcoding { language, modes },
            VoiceEventModel::Transcoded(outcome),
        ) => match transcoded(outcome) {
            Err(error) => voice_failure(error),
            Ok(audio) => (
                VoiceStateModel::Transcribing { language, modes },
                VoiceActionModel::Transcribe(transcription_upload(audio, language)),
            ),
        },
        (
            VoiceStateModel::Transcribing { language, modes },
            VoiceEventModel::Replied(outcome),
        ) => match transcript_of(outcome) {
            Err(error) => voice_failure(error),
            Ok(transcript) => (
                VoiceStateModel::Generating { language },
                VoiceActionModel::Generate {
                    body: generation_prompt(transcript, language, modes, Seq::empty()),
                },
            ),
        },
        (VoiceStateModel::Generating { language }, VoiceEventModel::Replied(outcome)) => match generated_of(
            outcome,
        ) {
            Err(error) => voice_failure(error),
            Ok(response_text) => (
                VoiceStateModel::Synthesizing { response_text },
                VoiceActionModel::Synthesize { body: synthesis_body(response_text, language) },
            ),
        },
        (
            VoiceStateModel::Synthesizing { response_text },
            VoiceEventModel::Replied(outcome),
        ) => match accepted_body(outcome) {
            Err(error) => voice_failure(error),
            Ok(audio) => voice_response(audio, response_text),
        },
        (state, _) => (state, VoiceActionModel::Nothing),
    }
}

/// Begins a voice flow.
pub fn voice_start(request: VoiceRequest) -> (begun: (VoiceState, VoiceAction))
    ensures
        (begun.0@, begun.1@) == voice_begin(request@),
{
    match parse_language(request.language.as_str()) {
        Err(error) => (VoiceState::Finished, VoiceAction::Fail(error)),
        Ok(language) => match decode_audio(request.audio_base64.as_str()) {
            Err(error) => (VoiceState::Finished, VoiceAction::Fail(error)),
            Ok(input) => (
                VoiceState::Transcoding { language, modes: request.modes },
                VoiceAction::Transcode(command_for(input)),
            ),
        },
    }
}

/// Takes a voice flow one step further.
pub fn voice_step(state: VoiceState, event: VoiceEvent) -> (next: (VoiceState, VoiceAction))
    ensures
        (next.0@, next.1@) == voice_next(state@, event@),
{
    match state {
        VoiceState::Transcoding { language, modes } => match event {
            VoiceEvent::Transcoded(outcome) => match read_transcode(outcome) {
                Err(error) => (VoiceState::Finished, VoiceAction::Fail(error)),
                Ok(audio) => (
                    VoiceState::Transcribing { language, modes },
                    VoiceAction::Transcribe(upload_for(audio, language)),
                ),
            },
            VoiceEvent::Replied(_) => (
                VoiceState::Transcoding { language, modes },
                VoiceAction::Nothing,
            ),
        },
        VoiceState::Transcribing { language, modes } => match event {
            VoiceEvent::Replied(outcome) => match read_transcription(outcome) {
                Err(error) => (VoiceState::Finished, VoiceAction::Fail(error)),
                Ok(transcript) => {
                    let none: Vec<ChatTurn> = Vec::new();
                    proof {
                        assert(turn_models(none@) =~= Seq::<TurnModel>::empty());
                    }
                    (
                        VoiceState::Generating { language },
                        VoiceAction::Generate {
                            body: prompt_for(transcript.as_str(), language, modes, &none),
                        },
                    )
                },
            },
            VoiceEvent::Transcoded(_) => (
                VoiceState::Transcribing { language, modes },
                VoiceAction::Nothing,
            ),
        },
        VoiceState::Generating { language } => match event {
            VoiceEvent::Replied(outcome) => match read_generation(outcome) {
                Err(error) => (VoiceState::Finished, VoiceAction::Fail(error)),
                Ok(response_text) => {
                    let body = speech_body(response_text.as_str(), language);
                    (VoiceState::Synthesizing { response_text }, VoiceAction::Synthesize { body })
                },
            },
            VoiceEvent::Transcoded(_) => (VoiceState::Generating { language }, VoiceAction::Nothing),
        },
        VoiceState::Synthesizing { response_text } => match event {
            VoiceEvent::Replied(outcome) => match read_synthesis(outcome) {
                Err(error) => (VoiceState::Finished, VoiceAction::Fail(error)),
                Ok(audio) => match encode_audio(audio.as_slice()) {
                    Some(audio_base64) => (
                        VoiceState::Finished,
                        VoiceAction::Respond(VoiceResponse { audio_base64, response_text }),
                    ),
                    None => (
                        VoiceState::Finished,
                        VoiceAction::Fail(PipelineError::MalformedResponse),
                    ),
                },
            },
            VoiceEvent::Transcoded(_) => (
                VoiceState::Synthesizing { response_text },
                VoiceAction::Nothing,
            ),
        },
        VoiceState::Finished => (VoiceState::Finished, VoiceAction::Nothing),
    }
}

/// A request in an unsupported language fails at once with
/// `InvalidLanguage`, a fault of the client, whatever its audio holds: the
/// audio is not decoded and the converter is not asked for.
pub proof fn lemma_unsupported_language_ends_voice_flow(request: VoiceRequestModel)
    requires
        language_of(request.language) is None,
    ensures
        voice_begin(request) == voice_failure(ErrorModel::InvalidLanguage),
        fault_for(ErrorModel::InvalidLanguage) == Fault::BadRequest,
{
}

/// Every stage that takes a language refuses a code that names no supported
/// language with `InvalidLanguage`, and makes nothing that could be sent:
/// no upload, no prompt, no request for speech.
pub proof fn lemma_every_stage_refuses_unsupported_language(
    code: Seq<char>,
    modes: ModeFlags,
    audio: Seq<u8>,
    text: Seq<char>,
    history: Seq<TurnModel>,
)
    requires
        language_of(code) is None,
    ensures
        transcription_of(audio, code) == Err::<
            TranscriptionModel,
            ErrorModel,
        >(ErrorModel::InvalidLanguage),
        persona_of_code(code, modes) == Err::<Seq<char>, ErrorModel>(
            ErrorModel::InvalidLanguage,
        ),
        generation_of(text, code, modes, history) == Err::<
            JsonTree,
            ErrorModel,
        >(ErrorModel::InvalidLanguage),
        synthesis_of(text, code) == Err::<JsonTree, ErrorModel>(
            ErrorModel::InvalidLanguage,
        ),
{
}

/// A converter that fails ends the flow with a fault of the server, and the
/// transcription service is not asked for.
pub proof fn lemma_failed_transcode_ends_voice_flow(
    language: Language,
    modes: ModeFlags,
    outcome: TranscodeModel,
)
    requires
        transcoded(outcome) is Err,
    ensures
        voice_next(
            VoiceStateModel::Transcoding { language, modes },
            VoiceEventModel::Transcoded(outcome),
        ) == voice_failure(transcoded(outcome)->Err_0),
        fault_for(transcoded(outcome)->Err_0) == Fault::ServerFault,
{
}

/// The stages of a voice flow come in one order. Each action is asked for
/// from one state only, the one before it; the converter is asked for at
/// the beginning and never again; a failure ends the flow; and a flow that
/// has ended stays so and asks for nothing.
pub proof fn lemma_voice_stages_in_order(state: VoiceStateModel, event: VoiceEventModel)
    ensures
        !(voice_next(state, event).1 is Transcode),
        voice_next(state, event).1 is Transcribe ==> state is Transcoding && voice_next(
            state,
            event,
        ).0 is Transcribing,
        voice_next(state, event).1 is Generate ==> state is Transcribing && voice_next(
            state,
            event,
        ).0 is Generating,
        voice_next(state, event).1 is Synthesize ==> state is Generating && voice_next(
            state,
            event,
        ).0 is Synthesizing,
        voice_next(state, event).1 is Respond ==> state is Synthesizing && voice_next(
            state,
            event,
        ).0 is Finished,
        voice_next(state, event).1 is Fail ==> voice_next(state, event).0 is Finished,
        voice_next(state, event).1 is Nothing ==> voice_next(state, event).0 == state,
        state is Finished ==> voice_next(state, event) == (state, VoiceActionModel::Nothing),
{
}

/// Once the flow is under way the caller is never at fault: every failure
/// of a step is a fault of the server.
pub proof fn lemma_voice_step_failures_are_server_faults(
    state: VoiceStateModel,
    event: VoiceEventModel,
)
    ensures
        voice_next(state, event).1 matches VoiceActionModel::Fail(error) ==> fault_for(error)
            == Fault::ServerFault,
{
}

} // verus!
