//! The transcription client: what is sent to the speech-to-text service and
//! how its reply is read.

use crate::error::{text_result, ErrorModel, PipelineError};
use crate::http::{accept_document, accepted_document, HttpOutcome, OutcomeModel};
use crate::json::{Json, JsonTree};
use crate::language::{language_code, language_of, parse_language, Language};
use vstd::prelude::*;

verus! {

/// The parts of the upload that asks for a transcript.
#[derive(Clone, Debug, PartialEq, Eq)]
pub struct TranscriptionRequest {
    pub model: String,
    pub language: String,
    pub file_name: String,
    pub mime_type: String,
    pub audio: Vec<u8>,
}

/// The mathematical value of a [`TranscriptionRequest`].
pub struct TranscriptionModel {
    pub model: Seq<char>,
    pub language: Seq<char>,
    pub file_name: Seq<char>,
    pub mime_type: Seq<char>,
    pub audio: Seq<u8>,
}

impl View for TranscriptionRequest {
    type V = TranscriptionModel;

    open spec fn view(&self) -> TranscriptionModel {
        TranscriptionModel {
            model: self.model@,
            language: self.language@,
            file_name: self.file_name@,
            mime_type: self.mime_type@,
            audio: self.audio@,
        }
    }
}

/// The upload for audio in a language: the audio as a WAV file, the model
/// and the language as a hint.
pub open spec fn transcription_upload(audio: Seq<u8>, language: Language) -> TranscriptionModel {
    TranscriptionModel {
        model: "whisper-1"@,
        language: language_code(language),
        file_name: "audio.wav"@,
        mime_type: "audio/wav"@,
        audio,
    }
}

/// The upload for audio in a language given by its code; `InvalidLanguage`
/// where the code names no supported language.
pub open spec fn transcription_of(audio: Seq<u8>, code: Seq<char>) -> Result<
    TranscriptionModel,
    ErrorModel,
> {
    match language_of(code) {
        Some(language) => Ok(transcription_upload(audio, language)),
        None => Err(ErrorModel::InvalidLanguage),
    }
}

/// The transcript in the document of a reply: its string member `text`.
/// Where that is missing the reply is a `MalformedResponse`.
pub open spec fn transcript_in(document: JsonTree) -> Result<Seq<char>, ErrorModel> {
    match document.text_member("text"@) {
        Some(transcript) => Ok(transcript),
        None => Err(ErrorModel::MalformedResponse),
    }
}

/// The transcript that the outcome of a call gives.
pub open spec fn transcript_of(outcome: OutcomeModel) -> Result<Seq<char>, ErrorModel> {
    match accepted_document(outcome) {
        Ok(document) => transcript_in(document),
        Err(error) => Err(error),
    }
}

/// Makes the upload for audio in a language.
pub fn upload_for(audio: Vec<u8>, language: Language) -> (request: TranscriptionRequest)
    ensures
        request@ == transcription_upload(audio@, language),
{
    TranscriptionRequest {
        model: String::from_str("whisper-1"),
        language: String::from_str(language.code()),
        file_name: String::from_str("audio.wav"),
        mime_type: String::from_str("audio/wav"),
        audio,
    }
}

/// Makes the upload for audio in a language given by its code. The code is
/// validated before anything is made: an unsupported one gives
/// `InvalidLanguage` and no upload.
pub fn transcription_request(audio: Vec<u8>, language: &str) -> (request: Result<
    TranscriptionRequest,
    PipelineError,
>)
    ensures
        match request {
            Ok(request) => transcription_of(audio@, language@) == Ok::<
                TranscriptionModel,
                ErrorModel,
            >(request@),
            Err(error) => transcription_of(audio@, language@) == Err::<
                TranscriptionModel,
                ErrorModel,
            >(error@),
        },
{
    match parse_language(language) {
        Ok(known) => Ok(upload_for(audio, known)),
        Err(error) => Err(error),
    }
}

/// Takes the transcript out of the document of a reply.
pub fn transcript_from(document: &Json) -> (transcript: Result<String, PipelineError>)
    ensures
        text_result(transcript) == transcript_in(document@),
{
    match document.text_member("text") {
        Some(transcript) => Ok(String::from_str(transcript)),
        None => Err(PipelineError::MalformedResponse),
    }
}

/// Reads the outcome of a call to the transcription service.
pub fn read_transcription(outcome: HttpOutcome) -> (transcript: Result<String, PipelineError>)
    ensures
        text_result(transcript) == transcript_of(outcome@),
{
    match accept_document(outcome) {
        Ok(document) => transcript_from(&document),
        Err(error) => Err(error),
    }
}

} // verus!
