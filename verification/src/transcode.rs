//! The audio transcoder: an outside converter that turns whatever audio the
//! browser captured into mono 16-bit PCM WAV at 24000 Hz. This module says
//! how the converter is called and how its outcome is read.

use crate::encoding::{decode_audio, decoded_audio};
use crate::error::{bytes_result, ErrorModel, PipelineError};
use vstd::prelude::*;

verus! {

/// A call of the converter: the program, its arguments and what it reads
/// from its input stream.
#[derive(Clone, Debug, PartialEq, Eq)]
pub struct ConverterCommand {
    pub program: String,
    pub arguments: Vec<String>,
    pub input: Vec<u8>,
}

/// The mathematical value of a [`ConverterCommand`].
pub struct CommandModel {
    pub program: Seq<char>,
    pub arguments: Seq<Seq<char>>,
    pub input: Seq<u8>,
}

/// The texts of a sequence of strings.
pub open spec fn texts_of(strings: Seq<String>) -> Seq<Seq<char>> {
    strings.map_values(|text: String| text@)
}

impl View for ConverterCommand {
    type V = CommandModel;

    open spec fn view(&self) -> CommandModel {
        CommandModel {
            program: self.program@,
            arguments: texts_of(self.arguments@),
            input: self.input@,
        }
    }
}

/// How the converter ended.
#[derive(Clone, Debug, PartialEq, Eq)]
pub enum TranscodeOutcome {
    /// The converter ran: whether its exit status reports success, what it
    /// wrote to its output stream and what to its diagnostic stream.
    Exited { success: bool, output: Vec<u8>, diagnostics: String },
    /// The converter could not be started, fed or awaited.
    NotRun { diagnostics: String },
}

/// The mathematical value of a [`TranscodeOutcome`].
pub enum TranscodeModel {
    Exited { success: bool, output: Seq<u8>, diagnostics: Seq<char> },
    NotRun { diagnostics: Seq<char> },
}

impl View for TranscodeOutcome {
    type V = TranscodeModel;

    open spec fn view(&self) -> TranscodeModel {
        match self {
            TranscodeOutcome::Exited { success, output, diagnostics } => TranscodeModel::Exited {
                success: *success,
                output: output@,
                diagnostics: diagnostics@,
            },
            TranscodeOutcome::NotRun { diagnostics } => TranscodeModel::NotRun {
                diagnostics: diagnostics@,
            },
        }
    }
}

/// The arguments of the converter: read the input stream, one channel,
/// 24000 Hz, signed 16-bit little-endian PCM, WAV container, write to the
/// output stream.
pub open spec fn converter_arguments() -> Seq<Seq<char>> {
    seq![
        "-i"@,
        "pipe:0"@,
        "-ac"@,
        "1"@,
        "-ar"@,
        "24000"@,
        "-acodec"@,
        "pcm_s16le"@,
        "-f"@,
        "wav"@,
        "-y"@,
        "pipe:1"@,
    ]
}

/// The call of the converter on given input.
pub open spec fn converter_command(input: Seq<u8>) -> CommandModel {
    CommandModel { program: "ffmpeg"@, arguments: converter_arguments(), input }
}

/// The audio that an outcome of the converter gives. A converter that did
/// not run, or that ended with a status other than success, is a
/// `TranscodeError` with the diagnostics unchanged.
pub open spec fn transcoded(outcome: TranscodeModel) -> Result<Seq<u8>, ErrorModel> {
    match outcome {
        TranscodeModel::Exited { success, output, diagnostics } => if success {
            Ok(output)
        } else {
            Err(ErrorModel::TranscodeError { diagnostics })
        },
        TranscodeModel::NotRun { diagnostics } => Err(ErrorModel::TranscodeError { diagnostics }),
    }
}

/// The call of the converter for the audio of a request, or `DecodeError`
/// where the audio is no valid base64.
pub open spec fn transcode_of(audio: Seq<char>) -> Result<CommandModel, ErrorModel> {
    match decoded_audio(audio) {
        Ok(input) => Ok(converter_command(input)),
        Err(error) => Err(error),
    }
}

/// Makes the call of the converter on given input.
pub fn command_for(input: Vec<u8>) -> (command: ConverterCommand)
    ensures
        command@ == converter_command(input@),
{
    let mut arguments: Vec<String> = Vec::new();
    arguments.push(String::from_str("-i"));
    arguments.push(String::from_str("pipe:0"));
    arguments.push(String::from_str("-ac"));
    arguments.push(String::from_str("1"));
    arguments.push(String::from_str("-ar"));
    arguments.push(String::from_str("24000"));
    arguments.push(String::from_str("-acodec"));
    arguments.push(String::from_str("pcm_s16le"));
    arguments.push(String::from_str("-f"));
    arguments.push(String::from_str("wav"));
    arguments.push(String::from_str("-y"));
    arguments.push(String::from_str("pipe:1"));
    proof {
        assert(texts_of(arguments@) =~= converter_arguments());
    }
    ConverterCommand { program: String::from_str("ffmpeg"), arguments, input }
}

/// Decodes the audio of a request and makes the call of the converter on it.
pub fn prepare_transcode(audio: &str) -> (command: Result<ConverterCommand, PipelineError>)
    ensures
        match command {
            Ok(command) => transcode_of(audio@) == Ok::<CommandModel, ErrorModel>(command@),
            Err(error) => transcode_of(audio@) == Err::<CommandModel, ErrorModel>(error@),
        },
{
    match decode_audio(audio) {
        Ok(input) => Ok(command_for(input)),
        Err(error) => Err(error),
    }
}

/// Reads the outcome of the converter.
pub fn read_transcode(outcome: TranscodeOutcome) -> (audio: Result<Vec<u8>, PipelineError>)
    ensures
        bytes_result(audio) == transcoded(outcome@),
{
    match outcome {
        TranscodeOutcome::Exited { success, output, diagnostics } => if success {
            Ok(output)
        } else {
            Err(PipelineError::TranscodeError { diagnostics })
        },
        TranscodeOutcome::NotRun { diagnostics } => Err(
            PipelineError::TranscodeError { diagnostics },
        ),
    }
}

} // verus!
