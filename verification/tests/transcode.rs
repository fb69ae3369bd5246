use rusty_server::error::PipelineError;
use rusty_server::transcode::{command_for, prepare_transcode, read_transcode, TranscodeOutcome};

#[test]
fn the_converter_is_asked_for_mono_pcm_wav_at_24000_hz() {
    let command = command_for(vec![1, 2, 3]);
    assert_eq!(command.program, "ffmpeg");
    assert_eq!(
        command.arguments,
        ["-i", "pipe:0", "-ac", "1", "-ar", "24000", "-acodec", "pcm_s16le", "-f", "wav", "-y", "pipe:1"]
    );
    assert_eq!(command.input, [1, 2, 3]);
}

#[test]
fn the_converter_reads_the_decoded_audio() {
    let command = prepare_transcode("aGVsbG8=").unwrap();
    assert_eq!(command.input, b"hello");
    assert_eq!(command.arguments.len(), 12);
    assert_eq!(prepare_transcode("###"), Err(PipelineError::DecodeError));
}

#[test]
fn a_converter_that_succeeds_gives_its_output() {
    let outcome = TranscodeOutcome::Exited {
        success: true,
        output: b"RIFF".to_vec(),
        diagnostics: "size= 1kB".to_string(),
    };
    assert_eq!(read_transcode(outcome), Ok(b"RIFF".to_vec()));
}

#[test]
fn a_converter_that_fails_gives_its_diagnostics_unchanged() {
    let outcome = TranscodeOutcome::Exited {
        success: false,
        output: b"partial".to_vec(),
        diagnostics: "pipe:0: Invalid data found when processing input\n".to_string(),
    };
    assert_eq!(
        read_transcode(outcome),
        Err(PipelineError::TranscodeError {
            diagnostics: "pipe:0: Invalid data found when processing input\n".to_string()
        })
    );
    let outcome = TranscodeOutcome::NotRun { diagnostics: "No such file or directory".to_string() };
    assert_eq!(
        read_transcode(outcome),
        Err(PipelineError::TranscodeError { diagnostics: "No such file or directory".to_string() })
    );
}
