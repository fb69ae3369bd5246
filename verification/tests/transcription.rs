use rusty_server::error::PipelineError;
use rusty_server::http::HttpOutcome;
use rusty_server::transcription::{read_transcription, transcription_request, TranscriptionRequest};

fn reply(status: u16, body: &str) -> HttpOutcome {
    HttpOutcome::Reply { status, body: body.as_bytes().to_vec() }
}

#[test]
fn the_upload_names_model_language_and_file() {
    assert_eq!(
        transcription_request(b"RIFF".to_vec(), "pa"),
        Ok(TranscriptionRequest {
            model: "whisper-1".to_string(),
            language: "pa".to_string(),
            file_name: "audio.wav".to_string(),
            mime_type: "audio/wav".to_string(),
            audio: b"RIFF".to_vec(),
        })
    );
    assert_eq!(transcription_request(Vec::new(), "en").unwrap().language, "en");
    assert_eq!(transcription_request(Vec::new(), "hi").unwrap().language, "hi");
}

#[test]
fn no_upload_is_made_for_an_unsupported_language() {
    assert_eq!(transcription_request(b"RIFF".to_vec(), "fr"), Err(PipelineError::InvalidLanguage));
    assert_eq!(transcription_request(Vec::new(), ""), Err(PipelineError::InvalidLanguage));
}

#[test]
fn the_transcript_is_the_text_of_the_reply() {
    assert_eq!(read_transcription(reply(200, r#"{"text":"I feel stuck"}"#)), Ok("I feel stuck".to_string()));
    assert_eq!(read_transcription(reply(200, r#"{"text":""}"#)), Ok(String::new()));
    assert_eq!(
        read_transcription(reply(200, "{\"text\":\"\u{0a24}\u{0a41}\",\"x\":1}")),
        Ok("\u{0a24}\u{0a41}".to_string())
    );
}

#[test]
fn a_reply_without_transcript_is_malformed() {
    for body in [r#"{}"#, r#"{"text":null}"#, r#"{"text":5}"#, r#"{"Text":"a"}"#, r#"["text"]"#, r#""text""#] {
        assert_eq!(read_transcription(reply(200, body)), Err(PipelineError::MalformedResponse), "{body}");
    }
}

#[test]
fn a_failed_transcription_keeps_status_and_body() {
    assert_eq!(
        read_transcription(reply(429, r#"{"error":"slow down"}"#)),
        Err(PipelineError::UpstreamError { status: 429, body: br#"{"error":"slow down"}"#.to_vec() })
    );
    assert_eq!(read_transcription(HttpOutcome::TransportFailure), Err(PipelineError::TransportError));
    assert_eq!(read_transcription(reply(200, "<html>")), Err(PipelineError::TransportError));
}
