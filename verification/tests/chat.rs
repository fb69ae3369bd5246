use rusty_server::chat::{
    chat_start, chat_step, chat_step_at, may_write, ChatAction, ChatRequest, ChatResponse, ChatState,
};
use rusty_server::corpus::{BASE_EN, GUIDANCE_EN, OVERLAY_EN, PREAMBLE};
use rusty_server::error::{fault_of, Fault, PipelineError};
use rusty_server::http::HttpOutcome;
use rusty_server::json::Json;
use rusty_server::language::Language;
use rusty_server::persona::ModeFlags;
use rusty_server::store::{record_turn_from, store_record, ChatTurn, Speaker};

const PLAIN: ModeFlags = ModeFlags { gen_z: false, sarcastic: false, shenanigan: false, seductive: false };
const STAMP: &str = "2025-01-02T03:04:05+00:00";

fn request(message: &str, language: &str) -> ChatRequest {
    ChatRequest { message: message.to_string(), language: language.to_string(), modes: PLAIN }
}

fn reply(status: u16, body: &str) -> HttpOutcome {
    HttpOutcome::Reply { status, body: body.as_bytes().to_vec() }
}

fn generating() -> ChatState {
    let (state, _) = chat_start(Some("Bearer token"), request("I feel stuck", "en"));
    let (state, _) = chat_step_at(state, reply(200, r#"{"id":"user-1"}"#), Some(STAMP));
    let (state, _) = chat_step_at(state, reply(200, "[]"), Some(STAMP));
    state
}

#[test]
fn a_chat_runs_from_credential_to_stored_turns() {
    let (state, action) = chat_start(Some("Bearer token"), request("I feel stuck", "en"));
    assert_eq!(state, ChatState::VerifyingIdentity { request: request("I feel stuck", "en") });
    assert_eq!(action, ChatAction::VerifyIdentity { authorization: "Bearer token".to_string() });

    let (state, action) = chat_step_at(state, reply(200, r#"{"id":"user-1"}"#), Some(STAMP));
    assert_eq!(
        state,
        ChatState::ReadingHistory {
            user_id: "user-1".to_string(),
            language: Language::English,
            modes: PLAIN,
            message: "I feel stuck".to_string(),
        }
    );
    assert_eq!(
        action,
        ChatAction::ReadHistory {
            query: "/rest/v1/conversations?select=message&user_id=eq.user-1&order=timestamp.desc&limit=10"
                .to_string()
        }
    );

    let (state, action) = chat_step_at(state, reply(200, "[]"), Some(STAMP));
    assert_eq!(
        state,
        ChatState::Generating { user_id: "user-1".to_string(), message: "I feel stuck".to_string() }
    );
    match action {
        ChatAction::Generate { body } => {
            let messages = body.member("messages").unwrap().items().unwrap();
            assert_eq!(messages.len(), 2);
            let persona = messages[0].text_member("content").unwrap();
            assert!(persona.starts_with(PREAMBLE));
            assert_eq!(persona, format!("{PREAMBLE}{GUIDANCE_EN}{BASE_EN}"));
            assert!(persona.ends_with(BASE_EN));
            assert!(!persona.contains(OVERLAY_EN));
            assert_eq!(messages[0].text_member("role"), Some("system"));
            assert_eq!(messages[1].text_member("role"), Some("user"));
            assert_eq!(messages[1].text_member("content"), Some("I feel stuck"));
        },
        other => panic!("{other:?}"),
    }

    let generated = r#"{"choices":[{"message":{"content":"Let's take it slowly."}}]}"#;
    let (state, action) = chat_step_at(state, reply(200, generated), Some(STAMP));
    assert_eq!(
        state,
        ChatState::StoringUserTurn {
            user_id: "user-1".to_string(),
            response_text: "Let's take it slowly.".to_string(),
        }
    );
    let user_turn = ChatTurn { role: Speaker::User, content: "I feel stuck".to_string() };
    assert_eq!(action, ChatAction::Store { record: store_record("user-1", &user_turn, STAMP) });

    let (state, action) = chat_step_at(state, reply(201, ""), Some(STAMP));
    assert_eq!(
        state,
        ChatState::StoringAssistantTurn { response_text: "Let's take it slowly.".to_string() }
    );
    let assistant_turn =
        ChatTurn { role: Speaker::Assistant, content: "Let's take it slowly.".to_string() };
    assert_eq!(action, ChatAction::Store { record: store_record("user-1", &assistant_turn, STAMP) });

    let (state, action) = chat_step_at(state, reply(201, ""), Some(STAMP));
    assert_eq!(state, ChatState::Finished);
    assert_eq!(
        action,
        ChatAction::Respond(ChatResponse { response_text: "Let's take it slowly.".to_string() })
    );

    let (state, action) = chat_step_at(state, reply(200, "{}"), Some(STAMP));
    assert_eq!(state, ChatState::Finished);
    assert_eq!(action, ChatAction::Nothing);
}

#[test]
fn the_history_goes_into_the_prompt_oldest_first() {
    let (state, _) = chat_start(Some("Bearer t"), request("C", "hi"));
    let (state, _) = chat_step_at(state, reply(200, r#"{"id":"u"}"#), Some(STAMP));
    let listed =
        r#"[{"message":{"role":"assistant","content":"B"}},{"message":{"role":"user","content":"A"}}]"#;
    let (_, action) = chat_step_at(state, reply(200, listed), Some(STAMP));
    match action {
        ChatAction::Generate { body } => {
            let messages = body.member("messages").unwrap().items().unwrap();
            let seen: Vec<(Option<&str>, Option<&str>)> = messages
                .iter()
                .skip(1)
                .map(|m| (m.text_member("role"), m.text_member("content")))
                .collect();
            assert_eq!(
                seen,
                [(Some("user"), Some("A")), (Some("assistant"), Some("B")), (Some("user"), Some("C"))]
            );
        },
        other => panic!("{other:?}"),
    }
}

#[test]
fn a_chat_without_credential_never_starts() {
    for header in [None, Some(""), Some("Basic abc"), Some("bearer abc"), Some("Bearer")] {
        let (state, action) = chat_start(header, request("hi", "en"));
        assert_eq!(state, ChatState::Finished);
        assert_eq!(action, ChatAction::Fail(PipelineError::Unauthorized));
        let (state, action) = chat_step_at(state, reply(200, r#"{"id":"user-1"}"#), Some(STAMP));
        assert_eq!(state, ChatState::Finished);
        assert_eq!(action, ChatAction::Nothing);
    }
    assert_eq!(fault_of(&PipelineError::Unauthorized), Fault::Unauthorized);
}

#[test]
fn an_unverified_credential_ends_the_chat() {
    let outcomes = [
        reply(401, r#"{"id":"user-1"}"#),
        reply(500, ""),
        reply(200, r#"{"id":""}"#),
        reply(200, r#"{}"#),
        reply(200, "not json"),
        HttpOutcome::TransportFailure,
    ];
    for outcome in outcomes {
        let (state, _) = chat_start(Some("Bearer token"), request("hi", "en"));
        let (state, action) = chat_step_at(state, outcome, Some(STAMP));
        assert_eq!(state, ChatState::Finished);
        assert_eq!(action, ChatAction::Fail(PipelineError::Unauthorized));
    }
}

#[test]
fn an_unsupported_language_ends_the_chat_after_the_identity() {
    let (state, action) = chat_start(Some("Bearer token"), request("bonjour", "fr"));
    assert!(matches!(action, ChatAction::VerifyIdentity { .. }));
    let (state, action) = chat_step_at(state, reply(200, r#"{"id":"user-1"}"#), Some(STAMP));
    assert_eq!(state, ChatState::Finished);
    assert_eq!(action, ChatAction::Fail(PipelineError::InvalidLanguage));
    assert_eq!(fault_of(&PipelineError::InvalidLanguage), Fault::BadRequest);
    let (state, _) = chat_start(Some("Bearer token"), request("bonjour", "fr"));
    let (_, action) = chat_step_at(state, reply(403, ""), Some(STAMP));
    assert_eq!(action, ChatAction::Fail(PipelineError::Unauthorized));
}

#[test]
fn a_failed_read_or_generation_ends_the_chat() {
    let (state, _) = chat_start(Some("Bearer token"), request("hi", "en"));
    let (state, _) = chat_step_at(state, reply(200, r#"{"id":"u"}"#), Some(STAMP));
    let (state, action) = chat_step_at(state, reply(503, "store down"), Some(STAMP));
    assert_eq!(state, ChatState::Finished);
    assert_eq!(
        action,
        ChatAction::Fail(PipelineError::UpstreamError { status: 503, body: b"store down".to_vec() })
    );

    let (state, action) = chat_step_at(generating(), reply(200, r#"{"choices":[]}"#), Some(STAMP));
    assert_eq!(state, ChatState::Finished);
    assert_eq!(action, ChatAction::Fail(PipelineError::MalformedResponse));
    let (_, action) = chat_step_at(generating(), HttpOutcome::TransportFailure, Some(STAMP));
    assert_eq!(action, ChatAction::Fail(PipelineError::TransportError));
}

#[test]
fn a_failed_write_fails_the_chat_although_text_was_generated() {
    let generated = r#"{"choices":[{"message":{"content":"text"}}]}"#;
    let (state, _) = chat_step_at(generating(), reply(200, generated), Some(STAMP));
    let (state, action) = chat_step_at(state, reply(500, "no"), Some(STAMP));
    assert_eq!(state, ChatState::Finished);
    let error = PipelineError::UpstreamError { status: 500, body: b"no".to_vec() };
    assert_eq!(fault_of(&error), Fault::ServerFault);
    assert_eq!(action, ChatAction::Fail(error));

    let (state, _) = chat_step_at(generating(), reply(200, generated), Some(STAMP));
    let (state, action) = chat_step_at(state, reply(201, ""), Some(STAMP));
    assert!(matches!(action, ChatAction::Store { .. }));
    let (state, action) = chat_step_at(state, HttpOutcome::TransportFailure, Some(STAMP));
    assert_eq!(state, ChatState::Finished);
    assert_eq!(action, ChatAction::Fail(PipelineError::TransportError));
}

#[test]
fn a_step_stamps_its_record_with_the_time_of_the_call() {
    let generated = r#"{"choices":[{"message":{"content":"text"}}]}"#;
    let before = chrono::Utc::now();
    let (state, action) = chat_step(generating(), reply(200, generated));
    let after = chrono::Utc::now();
    assert_eq!(
        state,
        ChatState::StoringUserTurn { user_id: "user-1".to_string(), response_text: "text".to_string() }
    );
    match action {
        ChatAction::Store { record } => {
            let stamp = chrono::DateTime::parse_from_rfc3339(record.text_member("timestamp").unwrap())
                .unwrap();
            assert!(before <= stamp && stamp <= after);
            assert_eq!(record.text_member("user_id"), Some("user-1"));
            assert_eq!(
                record_turn_from(&record),
                Some(ChatTurn { role: Speaker::User, content: "I feel stuck".to_string() })
            );
            assert!(matches!(record, Json::Object(_)));
        },
        other => panic!("{other:?}"),
    }
}

#[test]
fn a_write_without_timestamp_fails_and_hands_nothing_to_the_store() {
    let generated = r#"{"choices":[{"message":{"content":"text"}}]}"#;
    let (state, action) = chat_step_at(generating(), reply(200, generated), None);
    assert_eq!(state, ChatState::Finished);
    assert_eq!(action, ChatAction::Fail(PipelineError::TransportError));
    assert_eq!(fault_of(&PipelineError::TransportError), Fault::ServerFault);

    let (state, _) = chat_step_at(generating(), reply(200, generated), Some(STAMP));
    let (state, action) = chat_step_at(state, reply(201, ""), None);
    assert_eq!(state, ChatState::Finished);
    assert_eq!(action, ChatAction::Fail(PipelineError::TransportError));
}

#[test]
fn a_step_that_writes_nothing_needs_no_timestamp() {
    let (state, _) = chat_start(Some("Bearer token"), request("I feel stuck", "en"));
    assert!(!may_write(&state));
    let (state, action) = chat_step_at(state, reply(200, r#"{"id":"user-1"}"#), None);
    assert!(matches!(action, ChatAction::ReadHistory { .. }));
    assert!(!may_write(&state));
    let (state, action) = chat_step_at(state, reply(200, "[]"), None);
    assert!(matches!(action, ChatAction::Generate { .. }));
    assert!(may_write(&state));
    let (state, action) = chat_step_at(state, reply(500, "down"), None);
    assert_eq!(state, ChatState::Finished);
    assert_eq!(
        action,
        ChatAction::Fail(PipelineError::UpstreamError { status: 500, body: b"down".to_vec() })
    );
    assert!(!may_write(&state));

    let generated = r#"{"choices":[{"message":{"content":"text"}}]}"#;
    let (state, _) = chat_step_at(generating(), reply(200, generated), Some(STAMP));
    assert!(may_write(&state));
    let (state, _) = chat_step_at(state, reply(201, ""), Some(STAMP));
    assert!(!may_write(&state));
    let (state, action) = chat_step_at(state, reply(201, ""), None);
    assert_eq!(state, ChatState::Finished);
    assert_eq!(action, ChatAction::Respond(ChatResponse { response_text: "text".to_string() }));
}

#[test]
fn a_whole_chat_runs_on_the_clock() {
    let mut step = chat_start(Some("Bearer token"), request("I feel stuck", "en"));
    let outcomes = [
        reply(200, r#"{"id":"user-1"}"#),
        reply(200, "[]"),
        reply(200, r#"{"choices":[{"message":{"content":"text"}}]}"#),
        reply(201, ""),
        reply(201, ""),
    ];
    let mut stored = Vec::new();
    for outcome in outcomes {
        step = chat_step(step.0, outcome);
        if let ChatAction::Store { record } = &step.1 {
            stored.push(record_turn_from(record).unwrap());
        }
    }
    assert_eq!(step.0, ChatState::Finished);
    assert_eq!(step.1, ChatAction::Respond(ChatResponse { response_text: "text".to_string() }));
    assert_eq!(
        stored,
        [
            ChatTurn { role: Speaker::User, content: "I feel stuck".to_string() },
            ChatTurn { role: Speaker::Assistant, content: "text".to_string() },
        ]
    );
}
