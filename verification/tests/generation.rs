use rusty_server::corpus::{BASE_EN, GUIDANCE_EN, PREAMBLE};
use rusty_server::error::PipelineError;
use rusty_server::generation::{
    body_for, generation_request, message_json, prompt_messages, read_generation, MessageRole,
    PromptMessage,
};
use rusty_server::http::HttpOutcome;
use rusty_server::json::{Json, Member};
use rusty_server::persona::ModeFlags;
use rusty_server::store::{ChatTurn, Speaker};

const PLAIN: ModeFlags = ModeFlags { gen_z: false, sarcastic: false, shenanigan: false, seductive: false };

fn reply(status: u16, body: &str) -> HttpOutcome {
    HttpOutcome::Reply { status, body: body.as_bytes().to_vec() }
}

fn message(role: MessageRole, content: &str) -> PromptMessage {
    PromptMessage { role, content: content.to_string() }
}

fn text_member(name: &str, text: &str) -> Member {
    Member { name: name.to_string(), value: Json::Text(text.to_string()) }
}

#[test]
fn the_prompt_is_system_then_history_then_utterance() {
    let history = vec![
        ChatTurn { role: Speaker::User, content: "A".to_string() },
        ChatTurn { role: Speaker::Assistant, content: "B".to_string() },
        ChatTurn { role: Speaker::User, content: "C".to_string() },
    ];
    assert_eq!(
        prompt_messages("be kind".to_string(), &history, "D"),
        vec![
            message(MessageRole::System, "be kind"),
            message(MessageRole::User, "A"),
            message(MessageRole::Assistant, "B"),
            message(MessageRole::User, "C"),
            message(MessageRole::User, "D"),
        ]
    );
    assert_eq!(
        prompt_messages("be kind".to_string(), &Vec::new(), "D"),
        vec![message(MessageRole::System, "be kind"), message(MessageRole::User, "D")]
    );
}

#[test]
fn the_body_names_model_messages_and_temperature() {
    let messages = vec![message(MessageRole::System, "s"), message(MessageRole::User, "u")];
    assert_eq!(
        body_for(&messages),
        Json::Object(vec![
            text_member("model", "gpt-4o-mini"),
            Member {
                name: "messages".to_string(),
                value: Json::Array(vec![
                    Json::Object(vec![text_member("role", "system"), text_member("content", "s")]),
                    Json::Object(vec![text_member("role", "user"), text_member("content", "u")]),
                ]),
            },
            Member { name: "temperature".to_string(), value: Json::Number("0.7".to_string()) },
        ])
    );
    assert_eq!(
        message_json(&message(MessageRole::Assistant, "a")),
        Json::Object(vec![text_member("role", "assistant"), text_member("content", "a")])
    );
}

#[test]
fn the_request_carries_the_persona_of_language_and_modes() {
    let body = generation_request("I feel stuck", "en", PLAIN, None).unwrap();
    let messages = body.member("messages").unwrap().items().unwrap();
    assert_eq!(messages.len(), 2);
    assert_eq!(messages[0].text_member("role"), Some("system"));
    let persona = format!("{PREAMBLE}{GUIDANCE_EN}{BASE_EN}");
    assert_eq!(messages[0].text_member("content"), Some(persona.as_str()));
    assert_eq!(messages[1].text_member("role"), Some("user"));
    assert_eq!(messages[1].text_member("content"), Some("I feel stuck"));
    let none: Vec<ChatTurn> = Vec::new();
    assert_eq!(generation_request("I feel stuck", "en", PLAIN, Some(&none)), Ok(body));
}

#[test]
fn the_request_repeats_the_history_in_its_order() {
    let history = vec![
        ChatTurn { role: Speaker::User, content: "first".to_string() },
        ChatTurn { role: Speaker::Assistant, content: "second".to_string() },
    ];
    let body = generation_request("third", "hi", PLAIN, Some(&history)).unwrap();
    let messages = body.member("messages").unwrap().items().unwrap();
    let seen: Vec<(Option<&str>, Option<&str>)> =
        messages.iter().skip(1).map(|m| (m.text_member("role"), m.text_member("content"))).collect();
    assert_eq!(
        seen,
        [
            (Some("user"), Some("first")),
            (Some("assistant"), Some("second")),
            (Some("user"), Some("third")),
        ]
    );
}

#[test]
fn no_request_is_made_for_an_unsupported_language_of_the_prompt() {
    assert_eq!(generation_request("hello", "fr", PLAIN, None), Err(PipelineError::InvalidLanguage));
    let history = vec![ChatTurn { role: Speaker::User, content: "x".to_string() }];
    assert_eq!(
        generation_request("hello", "de", PLAIN, Some(&history)),
        Err(PipelineError::InvalidLanguage)
    );
}

#[test]
fn the_generated_text_is_the_content_of_the_first_choice() {
    let body = r#"{"id":"x","choices":[{"index":0,"message":{"role":"assistant","content":"You are not alone."}},{"message":{"content":"second"}}]}"#;
    assert_eq!(read_generation(reply(200, body)), Ok("You are not alone.".to_string()));
}

#[test]
fn a_reply_without_generated_text_is_malformed() {
    for body in [
        r#"{}"#,
        r#"{"choices":[]}"#,
        r#"{"choices":{}}"#,
        r#"{"choices":{"0":{"message":{"content":"a"}}}}"#,
        r#"{"choices":[{}]}"#,
        r#"{"choices":[{"message":{}}]}"#,
        r#"{"choices":[{"message":{"content":null}}]}"#,
        r#"{"choices":[{"message":{"content":["a"]}}]}"#,
        r#"{"choices":[{"message":{"content":""}}]}"#,
        r#"{"choices":[null,{"message":{"content":"late"}}]}"#,
        r#"[{"message":{"content":"a"}}]"#,
        r#"null"#,
    ] {
        assert_eq!(read_generation(reply(200, body)), Err(PipelineError::MalformedResponse), "{body}");
    }
}

#[test]
fn a_failed_generation_keeps_status_and_body() {
    assert_eq!(
        read_generation(reply(500, "oops")),
        Err(PipelineError::UpstreamError { status: 500, body: b"oops".to_vec() })
    );
    assert_eq!(
        read_generation(reply(404, r#"{"choices":[{"message":{"content":"a"}}]}"#)),
        Err(PipelineError::UpstreamError {
            status: 404,
            body: br#"{"choices":[{"message":{"content":"a"}}]}"#.to_vec()
        })
    );
    assert_eq!(read_generation(HttpOutcome::TransportFailure), Err(PipelineError::TransportError));
    assert_eq!(read_generation(reply(200, "{\"choices\":")), Err(PipelineError::TransportError));
}
