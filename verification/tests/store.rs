use chrono::Datelike;
use rusty_server::error::PipelineError;
use rusty_server::http::HttpOutcome;
use rusty_server::json::{parse_document, Json, Member};
use rusty_server::store::{
    history_from, history_query, parse_speaker, read_history, read_store, record_turn_from,
    store_record, store_record_now, turn_from, turn_json, ChatTurn, Speaker, HISTORY_LIMIT,
};

fn turn(role: Speaker, content: &str) -> ChatTurn {
    ChatTurn { role, content: content.to_string() }
}

fn ok_reply(body: &str) -> HttpOutcome {
    HttpOutcome::Reply { status: 200, body: body.as_bytes().to_vec() }
}

#[test]
fn history_comes_back_in_the_order_it_was_spoken() {
    let newest_first =
        r#"[{"message":{"role":"assistant","content":"B"}},{"message":{"role":"user","content":"A"}}]"#;
    assert_eq!(
        read_history(ok_reply(newest_first)),
        Ok(vec![turn(Speaker::User, "A"), turn(Speaker::Assistant, "B")])
    );
}

#[test]
fn written_turns_read_back_in_order() {
    let a = store_record("u1", &turn(Speaker::User, "A"), "2024-01-01T00:00:00+00:00");
    let b = store_record("u1", &turn(Speaker::Assistant, "B"), "2024-01-01T00:00:01+00:00");
    let listed = Json::array(vec![b, a]);
    assert_eq!(
        history_from(&listed),
        Ok(vec![turn(Speaker::User, "A"), turn(Speaker::Assistant, "B")])
    );
}

#[test]
fn malformed_records_are_left_out() {
    let body = r#"[
        {"message":{"role":"assistant","content":"four"}},
        {"message":"not an object"},
        {"message":{"role":"user"}},
        {"message":{"role":"user","content":3}},
        {"note":"no message"},
        17,
        {"message":{"role":"user","content":"three","extra":true}},
        {"message":{"role":"system","content":"no speaker"}},
        {"message":{"role":"assistant","content":"two"}},
        {"message":{"role":"user","content":"one"}}
    ]"#;
    assert_eq!(
        read_history(ok_reply(body)),
        Ok(vec![
            turn(Speaker::User, "one"),
            turn(Speaker::Assistant, "two"),
            turn(Speaker::User, "three"),
            turn(Speaker::Assistant, "four"),
        ])
    );
}

#[test]
fn records_that_hold_no_turn_still_count_toward_the_limit() {
    let mut body = String::from("[");
    for _ in 0..10 {
        body.push_str("null,");
    }
    body.push_str(r#"{"message":{"role":"user","content":"eleventh"}}]"#);
    assert_eq!(read_history(ok_reply(&body)), Ok(Vec::new()));
}

#[test]
fn history_of_an_empty_store_is_empty() {
    assert_eq!(read_history(ok_reply("[]")), Ok(Vec::new()));
    assert_eq!(read_history(ok_reply(r#"[{"message":null}]"#)), Ok(Vec::new()));
}

#[test]
fn history_holds_the_ten_most_recent_records() {
    let mut body = String::from("[");
    for i in (0..15).rev() {
        body.push_str(&format!(r#"{{"message":{{"role":"user","content":"m{i}"}}}}"#));
        if i > 0 {
            body.push(',');
        }
    }
    body.push(']');
    let history = read_history(ok_reply(&body)).unwrap();
    assert_eq!(HISTORY_LIMIT, 10);
    assert_eq!(history.len(), 10);
    let contents: Vec<&str> = history.iter().map(|t| t.content.as_str()).collect();
    assert_eq!(contents, ["m5", "m6", "m7", "m8", "m9", "m10", "m11", "m12", "m13", "m14"]);
}

#[test]
fn reading_history_fails_on_the_reply_and_not_on_a_record() {
    assert_eq!(
        read_history(HttpOutcome::Reply { status: 500, body: b"down".to_vec() }),
        Err(PipelineError::UpstreamError { status: 500, body: b"down".to_vec() })
    );
    assert_eq!(
        read_history(HttpOutcome::Reply { status: 199, body: b"[]".to_vec() }),
        Err(PipelineError::UpstreamError { status: 199, body: b"[]".to_vec() })
    );
    assert_eq!(
        read_history(HttpOutcome::Reply { status: 300, body: b"[]".to_vec() }),
        Err(PipelineError::UpstreamError { status: 300, body: b"[]".to_vec() })
    );
    assert_eq!(read_history(HttpOutcome::Reply { status: 299, body: b"[]".to_vec() }), Ok(Vec::new()));
    assert_eq!(read_history(HttpOutcome::TransportFailure), Err(PipelineError::TransportError));
    assert_eq!(read_history(ok_reply("not json")), Err(PipelineError::TransportError));
    assert_eq!(read_history(ok_reply(r#"{"message":{}}"#)), Err(PipelineError::TransportError));
}

#[test]
fn a_message_is_an_object_or_a_pair() {
    let object = parse_document(br#"{"content":"hi","role":"user"}"#).unwrap();
    assert_eq!(turn_from(&object), Some(turn(Speaker::User, "hi")));
    let pair = parse_document(br#"["assistant","hello"]"#).unwrap();
    assert_eq!(turn_from(&pair), Some(turn(Speaker::Assistant, "hello")));
    for other in [
        &br#"["assistant"]"#[..],
        br#"["assistant","a","b"]"#,
        br#"["assistant",1]"#,
        br#"["nobody","a"]"#,
        br#"{"role":"User","content":"a"}"#,
        br#"{"role":null,"content":"a"}"#,
        br#""user""#,
        b"null",
        b"3",
    ] {
        assert_eq!(turn_from(&parse_document(other).unwrap()), None);
    }
}

#[test]
fn a_turn_is_written_with_role_and_content() {
    let json = turn_json(&turn(Speaker::Assistant, "I hear you"));
    assert_eq!(
        json,
        Json::Object(vec![
            Member { name: "role".to_string(), value: Json::Text("assistant".to_string()) },
            Member { name: "content".to_string(), value: Json::Text("I hear you".to_string()) },
        ])
    );
    assert_eq!(turn_from(&json), Some(turn(Speaker::Assistant, "I hear you")));
    assert_eq!(turn_from(&turn_json(&turn(Speaker::User, ""))), Some(turn(Speaker::User, "")));
}

#[test]
fn a_record_holds_user_message_and_timestamp() {
    let record = store_record("user-7", &turn(Speaker::User, "I feel stuck"), "2025-03-04T05:06:07+00:00");
    assert_eq!(record.text_member("user_id"), Some("user-7"));
    assert_eq!(record.text_member("timestamp"), Some("2025-03-04T05:06:07+00:00"));
    assert_eq!(record.member("message"), Some(&turn_json(&turn(Speaker::User, "I feel stuck"))));
    assert_eq!(record_turn_from(&record), Some(turn(Speaker::User, "I feel stuck")));
    match &record {
        Json::Object(members) => assert_eq!(members.len(), 3),
        _ => panic!("a record is an object"),
    }
}

#[test]
fn a_record_is_stamped_with_the_time_of_the_call() {
    let before = chrono::Utc::now();
    let record = store_record_now("u", &turn(Speaker::Assistant, "B")).unwrap();
    let after = chrono::Utc::now();
    let stamp = chrono::DateTime::parse_from_rfc3339(record.text_member("timestamp").unwrap()).unwrap();
    assert!(before <= stamp && stamp <= after);
    assert!(stamp.year() >= 2024);
    assert_eq!(stamp.offset().local_minus_utc(), 0);
    assert_eq!(record.text_member("user_id"), Some("u"));
    assert_eq!(record_turn_from(&record), Some(turn(Speaker::Assistant, "B")));
}

#[test]
fn the_query_asks_for_the_ten_newest_messages_of_the_user() {
    assert_eq!(
        history_query("abc-123"),
        "/rest/v1/conversations?select=message&user_id=eq.abc-123&order=timestamp.desc&limit=10"
    );
    assert_eq!(
        history_query(""),
        "/rest/v1/conversations?select=message&user_id=eq.&order=timestamp.desc&limit=10"
    );
}

#[test]
fn a_write_succeeds_on_a_status_of_success_alone() {
    assert_eq!(read_store(HttpOutcome::Reply { status: 201, body: Vec::new() }), Ok(()));
    assert_eq!(read_store(HttpOutcome::Reply { status: 200, body: b"ignored".to_vec() }), Ok(()));
    assert_eq!(
        read_store(HttpOutcome::Reply { status: 409, body: b"conflict".to_vec() }),
        Err(PipelineError::UpstreamError { status: 409, body: b"conflict".to_vec() })
    );
    assert_eq!(read_store(HttpOutcome::TransportFailure), Err(PipelineError::TransportError));
}

#[test]
fn speakers_have_their_stored_names() {
    assert_eq!(Speaker::User.name(), "user");
    assert_eq!(Speaker::Assistant.name(), "assistant");
    assert_eq!(parse_speaker("user"), Some(Speaker::User));
    assert_eq!(parse_speaker("assistant"), Some(Speaker::Assistant));
    assert_eq!(parse_speaker("system"), None);
    assert_eq!(parse_speaker(""), None);
}
