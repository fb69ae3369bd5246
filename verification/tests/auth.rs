use rusty_server::auth::{
    authorization_header, bearer_token, identity_from, read_identity, AuthenticatedIdentity,
};
use rusty_server::error::PipelineError;
use rusty_server::http::HttpOutcome;
use rusty_server::json::parse_document;

fn reply(status: u16, body: &str) -> HttpOutcome {
    HttpOutcome::Reply { status, body: body.as_bytes().to_vec() }
}

#[test]
fn the_credential_follows_the_bearer_prefix() {
    assert_eq!(bearer_token(Some("Bearer abc.def")), Ok("abc.def".to_string()));
    assert_eq!(bearer_token(Some("Bearer ")), Ok(String::new()));
    assert_eq!(bearer_token(Some("Bearer  two spaces")), Ok(" two spaces".to_string()));
    assert_eq!(authorization_header("abc.def"), "Bearer abc.def");
}

#[test]
fn a_missing_header_is_unauthorized() {
    assert_eq!(bearer_token(None), Err(PipelineError::Unauthorized));
}

#[test]
fn a_header_without_the_prefix_is_unauthorized() {
    for header in ["", "Bearer", "bearer abc", "Basic abc", "abc", " Bearer abc", "BEARER abc", "Bearerabc"] {
        assert_eq!(bearer_token(Some(header)), Err(PipelineError::Unauthorized), "{header:?}");
    }
}

#[test]
fn a_refusal_of_the_identity_service_is_unauthorized() {
    for status in [400, 401, 403, 404, 500, 199, 300] {
        assert_eq!(
            read_identity(reply(status, r#"{"id":"user-1"}"#)),
            Err(PipelineError::Unauthorized)
        );
    }
}

#[test]
fn an_empty_or_missing_identifier_is_unauthorized() {
    for body in [r#"{"id":""}"#, r#"{}"#, r#"{"id":null}"#, r#"{"id":7}"#, r#"["id"]"#, "null", "no json", ""] {
        assert_eq!(read_identity(reply(200, body)), Err(PipelineError::Unauthorized), "{body:?}");
    }
}

#[test]
fn no_reply_of_the_identity_service_is_unauthorized() {
    assert_eq!(read_identity(HttpOutcome::TransportFailure), Err(PipelineError::Unauthorized));
}

#[test]
fn an_identifier_resolves_the_identity() {
    assert_eq!(
        read_identity(reply(200, r#"{"id":"user-1","email":"a@b.c"}"#)),
        Ok(AuthenticatedIdentity { user_id: "user-1".to_string() })
    );
    assert_eq!(
        read_identity(reply(204, r#"{"id":" "}"#)),
        Ok(AuthenticatedIdentity { user_id: " ".to_string() })
    );
    let document = parse_document(br#"{"id":"u"}"#).unwrap();
    assert_eq!(identity_from(&document), Ok(AuthenticatedIdentity { user_id: "u".to_string() }));
}
