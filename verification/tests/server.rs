use kubectl_light::command::{ParseError, SyntaxError};
use kubectl_light::executor::EngineError;
use kubectl_light::server::{
    reject, respond, AppState, Envelope, RequestError, STATUS_BAD_REQUEST, STATUS_FORBIDDEN,
    STATUS_INTERNAL_SERVER_ERROR, STATUS_OK,
};

fn server() -> AppState {
    AppState::new("s3cret".to_string())
}

#[test]
fn a_request_with_the_credential_is_let_in() {
    assert_eq!(server().authorize(Some("get pods"), Some("s3cret".as_bytes())), Ok(()));
    assert_eq!(server().authorize(Some(""), Some("s3cret".as_bytes())), Ok(()));
}

#[test]
fn a_request_without_a_command_is_a_bad_request() {
    let state = server();
    assert_eq!(state.authorize(None, Some("s3cret".as_bytes())), Err(RequestError::MissingQuery));
    assert_eq!(state.authorize(None, None), Err(RequestError::MissingQuery));
    assert_eq!(RequestError::MissingQuery.status(), 400);
    assert_eq!(RequestError::MissingQuery.message(), "query parameter not found");
}

#[test]
fn a_request_without_a_credential_is_forbidden() {
    let error = server().authorize(Some("get pods"), None).unwrap_err();
    assert_eq!(error, RequestError::MissingToken);
    assert_eq!(error.status(), 403);
    assert_eq!(error.message(), "No api token found");
    let envelope = reject(error, Some("get pods"), "");
    assert_eq!(envelope.status, STATUS_FORBIDDEN);
    assert_eq!(envelope.response, "No api token found");
}

#[test]
fn a_wrong_credential_is_forbidden() {
    let state = server();
    for presented in ["", "s3cre", "s3cret ", "S3CRET", "other"] {
        let error = state.authorize(Some("get pods"), Some(presented.as_bytes())).unwrap_err();
        assert_eq!(error, RequestError::BadToken, "{presented:?}");
    }
    assert_eq!(state.authorize(Some("get pods"), Some(&[0xff, 0xfe])), Err(RequestError::BadToken));
    assert_eq!(RequestError::BadToken.status(), 403);
    assert_eq!(RequestError::BadToken.message(), "Bad api token");
}

#[test]
fn a_credential_is_compared_by_its_bytes() {
    let state = AppState::new("cl\u{e9}".to_string());
    assert_eq!(state.authorize(Some("get"), Some(&[0x63, 0x6c, 0xc3, 0xa9])), Ok(()));
    assert_eq!(state.authorize(Some("get"), Some(&[0x63, 0x6c, 0xe9])), Err(RequestError::BadToken));
}

#[test]
fn status_codes_are_the_usual_ones() {
    assert_eq!(STATUS_OK, 200);
    assert_eq!(STATUS_BAD_REQUEST, 400);
    assert_eq!(STATUS_FORBIDDEN, 403);
    assert_eq!(STATUS_INTERNAL_SERVER_ERROR, 500);
}

#[test]
fn success_is_answered_with_the_result() {
    let envelope = respond(Ok("deleted".to_string()), "delete pods web", "");
    let expected = Envelope {
        status: 200,
        response: "deleted".to_string(),
        query: "delete pods web".to_string(),
        body: String::new(),
    };
    assert_eq!(envelope, expected);
}

#[test]
fn failure_is_answered_with_the_error_text() {
    let envelope = respond(Err(EngineError::ResourceNotFound("widgets".to_string())), "get widgets", "a: 1\n");
    let expected = Envelope {
        status: 500,
        response: "Error: resource \"widgets\" not found in cluster".to_string(),
        query: "get widgets".to_string(),
        body: "a: 1\n".to_string(),
    };
    assert_eq!(envelope, expected);
    let error = EngineError::Parse(ParseError::InvalidSyntax(SyntaxError::MissingVerb));
    let envelope = respond(Err(error), "", "");
    assert_eq!(envelope.status, 500);
    assert_eq!(envelope.response, "Error: a verb is required: get, delete or apply");
}

#[test]
fn a_refusal_echoes_what_came_in() {
    let expected = Envelope {
        status: 400,
        response: "query parameter not found".to_string(),
        query: String::new(),
        body: "kind: Pod\n".to_string(),
    };
    assert_eq!(reject(RequestError::MissingQuery, None, "kind: Pod\n"), expected);
    let expected = Envelope {
        status: 403,
        response: "Bad api token".to_string(),
        query: "get pods".to_string(),
        body: String::new(),
    };
    assert_eq!(reject(RequestError::BadToken, Some("get pods"), ""), expected);
}
