use fbapi::client::{build_request_body, build_url, interpret_response};
use fbapi::graph::Edge;
use fbapi::user::{User, UserPicture};
use fbapi::GetModelError;

/// The access token the tests run with: an injected fixture, never a
/// module-level constant wired to a live account.
fn test_access_token_fixture() -> String {
    String::from("test-access-token")
}

#[test]
fn test_access_token() {
    assert_ne!(
        test_access_token_fixture(),
        "",
        "To test the FBAPI, the test fixture must supply an access token."
    );
}

#[test]
fn test_err_type_mismatch() {
    let mut edge = Edge::user_me();
    edge.add_fields(vec!["gender", "picture", "birthday"]);
    let body = build_request_body(&edge, &test_access_token_fixture());
    assert!(body.starts_with("fields=gender,picture,birthday"));

    // A user-shaped response cannot decode into a picture-shaped type.
    let response = r#"{"id":"1","gender":"male","birthday":"01/01/1990"}"#;
    let user: Result<UserPicture, _> = interpret_response(response);
    assert!(user.is_err());
    match user.err().unwrap() {
        GetModelError::DeserializeFailed => (),
        _ => assert!(false), // Wrong error type.
    }
}

#[test]
fn test_bad_access_token() {
    let mut edge = Edge::user_me();
    edge.add_fields(vec!["gender", "picture", "birthday"]);
    let _body = build_request_body(&edge, "asd");

    let response = r#"{"error":{"message":"Invalid OAuth access token.","type":"OAuthException","code":190}}"#;
    let user: Result<UserPicture, _> = interpret_response(response);
    assert!(user.is_err());
    match user.err().unwrap() {
        GetModelError::AccessTokenInvalid(s) => {
            assert!(!s.is_empty(), "Facebook error message shouldn't be empty.");
        }
        _ => assert!(false), // Wrong error type.
    }
}

#[test]
fn test_me_edge() {
    let mut edge = Edge::user_me();
    edge.add_fields(vec!["gender", "picture", "name"]);
    let _body = build_request_body(&edge, &test_access_token_fixture());

    let response = r#"{"id":"100","name":"Jane Doe","gender":"female","picture":{"data":{"is_silhouette":true,"url":"https://pic.example/1.png"}}}"#;
    let user: Result<User, _> = interpret_response(response);
    assert!(user.is_ok());
    let user = user.unwrap();

    assert!(!user.id.is_empty());
    assert!(user.name.is_some());
    assert!(user.gender.is_some());
    assert!(user.picture.is_some());
    assert!(!user.picture.as_ref().unwrap().url.is_empty())
}

#[test]
fn test_oauth_exception_any_target() {
    let response = r#"{"error":{"type":"OAuthException","message":"Bad token"}}"#;
    let as_user: Result<User, _> = interpret_response(response);
    match as_user.err().unwrap() {
        GetModelError::AccessTokenInvalid(m) => assert_eq!(m, "Bad token"),
        _ => assert!(false),
    }
    let as_picture: Result<UserPicture, _> = interpret_response(response);
    match as_picture.err().unwrap() {
        GetModelError::AccessTokenInvalid(m) => assert_eq!(m, "Bad token"),
        _ => assert!(false),
    }
}

#[test]
fn test_unknown_fb_error() {
    let response = r#"{"error":{"type":"GraphMethodException","message":"x"}}"#;
    let r: Result<User, _> = interpret_response(response);
    match r.err().unwrap() {
        GetModelError::UnknownFBError(t, m) => {
            assert_eq!(t, "GraphMethodException");
            assert_eq!(m, "x");
        }
        _ => assert!(false),
    }
}

#[test]
fn test_malformed_error_envelope() {
    let response = r#"{"error":{"code":190}}"#;
    let r: Result<User, _> = interpret_response(response);
    match r.err().unwrap() {
        GetModelError::UnknownFBError(t, m) => {
            assert_eq!(t, "Unknown error structure: ");
            assert_eq!(m, response);
        }
        _ => assert!(false),
    }
}

#[test]
fn test_error_message_not_string() {
    let response = r#"{"error":{"type":"OAuthException","message":5}}"#;
    let r: Result<User, _> = interpret_response(response);
    match r.err().unwrap() {
        GetModelError::UnknownFBError(t, m) => {
            assert_eq!(t, "Unknown error structure: ");
            assert_eq!(m, response);
        }
        _ => assert!(false),
    }
}

#[test]
fn test_error_not_object_falls_through() {
    let response = r#"{"error":"nope","id":"7"}"#;
    let r: Result<User, _> = interpret_response(response);
    assert_eq!(r.unwrap().id, "7");
}

#[test]
fn test_parse_failure() {
    let r: Result<User, _> = interpret_response("this is not json");
    match r.err().unwrap() {
        GetModelError::DeserializeFailed => (),
        _ => assert!(false),
    }
}

#[test]
fn test_non_object_response_fails_decode() {
    let r: Result<User, _> = interpret_response("[1,2,3]");
    match r.err().unwrap() {
        GetModelError::DeserializeFailed => (),
        _ => assert!(false),
    }
}

#[test]
fn test_user_shape_as_picture_mismatch() {
    let response = r#"{"id":"123","name":"Jane Doe","picture":{"data":{"is_silhouette":false,"url":"http://x"}}}"#;
    let r: Result<UserPicture, _> = interpret_response(response);
    match r.err().unwrap() {
        GetModelError::DeserializeFailed => (),
        _ => assert!(false),
    }
}

#[test]
fn test_user_payload_decodes() {
    let response = r#"{"id":"123","name":"Jane Doe","picture":{"data":{"is_silhouette":false,"url":"http://x"}}}"#;
    let r: Result<User, _> = interpret_response(response);
    let u = r.unwrap();
    assert_eq!(u.id, "123");
    assert_eq!(u.name, Some(String::from("Jane Doe")));
    let p = u.picture.unwrap();
    assert!(!p.is_silhouette);
    assert_eq!(p.url, "http://x");
    assert_eq!(p.width, None);
    assert_eq!(p.height, None);
}

#[test]
fn test_picture_edge_payload_decodes() {
    let response = r#"{"is_silhouette":false,"url":"http://x","width":200,"height":200}"#;
    let r: Result<UserPicture, _> = interpret_response(response);
    let p = r.unwrap();
    assert_eq!(p.width, Some(200));
    assert_eq!(p.height, Some(200));
}

#[test]
fn test_describe_variants() {
    assert_eq!(
        GetModelError::RequestFailed(String::from("timeout")).describe(),
        "Request error: timeout"
    );
    assert_eq!(
        GetModelError::DeserializeFailed.describe(),
        "Deserialization failed: the response's shape does not match the requested model."
    );
    assert_eq!(
        GetModelError::AccessTokenInvalid(String::from("bad")).describe(),
        "Access token invalid: bad"
    );
    assert_eq!(
        GetModelError::UnknownFBError(String::from("T"), String::from("m")).describe(),
        "Unknown FB API error of type T : m"
    );
}

#[test]
fn test_build_url() {
    assert_eq!(build_url(2, 9, "/me"), "https://graph.facebook.com/v2.9/me");
    assert_eq!(build_url(255, 0, ""), "https://graph.facebook.com/v255.0");
    assert_eq!(build_url(10, 123, "/x"), "https://graph.facebook.com/v10.123/x");
}

#[test]
fn test_build_request_body() {
    let mut edge = Edge::user_me();
    edge.add_fields(vec!["id"]);
    let body = build_request_body(&edge, "tok");
    assert_eq!(body, "fields=id&method=GET&access_token=tok");
}
