use github_stars_pocket::auth::{
    device_code_failure, device_code_form, device_code_unreadable, poll_outcome, token_form, ApiError, PollResult,
    TokenResponse,
};

fn body(token: Option<&str>, error: Option<&str>, desc: Option<&str>) -> TokenResponse {
    TokenResponse {
        access_token: token.map(String::from),
        error: error.map(String::from),
        error_description: desc.map(String::from),
    }
}

#[test]
fn poll_outcomes() {
    assert!(matches!(poll_outcome(body(Some("gho_x"), None, None)), Ok(PollResult::Token(t)) if t == "gho_x"));
    assert!(matches!(poll_outcome(body(Some(""), Some("slow_down"), None)), Ok(PollResult::SlowDown)));
    assert!(matches!(poll_outcome(body(None, Some("authorization_pending"), None)), Ok(PollResult::Pending)));
    assert!(matches!(poll_outcome(body(None, None, None)), Ok(PollResult::Pending)));
    assert_eq!(
        poll_outcome(body(None, Some("expired_token"), None)).err().unwrap(),
        "Device code expired. Please restart authentication."
    );
    assert_eq!(poll_outcome(body(None, Some("access_denied"), None)).err().unwrap(), "Access denied by user.");
    assert_eq!(
        poll_outcome(body(None, Some("bad_verification"), Some("nope"))).err().unwrap(),
        "OAuth error: bad_verification — nope"
    );
    assert_eq!(poll_outcome(body(None, Some("x"), None)).err().unwrap(), "OAuth error: x — ");
}

#[test]
fn device_code_failures() {
    let e = ApiError { error: Some("e".into()), error_description: Some("described".into()) };
    assert_eq!(device_code_failure("404 Not Found", Some(e)), "GitHub OAuth error: described");
    let e = ApiError { error: Some("unauthorized_client".into()), error_description: None };
    assert_eq!(device_code_failure("401 Unauthorized", Some(e)), "GitHub OAuth error: unauthorized_client");
    assert_eq!(
        device_code_failure("500 Internal Server Error", None),
        "GitHub returned HTTP 500 Internal Server Error — check your OAuth App Client ID in config."
    );
    let e = ApiError { error: None, error_description: None };
    assert!(device_code_failure("400 Bad Request", Some(e)).starts_with("GitHub returned HTTP 400"));
    assert!(device_code_unreadable("<html>").contains("Raw response: <html>\nHint:"));
}

#[test]
fn forms() {
    let f = device_code_form("Ov23");
    assert_eq!((f[0].name.as_str(), f[0].value.as_str()), ("client_id", "Ov23"));
    assert_eq!((f[1].name.as_str(), f[1].value.as_str()), ("scope", "read:user"));
    let f = token_form("id", "dc");
    assert_eq!(f.len(), 3);
    assert_eq!(f[2].value, "urn:ietf:params:oauth:grant-type:device_code");
}
