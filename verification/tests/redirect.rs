use mam_authorize::access::{access_code_matches, bearer_authorized};
use mam_authorize::redirect::{redirect_error, redirect_with_code};

#[test]
fn error_redirect_with_state() {
    let location = redirect_error("https://client.example/cb", "access_denied", "user denied the request", Some("xyz"));
    assert_eq!(
        location.as_deref(),
        Some("https://client.example/cb?error=access_denied&error_description=user+denied+the+request&state=xyz")
    );
}

#[test]
fn error_redirect_without_state() {
    let location = redirect_error("https://client.example/cb", "invalid_request", "PKCE code_challenge is required", None);
    assert_eq!(
        location.as_deref(),
        Some("https://client.example/cb?error=invalid_request&error_description=PKCE+code_challenge+is+required")
    );
}

#[test]
fn error_redirect_keeps_existing_query_and_fragment() {
    let location = redirect_error("https://client.example/cb?x=1#frag", "server_error", "busy & full", Some("a b"));
    assert_eq!(
        location.as_deref(),
        Some("https://client.example/cb?x=1&error=server_error&error_description=busy+%26+full&state=a+b#frag")
    );
}

#[test]
fn error_redirect_to_relative_uri_is_refused() {
    assert_eq!(redirect_error("/relative/cb", "access_denied", "no", None), None);
    assert_eq!(redirect_error("not a url", "access_denied", "no", Some("s")), None);
}

#[test]
fn code_redirect_with_and_without_state() {
    assert_eq!(
        redirect_with_code("http://localhost:3000/callback", "c0de", Some("st")).as_deref(),
        Some("http://localhost:3000/callback?code=c0de&state=st")
    );
    assert_eq!(
        redirect_with_code("http://localhost:3000/callback", "c0de", None).as_deref(),
        Some("http://localhost:3000/callback?code=c0de")
    );
}

#[test]
fn bearer_check_without_token_lets_everything_through() {
    assert!(bearer_authorized(None, None));
    assert!(bearer_authorized(None, Some("Bearer whatever")));
    assert!(bearer_authorized(None, Some("garbage")));
}

#[test]
fn bearer_check_with_token() {
    assert!(bearer_authorized(Some("s3cret"), Some("Bearer s3cret")));
    assert!(!bearer_authorized(Some("s3cret"), Some("Bearer s3cre")));
    assert!(!bearer_authorized(Some("s3cret"), Some("Bearer s3crett")));
    assert!(!bearer_authorized(Some("s3cret"), Some("bearer s3cret")));
    assert!(!bearer_authorized(Some("s3cret"), Some("s3cret")));
    assert!(!bearer_authorized(Some("s3cret"), Some("Bear")));
    assert!(!bearer_authorized(Some("s3cret"), None));
    assert!(bearer_authorized(Some(""), Some("Bearer ")));
}

#[test]
fn access_code_comparison() {
    assert!(access_code_matches(Some("letmein"), "letmein"));
    assert!(!access_code_matches(Some("letmein!"), "letmein"));
    assert!(!access_code_matches(Some("letmeim"), "letmein"));
    assert!(!access_code_matches(None, "letmein"));
    assert!(access_code_matches(None, ""));
    assert!(access_code_matches(Some(""), ""));
}
