use mam_authorize::authorize::{
    authorize_get_consent, authorize_get_decision, authorize_post_complete, authorize_post_decision,
    authorize_post_retry, AuthorizeForm, AuthorizeGetStep, AuthorizePostStep, AuthorizeQuery,
    AuthorizeResponse, ClientRegistration, PendingAuthorization,
};
use mam_authorize::pages::{consent_page, error_page};

fn s(v: &str) -> Option<String> {
    Some(v.to_string())
}

fn good_query() -> AuthorizeQuery {
    AuthorizeQuery {
        response_type: s("code"),
        client_id: s("client-1"),
        redirect_uri: s("https://client.example/cb"),
        code_challenge: s("challenge"),
        code_challenge_method: s("S256"),
        state: s("st8"),
        resource: s("https://server.example/mcp"),
        scope: None,
    }
}

fn registration() -> ClientRegistration {
    ClientRegistration {
        redirect_uris: vec!["https://other.example/cb".to_string(), "https://client.example/cb".to_string()],
        client_name: s("Reader"),
    }
}

fn pending() -> PendingAuthorization {
    PendingAuthorization {
        client_id: "client-1".to_string(),
        redirect_uri: "https://client.example/cb".to_string(),
        code_challenge: "challenge".to_string(),
        state: s("st8"),
    }
}

fn page(status: u16, title: &str, message: &str) -> AuthorizeResponse {
    AuthorizeResponse::Page { status, html: error_page(title, message) }
}

fn redirect(location: &str) -> AuthorizeResponse {
    AuthorizeResponse::Redirect { location: Some(location.to_string()) }
}

#[test]
fn get_complete_request_creates_pending() {
    let reg = registration();
    let step = authorize_get_decision(&good_query(), Some(&reg));
    assert_eq!(step, AuthorizeGetStep::CreatePending(pending()));
}

#[test]
fn get_without_state_creates_pending_without_state() {
    let mut q = good_query();
    q.state = None;
    let reg = registration();
    let mut expected = pending();
    expected.state = None;
    assert_eq!(authorize_get_decision(&q, Some(&reg)), AuthorizeGetStep::CreatePending(expected));
}

#[test]
fn get_missing_client_id_is_a_page() {
    let mut q = good_query();
    q.client_id = None;
    let reg = registration();
    assert_eq!(
        authorize_get_decision(&q, Some(&reg)),
        AuthorizeGetStep::Respond(page(
            400,
            "Invalid Request",
            "The authorization request is missing a client ID. Please return to the application and try again."
        ))
    );
}

#[test]
fn get_unknown_client_is_a_page() {
    assert_eq!(
        authorize_get_decision(&good_query(), None),
        AuthorizeGetStep::Respond(page(
            400,
            "Unknown Application",
            "The application that sent you here is not recognized. Please return to the application and try again."
        ))
    );
}

#[test]
fn get_missing_redirect_uri_is_a_page() {
    let mut q = good_query();
    q.redirect_uri = None;
    let reg = registration();
    assert_eq!(
        authorize_get_decision(&q, Some(&reg)),
        AuthorizeGetStep::Respond(page(
            400,
            "Invalid Request",
            "The authorization request is missing a redirect URI. Please return to the application and try again."
        ))
    );
}

#[test]
fn get_unregistered_redirect_uri_is_a_page_not_a_redirect() {
    let mut q = good_query();
    q.redirect_uri = s("https://client.example/cb/");
    q.response_type = s("token");
    let reg = registration();
    assert_eq!(
        authorize_get_decision(&q, Some(&reg)),
        AuthorizeGetStep::Respond(page(
            400,
            "Invalid Request",
            "The redirect URI does not match any registered URI for this application. Please return to the application and try again."
        ))
    );
}

#[test]
fn get_wrong_response_type_redirects() {
    let mut q = good_query();
    q.response_type = s("token");
    let reg = registration();
    assert_eq!(
        authorize_get_decision(&q, Some(&reg)),
        AuthorizeGetStep::Respond(redirect(
            "https://client.example/cb?error=unsupported_response_type&error_description=only+response_type%3Dcode+is+supported&state=st8"
        ))
    );
    q.response_type = None;
    assert_eq!(
        authorize_get_decision(&q, Some(&reg)),
        AuthorizeGetStep::Respond(redirect(
            "https://client.example/cb?error=unsupported_response_type&error_description=only+response_type%3Dcode+is+supported&state=st8"
        ))
    );
}

#[test]
fn get_missing_challenge_redirects() {
    let mut q = good_query();
    q.code_challenge = None;
    q.state = None;
    let reg = registration();
    assert_eq!(
        authorize_get_decision(&q, Some(&reg)),
        AuthorizeGetStep::Respond(redirect(
            "https://client.example/cb?error=invalid_request&error_description=PKCE+code_challenge+is+required"
        ))
    );
}

#[test]
fn get_plain_challenge_method_redirects() {
    let mut q = good_query();
    q.code_challenge_method = s("plain");
    let reg = registration();
    let expected = AuthorizeGetStep::Respond(redirect(
        "https://client.example/cb?error=invalid_request&error_description=code_challenge_method+must+be+S256&state=st8",
    ));
    assert_eq!(authorize_get_decision(&q, Some(&reg)), expected);
    q.code_challenge_method = None;
    assert_eq!(authorize_get_decision(&q, Some(&reg)), expected);
}

#[test]
fn get_consent_page_after_pending_is_stored() {
    let p = pending();
    let response = authorize_get_consent(&p, Some("Reader"), "nonce-1", None, true);
    assert_eq!(response, AuthorizeResponse::Page { status: 200, html: consent_page("Reader", "nonce-1", true, None) });
    let response = authorize_get_consent(&p, None, "nonce-1", None, false);
    assert_eq!(response, AuthorizeResponse::Page { status: 200, html: consent_page("client-1", "nonce-1", false, None) });
}

#[test]
fn get_store_refusal_redirects_server_error() {
    let p = pending();
    let response = authorize_get_consent(&p, Some("Reader"), "nonce-1", Some("too many pending authorizations"), true);
    assert_eq!(
        response,
        redirect("https://client.example/cb?error=server_error&error_description=too+many+pending+authorizations&state=st8")
    );
}

fn form(action: &str, password: Option<&str>) -> AuthorizeForm {
    AuthorizeForm { nonce: "nonce-1".to_string(), action: action.to_string(), password: password.map(|p| p.to_string()) }
}

#[test]
fn post_unknown_nonce_is_session_expired() {
    assert_eq!(
        authorize_post_decision(&form("allow", None), None, None),
        AuthorizePostStep::Respond(page(
            400,
            "Session Expired",
            "Your authorization session has expired or is invalid. Please return to the application and try again."
        ))
    );
}

#[test]
fn post_deny_redirects_access_denied() {
    assert_eq!(
        authorize_post_decision(&form("deny", Some("secret")), Some(pending()), Some("secret")),
        AuthorizePostStep::Respond(redirect(
            "https://client.example/cb?error=access_denied&error_description=user+denied+the+request&state=st8"
        ))
    );
    assert_eq!(
        authorize_post_decision(&form("Allow", None), Some(pending()), None),
        AuthorizePostStep::Respond(redirect(
            "https://client.example/cb?error=access_denied&error_description=user+denied+the+request&state=st8"
        ))
    );
}

#[test]
fn post_allow_without_access_code_issues_code() {
    assert_eq!(
        authorize_post_decision(&form("allow", None), Some(pending()), None),
        AuthorizePostStep::IssueCode(pending())
    );
}

#[test]
fn post_allow_with_right_code_issues_code() {
    assert_eq!(
        authorize_post_decision(&form("allow", Some("secret")), Some(pending()), Some("secret")),
        AuthorizePostStep::IssueCode(pending())
    );
}

#[test]
fn post_allow_with_wrong_or_missing_code_retries() {
    assert_eq!(
        authorize_post_decision(&form("allow", Some("guess")), Some(pending()), Some("secret")),
        AuthorizePostStep::Retry(pending())
    );
    assert_eq!(
        authorize_post_decision(&form("allow", None), Some(pending()), Some("secret")),
        AuthorizePostStep::Retry(pending())
    );
}

#[test]
fn post_retry_shows_consent_page_again() {
    let p = pending();
    assert_eq!(
        authorize_post_retry(&p, Some("Reader"), "nonce-2", false),
        AuthorizeResponse::Page {
            status: 200,
            html: consent_page("Reader", "nonce-2", true, Some("Incorrect access code. Please try again.")),
        }
    );
    assert_eq!(
        authorize_post_retry(&p, None, "nonce-2", false),
        AuthorizeResponse::Page {
            status: 200,
            html: consent_page("client-1", "nonce-2", true, Some("Incorrect access code. Please try again.")),
        }
    );
}

#[test]
fn post_retry_when_store_is_full_is_server_busy() {
    assert_eq!(
        authorize_post_retry(&pending(), Some("Reader"), "nonce-2", true),
        page(503, "Server Busy", "Too many pending authorization requests. Please try again later.")
    );
}

#[test]
fn post_complete_redirects_with_code_and_state() {
    assert_eq!(
        authorize_post_complete(&pending(), "the-code"),
        redirect("https://client.example/cb?code=the-code&state=st8")
    );
    let mut p = pending();
    p.state = None;
    assert_eq!(authorize_post_complete(&p, "the-code"), redirect("https://client.example/cb?code=the-code"));
}
