//! The decisions of the OAuth authorize endpoint. Each request is answered by
//! a few steps: the caller performs what a step asks for (look up the client,
//! store a pending authorization under a fresh nonce, issue a code) and hands
//! the outcome to the next step, which decides the response.

use vstd::prelude::*;

use crate::access::{access_code_accepted, access_code_matches};
use crate::html::escape_html;
use crate::pages::{
    consent_page,
    consent_page_html,
    error_page,
    error_page_html,
    lemma_consent_page_layout,
    CONSENT_PAGE_AFTER_BANNER,
    CONSENT_PAGE_AFTER_CLIENT,
    CONSENT_PAGE_AFTER_NONCE,
    CONSENT_PAGE_HEAD,
    CONSENT_PAGE_TAIL,
    ERROR_BANNER_HEAD,
    ERROR_BANNER_TAIL,
    PASSWORD_FIELD,
};
use crate::redirect::{
    code_redirect_pairs,
    error_redirect_pairs,
    redirect_error,
    redirect_with_code,
    redirect_location,
    state_pair,
    url_parses,
    url_with_query_pairs,
};
use crate::text::{opt_view, same_text};

verus! {

/// HTTP status of a page that is shown normally.
pub const STATUS_OK: u16 = 200;

/// HTTP status of a page that reports a malformed or unknown request.
pub const STATUS_BAD_REQUEST: u16 = 400;

/// HTTP status of a page that reports that the server cannot take the request now.
pub const STATUS_SERVICE_UNAVAILABLE: u16 = 503;

/// Title of the page for a request that is malformed.
pub const TITLE_INVALID_REQUEST: &'static str = "Invalid Request";

/// Title of the page for a client that is not registered.
pub const TITLE_UNKNOWN_APPLICATION: &'static str = "Unknown Application";

/// Title of the page for a consent form whose session is gone.
pub const TITLE_SESSION_EXPIRED: &'static str = "Session Expired";

/// Title of the page for a server that holds too many pending authorizations.
pub const TITLE_SERVER_BUSY: &'static str = "Server Busy";

/// Message for a request without a client ID.
pub const MESSAGE_MISSING_CLIENT_ID: &'static str = "The authorization request is missing a client ID. Please return to the application and try again.";

/// Message for a request from a client that is not registered.
pub const MESSAGE_UNKNOWN_CLIENT: &'static str = "The application that sent you here is not recognized. Please return to the application and try again.";

/// Message for a request without a redirect URI.
pub const MESSAGE_MISSING_REDIRECT_URI: &'static str = "The authorization request is missing a redirect URI. Please return to the application and try again.";

/// Message for a redirect URI that the client did not register.
pub const MESSAGE_REDIRECT_URI_MISMATCH: &'static str = "The redirect URI does not match any registered URI for this application. Please return to the application and try again.";

/// Message for a consent form whose nonce is unknown or used.
pub const MESSAGE_SESSION_EXPIRED: &'static str = "Your authorization session has expired or is invalid. Please return to the application and try again.";

/// Message for a server that holds too many pending authorizations.
pub const MESSAGE_SERVER_BUSY: &'static str = "Too many pending authorization requests. Please try again later.";

/// Banner of a consent page shown again after a wrong access code.
pub const MESSAGE_WRONG_ACCESS_CODE: &'static str = "Incorrect access code. Please try again.";

/// The only response type served.
pub const RESPONSE_TYPE_CODE: &'static str = "code";

/// The only PKCE challenge method accepted.
pub const CHALLENGE_METHOD_S256: &'static str = "S256";

/// The consent form's action that grants access.
pub const ACTION_ALLOW: &'static str = "allow";

/// OAuth error for a response type other than `code`.
pub const ERROR_UNSUPPORTED_RESPONSE_TYPE: &'static str = "unsupported_response_type";

/// OAuth error for a malformed request.
pub const ERROR_INVALID_REQUEST: &'static str = "invalid_request";

/// OAuth error for a failure on the server's side.
pub const ERROR_SERVER_ERROR: &'static str = "server_error";

/// OAuth error for a user who denied the request.
pub const ERROR_ACCESS_DENIED: &'static str = "access_denied";

/// Description sent with `unsupported_response_type`.
pub const DESCRIPTION_CODE_ONLY: &'static str = "only response_type=code is supported";

/// Description sent when no PKCE challenge came.
pub const DESCRIPTION_CHALLENGE_REQUIRED: &'static str = "PKCE code_challenge is required";

/// Description sent when the challenge method is not S256.
pub const DESCRIPTION_METHOD_S256: &'static str = "code_challenge_method must be S256";

/// Description sent when the user denied the request.
pub const DESCRIPTION_USER_DENIED: &'static str = "user denied the request";

/// The query of `GET /authorize`.
#[derive(Debug, Clone)]
pub struct AuthorizeQuery {
    pub response_type: Option<String>,
    pub client_id: Option<String>,
    pub redirect_uri: Option<String>,
    pub code_challenge: Option<String>,
    pub code_challenge_method: Option<String>,
    pub state: Option<String>,
    /// Accepted and not used.
    pub resource: Option<String>,
    /// Accepted and not used.
    pub scope: Option<String>,
}

/// The form posted to `POST /authorize` from the consent page.
#[derive(Debug, Clone)]
pub struct AuthorizeForm {
    pub nonce: String,
    pub action: String,
    pub password: Option<String>,
}

/// What the server keeps of a registered client.
#[derive(Debug, Clone)]
pub struct ClientRegistration {
    pub redirect_uris: Vec<String>,
    pub client_name: Option<String>,
}

/// An authorization request waiting for the user's consent.
#[derive(Debug, Clone, PartialEq, Eq)]
pub struct PendingAuthorization {
    pub client_id: String,
    pub redirect_uri: String,
    pub code_challenge: String,
    pub state: Option<String>,
}

/// A response of the authorize endpoint.
#[derive(Debug, Clone, PartialEq, Eq)]
pub enum AuthorizeResponse {
    /// An HTML page with this status.
    Page { status: u16, html: String },
    /// A redirect to `location`; `None` where the redirect URI could not be
    /// parsed as an absolute URL.
    Redirect { location: Option<String> },
}

/// What `GET /authorize` does after looking at the request.
#[derive(Debug, Clone, PartialEq, Eq)]
pub enum AuthorizeGetStep {
    /// Answer at once.
    Respond(AuthorizeResponse),
    /// Store this pending authorization under a fresh nonce, then call
    /// `authorize_get_consent`.
    CreatePending(PendingAuthorization),
}

/// What `POST /authorize` does after looking at the form.
#[derive(Debug, Clone, PartialEq, Eq)]
pub enum AuthorizePostStep {
    /// Answer at once.
    Respond(AuthorizeResponse),
    /// The access code was wrong: store the same pending authorization under a
    /// fresh nonce, then call `authorize_post_retry`.
    Retry(PendingAuthorization),
    /// Consent is given: issue an authorization code for this request, then call
    /// `authorize_post_complete`.
    IssueCode(PendingAuthorization),
}

/// The query as text values.
pub struct QueryModel {
    pub response_type: Option<Seq<char>>,
    pub client_id: Option<Seq<char>>,
    pub redirect_uri: Option<Seq<char>>,
    pub code_challenge: Option<Seq<char>>,
    pub code_challenge_method: Option<Seq<char>>,
    pub state: Option<Seq<char>>,
}

/// The consent form as text values.
pub struct FormModel {
    pub nonce: Seq<char>,
    pub action: Seq<char>,
    pub password: Option<Seq<char>>,
}

/// A registered client as text values.
pub struct ClientModel {
    pub redirect_uris: Seq<Seq<char>>,
    pub client_name: Option<Seq<char>>,
}

/// A pending authorization as text values.
pub struct PendingModel {
    pub client_id: Seq<char>,
    pub redirect_uri: Seq<char>,
    pub code_challenge: Seq<char>,
    pub state: Option<Seq<char>>,
}

/// A response as text values.
pub enum ResponseModel {
    Page { status: u16, html: Seq<char> },
    Redirect { location: Option<Seq<char>> },
}

/// A step of `GET /authorize` as text values.
pub enum GetStepModel {
    Respond(ResponseModel),
    CreatePending(PendingModel),
}

/// A step of `POST /authorize` as text values.
pub enum PostStepModel {
    Respond(ResponseModel),
    Retry(PendingModel),
    IssueCode(PendingModel),
}

impl View for AuthorizeQuery {
    type V = QueryModel;

    open spec fn view(&self) -> QueryModel {
        QueryModel {
            response_type: self.response_type.deep_view(),
            client_id: self.client_id.deep_view(),
            redirect_uri: self.redirect_uri.deep_view(),
            code_challenge: self.code_challenge.deep_view(),
            code_challenge_method: self.code_challenge_method.deep_view(),
            state: self.state.deep_view(),
        }
    }
}

impl View for AuthorizeForm {
    type V = FormModel;

    open spec fn view(&self) -> FormModel {
        FormModel { nonce: self.nonce@, action: self.action@, password: self.password.deep_view() }
    }
}

impl View for ClientRegistration {
    type V = ClientModel;

    open spec fn view(&self) -> ClientModel {
        ClientModel {
            redirect_uris: self.redirect_uris.deep_view(),
            client_name: self.client_name.deep_view(),
        }
    }
}

impl View for PendingAuthorization {
    type V = PendingModel;

    open spec fn view(&self) -> PendingModel {
        PendingModel {
            client_id: self.client_id@,
            redirect_uri: self.redirect_uri@,
            code_challenge: self.code_challenge@,
            state: self.state.deep_view(),
        }
    }
}

impl View for AuthorizeResponse {
    type V = ResponseModel;

    open spec fn view(&self) -> ResponseModel {
        match self {
            AuthorizeResponse::Page { status, html } => ResponseModel::Page { status: *status, html: html@ },
            AuthorizeResponse::Redirect { location } => ResponseModel::Redirect { location: location.deep_view() },
        }
    }
}

impl View for AuthorizeGetStep {
    type V = GetStepModel;

    open spec fn view(&self) -> GetStepModel {
        match self {
            AuthorizeGetStep::Respond(r) => GetStepModel::Respond(r@),
            AuthorizeGetStep::CreatePending(p) => GetStepModel::CreatePending(p@),
        }
    }
}

impl View for AuthorizePostStep {
    type V = PostStepModel;

    open spec fn view(&self) -> PostStepModel {
        match self {
            AuthorizePostStep::Respond(r) => PostStepModel::Respond(r@),
            AuthorizePostStep::Retry(p) => PostStepModel::Retry(p@),
            AuthorizePostStep::IssueCode(p) => PostStepModel::IssueCode(p@),
        }
    }
}

/// The error page with `title` and `message`, shown with status 400.
pub open spec fn bad_request_page(title: Seq<char>, message: Seq<char>) -> ResponseModel {
    ResponseModel::Page { status: STATUS_BAD_REQUEST, html: error_page_html(title, message) }
}

/// The redirect that reports `error` with `description` to `redirect_uri`.
pub open spec fn error_redirect(
    redirect_uri: Seq<char>,
    error: Seq<char>,
    description: Seq<char>,
    state: Option<Seq<char>>,
) -> ResponseModel {
    ResponseModel::Redirect {
        location: redirect_location(redirect_uri, error_redirect_pairs(error, description, state)),
    }
}

/// How `GET /authorize` answers `q`, where `client` is what the registry holds
/// under `q`'s client ID (it is not looked at when there is no client ID).
/// Errors are shown as a page until the redirect URI is known to be registered,
/// and redirected to it after that.
pub open spec fn authorize_get_model(q: QueryModel, client: Option<ClientModel>) -> GetStepModel {
    match q.client_id {
        None => GetStepModel::Respond(
            bad_request_page(TITLE_INVALID_REQUEST@, MESSAGE_MISSING_CLIENT_ID@),
        ),
        Some(client_id) => match client {
            None => GetStepModel::Respond(
                bad_request_page(TITLE_UNKNOWN_APPLICATION@, MESSAGE_UNKNOWN_CLIENT@),
            ),
            Some(c) => match q.redirect_uri {
                None => GetStepModel::Respond(
                    bad_request_page(TITLE_INVALID_REQUEST@, MESSAGE_MISSING_REDIRECT_URI@),
                ),
                Some(uri) => if !c.redirect_uris.contains(uri) {
                    GetStepModel::Respond(
                        bad_request_page(TITLE_INVALID_REQUEST@, MESSAGE_REDIRECT_URI_MISMATCH@),
                    )
                } else if q.response_type != Some(RESPONSE_TYPE_CODE@) {
                    GetStepModel::Respond(
                        error_redirect(
                            uri,
                            ERROR_UNSUPPORTED_RESPONSE_TYPE@,
                            DESCRIPTION_CODE_ONLY@,
                            q.state,
                        ),
                    )
                } else if q.code_challenge is None {
                    GetStepModel::Respond(
                        error_redirect(
                            uri,
                            ERROR_INVALID_REQUEST@,
                            DESCRIPTION_CHALLENGE_REQUIRED@,
                            q.state,
                        ),
                    )
                } else if q.code_challenge_method != Some(CHALLENGE_METHOD_S256@) {
                    GetStepModel::Respond(
                        error_redirect(uri, ERROR_INVALID_REQUEST@, DESCRIPTION_METHOD_S256@, q.state),
                    )
                } else {
                    GetStepModel::CreatePending(
                        PendingModel {
                            client_id: client_id,
                            redirect_uri: uri,
                            code_challenge: q.code_challenge->0,
                            state: q.state,
                        },
                    )
                },
            },
        },
    }
}

/// The name shown on the consent page: the client's registered name, or its
/// ID when it registered none.
pub open spec fn display_name(client_name: Option<Seq<char>>, client_id: Seq<char>) -> Seq<char> {
    match client_name {
        Some(name) => name,
        None => client_id,
    }
}

/// How `GET /authorize` answers once it tried to store `p` under `nonce`:
/// `insert_error` is the store's refusal, if it refused.
pub open spec fn authorize_get_consent_model(
    p: PendingModel,
    client_name: Option<Seq<char>>,
    nonce: Seq<char>,
    insert_error: Option<Seq<char>>,
    requires_password: bool,
) -> ResponseModel {
    match insert_error {
        Some(msg) => error_redirect(p.redirect_uri, ERROR_SERVER_ERROR@, msg, p.state),
        None => ResponseModel::Page {
            status: STATUS_OK,
            html: consent_page_html(
                display_name(client_name, p.client_id),
                nonce,
                requires_password,
                None,
            ),
        },
    }
}

/// How `POST /authorize` answers `form`, where `pending` is the pending
/// authorization that was stored under the form's nonce and has now been taken
/// out, and `api_token` the server's access code, if it has one.
pub open spec fn authorize_post_model(
    form: FormModel,
    pending: Option<PendingModel>,
    api_token: Option<Seq<char>>,
) -> PostStepModel {
    match pending {
        None => PostStepModel::Respond(
            bad_request_page(TITLE_SESSION_EXPIRED@, MESSAGE_SESSION_EXPIRED@),
        ),
        Some(p) => if form.action != ACTION_ALLOW@ {
            PostStepModel::Respond(
                error_redirect(p.redirect_uri, ERROR_ACCESS_DENIED@, DESCRIPTION_USER_DENIED@, p.state),
            )
        } else {
            match api_token {
                Some(expected) => if !access_code_accepted(form.password, expected) {
                    PostStepModel::Retry(p)
                } else {
                    PostStepModel::IssueCode(p)
                },
                None => PostStepModel::IssueCode(p),
            }
        },
    }
}

/// How `POST /authorize` answers a wrong access code once it tried to store `p`
/// again under `new_nonce`.
pub open spec fn authorize_post_retry_model(
    p: PendingModel,
    client_name: Option<Seq<char>>,
    new_nonce: Seq<char>,
    insert_failed: bool,
) -> ResponseModel {
    if insert_failed {
        ResponseModel::Page {
            status: STATUS_SERVICE_UNAVAILABLE,
            html: error_page_html(TITLE_SERVER_BUSY@, MESSAGE_SERVER_BUSY@),
        }
    } else {
        ResponseModel::Page {
            status: STATUS_OK,
            html: consent_page_html(
                display_name(client_name, p.client_id),
                new_nonce,
                true,
                Some(MESSAGE_WRONG_ACCESS_CODE@),
            ),
        }
    }
}

/// How `POST /authorize` answers once `code` was issued for `p`.
pub open spec fn authorize_post_complete_model(p: PendingModel, code: Seq<char>) -> ResponseModel {
    ResponseModel::Redirect {
        location: redirect_location(p.redirect_uri, code_redirect_pairs(code, p.state)),
    }
}

/// A pending authorization is created exactly for a request that names a
/// registered client, one of its registered redirect URIs (compared exactly),
/// response type `code`, a PKCE challenge and challenge method `S256`; it
/// keeps the request's client ID, redirect URI, challenge and state.
pub proof fn lemma_pending_only_for_complete_requests(q: QueryModel, client: Option<ClientModel>)
    ensures
        (authorize_get_model(q, client) is CreatePending) <==> {
            &&& q.client_id is Some
            &&& client is Some
            &&& q.redirect_uri is Some
            &&& client->0.redirect_uris.contains(q.redirect_uri->0)
            &&& q.response_type == Some(RESPONSE_TYPE_CODE@)
            &&& q.code_challenge is Some
            &&& q.code_challenge_method == Some(CHALLENGE_METHOD_S256@)
        },
        authorize_get_model(q, client) matches GetStepModel::CreatePending(p) ==> (p == (PendingModel {
            client_id: q.client_id->0,
            redirect_uri: q.redirect_uri->0,
            code_challenge: q.code_challenge->0,
            state: q.state,
        })),
{
}

/// `GET /authorize` redirects only to a redirect URI that the client
/// registered, and every such redirect reports an error and passes the
/// request's state back; every other early answer is an error page with
/// status 400.
pub proof fn lemma_get_redirects_only_to_registered_uri(q: QueryModel, client: Option<ClientModel>)
    ensures
        ({
            let step = authorize_get_model(q, client);
            step is Respond && step->Respond_0 is Redirect ==> {
                &&& client is Some
                &&& q.redirect_uri is Some
                &&& client->0.redirect_uris.contains(q.redirect_uri->0)
                &&& exists|error: Seq<char>, description: Seq<char>|
                    step->Respond_0->location == redirect_location(
                        q.redirect_uri->0,
                        #[trigger] error_redirect_pairs(error, description, q.state),
                    )
            }
        }),
        ({
            let step = authorize_get_model(q, client);
            step is Respond && step->Respond_0 is Page ==> step->Respond_0->status == STATUS_BAD_REQUEST
        }),
{
    let step = authorize_get_model(q, client);
    if step is Respond && step->Respond_0 is Redirect {
        let location = step->Respond_0->location;
        let uri = q.redirect_uri->0;
        if q.response_type != Some(RESPONSE_TYPE_CODE@) {
            assert(location == redirect_location(uri, error_redirect_pairs(ERROR_UNSUPPORTED_RESPONSE_TYPE@, DESCRIPTION_CODE_ONLY@, q.state)));
        } else if q.code_challenge is None {
            assert(location == redirect_location(uri, error_redirect_pairs(ERROR_INVALID_REQUEST@, DESCRIPTION_CHALLENGE_REQUIRED@, q.state)));
        } else {
            assert(location == redirect_location(uri, error_redirect_pairs(ERROR_INVALID_REQUEST@, DESCRIPTION_METHOD_S256@, q.state)));
        }
    }
}

/// `POST /authorize` issues a code exactly when the form's nonce named a
/// pending authorization, the user chose `allow`, and either the server asks
/// for no access code or the right one was given; the code is issued for that
/// pending authorization, unchanged.
pub proof fn lemma_code_only_with_consent(form: FormModel, pending: Option<PendingModel>, api_token: Option<Seq<char>>)
    ensures
        (authorize_post_model(form, pending, api_token) is IssueCode) <==> {
            &&& pending is Some
            &&& form.action == ACTION_ALLOW@
            &&& (api_token matches Some(t) ==> access_code_accepted(form.password, t))
        },
        authorize_post_model(form, pending, api_token) matches PostStepModel::IssueCode(p) ==> pending == Some(p),
{
}

/// A wrong access code puts the same pending authorization back for another
/// try: nothing of the request changes.
pub proof fn lemma_retry_keeps_request(form: FormModel, pending: Option<PendingModel>, api_token: Option<Seq<char>>)
    ensures
        (authorize_post_model(form, pending, api_token) is Retry) <==> {
            &&& pending is Some
            &&& form.action == ACTION_ALLOW@
            &&& api_token matches Some(t) && !access_code_accepted(form.password, t)
        },
        authorize_post_model(form, pending, api_token) matches PostStepModel::Retry(p) ==> pending == Some(p),
{
}

/// A user who does not choose `allow` is sent back to the client with
/// `access_denied` and the request's state, whatever the access code.
pub proof fn lemma_denial_redirects_with_state(form: FormModel, p: PendingModel, api_token: Option<Seq<char>>)
    requires
        form.action != ACTION_ALLOW@,
    ensures
        authorize_post_model(form, Some(p), api_token) == PostStepModel::Respond(
            error_redirect(p.redirect_uri, ERROR_ACCESS_DENIED@, DESCRIPTION_USER_DENIED@, p.state),
        ),
{
}

/// Whether every redirect URI that the client registered is an absolute URL,
/// as registration ensures.
pub open spec fn registered_uris_parse(client: Option<ClientModel>) -> bool {
    client matches Some(c) ==> forall|u: Seq<char>| #[trigger] c.redirect_uris.contains(u) ==> url_parses(u)
}

/// Whether a response is a redirect that leads nowhere.
pub open spec fn is_dead_redirect(r: ResponseModel) -> bool {
    r matches ResponseModel::Redirect { location } && location is None
}

/// When the client's registered redirect URIs are absolute URLs, every redirect
/// that `GET /authorize` answers with has a location, and the pending
/// authorization it creates holds a redirect URI that parses.
pub proof fn lemma_get_redirects_lead_somewhere(q: QueryModel, client: Option<ClientModel>)
    requires
        registered_uris_parse(client),
    ensures
        authorize_get_model(q, client) matches GetStepModel::Respond(r) ==> !is_dead_redirect(r),
        authorize_get_model(q, client) matches GetStepModel::CreatePending(p) ==> url_parses(p.redirect_uri),
{
    if q.client_id is Some && client is Some && q.redirect_uri is Some {
        let c = client->0;
        let uri = q.redirect_uri->0;
        if c.redirect_uris.contains(uri) {
            assert(url_parses(uri));
        }
    }
}

/// For a pending authorization whose redirect URI parses, no later answer of
/// the flow (the consent step of `GET /authorize`, and every step of
/// `POST /authorize`) is a redirect without a location.
pub proof fn lemma_pending_redirects_lead_somewhere(
    p: PendingModel,
    form: FormModel,
    api_token: Option<Seq<char>>,
    client_name: Option<Seq<char>>,
    nonce: Seq<char>,
    insert_error: Option<Seq<char>>,
    requires_password: bool,
    code: Seq<char>,
)
    requires
        url_parses(p.redirect_uri),
    ensures
        !is_dead_redirect(authorize_get_consent_model(p, client_name, nonce, insert_error, requires_password)),
        authorize_post_model(form, Some(p), api_token) matches PostStepModel::Respond(r) ==> !is_dead_redirect(r),
        !is_dead_redirect(authorize_post_complete_model(p, code)),
        !is_dead_redirect(authorize_post_retry_model(p, client_name, nonce, insert_error is Some)),
{
}

/// Once the client is known and the redirect URI is one of its registered
/// URIs, `GET /authorize` never answers with a page: every error goes back to
/// the client as a redirect to that URI, carrying the error, its description
/// and the request's state, in that order.
pub proof fn lemma_get_errors_after_registration_are_redirects(q: QueryModel, c: ClientModel)
    requires
        q.client_id is Some,
        q.redirect_uri is Some,
        c.redirect_uris.contains(q.redirect_uri->0),
    ensures
        authorize_get_model(q, Some(c)) is Respond ==> authorize_get_model(q, Some(c))->Respond_0 is Redirect,
        q.response_type != Some("code"@) ==> authorize_get_model(q, Some(c)) == GetStepModel::Respond(
            ResponseModel::Redirect {
                location: redirect_location(
                    q.redirect_uri->0,
                    seq![
                        ("error"@, "unsupported_response_type"@),
                        ("error_description"@, "only response_type=code is supported"@),
                    ] + state_pair(q.state),
                ),
            },
        ),
        q.response_type == Some("code"@) && q.code_challenge is None ==> authorize_get_model(q, Some(c))
            == GetStepModel::Respond(
            ResponseModel::Redirect {
                location: redirect_location(
                    q.redirect_uri->0,
                    seq![
                        ("error"@, "invalid_request"@),
                        ("error_description"@, "PKCE code_challenge is required"@),
                    ] + state_pair(q.state),
                ),
            },
        ),
        q.response_type == Some("code"@) && q.code_challenge is Some && q.code_challenge_method != Some(
            "S256"@,
        ) ==> authorize_get_model(q, Some(c)) == GetStepModel::Respond(
            ResponseModel::Redirect {
                location: redirect_location(
                    q.redirect_uri->0,
                    seq![
                        ("error"@, "invalid_request"@),
                        ("error_description"@, "code_challenge_method must be S256"@),
                    ] + state_pair(q.state),
                ),
            },
        ),
{
    assert(error_redirect_pairs(ERROR_UNSUPPORTED_RESPONSE_TYPE@, DESCRIPTION_CODE_ONLY@, q.state) =~= seq![
        ("error"@, "unsupported_response_type"@),
        ("error_description"@, "only response_type=code is supported"@),
    ] + state_pair(q.state));
    assert(error_redirect_pairs(ERROR_INVALID_REQUEST@, DESCRIPTION_CHALLENGE_REQUIRED@, q.state) =~= seq![
        ("error"@, "invalid_request"@),
        ("error_description"@, "PKCE code_challenge is required"@),
    ] + state_pair(q.state));
    assert(error_redirect_pairs(ERROR_INVALID_REQUEST@, DESCRIPTION_METHOD_S256@, q.state) =~= seq![
        ("error"@, "invalid_request"@),
        ("error_description"@, "code_challenge_method must be S256"@),
    ] + state_pair(q.state));
}

/// Once a code is issued, the answer is always a redirect to the pending
/// request's redirect URI with `code` and then the request's state added to its
/// query, whatever the scheme or host of that URI; it has a location exactly
/// when the URI parses.
pub proof fn lemma_code_goes_back_to_client(p: PendingModel, code: Seq<char>)
    ensures
        url_parses(p.redirect_uri) ==> authorize_post_complete_model(p, code) == (ResponseModel::Redirect {
            location: Some(url_with_query_pairs(p.redirect_uri, seq![("code"@, code)] + state_pair(p.state))),
        }),
        !url_parses(p.redirect_uri) ==> authorize_post_complete_model(p, code) == (ResponseModel::Redirect {
            location: None,
        }),
{
}

/// Once the pending authorization is stored, `GET /authorize` shows the consent
/// page with status 200: the client's name (its ID when it registered none),
/// the nonce, no banner, and the access-code field exactly when the server asks
/// for an access code, whatever the client's name.
pub proof fn lemma_consent_shown_after_store(p: PendingModel, client_name: Option<Seq<char>>, nonce: Seq<char>)
    ensures
        authorize_get_consent_model(p, client_name, nonce, None, true) == (ResponseModel::Page {
            status: 200,
            html: CONSENT_PAGE_HEAD@ + escape_html(
                match client_name {
                    Some(n) => n,
                    None => p.client_id,
                },
            ) + CONSENT_PAGE_AFTER_CLIENT@ + escape_html(nonce) + CONSENT_PAGE_AFTER_NONCE@
                + CONSENT_PAGE_AFTER_BANNER@ + PASSWORD_FIELD@ + CONSENT_PAGE_TAIL@,
        }),
        authorize_get_consent_model(p, client_name, nonce, None, false) == (ResponseModel::Page {
            status: 200,
            html: CONSENT_PAGE_HEAD@ + escape_html(
                match client_name {
                    Some(n) => n,
                    None => p.client_id,
                },
            ) + CONSENT_PAGE_AFTER_CLIENT@ + escape_html(nonce) + CONSENT_PAGE_AFTER_NONCE@
                + CONSENT_PAGE_AFTER_BANNER@ + CONSENT_PAGE_TAIL@,
        }),
{
    lemma_consent_page_layout(display_name(client_name, p.client_id), nonce, Seq::empty());
}

/// After a wrong access code, and once the pending authorization is stored
/// again, the consent page comes back with status 200, the new nonce, the
/// wrong-code banner and the access-code field.
pub proof fn lemma_retry_shows_banner_and_field(p: PendingModel, client_name: Option<Seq<char>>, nonce: Seq<char>)
    ensures
        authorize_post_retry_model(p, client_name, nonce, false) == (ResponseModel::Page {
            status: 200,
            html: CONSENT_PAGE_HEAD@ + escape_html(
                match client_name {
                    Some(n) => n,
                    None => p.client_id,
                },
            ) + CONSENT_PAGE_AFTER_CLIENT@ + escape_html(nonce) + CONSENT_PAGE_AFTER_NONCE@
                + ERROR_BANNER_HEAD@ + escape_html("Incorrect access code. Please try again."@)
                + ERROR_BANNER_TAIL@ + CONSENT_PAGE_AFTER_BANNER@ + PASSWORD_FIELD@ + CONSENT_PAGE_TAIL@,
        }),
{
    lemma_consent_page_layout(display_name(client_name, p.client_id), nonce, MESSAGE_WRONG_ACCESS_CODE@);
}

/// Whether `uri` is one of `uris`, compared exactly.
fn contains_uri(uris: &Vec<String>, uri: &str) -> (found: bool)
    ensures
        found == uris.deep_view().contains(uri@),
{
    let n = uris.len();
    let mut i: usize = 0;
    while i < n
        invariant
            n == uris.len(),
            i <= n,
            forall|j: int| 0 <= j < i ==> uris.deep_view()[j] != uri@,
        decreases n - i,
    {
        if same_text(uris[i].as_str(), uri) {
            assert(uris.deep_view()[i as int] == uri@);
            return true;
        }
        i = i + 1;
    }
    proof {
        if uris.deep_view().contains(uri@) {
            let k = choose|k: int| 0 <= k < uris.deep_view().len() && uris.deep_view()[k] == uri@;
            assert(uris.deep_view()[k] != uri@);
        }
    }
    false
}

/// Whether an optional text is present and equal to `expected`.
fn is_some_text(value: &Option<String>, expected: &str) -> (equal: bool)
    ensures
        equal == (value.deep_view() == Some(expected@)),
{
    match value {
        Some(v) => same_text(v.as_str(), expected),
        None => false,
    }
}

/// The view of an optional borrowed `String`.
fn as_opt_str(value: &Option<String>) -> (r: Option<&str>)
    ensures
        opt_view(r) == value.deep_view(),
{
    match value {
        Some(v) => Some(v.as_str()),
        None => None,
    }
}

fn bad_request(title: &str, message: &str) -> (response: AuthorizeResponse)
    ensures
        response@ == bad_request_page(title@, message@),
{
    AuthorizeResponse::Page { status: STATUS_BAD_REQUEST, html: error_page(title, message) }
}

fn redirect_to(redirect_uri: &str, error: &str, description: &str, state: &Option<String>) -> (response: AuthorizeResponse)
    ensures
        response@ == error_redirect(redirect_uri@, error@, description@, state.deep_view()),
{
    AuthorizeResponse::Redirect {
        location: redirect_error(redirect_uri, error, description, as_opt_str(state)),
    }
}

fn copy_opt(value: &Option<String>) -> (copy: Option<String>)
    ensures
        copy.deep_view() == value.deep_view(),
{
    match value {
        Some(v) => Some(v.clone()),
        None => None,
    }
}

/// Decides the first step of `GET /authorize` for the query `q`; `client` is
/// what the registry holds under `q.client_id` (none when the ID is missing or
/// unknown).
pub fn authorize_get_decision(q: &AuthorizeQuery, client: Option<&ClientRegistration>) -> (step: AuthorizeGetStep)
    ensures
        step@ == authorize_get_model(
            q@,
            match client {
                Some(c) => Some(c@),
                None => None,
            },
        ),
{
    let client_id = match &q.client_id {
        None => {
            return AuthorizeGetStep::Respond(
                bad_request(TITLE_INVALID_REQUEST, MESSAGE_MISSING_CLIENT_ID),
            );
        },
        Some(id) => id,
    };
    let registration = match client {
        None => {
            return AuthorizeGetStep::Respond(
                bad_request(TITLE_UNKNOWN_APPLICATION, MESSAGE_UNKNOWN_CLIENT),
            );
        },
        Some(c) => c,
    };
    let redirect_uri = match &q.redirect_uri {
        None => {
            return AuthorizeGetStep::Respond(
                bad_request(TITLE_INVALID_REQUEST, MESSAGE_MISSING_REDIRECT_URI),
            );
        },
        Some(uri) => uri,
    };
    if !contains_uri(&registration.redirect_uris, redirect_uri.as_str()) {
        return AuthorizeGetStep::Respond(
            bad_request(TITLE_INVALID_REQUEST, MESSAGE_REDIRECT_URI_MISMATCH),
        );
    }
    if !is_some_text(&q.response_type, RESPONSE_TYPE_CODE) {
        return AuthorizeGetStep::Respond(
            redirect_to(
                redirect_uri.as_str(),
                ERROR_UNSUPPORTED_RESPONSE_TYPE,
                DESCRIPTION_CODE_ONLY,
                &q.state,
            ),
        );
    }
    let code_challenge = match &q.code_challenge {
        None => {
            return AuthorizeGetStep::Respond(
                redirect_to(
                    redirect_uri.as_str(),
                    ERROR_INVALID_REQUEST,
                    DESCRIPTION_CHALLENGE_REQUIRED,
                    &q.state,
                ),
            );
        },
        Some(challenge) => challenge,
    };
    if !is_some_text(&q.code_challenge_method, CHALLENGE_METHOD_S256) {
        return AuthorizeGetStep::Respond(
            redirect_to(
                redirect_uri.as_str(),
                ERROR_INVALID_REQUEST,
                DESCRIPTION_METHOD_S256,
                &q.state,
            ),
        );
    }
    AuthorizeGetStep::CreatePending(
        PendingAuthorization {
            client_id: client_id.clone(),
            redirect_uri: redirect_uri.clone(),
            code_challenge: code_challenge.clone(),
            state: copy_opt(&q.state),
        },
    )
}

/// Decides the answer of `GET /authorize` once the pending authorization
/// `pending` was offered to the store under `nonce`: `insert_error` is the
/// store's refusal, `client_name` the client's registered name and
/// `requires_password` whether the server asks for an access code.
pub fn authorize_get_consent(
    pending: &PendingAuthorization,
    client_name: Option<&str>,
    nonce: &str,
    insert_error: Option<&str>,
    requires_password: bool,
) -> (response: AuthorizeResponse)
    ensures
        response@ == authorize_get_consent_model(
            pending@,
            opt_view(client_name),
            nonce@,
            opt_view(insert_error),
            requires_password,
        ),
{
    match insert_error {
        Some(msg) => redirect_to(pending.redirect_uri.as_str(), ERROR_SERVER_ERROR, msg, &pending.state),
        None => {
            let name = match client_name {
                Some(n) => n,
                None => pending.client_id.as_str(),
            };
            AuthorizeResponse::Page {
                status: STATUS_OK,
                html: consent_page(name, nonce, requires_password, None),
            }
        },
    }
}

/// Decides the first step of `POST /authorize` for `form`; `pending` is the
/// pending authorization taken out of the store under the form's nonce (none
/// when the nonce is unknown or used), `api_token` the server's access code.
pub fn authorize_post_decision(
    form: &AuthorizeForm,
    pending: Option<PendingAuthorization>,
    api_token: Option<&str>,
) -> (step: AuthorizePostStep)
    ensures
        step@ == authorize_post_model(
            form@,
            match pending {
                Some(p) => Some(p@),
                None => None,
            },
            opt_view(api_token),
        ),
{
    let p = match pending {
        None => {
            return AuthorizePostStep::Respond(
                bad_request(TITLE_SESSION_EXPIRED, MESSAGE_SESSION_EXPIRED),
            );
        },
        Some(p) => p,
    };
    if !same_text(form.action.as_str(), ACTION_ALLOW) {
        let response = redirect_to(
            p.redirect_uri.as_str(),
            ERROR_ACCESS_DENIED,
            DESCRIPTION_USER_DENIED,
            &p.state,
        );
        return AuthorizePostStep::Respond(response);
    }
    match api_token {
        Some(expected) => {
            if !access_code_matches(as_opt_str(&form.password), expected) {
                AuthorizePostStep::Retry(p)
            } else {
                AuthorizePostStep::IssueCode(p)
            }
        },
        None => AuthorizePostStep::IssueCode(p),
    }
}

/// Decides the answer of `POST /authorize` after a wrong access code, once
/// `pending` was offered to the store again under `new_nonce`.
pub fn authorize_post_retry(
    pending: &PendingAuthorization,
    client_name: Option<&str>,
    new_nonce: &str,
    insert_failed: bool,
) -> (response: AuthorizeResponse)
    ensures
        response@ == authorize_post_retry_model(pending@, opt_view(client_name), new_nonce@, insert_failed),
{
    if insert_failed {
        return AuthorizeResponse::Page {
            status: STATUS_SERVICE_UNAVAILABLE,
            html: error_page(TITLE_SERVER_BUSY, MESSAGE_SERVER_BUSY),
        };
    }
    let name = match client_name {
        Some(n) => n,
        None => pending.client_id.as_str(),
    };
    AuthorizeResponse::Page {
        status: STATUS_OK,
        html: consent_page(name, new_nonce, true, Some(MESSAGE_WRONG_ACCESS_CODE)),
    }
}

/// Decides the answer of `POST /authorize` once `code` was issued for `pending`.
pub fn authorize_post_complete(pending: &PendingAuthorization, code: &str) -> (response: AuthorizeResponse)
    ensures
        response@ == authorize_post_complete_model(pending@, code@),
{
    AuthorizeResponse::Redirect {
        location: redirect_with_code(pending.redirect_uri.as_str(), code, as_opt_str(&pending.state)),
    }
}

} // verus!
