//! The HTML pages of the authorize endpoint: the error page and the consent page.

use vstd::prelude::*;

use crate::html::{escape_html, html_escape};
use crate::text::opt_view;

verus! {

/// Error page, up to the title in `<title>`.
pub const ERROR_PAGE_HEAD: &'static str = r#"<!DOCTYPE html>
<html lang="en">
<head>
  <meta charset="utf-8">
  <meta name="viewport" content="width=device-width, initial-scale=1">
  <title>"#;

/// Error page, from after the title in `<title>` up to the heading.
pub const ERROR_PAGE_AFTER_TITLE: &'static str = r#" — MyAnonamouse MCP</title>
  <style>
    body { font-family: system-ui, -apple-system, sans-serif; background: #f5f5f5; display: flex; justify-content: center; padding-top: 80px; }
    .card { background: white; border-radius: 8px; box-shadow: 0 2px 8px rgba(0,0,0,0.1); padding: 32px; max-width: 420px; width: 100%; }
    h1 { margin-top: 0; font-size: 1.3em; color: #b91c1c; }
    p { color: #555; line-height: 1.5; }
  </style>
</head>
<body>
  <div class="card">
    <h1>"#;

/// Error page, between the heading and the message.
pub const ERROR_PAGE_AFTER_HEADING: &'static str = r#"</h1>
    <p>"#;

/// Error page, after the message.
pub const ERROR_PAGE_TAIL: &'static str = r#"</p>
  </div>
</body>
</html>"#;

/// Error banner of the consent page, before its message.
pub const ERROR_BANNER_HEAD: &'static str = r#"<div style="background:#fef2f2;border:1px solid #fca5a5;border-radius:4px;padding:10px 14px;margin-bottom:16px;color:#b91c1c;font-size:0.95em">"#;

/// Error banner of the consent page, after its message.
pub const ERROR_BANNER_TAIL: &'static str = r#"</div>"#;

/// Access-code field of the consent page.
pub const PASSWORD_FIELD: &'static str = r#"<div style="margin-bottom:16px">
            <label for="password" style="display:block;margin-bottom:4px;font-weight:600">Access Code</label>
            <input type="password" id="password" name="password" required
                   style="width:100%;padding:8px;border:1px solid #ccc;border-radius:4px;box-sizing:border-box"
                   placeholder="Enter the server access code">
          </div>"#;

/// Consent page, up to the client name.
pub const CONSENT_PAGE_HEAD: &'static str = r#"<!DOCTYPE html>
<html lang="en">
<head>
  <meta charset="utf-8">
  <meta name="viewport" content="width=device-width, initial-scale=1">
  <title>Authorize — MyAnonamouse MCP</title>
  <style>
    body { font-family: system-ui, -apple-system, sans-serif; background: #f5f5f5; display: flex; justify-content: center; padding-top: 80px; }
    .card { background: white; border-radius: 8px; box-shadow: 0 2px 8px rgba(0,0,0,0.1); padding: 32px; max-width: 420px; width: 100%; }
    h1 { margin-top: 0; font-size: 1.3em; }
    .client-name { font-weight: 600; color: #333; }
    .buttons { display: flex; gap: 12px; margin-top: 20px; }
    .buttons button { flex: 1; padding: 10px; border: none; border-radius: 4px; font-size: 1em; cursor: pointer; }
    .allow { background: #2563eb; color: white; }
    .allow:hover { background: #1d4ed8; }
    .deny { background: #e5e7eb; color: #333; }
    .deny:hover { background: #d1d5db; }
  </style>
</head>
<body>
  <div class="card">
    <h1>Authorize Application</h1>
    <p><span class="client-name">"#;

/// Consent page, between the client name and the nonce.
pub const CONSENT_PAGE_AFTER_CLIENT: &'static str = r#"</span> wants to access your MyAnonamouse MCP server.</p>
    <form method="POST" action="/authorize">
      <input type="hidden" name="nonce" value=""#;

/// Consent page, between the nonce and the error banner.
pub const CONSENT_PAGE_AFTER_NONCE: &'static str = r#"">
      "#;

/// Consent page, between the error banner and the access-code field.
pub const CONSENT_PAGE_AFTER_BANNER: &'static str = r#"
      "#;

/// Consent page, after the access-code field.
pub const CONSENT_PAGE_TAIL: &'static str = r#"
      <div class="buttons">
        <button type="submit" name="action" value="deny" class="deny">Deny</button>
        <button type="submit" name="action" value="allow" class="allow">Allow</button>
      </div>
    </form>
  </div>
</body>
</html>"#;

/// The error page for `title` and `message`, both escaped; the title stands
/// in the page's `<title>` and in its heading.
pub open spec fn error_page_html(title: Seq<char>, message: Seq<char>) -> Seq<char> {
    ERROR_PAGE_HEAD@ + escape_html(title) + ERROR_PAGE_AFTER_TITLE@ + escape_html(title)
        + ERROR_PAGE_AFTER_HEADING@ + escape_html(message) + ERROR_PAGE_TAIL@
}

/// The banner that shows `error_message` on the consent page; nothing without one.
pub open spec fn error_banner_html(error_message: Option<Seq<char>>) -> Seq<char> {
    match error_message {
        Some(msg) => ERROR_BANNER_HEAD@ + escape_html(msg) + ERROR_BANNER_TAIL@,
        None => Seq::empty(),
    }
}

/// The access-code field when one is required; nothing otherwise.
pub open spec fn password_field_html(requires_password: bool) -> Seq<char> {
    if requires_password {
        PASSWORD_FIELD@
    } else {
        Seq::empty()
    }
}

/// The consent page asking the user to allow or deny `client_name`, with
/// `nonce` in the form's hidden field.
pub open spec fn consent_page_html(
    client_name: Seq<char>,
    nonce: Seq<char>,
    requires_password: bool,
    error_message: Option<Seq<char>>,
) -> Seq<char> {
    CONSENT_PAGE_HEAD@ + escape_html(client_name) + CONSENT_PAGE_AFTER_CLIENT@ + escape_html(nonce)
        + CONSENT_PAGE_AFTER_NONCE@ + error_banner_html(error_message)
        + CONSENT_PAGE_AFTER_BANNER@ + password_field_html(requires_password)
        + CONSENT_PAGE_TAIL@
}

/// The consent page is, piece by piece: the head, the escaped client name, the
/// escaped nonce in the hidden field, the banner with the escaped error message
/// when there is one, the access-code field exactly when an access code is
/// required (whether or not a banner is shown), and the tail.
pub proof fn lemma_consent_page_layout(client_name: Seq<char>, nonce: Seq<char>, message: Seq<char>)
    ensures
        consent_page_html(client_name, nonce, true, None) == CONSENT_PAGE_HEAD@ + escape_html(client_name)
            + CONSENT_PAGE_AFTER_CLIENT@ + escape_html(nonce) + CONSENT_PAGE_AFTER_NONCE@
            + CONSENT_PAGE_AFTER_BANNER@ + PASSWORD_FIELD@ + CONSENT_PAGE_TAIL@,
        consent_page_html(client_name, nonce, false, None) == CONSENT_PAGE_HEAD@ + escape_html(client_name)
            + CONSENT_PAGE_AFTER_CLIENT@ + escape_html(nonce) + CONSENT_PAGE_AFTER_NONCE@
            + CONSENT_PAGE_AFTER_BANNER@ + CONSENT_PAGE_TAIL@,
        consent_page_html(client_name, nonce, true, Some(message)) == CONSENT_PAGE_HEAD@ + escape_html(
            client_name,
        ) + CONSENT_PAGE_AFTER_CLIENT@ + escape_html(nonce) + CONSENT_PAGE_AFTER_NONCE@
            + ERROR_BANNER_HEAD@ + escape_html(message) + ERROR_BANNER_TAIL@ + CONSENT_PAGE_AFTER_BANNER@
            + PASSWORD_FIELD@ + CONSENT_PAGE_TAIL@,
        consent_page_html(client_name, nonce, false, Some(message)) == CONSENT_PAGE_HEAD@ + escape_html(
            client_name,
        ) + CONSENT_PAGE_AFTER_CLIENT@ + escape_html(nonce) + CONSENT_PAGE_AFTER_NONCE@
            + ERROR_BANNER_HEAD@ + escape_html(message) + ERROR_BANNER_TAIL@ + CONSENT_PAGE_AFTER_BANNER@
            + CONSENT_PAGE_TAIL@,
{
    let pre = CONSENT_PAGE_HEAD@ + escape_html(client_name) + CONSENT_PAGE_AFTER_CLIENT@ + escape_html(nonce)
        + CONSENT_PAGE_AFTER_NONCE@;
    let banner = ERROR_BANNER_HEAD@ + escape_html(message) + ERROR_BANNER_TAIL@;
    assert(consent_page_html(client_name, nonce, true, None) =~= pre + CONSENT_PAGE_AFTER_BANNER@ + PASSWORD_FIELD@ + CONSENT_PAGE_TAIL@);
    assert(consent_page_html(client_name, nonce, false, None) =~= pre + CONSENT_PAGE_AFTER_BANNER@ + CONSENT_PAGE_TAIL@);
    assert(consent_page_html(client_name, nonce, true, Some(message)) =~= pre + banner + CONSENT_PAGE_AFTER_BANNER@ + PASSWORD_FIELD@ + CONSENT_PAGE_TAIL@);
    assert(consent_page_html(client_name, nonce, false, Some(message)) =~= pre + banner + CONSENT_PAGE_AFTER_BANNER@ + CONSENT_PAGE_TAIL@);
}

/// The error page is the head, the escaped title, the middle, the escaped
/// title again as heading, the escaped message, and the tail.
pub proof fn lemma_error_page_layout(title: Seq<char>, message: Seq<char>)
    ensures
        error_page_html(title, message) == ERROR_PAGE_HEAD@ + escape_html(title) + ERROR_PAGE_AFTER_TITLE@
            + escape_html(title) + ERROR_PAGE_AFTER_HEADING@ + escape_html(message) + ERROR_PAGE_TAIL@,
{
}

/// The HTML of the error page with `title` and `message`.
pub fn error_page(title: &str, message: &str) -> (page: String)
    ensures
        page@ == error_page_html(title@, message@),
{
    let escaped_title = html_escape(title);
    let escaped_message = html_escape(message);
    let mut page = String::from_str(ERROR_PAGE_HEAD);
    page.append(escaped_title.as_str());
    page.append(ERROR_PAGE_AFTER_TITLE);
    page.append(escaped_title.as_str());
    page.append(ERROR_PAGE_AFTER_HEADING);
    page.append(escaped_message.as_str());
    page.append(ERROR_PAGE_TAIL);
    page
}

/// The HTML of the consent page for `client_name`, carrying `nonce`, with the
/// access-code field when `requires_password` and a banner with
/// `error_message` when there is one.
pub fn consent_page(
    client_name: &str,
    nonce: &str,
    requires_password: bool,
    error_message: Option<&str>,
) -> (page: String)
    ensures
        page@ == consent_page_html(client_name@, nonce@, requires_password, opt_view(error_message)),
{
    let mut page = String::from_str(CONSENT_PAGE_HEAD);
    let escaped_name = html_escape(client_name);
    page.append(escaped_name.as_str());
    page.append(CONSENT_PAGE_AFTER_CLIENT);
    let escaped_nonce = html_escape(nonce);
    page.append(escaped_nonce.as_str());
    page.append(CONSENT_PAGE_AFTER_NONCE);
    match error_message {
        Some(msg) => {
            page.append(ERROR_BANNER_HEAD);
            let escaped_msg = html_escape(msg);
            page.append(escaped_msg.as_str());
            page.append(ERROR_BANNER_TAIL);
        },
        None => {},
    }
    page.append(CONSENT_PAGE_AFTER_BANNER);
    if requires_password {
        page.append(PASSWORD_FIELD);
    }
    page.append(CONSENT_PAGE_TAIL);
    proof {
        assert(page@ =~= consent_page_html(client_name@, nonce@, requires_password, opt_view(error_message)));
    }
    page
}

} // verus!
