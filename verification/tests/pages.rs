use mam_authorize::html::html_escape;
use mam_authorize::pages::{consent_page, error_page};

fn expected_error_page(title: &str, message: &str) -> String {
    format!(
        r#"<!DOCTYPE html>
<html lang="en">
<head>
  <meta charset="utf-8">
  <meta name="viewport" content="width=device-width, initial-scale=1">
  <title>{title} — MyAnonamouse MCP</title>
  <style>
    body {{ font-family: system-ui, -apple-system, sans-serif; background: #f5f5f5; display: flex; justify-content: center; padding-top: 80px; }}
    .card {{ background: white; border-radius: 8px; box-shadow: 0 2px 8px rgba(0,0,0,0.1); padding: 32px; max-width: 420px; width: 100%; }}
    h1 {{ margin-top: 0; font-size: 1.3em; color: #b91c1c; }}
    p {{ color: #555; line-height: 1.5; }}
  </style>
</head>
<body>
  <div class="card">
    <h1>{title}</h1>
    <p>{message}</p>
  </div>
</body>
</html>"#,
        title = title,
        message = message,
    )
}

fn expected_banner(msg: &str) -> String {
    format!(r#"<div style="background:#fef2f2;border:1px solid #fca5a5;border-radius:4px;padding:10px 14px;margin-bottom:16px;color:#b91c1c;font-size:0.95em">{}</div>"#, msg)
}

const EXPECTED_PASSWORD_FIELD: &str = r#"<div style="margin-bottom:16px">
            <label for="password" style="display:block;margin-bottom:4px;font-weight:600">Access Code</label>
            <input type="password" id="password" name="password" required
                   style="width:100%;padding:8px;border:1px solid #ccc;border-radius:4px;box-sizing:border-box"
                   placeholder="Enter the server access code">
          </div>"#;

fn expected_consent_page(client_name: &str, nonce: &str, error_banner: &str, password_field: &str) -> String {
    format!(
        r#"<!DOCTYPE html>
<html lang="en">
<head>
  <meta charset="utf-8">
  <meta name="viewport" content="width=device-width, initial-scale=1">
  <title>Authorize — MyAnonamouse MCP</title>
  <style>
    body {{ font-family: system-ui, -apple-system, sans-serif; background: #f5f5f5; display: flex; justify-content: center; padding-top: 80px; }}
    .card {{ background: white; border-radius: 8px; box-shadow: 0 2px 8px rgba(0,0,0,0.1); padding: 32px; max-width: 420px; width: 100%; }}
    h1 {{ margin-top: 0; font-size: 1.3em; }}
    .client-name {{ font-weight: 600; color: #333; }}
    .buttons {{ display: flex; gap: 12px; margin-top: 20px; }}
    .buttons button {{ flex: 1; padding: 10px; border: none; border-radius: 4px; font-size: 1em; cursor: pointer; }}
    .allow {{ background: #2563eb; color: white; }}
    .allow:hover {{ background: #1d4ed8; }}
    .deny {{ background: #e5e7eb; color: #333; }}
    .deny:hover {{ background: #d1d5db; }}
  </style>
</head>
<body>
  <div class="card">
    <h1>Authorize Application</h1>
    <p><span class="client-name">{client_name}</span> wants to access your MyAnonamouse MCP server.</p>
    <form method="POST" action="/authorize">
      <input type="hidden" name="nonce" value="{nonce}">
      {error_banner}
      {password_field}
      <div class="buttons">
        <button type="submit" name="action" value="deny" class="deny">Deny</button>
        <button type="submit" name="action" value="allow" class="allow">Allow</button>
      </div>
    </form>
  </div>
</body>
</html>"#,
        client_name = client_name,
        nonce = nonce,
        error_banner = error_banner,
        password_field = password_field,
    )
}

#[test]
fn escape_rewrites_markup_characters() {
    assert_eq!(
        html_escape("<a href=\"x\">Tom & Jerry</a>"),
        "&lt;a href=&quot;x&quot;&gt;Tom &amp; Jerry&lt;/a&gt;"
    );
}

#[test]
fn escape_keeps_plain_text() {
    assert_eq!(html_escape("plain text, 'quoted' ok"), "plain text, 'quoted' ok");
    assert_eq!(html_escape(""), "");
    assert_eq!(html_escape("héllo — ünïcode ✓"), "héllo — ünïcode ✓");
}

#[test]
fn escape_escapes_existing_entities_again() {
    assert_eq!(html_escape("&amp;"), "&amp;amp;");
    assert_eq!(html_escape("&&<<"), "&amp;&amp;&lt;&lt;");
}

#[test]
fn escape_of_concatenation_is_concatenation_of_escapes() {
    let a = "a<b";
    let b = "\"&c";
    assert_eq!(html_escape(&format!("{}{}", a, b)), format!("{}{}", html_escape(a), html_escape(b)));
}

#[test]
fn escape_distinguishes_texts_that_look_alike() {
    assert_ne!(html_escape("&lt;"), html_escape("<"));
    assert_ne!(html_escape("&amp;"), html_escape("&"));
}

#[test]
fn escaped_text_has_no_raw_markup() {
    let escaped = html_escape("<script>alert(\"x\")</script>");
    assert!(!escaped.contains('<'));
    assert!(!escaped.contains('>'));
    assert!(!escaped.contains('"'));
}

#[test]
fn error_page_matches_template() {
    let page = error_page("Invalid Request", "Missing <thing> & more");
    assert_eq!(page, expected_error_page("Invalid Request", "Missing &lt;thing&gt; &amp; more"));
    assert!(page.contains("<title>Invalid Request — MyAnonamouse MCP</title>"));
    assert!(page.contains("<h1>Invalid Request</h1>"));
    assert!(page.contains("<p>Missing &lt;thing&gt; &amp; more</p>"));
}

#[test]
fn consent_page_without_password_or_banner() {
    let page = consent_page("Media <Client>", "n0nce\"x", false, None);
    assert_eq!(page, expected_consent_page("Media &lt;Client&gt;", "n0nce&quot;x", "", ""));
    assert!(page.contains(r#"<input type="hidden" name="nonce" value="n0nce&quot;x">"#));
    assert!(!page.contains("Access Code"));
}

#[test]
fn consent_page_with_password_and_banner() {
    let page = consent_page("App", "abc", true, Some("Incorrect access code. Please try again."));
    let banner = expected_banner("Incorrect access code. Please try again.");
    assert_eq!(page, expected_consent_page("App", "abc", &banner, EXPECTED_PASSWORD_FIELD));
    assert!(page.contains("Access Code"));
}

#[test]
fn consent_page_banner_is_escaped() {
    let page = consent_page("App", "abc", false, Some("<b>bad</b>"));
    let banner = expected_banner("&lt;b&gt;bad&lt;/b&gt;");
    assert_eq!(page, expected_consent_page("App", "abc", &banner, ""));
}
