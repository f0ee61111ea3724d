# mam_authorize

The request-authorisation logic of the MyAnonamouse MCP server, written in
Verus and proved against its contracts.

- `src/html.rs` — HTML escaping, with its laws (no raw markup, nothing lost,
  concatenation, plain text unchanged).
- `src/pages.rs` — the error page and the consent page of the authorize endpoint.
- `src/redirect.rs` — the error and code redirects back to the client; the URL
  work is done by the `url` crate.
- `src/access.rs` — the bearer-token check of the HTTP transport and the
  constant-time access-code check (`subtle`).
- `src/authorize.rs` — the steps of `GET /authorize` and `POST /authorize` and
  the laws on when a pending authorization or a code comes out.
- `app/` — the axum handlers and the command line around the library.
- `tests/` — tests on concrete values.
