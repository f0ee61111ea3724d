//! The redirects that answer an authorize request: back to the client's
//! redirect URI with an error, or with the authorization code.

use vstd::prelude::*;

use crate::text::opt_view;

verus! {

/// Whether the `url` crate parses `url` as an absolute URL (`Url::parse`
/// succeeds).
pub uninterp spec fn url_parses(url: Seq<char>) -> bool;

/// The serialization of the absolute URL that the `url` crate parses from
/// `url`, after `pairs` have been appended to its query in
/// `application/x-www-form-urlencoded` form.
pub uninterp spec fn url_with_query_pairs(url: Seq<char>, pairs: Seq<(Seq<char>, Seq<char>)>) -> Seq<char>;

/// Calls `url::Url::parse` on `url`, then, on the parsed URL,
/// `query_pairs_mut().extend_pairs(pairs)` (`form_urlencoded::Serializer`), and
/// hands the URL back as its serialization (`String::from`). The contract says
/// that the result is present exactly when `Url::parse` succeeds, and names the
/// serialization as a function of `url` and `pairs`; it claims nothing else of it.
#[verifier::external_body]
fn append_query_pairs(url: &str, pairs: &[(String, String)]) -> (result: Option<String>)
    ensures
        result is Some <==> url_parses(url@),
        result matches Some(s) ==> s@ == url_with_query_pairs(url@, pairs.deep_view()),
{
    match url::Url::parse(url) {
        Ok(mut parsed) => {
            parsed.query_pairs_mut().extend_pairs(pairs);
            Some(String::from(parsed))
        },
        Err(_) => None,
    }
}

/// Where a redirect to `url` with `pairs` added to its query leads: nowhere
/// when `url` is not an absolute URL.
pub open spec fn redirect_location(url: Seq<char>, pairs: Seq<(Seq<char>, Seq<char>)>) -> Option<Seq<char>> {
    if url_parses(url) {
        Some(url_with_query_pairs(url, pairs))
    } else {
        None
    }
}

/// The `state` pair that ends a redirect when the request carried a state.
pub open spec fn state_pair(state: Option<Seq<char>>) -> Seq<(Seq<char>, Seq<char>)> {
    match state {
        Some(s) => seq![("state"@, s)],
        None => Seq::empty(),
    }
}

/// The query pairs of an error redirect: `error`, `error_description`, then
/// `state` when there is one.
pub open spec fn error_redirect_pairs(
    error: Seq<char>,
    description: Seq<char>,
    state: Option<Seq<char>>,
) -> Seq<(Seq<char>, Seq<char>)> {
    seq![("error"@, error), ("error_description"@, description)] + state_pair(state)
}

/// The query pairs of the redirect that hands out a code: `code`, then `state`
/// when there is one.
pub open spec fn code_redirect_pairs(code: Seq<char>, state: Option<Seq<char>>) -> Seq<
    (Seq<char>, Seq<char>),
> {
    seq![("code"@, code)] + state_pair(state)
}

/// The state of the request goes back to the client unchanged, as the last
/// pair, and only when the request carried one.
pub proof fn lemma_state_passed_back(error: Seq<char>, description: Seq<char>, code: Seq<char>, state: Option<Seq<char>>)
    ensures
        state matches Some(s) ==> {
            &&& error_redirect_pairs(error, description, state).len() == 3
            &&& error_redirect_pairs(error, description, state).last() == ("state"@, s)
            &&& code_redirect_pairs(code, state).len() == 2
            &&& code_redirect_pairs(code, state).last() == ("state"@, s)
        },
        state is None ==> {
            &&& error_redirect_pairs(error, description, state) == seq![("error"@, error), ("error_description"@, description)]
            &&& code_redirect_pairs(code, state) == seq![("code"@, code)]
        },
{
    if state is None {
        assert(error_redirect_pairs(error, description, state) =~= seq![("error"@, error), ("error_description"@, description)]);
        assert(code_redirect_pairs(code, state) =~= seq![("code"@, code)]);
    }
}

fn push_state_pair(pairs: &mut Vec<(String, String)>, state: Option<&str>)
    ensures
        final(pairs).deep_view() == old(pairs).deep_view() + state_pair(opt_view(state)),
{
    match state {
        Some(s) => {
            pairs.push((String::from_str("state"), String::from_str(s)));
        },
        None => {},
    }
    assert(pairs.deep_view() =~= old(pairs).deep_view() + state_pair(opt_view(state)));
}

/// Where to send the user agent to report `error` with `description` to the
/// client at `redirect_uri`, passing `state` back; `None` exactly where
/// `redirect_uri` is not an absolute URL.
pub fn redirect_error(redirect_uri: &str, error: &str, description: &str, state: Option<&str>) -> (location: Option<String>)
    ensures
        location is Some <==> url_parses(redirect_uri@),
        location.deep_view() == redirect_location(
            redirect_uri@,
            error_redirect_pairs(error@, description@, opt_view(state)),
        ),
{
    let mut pairs: Vec<(String, String)> = Vec::new();
    pairs.push((String::from_str("error"), String::from_str(error)));
    pairs.push((String::from_str("error_description"), String::from_str(description)));
    assert(pairs.deep_view() =~= seq![("error"@, error@), ("error_description"@, description@)]);
    push_state_pair(&mut pairs, state);
    let location = append_query_pairs(redirect_uri, pairs.as_slice());
    assert(location.deep_view() =~= redirect_location(redirect_uri@, pairs.deep_view()));
    location
}

/// Where to send the user agent to hand `code` to the client at
/// `redirect_uri`, passing `state` back; `None` exactly where `redirect_uri` is not
/// an absolute URL.
pub fn redirect_with_code(redirect_uri: &str, code: &str, state: Option<&str>) -> (location: Option<String>)
    ensures
        location is Some <==> url_parses(redirect_uri@),
        location.deep_view() == redirect_location(
            redirect_uri@,
            code_redirect_pairs(code@, opt_view(state)),
        ),
{
    let mut pairs: Vec<(String, String)> = Vec::new();
    pairs.push((String::from_str("code"), String::from_str(code)));
    assert(pairs.deep_view() =~= seq![("code"@, code@)]);
    push_state_pair(&mut pairs, state);
    let location = append_query_pairs(redirect_uri, pairs.as_slice());
    assert(location.deep_view() =~= redirect_location(redirect_uri@, pairs.deep_view()));
    location
}

} // verus!
