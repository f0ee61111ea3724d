//! Checks of the secrets that guard the server: the bearer token of the HTTP
//! transport and the access code asked for on the consent page.

use subtle::ConstantTimeEq;
use vstd::prelude::*;

use crate::text::same_text;

verus! {

/// Compares the UTF-8 bytes of `a` and `b` with `subtle`'s
/// `<[u8] as ConstantTimeEq>::ct_eq` and turns the `Choice` into a `bool`.
/// The claim is the one `subtle` documents: `Choice(1)` exactly when the two
/// slices are equal, and two strings have equal bytes exactly when they are equal.
#[verifier::external_body]
fn constant_time_eq(a: &str, b: &str) -> (equal: bool)
    ensures
        equal == (a@ == b@),
{
    bool::from(a.as_bytes().ct_eq(b.as_bytes()))
}

/// Whether the access code typed on the consent page is the expected one; a
/// missing code counts as the empty one.
pub open spec fn access_code_accepted(provided: Option<Seq<char>>, expected: Seq<char>) -> bool {
    match provided {
        Some(p) => p == expected,
        None => expected.len() == 0,
    }
}

/// A typed access code is accepted exactly when it is the expected one, whatever
/// their lengths; no code at all is accepted exactly when the expected code is
/// empty.
pub proof fn lemma_access_code_is_equality(provided: Seq<char>, expected: Seq<char>)
    ensures
        access_code_accepted(Some(provided), expected) <==> provided == expected,
        access_code_accepted(Some(expected), expected),
        access_code_accepted(None, expected) <==> expected == Seq::<char>::empty(),
{
    if expected.len() == 0 {
        assert(expected =~= Seq::<char>::empty());
    }
}

/// Compares the submitted access code with the expected one in constant time.
pub fn access_code_matches(provided: Option<&str>, expected: &str) -> (accepted: bool)
    ensures
        accepted == access_code_accepted(crate::text::opt_view(provided), expected@),
{
    let code = match provided {
        Some(p) => p,
        None => "",
    };
    proof {
        reveal_strlit("");
        assert(""@ =~= Seq::<char>::empty());
        if expected@.len() == 0 {
            assert(expected@ =~= Seq::<char>::empty());
        }
    }
    constant_time_eq(code, expected)
}

/// The scheme prefix of an `Authorization` header that carries a bearer token.
pub open spec fn bearer_prefix() -> Seq<char> {
    seq!['B', 'e', 'a', 'r', 'e', 'r', ' ']
}

/// Whether a request with this `Authorization` header may reach the server:
/// always when no token is configured, otherwise exactly when the header is
/// `Bearer ` followed by the token.
pub open spec fn request_authorized(expected: Option<Seq<char>>, authorization: Option<Seq<char>>) -> bool {
    match expected {
        None => true,
        Some(token) => match authorization {
            Some(header) => header == bearer_prefix() + token,
            None => false,
        },
    }
}

/// Without a configured token every request passes; with one, exactly the
/// requests whose `Authorization` header is `Bearer ` followed by that token.
pub proof fn lemma_bearer_check(token: Seq<char>, authorization: Option<Seq<char>>)
    ensures
        request_authorized(None, authorization),
        request_authorized(Some(token), authorization) <==> authorization == Some(
            bearer_prefix() + token,
        ),
{
}

/// Decides whether a request passes the bearer-token check of the HTTP
/// transport, given the configured token and the request's `Authorization`
/// header (when it is present and readable as text).
pub fn bearer_authorized(expected: Option<&str>, authorization: Option<&str>) -> (authorized: bool)
    ensures
        authorized == request_authorized(
            crate::text::opt_view(expected),
            crate::text::opt_view(authorization),
        ),
{
    match expected {
        None => true,
        Some(token) => match authorization {
            None => false,
            Some(header) => {
                let n = header.unicode_len();
                if n < 7 {
                    proof {
                        if header@ == bearer_prefix() + token@ {
                            assert(header@.len() >= 7);
                        }
                    }
                    return false;
                }
                let scheme = header.substring_char(0, 7);
                let rest = header.substring_char(7, n);
                let prefix_ok = same_text(scheme, "Bearer ");
                let token_ok = same_text(rest, token);
                proof {
                    reveal_strlit("Bearer ");
                    assert("Bearer "@ =~= bearer_prefix());
                    assert(header@ =~= scheme@ + rest@);
                    if header@ == bearer_prefix() + token@ {
                        assert(scheme@ =~= bearer_prefix());
                        assert(rest@ =~= token@);
                    }
                }
                prefix_ok && token_ok
            },
        },
    }
}

} // verus!
