//! Authentication middleware core: pulls the bearer token out of an
//! authorization header value and checks it against the configured secret at
//! the current clock. A missing header and a value without the bearer scheme
//! are treated identically.

use crate::token::{
    accepted_claims, decoded_claims, verify_token, well_formed_token, AuthError, TokenClaims,
};
use vstd::prelude::*;
use vstd::string::StrSliceExecFns;
use vstd::string::StringExecFns;

verus! {

/// The view of an optional header value.
pub open spec fn header_view(header: Option<&String>) -> Option<Seq<char>> {
    match header {
        Some(h) => Some(h@),
        None => None,
    }
}

/// The token carried by an authorization header, if the header is present
/// and its value has the form `Bearer <token>`.
pub open spec fn spec_bearer(header: Option<Seq<char>>) -> Option<Seq<char>> {
    match header {
        Some(h) => if h.len() >= 7 && h.subrange(0, 7) == "Bearer "@ {
            Some(h.skip(7))
        } else {
            None
        },
        None => None,
    }
}

/// Prefixing a token with the bearer scheme and stripping it again gives the
/// token back: what login hands out, the middleware reads.
pub proof fn lemma_bearer_round_trip(t: Seq<char>)
    ensures
        spec_bearer(Some("Bearer "@ + t)) == Some(t),
{
    reveal_strlit("Bearer ");
    let h = "Bearer "@ + t;
    assert(h.subrange(0, 7) =~= "Bearer "@);
    assert(h.skip(7) =~= t);
}

/// Renders a token as an authorization header value.
pub fn bearer_header(token: &str) -> (h: String)
    ensures
        h@ == "Bearer "@ + token@,
{
    let mut h = "Bearer ".to_owned();
    h.append(token);
    h
}

/// Strips the bearer scheme from an authorization header value; `None` for a
/// missing header or a value that does not start with `Bearer `.
pub fn extract_bearer_token(header: Option<&String>) -> (r: Option<String>)
    ensures
        match r {
            Some(t) => spec_bearer(header_view(header)) == Some(t@),
            None => spec_bearer(header_view(header)) is None,
        },
{
    let value = match header {
        Some(v) => v.as_str(),
        None => {
            return None;
        },
    };
    proof {
        reveal_strlit("Bearer ");
    }
    let n = value.unicode_len();
    if n < 7 {
        return None;
    }
    let scheme = "Bearer ";
    let mut i: usize = 0;
    while i < 7
        invariant
            0 <= i <= 7,
            header_view(header) == Some(value@),
            7 <= n == value@.len(),
            "Bearer "@.len() == 7,
            scheme@ == "Bearer "@,
            forall|j: int| 0 <= j < i ==> value@[j] == "Bearer "@[j],
        decreases 7 - i,
    {
        if value.get_char(i) != scheme.get_char(i) {
            proof {
                assert(value@.subrange(0, 7)[i as int] == value@[i as int]);
            }
            return None;
        }
        i += 1;
    }
    proof {
        assert(value@.subrange(0, 7) =~= "Bearer "@);
        assert(value@.subrange(7, n as int) =~= value@.skip(7));
    }
    let rest = value.substring_char(7, n);
    Some(rest.to_owned())
}

/// Decides a request's authentication: extracts the bearer token and checks
/// it under `secret` at clock `now`.
///
/// A missing or schemeless header short-circuits to `MissingToken`; a
/// presented token is accepted, with its claims attached, exactly when it
/// decodes under the secret and is not expired, and otherwise fails with the
/// token verifier's error — for a well-formed token that does not decode,
/// specifically `InvalidSignature`.
pub fn authenticate(header: Option<&String>, now: i64, secret: &str) -> (r: Result<
    TokenClaims,
    AuthError,
>)
    ensures
        match spec_bearer(header_view(header)) {
            None => r == Err::<TokenClaims, AuthError>(AuthError::MissingToken),
            Some(tok) => match decoded_claims(tok, secret@) {
                Some(c) => if now <= c.2 {
                    r matches Ok(cl) && cl.sub@ == c.0 && cl.iat == c.1 && cl.exp == c.2
                } else {
                    r == Err::<TokenClaims, AuthError>(AuthError::Expired)
                },
                None => (r == Err::<TokenClaims, AuthError>(AuthError::InvalidSignature) || r
                    == Err::<TokenClaims, AuthError>(AuthError::Malformed)) && (well_formed_token(
                    tok,
                ) ==> r == Err::<TokenClaims, AuthError>(AuthError::InvalidSignature)),
            },
        },
        r is Ok <==> (spec_bearer(header_view(header)) matches Some(tok) && accepted_claims(
            tok,
            secret@,
            now,
        ) is Some),
{
    let token = match extract_bearer_token(header) {
        Some(t) => t,
        None => {
            return Err(AuthError::MissingToken);
        },
    };
    verify_token(token.as_str(), now, secret)
}

} // verus!
