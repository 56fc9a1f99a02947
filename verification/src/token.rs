//! Token issuer and verifier: mints and validates signed, time-bound session
//! claims.
//!
//! Tokens are compact JWT strings signed with a symmetric secret (HMAC,
//! fixed algorithm chosen by the server). Decoding a token under a secret is
//! a pure function of the two strings, named `decoded_claims`; expiry is
//! checked here in verified code against an explicit clock, so the trusted
//! surface carries no notion of "now".

use jsonwebtoken::errors::ErrorKind;
use jsonwebtoken::{decode, encode, DecodingKey, EncodingKey, Header, Validation};
use serde_json::Value;
use std::collections::HashSet;
use vstd::prelude::*;

verus! {

/// Decoded payload of a verified token: the authenticated subject and the
/// issue and expiry instants, in integer seconds since the epoch.
#[derive(Debug)]
pub struct TokenClaims {
    pub sub: String,
    pub iat: i64,
    pub exp: i64,
}

impl Clone for TokenClaims {
    fn clone(&self) -> (res: TokenClaims)
        ensures
            res == *self,
    {
        TokenClaims { sub: self.sub.clone(), iat: self.iat, exp: self.exp }
    }
}

/// Why a request failed authentication.
#[derive(Copy, Clone, PartialEq, Eq, Structural, Debug)]
pub enum AuthError {
    /// No bearer token was presented.
    MissingToken,
    /// The token could not be parsed as a signed claim set.
    Malformed,
    /// The signature does not verify under the server's secret.
    InvalidSignature,
    /// The claim set is past its expiry instant.
    Expired,
    /// Login failed; deliberately the same for an unknown username and a
    /// wrong password.
    InvalidCredentials,
}

/// What decoding a token under a secret yields: the (subject, issued-at,
/// expires-at) claims if the token parses and its signature verifies under
/// that secret, and nothing otherwise. Expiry plays no part here.
pub uninterp spec fn decoded_claims(token: Seq<char>, secret: Seq<char>) -> Option<
    (Seq<char>, i64, i64),
>;

/// Whether the token passes every check the decoder makes other than the
/// signature itself: the three-part wire shape, a parsable header naming the
/// server's fixed algorithm, a claim set that deserializes with a string
/// subject and integer issue and expiry instants, and the fixed validation
/// rules. A pure function of the token text alone; the decoder rejects a
/// well-formed token only over its signature.
pub uninterp spec fn well_formed_token(token: Seq<char>) -> bool;

/// The claims a verifier reading clock `now` accepts from `token` under
/// `secret`: the decoded claims, unless the token is expired.
pub open spec fn accepted_claims(token: Seq<char>, secret: Seq<char>, now: i64) -> Option<
    (Seq<char>, i64, i64),
> {
    match decoded_claims(token, secret) {
        Some(c) => if now <= c.2 {
            Some(c)
        } else {
            None
        },
        None => None,
    }
}

/// Signs a claim set into a compact token string.
///
/// Relies on `jsonwebtoken::encode` with an HMAC secret and the default
/// (HS256) header, which cannot fail for that key family, and on
/// `jsonwebtoken::decode` for the meaning of `decoded_claims`: decoding the
/// produced token under the same secret returns exactly these claims.
///
/// Rejection under another secret is claimed only for secrets of the same
/// length. HMAC normalizes its key — a secret shorter than the block is
/// zero-padded, a longer one is digested first — so unequal strings can
/// denote one key (a secret and the same secret with trailing NUL characters
/// do). Distinct secrets of equal length always normalize to distinct keys,
/// and a MAC under a distinct key does not verify.
#[verifier::external_body]
fn encode_claims(sub: &str, iat: i64, exp: i64, secret: &str) -> (r: String)
    ensures
        decoded_claims(r@, secret@) == Some((sub@, iat, exp)),
        well_formed_token(r@),
        forall|other: Seq<char>|
            other.len() == secret@.len() && other != secret@ ==> decoded_claims(r@, other) is None,
{
    let mut map = serde_json::Map::new();
    map.insert("sub".to_string(), Value::from(sub));
    map.insert("iat".to_string(), Value::from(iat));
    map.insert("exp".to_string(), Value::from(exp));
    let key = EncodingKey::from_secret(secret.as_bytes());
    encode(&Header::default(), &Value::Object(map), &key)
        .expect("HMAC signing of a JSON object cannot fail")
}

/// Decodes and signature-checks a token, without any expiry check.
///
/// Relies on `jsonwebtoken::decode` with the default validation minus expiry
/// (a fixed, server-chosen algorithm; the token's own header cannot pick
/// another): the outcome is a pure function of token and secret. A bad
/// signature surfaces as `InvalidSignature`; anything unparsable — wrong
/// shape, wrong algorithm, missing claims — as `Malformed`. The decoder runs
/// its shape and header checks before the signature and its claim checks
/// after it, so a well-formed token can only fail over the signature.
#[verifier::external_body]
fn decode_claims(token: &str, secret: &str) -> (r: Result<TokenClaims, AuthError>)
    ensures
        match r {
            Ok(c) => decoded_claims(token@, secret@) == Some((c.sub@, c.iat, c.exp)),
            Err(e) => decoded_claims(token@, secret@) is None && (e == AuthError::InvalidSignature
                || e == AuthError::Malformed) && (well_formed_token(token@) ==> e
                == AuthError::InvalidSignature),
        },
{
    let mut validation = Validation::default();
    validation.validate_exp = false;
    validation.required_spec_claims = HashSet::new();
    let key = DecodingKey::from_secret(secret.as_bytes());
    let data = decode::<Value>(token, &key, &validation)
        .map_err(|e| match e.kind() {
            ErrorKind::InvalidSignature => AuthError::InvalidSignature,
            _ => AuthError::Malformed,
        })?
        .claims;
    match (data.get("sub").and_then(Value::as_str), data.get("iat").and_then(Value::as_i64), data.get("exp").and_then(Value::as_i64)) {
        (Some(s), Some(iat), Some(exp)) => Ok(TokenClaims { sub: s.to_string(), iat, exp }),
        _ => Err(AuthError::Malformed),
    }
}

/// Mints a token for `subject` at clock `now`, valid for `lifetime` seconds.
///
/// The result is well-formed and decodes back to exactly these claims under
/// the same secret: a verifier reading any clock up to the expiry instant
/// accepts it and recovers the subject, and a later clock rejects it. Any
/// different secret of the same length rejects it at every clock (HMAC
/// normalizes its key, so only equal-length secrets are guaranteed to
/// denote distinct keys — see `encode_claims`).
pub fn issue_token(subject: &str, now: i64, lifetime: i64, secret: &str) -> (r: String)
    requires
        i64::MIN <= now + lifetime <= i64::MAX,
    ensures
        decoded_claims(r@, secret@) == Some((subject@, now, (now + lifetime) as i64)),
        well_formed_token(r@),
        forall|t: i64| #![auto]
            accepted_claims(r@, secret@, t) == if t <= now + lifetime {
                Some((subject@, now, (now + lifetime) as i64))
            } else {
                None::<(Seq<char>, i64, i64)>
            },
        forall|other: Seq<char>| #![auto]
            other.len() == secret@.len() && other != secret@ ==> decoded_claims(r@, other) is None,
{
    let exp = now + lifetime;
    encode_claims(subject, now, exp, secret)
}

/// Checks a presented token under `secret` at clock `now`.
///
/// Returns the decoded claims exactly when the token parses, its signature
/// verifies and `now` is not past the expiry instant; a well-signed but
/// stale token fails with `Expired`, a well-formed token whose signature
/// does not verify with `InvalidSignature`, and an unparsable token with
/// `Malformed`.
pub fn verify_token(token: &str, now: i64, secret: &str) -> (r: Result<TokenClaims, AuthError>)
    ensures
        r is Ok <==> accepted_claims(token@, secret@, now) is Some,
        r matches Ok(c) ==> accepted_claims(token@, secret@, now) == Some((c.sub@, c.iat, c.exp)),
        (decoded_claims(token@, secret@) matches Some(c) && now > c.2) ==> r == Err::<
            TokenClaims,
            AuthError,
        >(AuthError::Expired),
        decoded_claims(token@, secret@) is None ==> r == Err::<TokenClaims, AuthError>(
            AuthError::InvalidSignature,
        ) || r == Err::<TokenClaims, AuthError>(AuthError::Malformed),
        decoded_claims(token@, secret@) is None && well_formed_token(token@) ==> r == Err::<
            TokenClaims,
            AuthError,
        >(AuthError::InvalidSignature),
{
    let claims = match decode_claims(token, secret) {
        Ok(c) => c,
        Err(e) => {
            return Err(e);
        },
    };
    if now > claims.exp {
        return Err(AuthError::Expired);
    }
    Ok(claims)
}

} // verus!
