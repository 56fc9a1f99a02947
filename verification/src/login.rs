//! Login flow: looks an account up by username, verifies the supplied
//! password against its stored credential, and mints a session token. Both
//! an unknown username and a wrong password collapse to the one
//! `InvalidCredentials` outcome, so a caller learns nothing about which
//! usernames exist.

use crate::password::{is_hash_of, validate_password};
use crate::settings::Settings;
use crate::token::{accepted_claims, decoded_claims, issue_token, well_formed_token, AuthError};
use crate::user_service::{first_with_username, UserService};
use vstd::prelude::*;

verus! {

/// Credentials presented by a caller.
pub struct LoginRequest {
    pub username: String,
    pub password: String,
}

/// A successful login: a fixed success marker and the session token.
#[derive(Debug)]
pub struct LoginResponse {
    pub status: String,
    pub token: String,
}

/// Logs a caller in at clock `now` under the given configuration snapshot.
///
/// Succeeds exactly when the username scan finds an account whose stored
/// credential matches the password; the token then carries the username as
/// subject, is accepted under the configured secret by any clock up to
/// `now` plus the configured lifetime and by none after it, and is rejected
/// by every different secret of the same length (HMAC normalizes its key,
/// so only equal-length secrets are guaranteed to denote distinct keys).
/// Every failure is the identical `InvalidCredentials` value.
pub fn login<S: UserService>(
    service: &S,
    request: &LoginRequest,
    now: i64,
    settings: &Settings,
) -> (r: Result<LoginResponse, AuthError>)
    requires
        service.inv(),
        i64::MIN <= now + settings.spec_token_timeout() <= i64::MAX,
    ensures
        match first_with_username(service.users(), request.username@) {
            None => r == Err::<LoginResponse, AuthError>(AuthError::InvalidCredentials),
            Some(u) => if is_hash_of(u.password@, request.password@) {
                r matches Ok(resp) && resp.status@ == "success"@ && well_formed_token(resp.token@)
                    && (forall|t: i64| #![auto]
                    accepted_claims(resp.token@, settings.spec_token_secret(), t) == if t <= now
                        + settings.spec_token_timeout() {
                        Some(
                            (
                                request.username@,
                                now,
                                (now + settings.spec_token_timeout()) as i64,
                            ),
                        )
                    } else {
                        None::<(Seq<char>, i64, i64)>
                    }) && (forall|other: Seq<char>| #![auto]
                    other.len() == settings.spec_token_secret().len() && other
                        != settings.spec_token_secret() ==> decoded_claims(
                        resp.token@,
                        other,
                    ) is None)
            } else {
                r == Err::<LoginResponse, AuthError>(AuthError::InvalidCredentials)
            },
        },
{
    let user = match service.get_user_by_username(request.username.as_str()) {
        Some(u) => u,
        None => {
            return Err(AuthError::InvalidCredentials);
        },
    };
    if validate_password(request.password.as_str(), user.password.as_str()).is_err() {
        return Err(AuthError::InvalidCredentials);
    }
    let timeout = settings.token_timeout_or_default();
    let secret = settings.token_secret_or_default();
    let token = issue_token(request.username.as_str(), now, timeout, secret.as_str());
    Ok(LoginResponse { status: "success".to_owned(), token })
}

} // verus!
