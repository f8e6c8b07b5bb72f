//! The login rule of the collector's frontend: password verification
//! against the stored hash, and the mapping of its outcome to an API
//! answer.
//!
//! The account lookup and the session store stay outside; they hand
//! this module the stored hash and take the decision back.

use argon2::password_hash::Error;
use argon2::password_hash::PasswordHash;
use argon2::Argon2;
use argon2::PasswordVerifier;
use vstd::prelude::*;

use crate::handler::ApiError;

verus! {

/// The request to log in.
pub struct LoginRequest {
    /// The username of the account
    pub username: String,
    /// The password of the account
    pub password: String,
}

/// How a password check against a stored hash ends.
#[derive(Debug)]
pub enum PasswordCheck {
    /// The password matches the hash.
    Match,
    /// The hash is well-formed but the password does not match.
    Mismatch,
    /// The stored hash could not be used; carries the description.
    Invalid(String),
}

/// Whether a stored hash string is usable for verification: it parses
/// in the PHC string format and its parameters are acceptable.
pub uninterp spec fn password_hash_ok(hash: Seq<char>) -> bool;

/// Whether a password matches a stored hash.
pub uninterp spec fn password_matches(password: Seq<u8>, hash: Seq<char>) -> bool;

/// Relies on `argon2::password_hash::PasswordHash::new` and
/// `argon2::Argon2::verify_password` (via `PasswordVerifier`): both are
/// pure functions of the password and the hash string; verification
/// answers `Error::Password` exactly when the recomputed output
/// differs, and any other error means the stored hash is unusable.
/// Passwords longer than argon2's documented maximum (`MAX_PWD_LEN`,
/// 0xFFFFFFFF bytes) are rejected by argon2 itself and left out here.
#[verifier::external_body]
pub(crate) fn check_password(password: &[u8], hash: &str) -> (r: PasswordCheck)
    requires
        password@.len() <= 0xFFFFFFFF,
    ensures
        (r is Match) <==> (password_hash_ok(hash@) && password_matches(password@, hash@)),
        (r is Mismatch) <==> (password_hash_ok(hash@) && !password_matches(password@, hash@)),
        (r is Invalid) <==> !password_hash_ok(hash@),
{
    let parsed = match PasswordHash::new(hash) {
        Ok(p) => p,
        Err(e) => {
            return PasswordCheck::Invalid(e.to_string());
        },
    };
    match Argon2::default().verify_password(password, &parsed) {
        Ok(()) => PasswordCheck::Match,
        Err(Error::Password) => PasswordCheck::Mismatch,
        Err(e) => PasswordCheck::Invalid(e.to_string()),
    }
}

/// Decide a login request: an unknown username and a wrong password
/// both answer "login failed" (the two are indistinguishable to the
/// caller); an unusable stored hash is a server-side error. The check
/// is `None` when no account holds the requested username.
pub fn login_outcome(check: Option<PasswordCheck>) -> (r: Result<(), ApiError>)
    ensures
        check is None ==> r == Err::<(), ApiError>(ApiError::LoginFailed),
        check matches Some(PasswordCheck::Match) ==> r is Ok,
        check matches Some(PasswordCheck::Mismatch) ==> r == Err::<(), ApiError>(
            ApiError::LoginFailed,
        ),
        check matches Some(PasswordCheck::Invalid(detail)) ==> r == Err::<(), ApiError>(
            ApiError::InvalidHash(detail),
        ),
{
    match check {
        None => Err(ApiError::LoginFailed),
        Some(PasswordCheck::Match) => Ok(()),
        Some(PasswordCheck::Mismatch) => Err(ApiError::LoginFailed),
        Some(PasswordCheck::Invalid(detail)) => Err(ApiError::InvalidHash(detail)),
    }
}

/// Verify a login request against the stored hash of the account that
/// holds the requested username, when one exists. The password must
/// not exceed argon2's maximum length (0xFFFFFFFF bytes, a machine
/// limit of the hasher).
pub fn verify_login(password: &[u8], stored_hash: Option<&String>) -> (r: Result<(), ApiError>)
    requires
        password@.len() <= 0xFFFFFFFF,
    ensures
        stored_hash is None ==> r == Err::<(), ApiError>(ApiError::LoginFailed),
        stored_hash matches Some(h) ==> ({
            &&& (password_hash_ok(h@) && password_matches(password@, h@)) ==> r is Ok
            &&& (password_hash_ok(h@) && !password_matches(password@, h@)) ==> r == Err::<
                (),
                ApiError,
            >(ApiError::LoginFailed)
            &&& !password_hash_ok(h@) ==> (r matches Err(e) && e is InvalidHash)
        }),
{
    match stored_hash {
        None => Err(ApiError::LoginFailed),
        Some(h) => {
            let check = check_password(password, h.as_str());
            login_outcome(Some(check))
        },
    }
}

} // verus!
