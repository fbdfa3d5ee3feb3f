//! The login endpoint: an email and a password in, a token out.
//!
//! The caller looks the account up by email and hands the result in. Whether
//! or not there is such an account, the password is checked once against a
//! hash: the account's own, or a fixed dummy hash where there is none. An
//! unknown email and a wrong password therefore cost the same, and are
//! answered the same.

use crate::error::AppError;
use crate::models::User;
use crate::password::{one_more, password_matches, Check, PasswordVerifier};
use crate::token::{issuance, issued_as, TokenService};
use vstd::prelude::*;
use vstd::string::*;

verus! {

/// What a client sends to log in.
#[derive(Debug, Clone, PartialEq, Eq)]
pub struct AuthRequest {
    pub email: String,
    pub senha: String,
}

/// What a client gets back when the login succeeds.
#[derive(Debug, Clone, PartialEq, Eq)]
pub struct AuthResponse {
    pub token: String,
}

/// What looking an account up by email came to.
#[derive(Debug, Clone, PartialEq, Eq)]
pub enum UserLookup {
    /// There is such an account.
    Found(User),
    /// There is no such account.
    Missing,
    /// The store could not be asked.
    Failed,
}

/// The hash that passwords are checked against when there is no account.
///
/// It is a hash like any other, made with the parameters that new hashes are
/// made with, so that a check against it costs what a check against an
/// account's hash costs. The password it was made from was thrown away, and
/// what the check says is never used.
pub open spec fn dummy_hash_text() -> Seq<char> {
    "$argon2id$v=19$m=19456,t=2,p=1$PklVguPDp60ePyhNY2oh1Q$KNMsMWLTJsGPdzav5h2lrF+OpzSolhGSpIAvyUirP+U"@
}

/// The hash that passwords are checked against when there is no account.
pub fn dummy_hash() -> (hash: &'static str)
    ensures
        hash@ == dummy_hash_text(),
{
    "$argon2id$v=19$m=19456,t=2,p=1$PklVguPDp60ePyhNY2oh1Q$KNMsMWLTJsGPdzav5h2lrF+OpzSolhGSpIAvyUirP+U"
}

/// What a login is answered with once the password has been checked: a token
/// for the account if there is one and the password matched it, and
/// `Unauthorized` otherwise, with nothing to tell the two failures apart.
pub open spec fn granted(key: Seq<u8>, account: Option<&User>, matched: bool, now: u64) -> Result<
    Seq<u8>,
    AppError,
> {
    match account {
        Some(user) => if matched {
            issuance(key, user.id@, now)
        } else {
            Err(AppError::Unauthorized)
        },
        None => Err(AppError::Unauthorized),
    }
}

/// What a login attempt comes to: an internal error where the store could not
/// be asked, and otherwise what the check of the password grants.
pub open spec fn login(key: Seq<u8>, lookup: UserLookup, password: Seq<char>, now: u64) -> Result<
    Seq<u8>,
    AppError,
> {
    match lookup {
        UserLookup::Found(user) => granted(
            key,
            Some(&user),
            password_matches(password, user.senha@),
            now,
        ),
        UserLookup::Missing => Err(AppError::Unauthorized),
        UserLookup::Failed => Err(AppError::Internal),
    }
}

/// How many password checks a login attempt makes: one, unless the store
/// could not be asked.
pub open spec fn checks_after(lookup: UserLookup, before: u64) -> u64 {
    match lookup {
        UserLookup::Failed => before,
        _ => one_more(before),
    }
}

/// The hash that a login attempt checks the password against: the account's
/// own, or the dummy hash where there is no account.
pub open spec fn hash_consulted(lookup: UserLookup) -> Seq<char> {
    match lookup {
        UserLookup::Found(user) => user.senha@,
        _ => dummy_hash_text(),
    }
}

/// The checks that a verifier has made after a login attempt: one more than
/// before, of the password that was sent against the hash consulted; and the
/// same as before where the store could not be asked.
pub open spec fn checked_after(lookup: UserLookup, password: Seq<char>, before: Seq<Check>) -> Seq<
    Check,
> {
    match lookup {
        UserLookup::Failed => before,
        _ => before.push((password, hash_consulted(lookup))),
    }
}

/// Whether an answer to a login is the one that was specified.
pub open spec fn answered_as(
    outcome: Result<AuthResponse, AppError>,
    specified: Result<Seq<u8>, AppError>,
) -> bool {
    match outcome {
        Ok(response) => issued_as(Ok::<String, AppError>(response.token), specified),
        Err(error) => specified == Err::<Seq<u8>, AppError>(error),
    }
}

/// Answers a login once the password has been checked.
///
/// `account` is the account that was found, if any, and `matched` what the
/// check of the password against a hash came to. Without an account the
/// answer is `Unauthorized` whatever the check said.
pub fn conclude_login(tokens: &TokenService, account: Option<&User>, matched: bool, now: u64) -> (outcome:
    Result<AuthResponse, AppError>)
    ensures
        answered_as(outcome, granted(tokens.key(), account, matched, now)),
{
    match account {
        Some(user) => {
            if !matched {
                return Err(AppError::Unauthorized);
            }
            match tokens.issue_at(user.id.as_str(), now) {
                Ok(token) => Ok(AuthResponse { token }),
                Err(error) => Err(error),
            }
        },
        None => Err(AppError::Unauthorized),
    }
}

/// Handles a login attempt as of the time `now`, given what looking the
/// account up by email came to.
///
/// Where the store could be asked, the password that was sent is checked
/// exactly once: against the account's hash, or against the dummy hash where
/// there is no account. The attempt succeeds only for an account whose hash
/// the password matches, and then with a fresh token for that account.
pub fn generate_token(
    verifier: &mut PasswordVerifier,
    tokens: &TokenService,
    payload: &AuthRequest,
    lookup: &UserLookup,
    now: u64,
) -> (outcome: Result<AuthResponse, AppError>)
    ensures
        answered_as(outcome, login(tokens.key(), *lookup, payload.senha@, now)),
        final(verifier).count() == checks_after(*lookup, old(verifier).count()),
        final(verifier).checked() == checked_after(
            *lookup,
            payload.senha@,
            old(verifier).checked(),
        ),
{
    let account: Option<&User> = match lookup {
        UserLookup::Found(user) => Some(user),
        UserLookup::Missing => None,
        UserLookup::Failed => {
            return Err(AppError::Internal);
        },
    };
    let stored: &str = match account {
        Some(user) => user.senha.as_str(),
        None => dummy_hash(),
    };
    let matched = verifier.verify(payload.senha.as_str(), stored);
    conclude_login(tokens, account, matched, now)
}

/// An unknown email and a wrong password are told apart by nothing: either
/// way the attempt pays for one check of the password and is answered
/// `Unauthorized`. For an unknown email the check is made against the dummy
/// hash, for a known one against the account's.
pub proof fn lemma_unknown_email_costs_one_check(
    key: Seq<u8>,
    known: User,
    password: Seq<char>,
    now: u64,
    count: u64,
    checked: Seq<Check>,
)
    requires
        !password_matches(password, known.senha@),
    ensures
        login(key, UserLookup::Missing, password, now) == login(
            key,
            UserLookup::Found(known),
            password,
            now,
        ),
        login(key, UserLookup::Missing, password, now) == Err::<Seq<u8>, AppError>(
            AppError::Unauthorized,
        ),
        checks_after(UserLookup::Missing, count) == one_more(count),
        checks_after(UserLookup::Missing, count) == checks_after(UserLookup::Found(known), count),
        checked_after(UserLookup::Missing, password, checked) == checked.push(
            (password, dummy_hash_text()),
        ),
        checked_after(UserLookup::Found(known), password, checked) == checked.push(
            (password, known.senha@),
        ),
        checked_after(UserLookup::Missing, password, checked).len() == checked_after(
            UserLookup::Found(known),
            password,
            checked,
        ).len(),
{
}

} // verus!
