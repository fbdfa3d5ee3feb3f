//! What the components guarantee together, from login to the role gate.

use crate::auth::{login, UserLookup};
use crate::error::AppError;
use crate::handlers::application_of;
use crate::hex::{hex_encode, is_hex_digit};
use crate::middleware::{
    application_id, authentication, bearer_prefix, bearer_token, claimed_identity, is_header_text,
    is_visible, presented_token, IdentityView, LookupOutcome, RequestCredentials, UserKind,
};
use crate::models::User;
use crate::password::password_matches;
use crate::token::{
    claims_bytes, expiry, issuance, issued_claims, lemma_issued_token_validates, token_bytes,
    validation, SEPARATOR,
};
use vstd::prelude::*;

verus! {

/// The `Authorization` value that presents a token: `Bearer `, then the
/// token.
pub open spec fn bearer_header(token: Seq<u8>) -> Seq<u8> {
    bearer_prefix() + token
}

/// The value that presents a token is text, and the token is read back from
/// it as it was put in.
pub proof fn lemma_bearer_header_presents_token(payload: Seq<u8>, tag: Seq<u8>)
    ensures
        is_header_text(bearer_header(token_bytes(payload, tag))),
        bearer_token(bearer_header(token_bytes(payload, tag))) == Some(token_bytes(payload, tag)),
{
    let token = token_bytes(payload, tag);
    let header = bearer_header(token);
    let head = hex_encode(payload);
    let tail = hex_encode(tag);
    assert forall|i: int| 0 <= i < header.len() implies is_visible(#[trigger] header[i]) by {
        if i >= 7 {
            let k = i - 7;
            assert(header[i] == token[k]);
            if k < head.len() {
                assert(is_hex_digit(head[k]));
            } else if k > head.len() {
                assert(token[k] == tail[k - head.len() - 1]);
                assert(is_hex_digit(tail[k - head.len() - 1]));
            } else {
                assert(token[k] == SEPARATOR);
            }
        }
    }
    assert(header.subrange(0, 7) =~= bearer_prefix());
    assert(header.subrange(7, header.len() as int) =~= token);
}

/// A user who logs in is known by the token from then on, and as a user.
///
/// Where the password matches the account's hash, the login gives a token.
/// A request that presents this token before it expires, and no application
/// id, is resolved to the account that logged in, as long as the user store
/// still knows it. The role gate turns it away: a user is no application.
pub proof fn lemma_login_token_identifies_the_account(
    key: Seq<u8>,
    account: User,
    password: Seq<char>,
    now: u64,
    later: u64,
    credentials: RequestCredentials,
)
    requires
        key.len() > 0,
        password_matches(password, account.senha@),
        later < expiry(now),
        credentials.emergency_id is None,
        credentials.authorization is Some,
        credentials.authorization->0@ == bearer_header(issuance(key, account.id@, now)->Ok_0),
    ensures
        login(key, UserLookup::Found(account), password, now) == issuance(key, account.id@, now),
        login(key, UserLookup::Found(account), password, now) is Ok,
        authentication(key, credentials, later, LookupOutcome::Found) == Ok::<
            IdentityView,
            AppError,
        >(IdentityView { id: account.id@, kind: UserKind::User }),
        application_of(authentication(key, credentials, later, LookupOutcome::Found)->Ok_0) == Err::<
            Seq<char>,
            AppError,
        >(AppError::Unauthorized),
{
    let claims = issued_claims(account.id@, now);
    let payload = claims_bytes(claims);
    let token = issuance(key, account.id@, now)->Ok_0;
    lemma_issued_token_validates(key, account.id@, now, later);
    lemma_bearer_header_presents_token(payload, crate::mac::hmac_sha256(key, payload));
    assert(presented_token(credentials) == Some(token));
    assert(validation(key, token, later) == Ok::<crate::token::ClaimsView, crate::token::TokenError>(
        claims,
    ));
    assert(claimed_identity(key, credentials, later) == Ok::<IdentityView, AppError>(
        IdentityView { id: account.id@, kind: UserKind::User },
    ));
}

/// An application that presents its registered id passes the role gate as
/// itself.
pub proof fn lemma_registered_application_passes_the_gate(
    key: Seq<u8>,
    credentials: RequestCredentials,
    now: u64,
)
    requires
        application_id(credentials) is Some,
    ensures
        authentication(key, credentials, now, LookupOutcome::Found) is Ok,
        application_of(authentication(key, credentials, now, LookupOutcome::Found)->Ok_0) == Ok::<
            Seq<char>,
            AppError,
        >(application_id(credentials)->0),
{
}

} // verus!
