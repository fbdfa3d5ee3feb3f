//! The identity resolver: who is calling, established before any handler runs.
//!
//! A request names its caller in one of two ways. A client application
//! presents its pre-shared id in the `x-emergencial-id` header; an end user
//! presents a token in `Authorization: Bearer <token>`. Where the first
//! header is there, it alone decides, and the token is never looked at: not
//! even where the header's value cannot be read.
//!
//! Either way the identity that the request claims must still exist in the
//! backing store. The resolver says which record to look for; the caller looks
//! and hands the answer back; the resolver then attaches the identity or turns
//! the request away. There is no second try and no way from one path to the
//! other.

use crate::error::AppError;
use crate::text::{ascii_string, ascii_text};
use crate::token::{rejection, validation, Claims, ClaimsView, TokenError, TokenService};
use vstd::prelude::*;
use vstd::slice::*;
use vstd::string::*;

verus! {

/// The two kinds of caller.
#[derive(Debug, Clone, Copy, PartialEq, Eq, Structural)]
pub enum UserKind {
    /// An end user, known by a token.
    User,
    /// A registered client application, known by its pre-shared id.
    App,
}

impl UserKind {
    /// The name of the kind.
    pub open spec fn name(&self) -> Seq<char> {
        match self {
            UserKind::User => "User"@,
            UserKind::App => "App"@,
        }
    }

    /// The name of the kind, as it is shown.
    pub fn to_string(&self) -> (text: String)
        ensures
            text@ == self.name(),
    {
        match self {
            UserKind::User => String::from_str("User"),
            UserKind::App => String::from_str("App"),
        }
    }
}

/// An identity as mathematical values: who, and of which kind.
pub struct IdentityView {
    pub id: Seq<char>,
    pub kind: UserKind,
}

/// The identity that a request was resolved to. It exists for the length of
/// the request, and only where authentication succeeded.
#[derive(Debug, Clone, PartialEq, Eq)]
pub struct CurrentUser {
    pub user_id: String,
    pub kind: UserKind,
}

impl View for CurrentUser {
    type V = IdentityView;

    open spec fn view(&self) -> IdentityView {
        IdentityView { id: self.user_id@, kind: self.kind }
    }
}

/// The identity that a request claims and that the backing store has yet to
/// confirm: the application registry for an application, the user store for
/// a user.
#[derive(Debug, Clone, PartialEq, Eq)]
pub struct PendingIdentity {
    pub id: String,
    pub kind: UserKind,
}

impl View for PendingIdentity {
    type V = IdentityView;

    open spec fn view(&self) -> IdentityView {
        IdentityView { id: self.id@, kind: self.kind }
    }
}

/// What the backing store said of a claimed identity.
#[derive(Debug, Clone, Copy, PartialEq, Eq, Structural)]
pub enum LookupOutcome {
    /// The record is there.
    Found,
    /// There is no such record.
    Missing,
    /// The store could not be asked.
    Unavailable,
}

/// The two headers of a request that name its caller, each as the bytes of
/// its value, or nothing where the request does not carry the header.
#[derive(Debug, Clone, PartialEq, Eq)]
pub struct RequestCredentials {
    /// The value of `x-emergencial-id`.
    pub emergency_id: Option<Vec<u8>>,
    /// The value of `Authorization`.
    pub authorization: Option<Vec<u8>>,
}

/// Whether a header value is text: visible ASCII, spaces and tabs.
pub open spec fn is_header_text(raw: Seq<u8>) -> bool {
    forall|i: int| 0 <= i < raw.len() ==> is_visible(#[trigger] raw[i])
}

/// Whether a byte may stand in a header value that is text.
pub open spec fn is_visible(byte: u8) -> bool {
    (32 <= byte < 127) || byte == 9
}

/// The bytes of `Bearer `, the word and the space that precede a token.
pub open spec fn bearer_prefix() -> Seq<u8> {
    seq![66u8, 101u8, 97u8, 114u8, 101u8, 114u8, 32u8]
}

/// The token that an `Authorization` value presents: what follows `Bearer `.
pub open spec fn bearer_token(header: Seq<u8>) -> Option<Seq<u8>> {
    if header.len() >= 7 && header.subrange(0, 7) == bearer_prefix() {
        Some(header.subrange(7, header.len() as int))
    } else {
        None
    }
}

/// The application id that a request presents: the value of its key header,
/// where it carries one and the value is text.
pub open spec fn application_id(credentials: RequestCredentials) -> Option<Seq<char>> {
    match credentials.emergency_id {
        Some(raw) => if is_header_text(raw@) {
            Some(ascii_text(raw@))
        } else {
            None
        },
        None => None,
    }
}

/// The token that a request presents in its `Authorization` header. A value
/// that is not text presents none.
pub open spec fn presented_token(credentials: RequestCredentials) -> Option<Seq<u8>> {
    match credentials.authorization {
        Some(raw) => if is_header_text(raw@) {
            bearer_token(raw@)
        } else {
            None
        },
        None => None,
    }
}

/// The identity that a validated token stands for: the user it names. A token
/// that was not accepted stands for nobody, whatever was wrong with it.
pub open spec fn token_identity(validated: Result<ClaimsView, TokenError>) -> Result<
    IdentityView,
    AppError,
> {
    match validated {
        Ok(claims) => Ok(IdentityView { id: claims.sub, kind: UserKind::User }),
        Err(error) => Err(rejection(error)),
    }
}

/// What a key header claims: to be the application whose id is its value.
/// A value that is not text names no application, and claims nothing.
pub open spec fn key_claim(raw: Seq<u8>) -> Result<IdentityView, AppError> {
    if is_header_text(raw) {
        Ok(IdentityView { id: ascii_text(raw), kind: UserKind::App })
    } else {
        Err(AppError::Unauthorized)
    }
}

/// What a request without a key header claims at time `now`, under the
/// signing key `key`: to be the user named by the token it presents, if it
/// presents one that validates.
pub open spec fn token_claim(key: Seq<u8>, credentials: RequestCredentials, now: u64) -> Result<
    IdentityView,
    AppError,
> {
    match presented_token(credentials) {
        Some(token) => token_identity(validation(key, token, now)),
        None => Err(AppError::Unauthorized),
    }
}

/// The identity that a request claims at time `now`, under the signing key
/// `key`.
///
/// Whether the request carries a key header chooses the path, whatever the
/// header holds. With a key header the request claims to be the application
/// that the header names, and is unauthorized if the header cannot be read.
/// Without one it must present a token that validates, and claims to be the
/// user that the token names.
pub open spec fn claimed_identity(key: Seq<u8>, credentials: RequestCredentials, now: u64) -> Result<
    IdentityView,
    AppError,
> {
    match credentials.emergency_id {
        Some(raw) => key_claim(raw@),
        None => token_claim(key, credentials, now),
    }
}

/// What becomes of a claimed identity once the backing store has answered:
/// it is attached if the record is there, unauthorized if it is not, and an
/// internal error if the store could not be asked.
pub open spec fn resolution(claimed: IdentityView, outcome: LookupOutcome) -> Result<
    IdentityView,
    AppError,
> {
    match outcome {
        LookupOutcome::Found => Ok(claimed),
        LookupOutcome::Missing => Err(AppError::Unauthorized),
        LookupOutcome::Unavailable => Err(AppError::Internal),
    }
}

/// What becomes of a request: the identity it ends up with, given what the
/// backing store says of the identity it claims.
pub open spec fn authentication(
    key: Seq<u8>,
    credentials: RequestCredentials,
    now: u64,
    outcome: LookupOutcome,
) -> Result<IdentityView, AppError> {
    match claimed_identity(key, credentials, now) {
        Ok(claimed) => resolution(claimed, outcome),
        Err(error) => Err(error),
    }
}

/// Whether a pending identity is the claim that was specified.
pub open spec fn claimed_as(
    outcome: Result<PendingIdentity, AppError>,
    specified: Result<IdentityView, AppError>,
) -> bool {
    match outcome {
        Ok(pending) => specified == Ok::<IdentityView, AppError>(pending@),
        Err(error) => specified == Err::<IdentityView, AppError>(error),
    }
}

/// Whether a resolved identity is the one that was specified.
pub open spec fn resolved_as(
    outcome: Result<CurrentUser, AppError>,
    specified: Result<IdentityView, AppError>,
) -> bool {
    match outcome {
        Ok(current) => specified == Ok::<IdentityView, AppError>(current@),
        Err(error) => specified == Err::<IdentityView, AppError>(error),
    }
}

/// Reads a header value as text, if it is text.
pub fn header_text(raw: &[u8]) -> (text: Option<String>)
    ensures
        text is Some <==> is_header_text(raw@),
        text is Some ==> text->0@ == ascii_text(raw@),
{
    let mut i: usize = 0;
    while i < raw.len()
        invariant
            i <= raw.len(),
            forall|k: int| 0 <= k < i ==> is_visible(#[trigger] raw@[k]),
        decreases raw.len() - i,
    {
        let byte: u8 = raw[i];
        if !((32 <= byte && byte < 127) || byte == 9) {
            assert(!is_visible(raw@[i as int]));
            return None;
        }
        i += 1;
    }
    assert forall|k: int| 0 <= k < raw@.len() implies #[trigger] raw@[k] < 128 by {
        assert(is_visible(raw@[k]));
    }
    Some(ascii_string(slice_to_vec(raw)))
}

/// Takes the token out of an `Authorization` value.
pub fn strip_bearer(header: &[u8]) -> (token: Option<&[u8]>)
    ensures
        match token {
            Some(found) => bearer_token(header@) == Some(found@),
            None => bearer_token(header@) is None,
        },
{
    if header.len() < 7 {
        return None;
    }
    let matches = header[0] == 66 && header[1] == 101 && header[2] == 97 && header[3] == 114
        && header[4] == 101 && header[5] == 114 && header[6] == 32;
    if matches {
        assert(header@.subrange(0, 7) =~= bearer_prefix());
        Some(slice_subrange(header, 7, header.len()))
    } else {
        None
    }
}

/// The identity that a validated token stands for.
pub fn bearer_identity(validated: Result<Claims, TokenError>) -> (outcome: Result<
    PendingIdentity,
    AppError,
>)
    ensures
        claimed_as(
            outcome,
            token_identity(
                match validated {
                    Ok(claims) => Ok(claims@),
                    Err(error) => Err(error),
                },
            ),
        ),
{
    match validated {
        Ok(claims) => Ok(PendingIdentity { id: claims.sub, kind: UserKind::User }),
        Err(error) => Err(error.outcome()),
    }
}

/// Establishes what a key header claims.
pub fn application_claim(raw: &[u8]) -> (outcome: Result<PendingIdentity, AppError>)
    ensures
        claimed_as(outcome, key_claim(raw@)),
{
    match header_text(raw) {
        Some(id) => Ok(PendingIdentity { id, kind: UserKind::App }),
        None => Err(AppError::Unauthorized),
    }
}

/// Establishes what a request without a key header claims as of the time
/// `now`.
pub fn bearer_claim(tokens: &TokenService, credentials: &RequestCredentials, now: u64) -> (outcome:
    Result<PendingIdentity, AppError>)
    ensures
        claimed_as(outcome, token_claim(tokens.key(), *credentials, now)),
{
    let header: &Vec<u8> = match &credentials.authorization {
        Some(raw) => raw,
        None => {
            return Err(AppError::Unauthorized);
        },
    };
    if header_text(header.as_slice()).is_none() {
        return Err(AppError::Unauthorized);
    }
    match strip_bearer(header.as_slice()) {
        Some(token) => bearer_identity(tokens.validate_at(token, now)),
        None => Err(AppError::Unauthorized),
    }
}

/// Establishes which identity a request claims as of the time `now`, and so
/// which record the caller has to look for: the application with that id in
/// the registry, or the user with that id in the user store.
///
/// A request that carries a key header is settled by that header alone, and
/// its token is not read.
pub fn auth_middleware(tokens: &TokenService, credentials: &RequestCredentials, now: u64) -> (outcome:
    Result<PendingIdentity, AppError>)
    ensures
        claimed_as(outcome, claimed_identity(tokens.key(), *credentials, now)),
{
    match &credentials.emergency_id {
        Some(raw) => application_claim(raw.as_slice()),
        None => bearer_claim(tokens, credentials, now),
    }
}

impl PendingIdentity {
    /// Settles the claim once the backing store has answered.
    pub fn resolve(self, outcome: LookupOutcome) -> (resolved: Result<CurrentUser, AppError>)
        ensures
            resolved_as(resolved, resolution(self@, outcome)),
    {
        match outcome {
            LookupOutcome::Found => Ok(CurrentUser { user_id: self.id, kind: self.kind }),
            LookupOutcome::Missing => Err(AppError::Unauthorized),
            LookupOutcome::Unavailable => Err(AppError::Internal),
        }
    }
}

/// A key header decides alone. What a request that carries one claims
/// depends on nothing but the header: not on what else the request carries,
/// not on the signing key and not on the time, so the token service has no
/// say. Where the header names an application, the claim stands if the
/// registry knows the id, and the request is unauthorized if it does not.
/// Where the header cannot be read, the request is unauthorized whatever the
/// registry would say, and whatever token comes with it.
pub proof fn lemma_key_header_decides(
    key: Seq<u8>,
    credentials: RequestCredentials,
    now: u64,
    other_key: Seq<u8>,
    other_authorization: Option<Vec<u8>>,
    other_now: u64,
    outcome: LookupOutcome,
)
    requires
        credentials.emergency_id is Some,
    ensures
        claimed_identity(
            other_key,
            RequestCredentials {
                emergency_id: credentials.emergency_id,
                authorization: other_authorization,
            },
            other_now,
        ) == claimed_identity(key, credentials, now),
        application_id(credentials) is Some ==> {
            let application = IdentityView { id: application_id(credentials)->0, kind: UserKind::App };
            &&& claimed_identity(key, credentials, now) == Ok::<IdentityView, AppError>(application)
            &&& authentication(key, credentials, now, LookupOutcome::Found) == Ok::<
                IdentityView,
                AppError,
            >(application)
            &&& authentication(key, credentials, now, LookupOutcome::Missing) == Err::<
                IdentityView,
                AppError,
            >(AppError::Unauthorized)
        },
        application_id(credentials) is None ==> authentication(key, credentials, now, outcome)
            == Err::<IdentityView, AppError>(AppError::Unauthorized),
{
}

/// A token outlives its user only on paper. A request that presents a valid
/// token, and no key header, is the token's user if the user store still
/// knows that user, and is unauthorized if it does not.
pub proof fn lemma_vanished_user_is_unauthorized(
    key: Seq<u8>,
    credentials: RequestCredentials,
    now: u64,
)
    requires
        credentials.emergency_id is None,
        presented_token(credentials) is Some,
        validation(key, presented_token(credentials)->0, now) is Ok,
    ensures
        authentication(key, credentials, now, LookupOutcome::Found) == Ok::<IdentityView, AppError>(
            IdentityView {
                id: validation(key, presented_token(credentials)->0, now)->Ok_0.sub,
                kind: UserKind::User,
            },
        ),
        authentication(key, credentials, now, LookupOutcome::Missing) == Err::<
            IdentityView,
            AppError,
        >(AppError::Unauthorized),
{
}

/// An identity is attached if and only if authentication succeeded: the
/// request carries a key header that names an application, or it carries no
/// key header and presents a token that validates; and the backing store
/// confirmed the identity so claimed. Every failure is unauthorized, but for
/// a store that could not be asked.
pub proof fn lemma_identity_attached_iff_confirmed(
    key: Seq<u8>,
    credentials: RequestCredentials,
    now: u64,
    outcome: LookupOutcome,
)
    ensures
        authentication(key, credentials, now, outcome) is Ok <==> outcome == LookupOutcome::Found
            && if credentials.emergency_id is Some {
            application_id(credentials) is Some
        } else {
            presented_token(credentials) is Some && validation(
                key,
                presented_token(credentials)->0,
                now,
            ) is Ok
        },
        authentication(key, credentials, now, outcome) is Ok ==> authentication(
            key,
            credentials,
            now,
            outcome,
        ) == claimed_identity(key, credentials, now),
        authentication(key, credentials, now, outcome) is Err ==> {
            let error = authentication(key, credentials, now, outcome)->Err_0;
            if claimed_identity(key, credentials, now) is Ok && outcome
                == LookupOutcome::Unavailable {
                error == AppError::Internal
            } else {
                error == AppError::Unauthorized
            }
        },
{
}

} // verus!
