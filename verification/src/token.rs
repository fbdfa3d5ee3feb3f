//! The token service: signed, time-bounded bearer tokens.
//!
//! A token states who its bearer is (the subject), when it was issued and when
//! it expires. It is self-contained: whether it is valid follows from its
//! signature and the time alone, and nothing is stored on the server.
//!
//! The text of a token is `<payload>.<tag>`, both parts in lower-case
//! hexadecimal. The payload is the issue time and the expiry time, eight bytes
//! each and most significant byte first, followed by the subject in UTF-8. The
//! tag is the HMAC-SHA256 of the payload under the service's signing key.

use crate::clock::{unix_now, LATEST};
use crate::error::AppError;
use crate::hex::{hex_decode, hex_encode, is_hex, is_hex_digit, lemma_decode_encode, lemma_encode_decode};
use crate::mac::{hmac_sha256, hmac_sha256_tag, hmac_sha256_verify};
use crate::text::{ascii_string, ascii_text, is_ascii_bytes, utf8_string};
use crate::wire::{be64, from_be64, get_be64, lemma_be64_from_be64, lemma_from_be64_be64, put_be64};
use vstd::prelude::*;
use vstd::slice::*;
use vstd::string::*;
use vstd::utf8::*;

verus! {

/// How long a token stays valid after it was issued, in seconds.
pub const TOKEN_HORIZON_SECS: u64 = 86_400;

/// The byte that parts the payload from the tag: a full stop.
pub const SEPARATOR: u8 = 46;

/// What a token states.
#[derive(Debug, Clone, PartialEq, Eq)]
pub struct Claims {
    /// The identifier of the user the token was issued to.
    pub sub: String,
    /// When the token was issued, in seconds since the Unix epoch.
    pub iat: u64,
    /// The first second at which the token is no longer accepted.
    pub exp: u64,
}

/// The claims of a token as mathematical values.
pub struct ClaimsView {
    pub sub: Seq<char>,
    pub iat: u64,
    pub exp: u64,
}

impl View for Claims {
    type V = ClaimsView;

    open spec fn view(&self) -> ClaimsView {
        ClaimsView { sub: self.sub@, iat: self.iat, exp: self.exp }
    }
}

/// Why a token was not accepted.
#[derive(Debug, Clone, Copy, PartialEq, Eq)]
pub enum TokenError {
    /// The text is not a token, or its tag was not made with the signing key.
    Malformed,
    /// The token is genuine, and its expiry time has come.
    Expired,
}

/// What the caller is told when a token is not accepted: the same for either
/// kind of failure, so that a rejected token shows neither whether it was
/// genuine nor why it failed.
pub open spec fn rejection(error: TokenError) -> AppError {
    AppError::Unauthorized
}

impl TokenError {
    /// What the caller is told when a token fails in this way.
    pub fn outcome(&self) -> (error: AppError)
        ensures
            error == rejection(*self),
    {
        AppError::Unauthorized
    }
}

/// When a token issued at `now` expires. The horizon is added without
/// wrapping round: at the end of time the expiry stays there.
pub open spec fn expiry(now: u64) -> u64 {
    if now + TOKEN_HORIZON_SECS > u64::MAX {
        u64::MAX
    } else {
        (now + TOKEN_HORIZON_SECS) as u64
    }
}

/// The claims of a token issued to `subject` at `now`.
pub open spec fn issued_claims(subject: Seq<char>, now: u64) -> ClaimsView {
    ClaimsView { sub: subject, iat: now, exp: expiry(now) }
}

/// The payload that states the given claims.
pub open spec fn claims_bytes(claims: ClaimsView) -> Seq<u8> {
    be64(claims.iat) + be64(claims.exp) + encode_utf8(claims.sub)
}

/// The claims that a payload states, if it states any: it must hold the two
/// times and, after them, well-formed UTF-8.
pub open spec fn parse_claims(payload: Seq<u8>) -> Option<ClaimsView> {
    if payload.len() >= 16 && valid_utf8(payload.subrange(16, payload.len() as int)) {
        Some(
            ClaimsView {
                sub: decode_utf8(payload.subrange(16, payload.len() as int)),
                iat: from_be64(payload.subrange(0, 8)),
                exp: from_be64(payload.subrange(8, 16)),
            },
        )
    } else {
        None
    }
}

/// The text of the token with the given payload and tag.
pub open spec fn token_bytes(payload: Seq<u8>, tag: Seq<u8>) -> Seq<u8> {
    hex_encode(payload) + seq![SEPARATOR] + hex_encode(tag)
}

/// The text of the token that states `claims` under the signing key `key`.
pub open spec fn signed_token(key: Seq<u8>, claims: ClaimsView) -> Seq<u8> {
    token_bytes(claims_bytes(claims), hmac_sha256(key, claims_bytes(claims)))
}

/// Whether the text is two hexadecimal parts joined by a separator at `at`.
pub open spec fn splits_at(token: Seq<u8>, at: int) -> bool {
    &&& 0 <= at < token.len()
    &&& token[at] == SEPARATOR
    &&& is_hex(token.subrange(0, at))
    &&& is_hex(token.subrange(at + 1, token.len() as int))
}

/// The payload and the tag of a token, if the text has the form of one.
pub open spec fn token_parts(token: Seq<u8>) -> Option<(Seq<u8>, Seq<u8>)> {
    if exists|at: int| splits_at(token, at) {
        let at = choose|at: int| splits_at(token, at);
        Some(
            (
                hex_decode(token.subrange(0, at))->0,
                hex_decode(token.subrange(at + 1, token.len() as int))->0,
            ),
        )
    } else {
        None
    }
}

/// The payload of a text that has the form of a token.
pub open spec fn payload_of(token: Seq<u8>) -> Seq<u8> {
    let parts = token_parts(token)->0;
    parts.0
}

/// What validating `token` at time `now` under the signing key `key` comes to.
///
/// The token is accepted if it has the form of a token, its tag is the tag of
/// its payload under the key, its payload states claims, and its expiry time
/// lies ahead. A genuine token whose expiry time has come is `Expired`;
/// everything else is `Malformed`. Without a signing key nothing is accepted.
pub open spec fn validation(key: Seq<u8>, token: Seq<u8>, now: u64) -> Result<
    ClaimsView,
    TokenError,
> {
    match token_parts(token) {
        Some((payload, tag)) => {
            if key.len() > 0 && tag == hmac_sha256(key, payload) {
                claims_at(payload, now)
            } else {
                Err(TokenError::Malformed)
            }
        },
        None => Err(TokenError::Malformed),
    }
}

/// What a payload whose tag was found genuine comes to at time `now`.
pub open spec fn claims_at(payload: Seq<u8>, now: u64) -> Result<ClaimsView, TokenError> {
    match parse_claims(payload) {
        Some(claims) => if now < claims.exp {
            Ok(claims)
        } else {
            Err(TokenError::Expired)
        },
        None => Err(TokenError::Malformed),
    }
}

/// Whether an outcome of validation is the one that was specified.
pub open spec fn validated_as(
    outcome: Result<Claims, TokenError>,
    specified: Result<ClaimsView, TokenError>,
) -> bool {
    match outcome {
        Ok(claims) => specified == Ok::<ClaimsView, TokenError>(claims@),
        Err(error) => specified == Err::<ClaimsView, TokenError>(error),
    }
}

/// A text splits at one place at most, and that place is its first separator.
pub proof fn lemma_split_is_first_separator(token: Seq<u8>, at: int)
    requires
        splits_at(token, at),
    ensures
        forall|k: int| 0 <= k < token.len() && k != at ==> token[k] != SEPARATOR,
        forall|other: int| splits_at(token, other) ==> other == at,
{
    let left = token.subrange(0, at);
    let right = token.subrange(at + 1, token.len() as int);
    assert forall|k: int| 0 <= k < token.len() && k != at implies token[k] != SEPARATOR by {
        if k < at {
            assert(is_hex_digit(left[k]));
        } else {
            assert(is_hex_digit(right[k - at - 1]));
        }
    }
}

/// Writes the payload that states the given claims.
pub fn write_claims(subject: &str, iat: u64, exp: u64) -> (payload: Vec<u8>)
    ensures
        payload@ == claims_bytes((ClaimsView { sub: subject@, iat, exp })),
{
    let mut payload: Vec<u8> = Vec::new();
    put_be64(&mut payload, iat);
    put_be64(&mut payload, exp);
    let mut name = slice_to_vec(subject.as_bytes());
    payload.append(&mut name);
    assert(payload@ =~= be64(iat) + be64(exp) + encode_utf8(subject@));
    payload
}

/// Reads the claims that a payload states.
pub fn read_claims(payload: &[u8]) -> (claims: Option<Claims>)
    ensures
        match claims {
            Some(found) => parse_claims(payload@) == Some(found@),
            None => parse_claims(payload@) is None,
        },
{
    let (iat, exp): (u64, u64) = match (get_be64(payload, 0), get_be64(payload, 8)) {
        (Some(iat), Some(exp)) => (iat, exp),
        _ => {
            return None;
        },
    };
    let name = slice_to_vec(slice_subrange(payload, 16, payload.len()));
    match utf8_string(name) {
        Some(sub) => Some(Claims { sub, iat, exp }),
        None => None,
    }
}

/// Joins a payload and its tag into the text of a token.
pub fn assemble(payload: &[u8], tag: &[u8]) -> (token: String)
    ensures
        token@ == ascii_text(token_bytes(payload@, tag@)),
        encode_utf8(token@) == token_bytes(payload@, tag@),
{
    let mut bytes = crate::hex::encode(payload);
    bytes.push(SEPARATOR);
    let mut tail = crate::hex::encode(tag);
    bytes.append(&mut tail);
    proof {
        assert(bytes@ =~= token_bytes(payload@, tag@));
        lemma_token_is_ascii(payload@, tag@);
    }
    ascii_string(bytes)
}

/// Parts a text into the payload and the tag it holds.
pub fn split(token: &[u8]) -> (parts: Option<(Vec<u8>, Vec<u8>)>)
    ensures
        match parts {
            Some((payload, tag)) => token_parts(token@) == Some((payload@, tag@)),
            None => token_parts(token@) is None,
        },
{
    let mut at: usize = 0;
    while at < token.len() && token[at] != SEPARATOR
        invariant
            at <= token.len(),
            forall|k: int| 0 <= k < at ==> token@[k] != SEPARATOR,
        decreases token.len() - at,
    {
        at += 1;
    }
    if at == token.len() {
        assert forall|other: int| !splits_at(token@, other) by {}
        return None;
    }
    let left = crate::hex::decode(slice_subrange(token, 0, at));
    let right = crate::hex::decode(slice_subrange(token, at + 1, token.len()));
    proof {
        if exists|other: int| splits_at(token@, other) {
            let other = choose|other: int| splits_at(token@, other);
            lemma_split_is_first_separator(token@, other);
            assert(other == at);
        }
    }
    match (left, right) {
        (Some(payload), Some(tag)) => {
            proof {
                assert(splits_at(token@, at as int));
                lemma_split_is_first_separator(token@, at as int);
            }
            Some((payload, tag))
        },
        _ => None,
    }
}

/// The text of a token is plain ASCII.
pub proof fn lemma_token_is_ascii(payload: Seq<u8>, tag: Seq<u8>)
    ensures
        is_ascii_bytes(token_bytes(payload, tag)),
{
    let token = token_bytes(payload, tag);
    let head = hex_encode(payload);
    let tail = hex_encode(tag);
    assert forall|i: int| 0 <= i < token.len() implies #[trigger] token[i] < 128 by {
        if i < head.len() {
            assert(is_hex_digit(head[i]));
        } else if i > head.len() {
            assert(token[i] == tail[i - head.len() - 1]);
            assert(is_hex_digit(tail[i - head.len() - 1]));
        }
    }
}

/// The text of a token parts into the payload and the tag it was joined from.
pub proof fn lemma_parts_of_token(payload: Seq<u8>, tag: Seq<u8>)
    ensures
        token_parts(token_bytes(payload, tag)) == Some((payload, tag)),
{
    let token = token_bytes(payload, tag);
    let at = hex_encode(payload).len() as int;
    lemma_decode_encode(payload);
    lemma_decode_encode(tag);
    assert(token.subrange(0, at) =~= hex_encode(payload));
    assert(token.subrange(at + 1, token.len() as int) =~= hex_encode(tag));
    assert(splits_at(token, at));
    lemma_split_is_first_separator(token, at);
}

/// A text that parts into a payload and a tag is the token joined from them:
/// no payload and tag have two texts.
pub proof fn lemma_token_of_parts(token: Seq<u8>)
    requires
        token_parts(token) is Some,
    ensures
        ({
            let parts = token_parts(token)->0;
            token == token_bytes(parts.0, parts.1)
        }),
{
    let at = choose|at: int| splits_at(token, at);
    let left = token.subrange(0, at);
    let right = token.subrange(at + 1, token.len() as int);
    let parts = token_parts(token)->0;
    assert(hex_encode(parts.0) == left) by {
        lemma_encode_decode(left);
    }
    assert(hex_encode(parts.1) == right) by {
        lemma_encode_decode(right);
    }
    lemma_joined_at_separator(token, at);
}

/// A text with a separator at `at` is what stands before it, the separator,
/// and what stands behind it.
proof fn lemma_joined_at_separator(token: Seq<u8>, at: int)
    requires
        0 <= at < token.len(),
        token[at] == SEPARATOR,
    ensures
        token == token.subrange(0, at) + seq![SEPARATOR] + token.subrange(
            at + 1,
            token.len() as int,
        ),
{
    assert(token =~= token.subrange(0, at) + seq![SEPARATOR] + token.subrange(
        at + 1,
        token.len() as int,
    ));
}

/// The payload that states some claims states those claims.
pub proof fn lemma_parse_claims_bytes(claims: ClaimsView)
    ensures
        parse_claims(claims_bytes(claims)) == Some(claims),
{
    let payload = claims_bytes(claims);
    lemma_from_be64_be64(claims.iat);
    lemma_from_be64_be64(claims.exp);
    assert(payload.subrange(0, 8) =~= be64(claims.iat));
    assert(payload.subrange(8, 16) =~= be64(claims.exp));
    assert(payload.subrange(16, payload.len() as int) =~= encode_utf8(claims.sub));
    encode_utf8_valid_utf8(claims.sub);
    encode_utf8_decode_utf8(claims.sub);
}

/// A payload that states claims is the payload of those claims: no claims
/// have two payloads.
pub proof fn lemma_claims_bytes_parse(payload: Seq<u8>)
    requires
        parse_claims(payload) is Some,
    ensures
        claims_bytes(parse_claims(payload)->0) == payload,
{
    let name = payload.subrange(16, payload.len() as int);
    lemma_be64_from_be64(payload.subrange(0, 8));
    lemma_be64_from_be64(payload.subrange(8, 16));
    decode_utf8_encode_utf8(name);
    assert(payload =~= payload.subrange(0, 8) + payload.subrange(8, 16) + name);
}

/// What issuing a token to `subject` at time `now` under the signing key `key`
/// comes to: the text of the signed token, or an internal error where there is
/// no signing key.
pub open spec fn issuance(key: Seq<u8>, subject: Seq<char>, now: u64) -> Result<Seq<u8>, AppError> {
    if key.len() == 0 {
        Err(AppError::Internal)
    } else {
        Ok(signed_token(key, issued_claims(subject, now)))
    }
}

/// Whether an outcome of issuing is the one that was specified.
pub open spec fn issued_as(
    outcome: Result<String, AppError>,
    specified: Result<Seq<u8>, AppError>,
) -> bool {
    match outcome {
        Ok(token) => specified is Ok && token@ == ascii_text(specified->Ok_0) && encode_utf8(
            token@,
        ) == specified->Ok_0,
        Err(error) => specified == Err::<Seq<u8>, AppError>(error),
    }
}

/// Decides what a payload whose tag was found genuine comes to at time `now`:
/// its claims while the expiry time lies ahead.
pub fn claims_if_fresh(payload: &[u8], now: u64) -> (outcome: Result<Claims, TokenError>)
    ensures
        validated_as(outcome, claims_at(payload@, now)),
{
    match read_claims(payload) {
        Some(claims) => {
            if now < claims.exp {
                Ok(claims)
            } else {
                Err(TokenError::Expired)
            }
        },
        None => Err(TokenError::Malformed),
    }
}

/// Issues and validates tokens under one signing key.
///
/// The key is fixed when the service is made and never changes. A service
/// made with an empty key has no key material: it issues nothing and accepts
/// nothing.
pub struct TokenService {
    secret: Vec<u8>,
}

impl TokenService {
    /// The signing key.
    pub closed spec fn key(&self) -> Seq<u8> {
        self.secret@
    }

    pub fn new(secret: Vec<u8>) -> (service: Self)
        ensures
            service.key() == secret@,
    {
        TokenService { secret }
    }

    /// Whether the service holds key material.
    pub fn has_key(&self) -> (present: bool)
        ensures
            present == (self.key().len() > 0),
    {
        self.secret.len() > 0
    }

    /// Issues a token to `subject` as of the time `now`.
    pub fn issue_at(&self, subject: &str, now: u64) -> (issued: Result<String, AppError>)
        ensures
            issued_as(issued, issuance(self.key(), subject@, now)),
    {
        if self.secret.len() == 0 {
            return Err(AppError::Internal);
        }
        let exp: u64 = if now > u64::MAX - TOKEN_HORIZON_SECS {
            u64::MAX
        } else {
            now + TOKEN_HORIZON_SECS
        };
        let payload = write_claims(subject, now, exp);
        let tag = hmac_sha256_tag(self.secret.as_slice(), payload.as_slice());
        Ok(assemble(payload.as_slice(), tag.as_slice()))
    }

    /// Issues a token to `subject` as of the current time.
    ///
    /// The time is one that the clock tells, so the token expires a full
    /// horizon after it was issued.
    pub fn issue(&self, subject: &str) -> (issued: Result<String, AppError>)
        ensures
            exists|now: u64|
                now <= LATEST && issued_as(issued, #[trigger] issuance(self.key(), subject@, now)),
    {
        let now: u64 = unix_now();
        self.issue_at(subject, now)
    }

    /// Validates the text of a token as of the time `now`.
    pub fn validate_at(&self, token: &[u8], now: u64) -> (outcome: Result<Claims, TokenError>)
        ensures
            validated_as(outcome, validation(self.key(), token@, now)),
    {
        if self.secret.len() == 0 {
            return Err(TokenError::Malformed);
        }
        match split(token) {
            Some((payload, tag)) => {
                if hmac_sha256_verify(self.secret.as_slice(), payload.as_slice(), tag.as_slice()) {
                    claims_if_fresh(payload.as_slice(), now)
                } else {
                    Err(TokenError::Malformed)
                }
            },
            None => Err(TokenError::Malformed),
        }
    }

    /// Validates a token as of the current time.
    pub fn validate(&self, token: &str) -> (outcome: Result<Claims, TokenError>)
        ensures
            exists|now: u64|
                now <= LATEST && validated_as(
                    outcome,
                    #[trigger] validation(self.key(), encode_utf8(token@), now),
                ),
    {
        let now: u64 = unix_now();
        self.validate_at(token.as_bytes(), now)
    }
}

/// A token is accepted from the moment it is issued until it expires, and
/// yields the subject it was issued to, together with its two times.
pub proof fn lemma_issued_token_validates(
    key: Seq<u8>,
    subject: Seq<char>,
    issued_at: u64,
    now: u64,
)
    requires
        key.len() > 0,
        now < expiry(issued_at),
    ensures
        issuance(key, subject, issued_at) is Ok,
        validation(key, issuance(key, subject, issued_at)->Ok_0, now) == Ok::<
            ClaimsView,
            TokenError,
        >(issued_claims(subject, issued_at)),
        issued_claims(subject, issued_at).sub == subject,
{
    let claims = issued_claims(subject, issued_at);
    let payload = claims_bytes(claims);
    lemma_parts_of_token(payload, hmac_sha256(key, payload));
    lemma_parse_claims_bytes(claims);
}

/// A token issued at a time that the clock tells expires a full horizon
/// later, and so is accepted at the moment it is issued.
pub proof fn lemma_token_of_the_clock_is_fresh(key: Seq<u8>, subject: Seq<char>, now: u64)
    requires
        key.len() > 0,
        now <= LATEST,
    ensures
        expiry(now) == now + TOKEN_HORIZON_SECS,
        validation(key, issuance(key, subject, now)->Ok_0, now) == Ok::<ClaimsView, TokenError>(
            issued_claims(subject, now),
        ),
{
    lemma_issued_token_validates(key, subject, now, now);
}

/// Once its expiry time has come, an issued token is rejected as expired, and
/// the caller is told the same as for a text that is no token at all:
/// unauthorized.
pub proof fn lemma_expired_token_rejected(
    key: Seq<u8>,
    subject: Seq<char>,
    issued_at: u64,
    now: u64,
)
    requires
        key.len() > 0,
        now >= expiry(issued_at),
    ensures
        validation(key, issuance(key, subject, issued_at)->Ok_0, now) == Err::<
            ClaimsView,
            TokenError,
        >(TokenError::Expired),
        rejection(TokenError::Expired) == rejection(TokenError::Malformed),
        rejection(TokenError::Expired).status_code() == crate::error::UNAUTHORIZED,
{
    let claims = issued_claims(subject, issued_at);
    let payload = claims_bytes(claims);
    lemma_parts_of_token(payload, hmac_sha256(key, payload));
    lemma_parse_claims_bytes(claims);
}

/// Only what the service itself signs is taken for genuine: a text that is
/// accepted, or rejected as expired, is letter for letter the signed token of
/// the claims it states.
pub proof fn lemma_genuine_token_was_signed(key: Seq<u8>, token: Seq<u8>, now: u64)
    requires
        validation(key, token, now) != Err::<ClaimsView, TokenError>(TokenError::Malformed),
    ensures
        key.len() > 0,
        token_parts(token) is Some,
        parse_claims(payload_of(token)) is Some,
        token == signed_token(key, parse_claims(payload_of(token))->0),
        validation(key, token, now) is Ok ==> validation(key, token, now)->Ok_0 == parse_claims(
            payload_of(token),
        )->0,
{
    let parts = token_parts(token)->0;
    lemma_token_of_parts(token);
    lemma_claims_bytes_parse(parts.0);
}

} // verus!
