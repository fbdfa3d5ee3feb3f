//! What the handlers decide before and after they talk to the store: who may
//! do what, and what a registration puts into the store.

use crate::error::{AppError, BAD_REQUEST, INTERNAL_SERVER_ERROR, UNAUTHORIZED};
use crate::middleware::{CurrentUser, IdentityView, UserKind};
use crate::models::{CreateUser, PingResponse};
use crate::hex::{hex_encode, is_hex_digit};
use crate::password::{password_matches, PasswordVerifier};
use crate::random::{random_block, BLOCK_LEN};
use crate::text::ascii_text;
use vstd::prelude::*;
use vstd::string::*;
use vstd::utf8::*;

verus! {

/// The fewest bytes a password may have.
pub const MIN_PASSWORD_LEN: usize = 6;

/// The byte that parts the groups of a UUID: a hyphen.
pub const HYPHEN: u8 = 45;

/// The user record that a registration puts into the store.
#[derive(Debug, Clone, PartialEq, Eq)]
pub struct NewUser {
    pub id: String,
    pub nome: String,
    pub email: String,
    /// The application the user belongs to.
    pub app_id: String,
    /// The hash of the password.
    pub senha: String,
}

/// A new user record as mathematical values.
pub struct NewUserView {
    pub id: Seq<char>,
    pub nome: Seq<char>,
    pub email: Seq<char>,
    pub app_id: Seq<char>,
    pub senha: Seq<char>,
}

impl View for NewUser {
    type V = NewUserView;

    open spec fn view(&self) -> NewUserView {
        NewUserView {
            id: self.id@,
            nome: self.nome@,
            email: self.email@,
            app_id: self.app_id@,
            senha: self.senha@,
        }
    }
}

/// Whether a character is one of `0-9` or `a-f`.
pub open spec fn is_lower_hex_char(c: char) -> bool {
    ('0' <= c <= '9') || ('a' <= c <= 'f')
}

/// Whether a text is a version 4 UUID in its usual form: 32 lower-case
/// hexadecimal digits in groups of 8, 4, 4, 4 and 12, with hyphens between
/// the groups, the third group beginning with `4` and the fourth with one of
/// `8`, `9`, `a`, `b`.
pub open spec fn is_uuid_v4_text(text: Seq<char>) -> bool {
    &&& text.len() == 36
    &&& forall|i: int|
        0 <= i < 36 ==> if i == 8 || i == 13 || i == 18 || i == 23 {
            #[trigger] text[i] == '-'
        } else {
            is_lower_hex_char(text[i])
        }
    &&& text[14] == '4'
    &&& (text[19] == '8' || text[19] == '9' || text[19] == 'a' || text[19] == 'b')
}

/// The sixteen bytes of the version 4 UUID made from sixteen random bytes:
/// the bytes as they are, but for the four bits that say "version 4" and the
/// two that say which layout the UUID has.
pub open spec fn uuid_v4_bytes(random: Seq<u8>) -> Seq<u8> {
    random.update(6, (random[6] & 0x0f) | 0x40).update(8, (random[8] & 0x3f) | 0x80)
}

/// Sixteen bytes in the usual form of a UUID: their 32 hexadecimal digits in
/// groups of 8, 4, 4, 4 and 12, with hyphens between the groups.
pub open spec fn hyphenated(bytes: Seq<u8>) -> Seq<u8> {
    let digits = hex_encode(bytes);
    digits.subrange(0, 8) + seq![HYPHEN] + digits.subrange(8, 12) + seq![HYPHEN]
        + digits.subrange(12, 16) + seq![HYPHEN] + digits.subrange(16, 20) + seq![HYPHEN]
        + digits.subrange(20, 32)
}

/// The text of the version 4 UUID made from sixteen random bytes.
pub open spec fn uuid_v4_text(random: Seq<u8>) -> Seq<char> {
    ascii_text(hyphenated(uuid_v4_bytes(random)))
}

/// `Builder::from_random_bytes` of the `uuid` crate, read out with
/// `into_uuid` and written out with `to_string`. The contract claims what the
/// crate's source shows: the bytes are kept but for the version and layout
/// bits, and are written as lower-case hexadecimal digits with hyphens.
#[verifier::external_body]
fn uuid_from_random(random: &[u8; BLOCK_LEN]) -> (id: String)
    ensures
        id@ == uuid_v4_text(random@),
{
    uuid::Builder::from_random_bytes(*random).into_uuid().to_string()
}

/// The text of a version 4 UUID has the form of one.
pub proof fn lemma_uuid_v4_text_has_the_form(random: Seq<u8>)
    requires
        random.len() == BLOCK_LEN,
    ensures
        is_uuid_v4_text(uuid_v4_text(random)),
{
    let bytes = uuid_v4_bytes(random);
    let digits = hex_encode(bytes);
    let line = hyphenated(bytes);
    let text = uuid_v4_text(random);
    let version = random[6];
    let layout = random[8];
    assert(((version & 0x0f) | 0x40) / 16 == 4) by (bit_vector);
    assert(8 <= ((layout & 0x3f) | 0x80) / 16 <= 11) by (bit_vector);
    assert(line.len() == 36);
    assert forall|i: int| 0 <= i < 36 implies if i == 8 || i == 13 || i == 18 || i == 23 {
        #[trigger] text[i] == '-'
    } else {
        is_lower_hex_char(text[i])
    } by {
        if i == 8 || i == 13 || i == 18 || i == 23 {
            assert(line[i] == HYPHEN);
        } else {
            let k = if i < 8 {
                i
            } else if i < 13 {
                i - 1
            } else if i < 18 {
                i - 2
            } else if i < 23 {
                i - 3
            } else {
                i - 4
            };
            assert(line[i] == digits[k]);
            assert(is_hex_digit(digits[k]));
        }
    }
    assert(line[14] == digits[12]);
    assert(line[19] == digits[16]);
}

/// Makes the version 4 UUID that sixteen random bytes stand for, and writes
/// it out in the usual form.
pub fn uuid_text(random: &[u8; BLOCK_LEN]) -> (id: String)
    ensures
        id@ == uuid_v4_text(random@),
        is_uuid_v4_text(id@),
{
    proof {
        lemma_uuid_v4_text_has_the_form(random@);
    }
    uuid_from_random(random)
}

/// The application that a user belongs to who names none.
pub open spec fn default_app_id() -> Seq<char> {
    "DEMONSTRA"@
}

/// Whether a password is too short to be taken.
pub open spec fn is_weak(password: Seq<char>) -> bool {
    encode_utf8(password).len() < MIN_PASSWORD_LEN
}

/// What a registration comes to, given the id drawn for the new user and
/// what hashing the password came to.
///
/// A password of fewer than six bytes is refused as a bad request. Where the
/// password could not be hashed the registration fails as an internal error.
/// Otherwise the record holds the name and email as sent, the hash in place of
/// the password, and the application that was named, or the default one.
pub open spec fn registration(
    payload: CreateUser,
    id: Seq<char>,
    hashed: Result<Seq<char>, AppError>,
) -> Result<NewUserView, (u16, Seq<char>)> {
    if is_weak(payload.senha@) {
        Err((BAD_REQUEST, "Weak password"@))
    } else {
        match hashed {
            Ok(hash) => Ok(
                NewUserView {
                    id,
                    nome: payload.nome@,
                    email: payload.email@,
                    app_id: match payload.app_id {
                        Some(named) => named@,
                        None => default_app_id(),
                    },
                    senha: hash,
                },
            ),
            Err(_) => Err((INTERNAL_SERVER_ERROR, "Password hashing failed"@)),
        }
    }
}

/// Whether an outcome of registering is the one that was specified.
pub open spec fn registered_as(
    outcome: Result<NewUser, (u16, String)>,
    specified: Result<NewUserView, (u16, Seq<char>)>,
) -> bool {
    match outcome {
        Ok(user) => specified == Ok::<NewUserView, (u16, Seq<char>)>(user@),
        Err(refusal) => specified == Err::<NewUserView, (u16, Seq<char>)>(
            (refusal.0, refusal.1@),
        ),
    }
}

/// The answer to a liveness probe.
pub fn ping() -> (response: PingResponse)
    ensures
        response.status@ == "ok"@,
{
    PingResponse::ok()
}

/// The application that an identity may act as: itself if it is an
/// application, and none if it is a user.
pub open spec fn application_of(identity: IdentityView) -> Result<Seq<char>, AppError> {
    match identity.kind {
        UserKind::App => Ok(identity.id),
        UserKind::User => Err(AppError::Unauthorized),
    }
}

/// What a handler that needs to know its caller makes of a request: the
/// identity attached to it, and unauthorized where none is attached. A request
/// without an identity is never taken for a caller who may go on unnamed.
pub fn require_identity<'a>(attached: Option<&'a CurrentUser>) -> (outcome: Result<
    &'a CurrentUser,
    AppError,
>)
    ensures
        match attached {
            Some(current) => outcome == Ok::<&CurrentUser, AppError>(current),
            None => outcome == Err::<&CurrentUser, AppError>(AppError::Unauthorized),
        },
{
    match attached {
        Some(current) => Ok(current),
        None => Err(AppError::Unauthorized),
    }
}

/// The role gate: the id of the calling application, for a caller that is
/// one. Any other caller is unauthorized.
pub fn ensure_app(current: &CurrentUser) -> (outcome: Result<&str, AppError>)
    ensures
        match outcome {
            Ok(app_id) => application_of(current@) == Ok::<Seq<char>, AppError>(app_id@),
            Err(error) => application_of(current@) == Err::<Seq<char>, AppError>(error),
        },
{
    match current.kind {
        UserKind::App => Ok(current.user_id.as_str()),
        UserKind::User => Err(AppError::Unauthorized),
    }
}

/// Whose users a caller may list: an application its own, and nobody else
/// anybody's. The id that comes back is the application to list the users of.
pub fn list_users(current: &CurrentUser) -> (outcome: Result<&str, (u16, String)>)
    ensures
        match outcome {
            Ok(app_id) => application_of(current@) == Ok::<Seq<char>, AppError>(app_id@),
            Err(refusal) => application_of(current@) is Err && refusal.0 == UNAUTHORIZED
                && refusal.1@ == Seq::<char>::empty(),
        },
{
    match ensure_app(current) {
        Ok(app_id) => Ok(app_id),
        Err(_) => Err((UNAUTHORIZED, String::new())),
    }
}

/// Makes the record of a new user from what was sent, the id drawn for the
/// user and what hashing the password came to.
pub fn register(payload: CreateUser, id: String, hashed: Result<String, AppError>) -> (outcome:
    Result<NewUser, (u16, String)>)
    ensures
        registered_as(
            outcome,
            registration(
                payload,
                id@,
                match hashed {
                    Ok(hash) => Ok(hash@),
                    Err(error) => Err(error),
                },
            ),
        ),
{
    if payload.senha.as_str().as_bytes().len() < MIN_PASSWORD_LEN {
        return Err((BAD_REQUEST, String::from_str("Weak password")));
    }
    match hashed {
        Ok(hash) => {
            let app_id = match payload.app_id {
                Some(named) => named,
                None => String::from_str("DEMONSTRA"),
            };
            Ok(NewUser { id, nome: payload.nome, email: payload.email, app_id, senha: hash })
        },
        Err(_) => Err((INTERNAL_SERVER_ERROR, String::from_str("Password hashing failed"))),
    }
}

/// Prepares the registration of a new user: refuses a weak password, draws
/// an id, hashes the password and makes the record to store.
///
/// A weak password is refused before anything is drawn or hashed. For any
/// other password the outcome is a record, unless no random bytes could be
/// drawn or hashing failed, either of which is an internal error. The record
/// holds a fresh version 4 UUID for an id and a hash that the password
/// matches, and is otherwise as `registration` says.
pub fn create_user(verifier: &PasswordVerifier, payload: CreateUser) -> (outcome: Result<
    NewUser,
    (u16, String),
>)
    ensures
        is_weak(payload.senha@) ==> registered_as(
            outcome,
            Err((BAD_REQUEST, "Weak password"@)),
        ),
        !is_weak(payload.senha@) ==> match outcome {
            Ok(user) => {
                &&& is_uuid_v4_text(user.id@)
                &&& password_matches(payload.senha@, user.senha@)
                &&& registration(payload, user.id@, Ok(user.senha@)) == Ok::<
                    NewUserView,
                    (u16, Seq<char>),
                >(user@)
            },
            Err(refusal) => refusal.0 == INTERNAL_SERVER_ERROR && (refusal.1@
                == "Internal server error"@ || refusal.1@ == "Password hashing failed"@),
        },
{
    if payload.senha.as_str().as_bytes().len() < MIN_PASSWORD_LEN {
        return Err((BAD_REQUEST, String::from_str("Weak password")));
    }
    let random = match random_block() {
        Ok(block) => block,
        Err(_) => {
            return Err((INTERNAL_SERVER_ERROR, AppError::Internal.message()));
        },
    };
    let id = uuid_text(&random);
    let hashed = verifier.hash(payload.senha.as_str());
    register(payload, id, hashed)
}

} // verus!
