//! The password verifier: hashing passwords for storage and checking a
//! password against a stored hash.
//!
//! Hashes are Argon2id strings in the PHC format, which name the algorithm,
//! its parameters and the salt beside the digest. Checking recomputes the
//! digest and compares it in constant time. A stored string that is not such a
//! hash matches no password: it is answered with `false`, never with an error.

use crate::error::AppError;
use crate::random::random_block;
use vstd::prelude::*;

verus! {

/// How many random bytes salt a new hash.
pub const SALT_LEN: usize = 16;

/// Whether a password matches a stored hash, as the `argon2` crate finds by
/// parsing the hash and recomputing it from the password. It depends on the
/// password and the stored string alone.
pub uninterp spec fn password_matches(plaintext: Seq<char>, stored: Seq<char>) -> bool;

/// The hash string that the `argon2` crate gives a password with a given
/// salt under its default parameters, or nothing where it refuses the salt or
/// the password. It depends on the password and the salt alone.
pub uninterp spec fn argon2id_hash(plaintext: Seq<char>, salt: Seq<u8>) -> Option<Seq<char>>;

/// The error type of the `password-hash` crate, which `argon2` hands back.
#[verifier::external_type_specification]
#[verifier::external_body]
pub struct ExPasswordHashError(argon2::password_hash::Error);

/// `Argon2::default().hash_password` of the `argon2` crate, with the salt put
/// through `SaltString::encode_b64` and the hash written out as a string. The
/// contract names the string that comes back, and claims of it what the crate
/// documents: the password it was made from matches it. A salt of this
/// length is one that the crate takes; it panics on one of fewer than three
/// bytes.
#[verifier::external_body]
fn argon2_hash(plaintext: &str, salt: &[u8; SALT_LEN]) -> (hashed: Result<
    String,
    argon2::password_hash::Error,
>)
    ensures
        match hashed {
            Ok(hash) => argon2id_hash(plaintext@, salt@) == Some(hash@) && password_matches(
                plaintext@,
                hash@,
            ),
            Err(_) => argon2id_hash(plaintext@, salt@) is None,
        },
{
    let salt = argon2::password_hash::SaltString::encode_b64(salt)?;
    let argon2 = argon2::Argon2::default();
    let hash = argon2::PasswordHasher::hash_password(&argon2, plaintext.as_bytes(), &salt)?;
    Ok(hash.to_string())
}

/// `Argon2::default().verify_password` of the `argon2` crate, on the stored
/// string parsed by `PasswordHash::new`. The contract names the answer, and
/// claims one thing of it that the parser's source shows: a string that does
/// not begin with `$` is no hash, and matches nothing.
#[verifier::external_body]
fn argon2_verify(plaintext: &str, stored: &str) -> (matched: bool)
    ensures
        matched == password_matches(plaintext@, stored@),
        stored@.len() == 0 || stored@[0] != '$' ==> !matched,
{
    match argon2::PasswordHash::new(stored) {
        Ok(parsed) => argon2::PasswordVerifier::verify_password(
            &argon2::Argon2::default(),
            plaintext.as_bytes(),
            &parsed,
        ).is_ok(),
        Err(_) => false,
    }
}

/// What hashing a password with a given salt comes to: the hash string, or an
/// internal error where the hashing scheme refuses.
pub open spec fn salted_hash(plaintext: Seq<char>, salt: Seq<u8>) -> Result<Seq<char>, AppError> {
    match argon2id_hash(plaintext, salt) {
        Some(hash) => Ok(hash),
        None => Err(AppError::Internal),
    }
}

/// Whether an outcome of hashing is the one that was specified.
pub open spec fn hashed_as(
    outcome: Result<String, AppError>,
    specified: Result<Seq<char>, AppError>,
) -> bool {
    match outcome {
        Ok(hash) => specified == Ok::<Seq<char>, AppError>(hash@),
        Err(error) => specified == Err::<Seq<char>, AppError>(error),
    }
}

/// The count of verifications after one more. It stops at the largest number
/// rather than start again from zero.
pub open spec fn one_more(count: u64) -> u64 {
    if count < u64::MAX {
        (count + 1) as u64
    } else {
        count
    }
}

/// Hashes a password with the given salt.
///
/// The hash that comes back is one that the password matches.
pub fn hash_with_salt(plaintext: &str, salt: &[u8; SALT_LEN]) -> (hashed: Result<
    String,
    AppError,
>)
    ensures
        hashed_as(hashed, salted_hash(plaintext@, salt@)),
        hashed is Ok ==> password_matches(plaintext@, hashed->Ok_0@),
{
    match argon2_hash(plaintext, salt) {
        Ok(hash) => Ok(hash),
        Err(_) => Err(AppError::Internal),
    }
}

/// One check of a password against a stored hash: the password, then the
/// hash.
pub type Check = (Seq<char>, Seq<char>);

/// Hashes a password and checks passwords against stored hashes, keeping
/// account of the checks it makes.
///
/// The account is what lets a caller show that a login attempt paid for one
/// check whether or not the account exists, and against which hash. The count
/// is kept in the running program; the record of what was checked against
/// what exists for the proofs alone.
pub struct PasswordVerifier {
    checks: u64,
    record: Ghost<Seq<Check>>,
}

impl PasswordVerifier {
    /// How many checks this verifier has made.
    pub closed spec fn count(&self) -> u64 {
        self.checks
    }

    /// The checks this verifier has made, first to last.
    pub closed spec fn checked(&self) -> Seq<Check> {
        self.record@
    }

    pub fn new() -> (verifier: Self)
        ensures
            verifier.count() == 0,
            verifier.checked() == Seq::<Check>::empty(),
    {
        PasswordVerifier { checks: 0, record: Ghost(Seq::empty()) }
    }

    /// How many checks this verifier has made.
    pub fn verifications(&self) -> (count: u64)
        ensures
            count == self.count(),
    {
        self.checks
    }

    /// Hashes a password for storage, with a salt drawn afresh.
    ///
    /// It fails only where no salt can be drawn or the hashing scheme refuses,
    /// and then as an internal error. A hash that comes back is the salted hash
    /// of the password for some salt, and the password matches it.
    pub fn hash(&self, plaintext: &str) -> (hashed: Result<String, AppError>)
        ensures
            match hashed {
                Ok(hash) => password_matches(plaintext@, hash@) && exists|salt: Seq<u8>|
                    #[trigger] salted_hash(plaintext@, salt) == Ok::<Seq<char>, AppError>(hash@),
                Err(error) => error == AppError::Internal,
            },
    {
        match random_block() {
            Ok(salt) => {
                let hashed = hash_with_salt(plaintext, &salt);
                proof {
                    if hashed is Ok {
                        assert(salted_hash(plaintext@, salt@) == Ok::<Seq<char>, AppError>(
                            hashed->Ok_0@,
                        ));
                    }
                }
                hashed
            },
            Err(_) => Err(AppError::Internal),
        }
    }

    /// Checks a password against a stored hash, and takes the check down.
    ///
    /// A stored string that is no hash is answered with `false`.
    pub fn verify(&mut self, plaintext: &str, stored: &str) -> (matched: bool)
        ensures
            matched == password_matches(plaintext@, stored@),
            stored@.len() == 0 || stored@[0] != '$' ==> !matched,
            final(self).count() == one_more(old(self).count()),
            final(self).checked() == old(self).checked().push((plaintext@, stored@)),
    {
        if self.checks < u64::MAX {
            self.checks = self.checks + 1;
        }
        self.record = Ghost(self.record@.push((plaintext@, stored@)));
        argon2_verify(plaintext, stored)
    }
}

} // verus!
