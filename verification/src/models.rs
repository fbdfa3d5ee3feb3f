//! The records that the authentication core reads and hands out.

use vstd::prelude::*;
use vstd::string::*;

verus! {

/// A credential record: who the user is and the hash of their password.
#[derive(Debug, Clone, PartialEq, Eq)]
pub struct User {
    pub id: String,
    pub nome: String,
    pub email: String,
    /// The stored password hash, never the password itself.
    pub senha: String,
}

/// What a new user sends to be registered.
#[derive(Debug, Clone, PartialEq, Eq)]
pub struct CreateUser {
    pub nome: String,
    /// The password in the clear, as typed.
    pub senha: String,
    /// The application the user signs up through, if they name one.
    pub app_id: Option<String>,
    pub email: String,
}

/// The answer to a liveness probe.
#[derive(Debug, Clone, PartialEq, Eq)]
pub struct PingResponse {
    pub status: String,
}

impl PingResponse {
    /// The answer of a service that is up.
    pub fn ok() -> (response: Self)
        ensures
            response.status@ == "ok"@,
    {
        PingResponse { status: String::from_str("ok") }
    }
}

} // verus!
