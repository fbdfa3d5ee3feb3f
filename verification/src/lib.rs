//! Request authentication and access control for the emergency-relief gateway.
//!
//! The crate decides who is calling (an end user holding a bearer token, a
//! registered client application presenting its pre-shared id, or nobody) and
//! which operations that identity may perform. Storage lookups and the HTTP
//! transport stay with the caller, who hands their results in as plain values.

pub mod auth;
pub mod clock;
pub mod error;
pub mod guarantees;
pub mod handlers;
pub mod hex;
pub mod mac;
pub mod middleware;
pub mod models;
pub mod pagination;
pub mod password;
pub mod random;
pub mod text;
pub mod token;
pub mod wire;
