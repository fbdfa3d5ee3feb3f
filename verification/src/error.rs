//! The failures a request can end in, and how each is shown to the caller.

use vstd::prelude::*;
use vstd::string::*;

verus! {

/// Status code of a request whose body was not acceptable.
pub const BAD_REQUEST: u16 = 400;

/// Status code of a request whose credentials were not accepted.
pub const UNAUTHORIZED: u16 = 401;

/// Status code of a request that failed for reasons on the server's side.
pub const INTERNAL_SERVER_ERROR: u16 = 500;

/// Why a request was turned away.
///
/// Every authentication or authorization failure is `Unauthorized`, whatever
/// its cause, so that a caller cannot tell a missing credential from a stale
/// or forged one. The other two variants are failures of the infrastructure;
/// what the caller is shown of them tells neither which lookup failed nor
/// what the store said.
#[derive(Debug, Clone, PartialEq, Eq)]
pub enum AppError {
    /// The data store failed; the text is the store's own description, which
    /// is for the log and never for the caller.
    Database(String),
    /// The caller did not prove an identity that may do what was asked.
    Unauthorized,
    /// Hashing, signing or another internal facility failed.
    Internal,
}

/// Body of the response that reports an [`AppError`].
#[derive(Debug, Clone, PartialEq, Eq)]
pub struct ErrorResponse {
    pub message: String,
}

impl AppError {
    /// The status code that goes with this error.
    pub open spec fn status_code(&self) -> u16 {
        match self {
            AppError::Database(_) => INTERNAL_SERVER_ERROR,
            AppError::Unauthorized => UNAUTHORIZED,
            AppError::Internal => INTERNAL_SERVER_ERROR,
        }
    }

    /// The text shown to the caller. It depends on the kind of error alone:
    /// every failure of the store is shown in the same words.
    pub open spec fn message_text(&self) -> Seq<char> {
        match self {
            AppError::Database(_) => "Database error"@,
            AppError::Unauthorized => "Unauthorized"@,
            AppError::Internal => "Internal server error"@,
        }
    }

    /// The text written to the log: what the caller is shown and, for a
    /// failure of the store, the store's own description of it.
    pub open spec fn log_text(&self) -> Seq<char> {
        match self {
            AppError::Database(detail) => "Database error: "@ + detail@,
            _ => self.message_text(),
        }
    }

    pub fn status(&self) -> (code: u16)
        ensures
            code == self.status_code(),
    {
        match self {
            AppError::Database(_) => INTERNAL_SERVER_ERROR,
            AppError::Unauthorized => UNAUTHORIZED,
            AppError::Internal => INTERNAL_SERVER_ERROR,
        }
    }

    pub fn message(&self) -> (text: String)
        ensures
            text@ == self.message_text(),
    {
        match self {
            AppError::Database(_) => String::from_str("Database error"),
            AppError::Unauthorized => String::from_str("Unauthorized"),
            AppError::Internal => String::from_str("Internal server error"),
        }
    }

    /// The line to write to the log for this error.
    pub fn log_line(&self) -> (text: String)
        ensures
            text@ == self.log_text(),
    {
        match self {
            AppError::Database(detail) => String::from_str("Database error: ").concat(
                detail.as_str(),
            ),
            AppError::Unauthorized => String::from_str("Unauthorized"),
            AppError::Internal => String::from_str("Internal server error"),
        }
    }

    /// Status code and body of the response that reports this error.
    ///
    /// Two failures of the store give one and the same response.
    pub fn into_response(self) -> (response: (u16, ErrorResponse))
        ensures
            response.0 == self.status_code(),
            response.1.message@ == self.message_text(),
    {
        let code = self.status();
        let message = self.message();
        (code, ErrorResponse { message })
    }
}

/// What the caller is shown depends on the kind of error alone. Two failures
/// of the store are answered alike, whatever the store said of each.
pub proof fn lemma_store_failures_look_alike(one: AppError, other: AppError)
    requires
        one is Database,
        other is Database,
    ensures
        one.message_text() == other.message_text(),
        one.status_code() == other.status_code(),
        one.status_code() == INTERNAL_SERVER_ERROR,
{
}

/// A storage failure is reported with status 500 and a text that names the
/// store's own description of it.
pub fn internal_error(detail: &str) -> (response: (u16, String))
    ensures
        response.0 == INTERNAL_SERVER_ERROR,
        response.1@ == "DB error: "@ + detail@,
{
    (INTERNAL_SERVER_ERROR, String::from_str("DB error: ").concat(detail))
}

} // verus!
