//! The failures of authentication and authorization, and how each is reported.

use vstd::prelude::*;
use vstd::string::StringExecFns;

verus! {

/// Why a request could not be admitted.
#[derive(Debug, Clone, Copy, PartialEq, Eq, Structural)]
pub enum AuthError {
    /// The request carries no `Authorization` header.
    MissingHeader,
    /// The header does not start with the literal `Bearer `.
    InvalidFormat,
    /// No credential matches the presented key.
    InvalidKey,
    /// The credential lacks the admin capability.
    InsufficientPermissions,
    /// The credential store failed.
    Database,
}

/// A failure reported by the credential store, without its detail.
#[derive(Debug, Clone, Copy, PartialEq, Eq, Structural)]
pub struct StoreError;

/// The HTTP status that answers each error.
pub open spec fn status_of(e: AuthError) -> u16 {
    match e {
        AuthError::MissingHeader => 401,
        AuthError::InvalidFormat => 401,
        AuthError::InvalidKey => 401,
        AuthError::InsufficientPermissions => 403,
        AuthError::Database => 500,
    }
}

/// The human-readable description of each error.
pub open spec fn message_of(e: AuthError) -> Seq<char> {
    match e {
        AuthError::MissingHeader => "Missing Authorization header"@,
        AuthError::InvalidFormat => "Invalid Authorization header format"@,
        AuthError::InvalidKey => "Invalid API key"@,
        AuthError::InsufficientPermissions => "Insufficient permissions"@,
        AuthError::Database => "Database error"@,
    }
}

/// The JSON body sent to the client: `{"error":<message>,"status":<code>}`.
/// A store failure is reported without its detail.
pub open spec fn body_of(e: AuthError) -> Seq<char> {
    match e {
        AuthError::MissingHeader => "{\"error\":\"Missing Authorization header\",\"status\":401}"@,
        AuthError::InvalidFormat =>
            "{\"error\":\"Invalid Authorization header format\",\"status\":401}"@,
        AuthError::InvalidKey => "{\"error\":\"Invalid API key\",\"status\":401}"@,
        AuthError::InsufficientPermissions =>
            "{\"error\":\"Insufficient permissions\",\"status\":403}"@,
        AuthError::Database => "{\"error\":\"Internal server error\",\"status\":500}"@,
    }
}

impl AuthError {
    /// The HTTP status code for this error.
    pub fn status_code(&self) -> (r: u16)
        ensures
            r == status_of(*self),
    {
        match self {
            AuthError::MissingHeader => 401,
            AuthError::InvalidFormat => 401,
            AuthError::InvalidKey => 401,
            AuthError::InsufficientPermissions => 403,
            AuthError::Database => 500,
        }
    }

    /// The description of this error.
    pub fn message(&self) -> (r: String)
        ensures
            r@ == message_of(*self),
    {
        match self {
            AuthError::MissingHeader => String::from_str("Missing Authorization header"),
            AuthError::InvalidFormat => String::from_str("Invalid Authorization header format"),
            AuthError::InvalidKey => String::from_str("Invalid API key"),
            AuthError::InsufficientPermissions => String::from_str("Insufficient permissions"),
            AuthError::Database => String::from_str("Database error"),
        }
    }

    /// The JSON body of the response that reports this error.
    pub fn response_body(&self) -> (r: String)
        ensures
            r@ == body_of(*self),
    {
        match self {
            AuthError::MissingHeader => String::from_str(
                "{\"error\":\"Missing Authorization header\",\"status\":401}",
            ),
            AuthError::InvalidFormat => String::from_str(
                "{\"error\":\"Invalid Authorization header format\",\"status\":401}",
            ),
            AuthError::InvalidKey => String::from_str("{\"error\":\"Invalid API key\",\"status\":401}"),
            AuthError::InsufficientPermissions => String::from_str(
                "{\"error\":\"Insufficient permissions\",\"status\":403}",
            ),
            AuthError::Database => String::from_str(
                "{\"error\":\"Internal server error\",\"status\":500}",
            ),
        }
    }
}

} // verus!
