use vstd::prelude::*;

verus! {

/// Every way in which authentication, authorization or issuance can fail.
#[derive(Debug, Clone, Copy, PartialEq, Eq, Structural)]
pub enum AuthError {
    /// The request carries no `Authorization: Bearer <token>` header.
    MissingToken,
    /// Bad signature, malformed token or expired claims; not told apart.
    InvalidToken,
    /// The claims' role differs from the role that the route requires.
    Forbidden,
    /// An identity with the same email already exists.
    DuplicateIdentity,
    /// Unknown email or wrong password; not told apart.
    InvalidCredentials,
    /// No claims were attached to the request: the route lacks the guard.
    MissingContext,
    /// The claims' subject is not an identifier of the store.
    MalformedSubject,
    /// The identity named by the claims no longer exists.
    IdentityNotFound,
    /// The identity store failed.
    StoreError,
    /// Hashing or verifying a password failed.
    HashingFailure,
    /// A token could not be produced.
    EncodingFailure,
}

impl AuthError {
    /// A short description of the error, fit for a response body.
    pub fn message(&self) -> (r: &'static str) {
        match self {
            AuthError::MissingToken => "No token provided",
            AuthError::InvalidToken => "Invalid token",
            AuthError::Forbidden => "Insufficient permissions",
            AuthError::DuplicateIdentity => "User with this email already exists",
            AuthError::InvalidCredentials => "Invalid email or password",
            AuthError::MissingContext => "User not found in request",
            AuthError::MalformedSubject => "Invalid user ID",
            AuthError::IdentityNotFound => "User not found",
            AuthError::StoreError => "Database error",
            AuthError::HashingFailure => "Password hashing error",
            AuthError::EncodingFailure => "JWT encoding error",
        }
    }
}

} // verus!
