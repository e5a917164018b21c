use vstd::prelude::*;
use crate::resource::DatabaseResource;
use vstd::string::*;

verus! {

/// What can go wrong with an authentication request.
#[derive(Debug, Clone, Copy, PartialEq, Eq, Structural)]
pub enum AuthenticationError {
    UserNotFound,
    InvalidCredentials,
    SessionCreationFailed,
    SessionDeletionFailed,
    SessionUpdateFailed,
    SessionNotFound,
    InvalidToken,
    TokenExpired,
    RegistrationFailed,
}

impl AuthenticationError {
    /// The human-readable message of the error.
    pub open spec fn message(&self) -> Seq<char> {
        match self {
            AuthenticationError::UserNotFound => "User not found"@,
            AuthenticationError::InvalidCredentials => "Invalid credentials"@,
            AuthenticationError::SessionCreationFailed => "Failed to create session"@,
            AuthenticationError::SessionDeletionFailed => "Failed to delete session"@,
            AuthenticationError::SessionUpdateFailed => "Failed to update session"@,
            AuthenticationError::SessionNotFound => "Session not found"@,
            AuthenticationError::InvalidToken => "Invalid token"@,
            AuthenticationError::TokenExpired => "Token expired"@,
            AuthenticationError::RegistrationFailed => "Registration failed"@,
        }
    }

    pub fn to_string(&self) -> (r: String)
        ensures
            r@ == self.message(),
    {
        match self {
            AuthenticationError::UserNotFound => String::from_str("User not found"),
            AuthenticationError::InvalidCredentials => String::from_str("Invalid credentials"),
            AuthenticationError::SessionCreationFailed => String::from_str("Failed to create session"),
            AuthenticationError::SessionDeletionFailed => String::from_str("Failed to delete session"),
            AuthenticationError::SessionUpdateFailed => String::from_str("Failed to update session"),
            AuthenticationError::SessionNotFound => String::from_str("Session not found"),
            AuthenticationError::InvalidToken => String::from_str("Invalid token"),
            AuthenticationError::TokenExpired => String::from_str("Token expired"),
            AuthenticationError::RegistrationFailed => String::from_str("Registration failed"),
        }
    }
}

/// A session: the bearer token of a user and when it expires.
#[derive(Debug, Clone)]
pub struct Authentication {
    pub id: String,
    pub user_id: String,
    pub token: String,
    pub expires_at: Option<i64>,
    pub created_at: Option<i64>,
    pub updated_at: Option<i64>,
    pub archived_at: Option<i64>,
}

impl DatabaseResource for Authentication {
    open spec fn spec_name() -> Seq<char> {
        "Authentication"@
    }

    open spec fn spec_has_id() -> bool {
        true
    }

    open spec fn spec_is_archivable() -> bool {
        false
    }

    open spec fn spec_is_updatable() -> bool {
        true
    }

    open spec fn spec_is_creatable() -> bool {
        true
    }

    open spec fn spec_is_expirable() -> bool {
        true
    }

    fn resource_name() -> (r: String) {
        let r = String::from_str("Authentication");
        proof {
            reveal_strlit("Authentication");
        }
        r
    }

    fn has_id() -> (r: bool) {
        true
    }

    fn is_archivable() -> (r: bool) {
        false
    }

    fn is_updatable() -> (r: bool) {
        true
    }

    fn is_creatable() -> (r: bool) {
        true
    }

    fn is_expirable() -> (r: bool) {
        true
    }
}

} // verus!
