use vstd::prelude::*;

verus! {

/// The closed set of failures that a request can end in.
#[derive(Debug, Clone, Copy, PartialEq, Eq, Structural)]
pub enum ApiError {
    AuthKeyMissing,
    AuthKeyInvalid,
    EmailMissing,
    EmailInvalid,
    VaultMissing,
    VaultInvalid,
    UserExists,
    DatabaseRead,
    DatabaseWrite,
    InternalError,
    UserNoExists,
}

/// The user-facing message of each kind of error.
pub open spec fn message_of(e: ApiError) -> Seq<char> {
    match e {
        ApiError::AuthKeyMissing => "Authentication key missing"@,
        ApiError::AuthKeyInvalid => "Authentication key invalid"@,
        ApiError::EmailMissing => "Email missing"@,
        ApiError::EmailInvalid => "Email invalid"@,
        ApiError::VaultMissing => "Vault missing"@,
        ApiError::VaultInvalid => "Vault invalid"@,
        ApiError::UserExists => "User already exists in database"@,
        ApiError::DatabaseRead => "Failed to read database"@,
        ApiError::DatabaseWrite => "Failed to write to database"@,
        ApiError::InternalError => "Internal server error"@,
        ApiError::UserNoExists => "User does not exist in database"@,
    }
}

/// Every error is reported to the client as a bad request.
pub const BAD_REQUEST: u16 = 400;

impl ApiError {
    /// The message sent back to the client for this error.
    pub fn message(&self) -> (r: String)
        ensures
            r@ == message_of(*self),
    {
        let s: &str = match self {
            ApiError::AuthKeyMissing => "Authentication key missing",
            ApiError::AuthKeyInvalid => "Authentication key invalid",
            ApiError::EmailMissing => "Email missing",
            ApiError::EmailInvalid => "Email invalid",
            ApiError::VaultMissing => "Vault missing",
            ApiError::VaultInvalid => "Vault invalid",
            ApiError::UserExists => "User already exists in database",
            ApiError::DatabaseRead => "Failed to read database",
            ApiError::DatabaseWrite => "Failed to write to database",
            ApiError::InternalError => "Internal server error",
            ApiError::UserNoExists => "User does not exist in database",
        };
        s.to_owned()
    }

    /// The transport status of this error: always a bad request.
    pub fn status(&self) -> (r: u16)
        ensures
            r == BAD_REQUEST,
    {
        BAD_REQUEST
    }
}

} // verus!
