use vstd::prelude::*;

verus! {

/// The typed failures a store or workflow operation can report. Every one of
/// them is surfaced to the caller as a value; none is raised as a fault.
#[derive(Clone, Copy, Debug, PartialEq, Eq, Structural)]
pub enum StoreError {
    /// No record with the requested id or business key.
    NotFound,
    /// An identity string that is not a decimal number within range.
    MalformedId,
    /// The user named by a booking or login request does not exist.
    UserNotFound,
    /// Login found the user but the password does not match the stored hash.
    InvalidCredentials,
    /// The password hashing primitive reported a failure.
    HashFailure,
    /// The stored hash could not be checked against the given password.
    VerifyFailure,
    /// The token issuer reported a failure.
    TokenFailure,
}

impl StoreError {
    /// A human-readable description, for the response envelope's error field.
    pub fn describe(&self) -> (r: String)
        ensures
            r@ == self.spec_describe(),
            r@.len() > 0,
    {
        proof {
            reveal_strlit("record not found");
            reveal_strlit("malformed id");
            reveal_strlit("User not found");
            reveal_strlit("Invalid password");
            reveal_strlit("Error in hashing password");
            reveal_strlit("Error verifying password");
            reveal_strlit("Error generating token");
        }
        match self {
            StoreError::NotFound => "record not found".to_owned(),
            StoreError::MalformedId => "malformed id".to_owned(),
            StoreError::UserNotFound => "User not found".to_owned(),
            StoreError::InvalidCredentials => "Invalid password".to_owned(),
            StoreError::HashFailure => "Error in hashing password".to_owned(),
            StoreError::VerifyFailure => "Error verifying password".to_owned(),
            StoreError::TokenFailure => "Error generating token".to_owned(),
        }
    }

    /// What `describe` returns for each variant.
    pub open spec fn spec_describe(&self) -> Seq<char> {
        match self {
            StoreError::NotFound => "record not found"@,
            StoreError::MalformedId => "malformed id"@,
            StoreError::UserNotFound => "User not found"@,
            StoreError::InvalidCredentials => "Invalid password"@,
            StoreError::HashFailure => "Error in hashing password"@,
            StoreError::VerifyFailure => "Error verifying password"@,
            StoreError::TokenFailure => "Error generating token"@,
        }
    }
}

} // verus!
