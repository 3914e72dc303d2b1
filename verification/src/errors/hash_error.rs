use vstd::prelude::*;
use vstd::string::StringExecFns;

verus! {

/// The error type of the password hashing crate. Nothing in this library
/// looks inside a value of it.
#[verifier::external_type_specification]
#[verifier::external_body]
pub struct ExPasswordHashError(argon2::password_hash::Error);

/// `Display` of the password hashing crate's error: the sentence that the
/// crate has for it. Nothing is claimed of the sentence.
#[verifier::external_body]
fn hasher_error_text(e: &argon2::password_hash::Error) -> (r: String) {
    format!("{}", e)
}

/// What can go wrong with a password hash.
#[derive(Debug, Clone, Copy, PartialEq, Eq)]
pub enum HashError {
    /// No hash could be computed.
    FailedHash,
    /// The stored hash parsed, but checking a password against it failed
    /// for another reason than a wrong password.
    VerificationError(argon2::password_hash::Error),
    /// The stored hash is no hash string at all.
    FailedParse(argon2::password_hash::Error),
}

impl HashError {
    /// How the sentence for this error begins. For `FailedHash` this is the
    /// whole sentence; for the other two the hashing crate's own sentence
    /// follows.
    pub open spec fn spec_message_head(self) -> Seq<char> {
        match self {
            HashError::FailedHash => "Failed to hash password"@,
            HashError::VerificationError(_) => "Password verification error: "@,
            HashError::FailedParse(_) => "Failed to parse password hash: "@,
        }
    }

    /// A sentence for logs and messages.
    pub fn message(&self) -> (r: String)
        ensures
            self.spec_message_head().is_prefix_of(r@),
            self is FailedHash ==> r@ == self.spec_message_head(),
    {
        match self {
            HashError::FailedHash => String::from_str("Failed to hash password"),
            HashError::VerificationError(e) => {
                let tail = hasher_error_text(e);
                String::from_str("Password verification error: ").concat(tail.as_str())
            },
            HashError::FailedParse(e) => {
                let tail = hasher_error_text(e);
                String::from_str("Failed to parse password hash: ").concat(tail.as_str())
            },
        }
    }
}

} // verus!
