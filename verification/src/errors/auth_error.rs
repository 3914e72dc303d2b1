use vstd::prelude::*;
use vstd::string::StringExecFns;

verus! {

/// Why a caller was not let in.
#[derive(Debug, Clone, Copy, PartialEq, Eq, Structural)]
pub enum AuthError {
    /// The stored credentials could not be checked at all.
    AuthFailed,
    /// The password does not belong to the account.
    InvalidEmailORPassword,
    /// The request carries no identity.
    Unauthorized,
}

impl AuthError {
    pub open spec fn spec_message(self) -> Seq<char> {
        match self {
            AuthError::AuthFailed => "Authentication failed"@,
            AuthError::InvalidEmailORPassword => "Invalid email or password"@,
            AuthError::Unauthorized => "Unauthorized"@,
        }
    }

    /// A sentence for logs and messages.
    pub fn message(&self) -> (r: String)
        ensures
            r@ == self.spec_message(),
    {
        match self {
            AuthError::AuthFailed => String::from_str("Authentication failed"),
            AuthError::InvalidEmailORPassword => String::from_str("Invalid email or password"),
            AuthError::Unauthorized => String::from_str("Unauthorized"),
        }
    }
}

} // verus!
