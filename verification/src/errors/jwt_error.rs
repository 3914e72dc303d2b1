use vstd::prelude::*;
use vstd::string::StringExecFns;

verus! {

/// What can go wrong with a token.
#[derive(Debug, Clone, Copy, PartialEq, Eq, Structural)]
pub enum JWTError {
    FailedGenerateTokens,
    FailedGenerateRefreshToken,
    FailedGenerateAccessToken,
    InvalidRefreshToken,
    /// The one answer to every token that does not validate: forged,
    /// malformed and expired tokens are not told apart.
    FailedDecode,
}

impl JWTError {
    pub open spec fn spec_message(self) -> Seq<char> {
        match self {
            JWTError::FailedGenerateTokens => "Failed to generate tokens"@,
            JWTError::FailedGenerateRefreshToken => "Failed to generate refresh tokens"@,
            JWTError::FailedGenerateAccessToken => "Failed to generate access token"@,
            JWTError::InvalidRefreshToken => "Invalid or expired refresh token"@,
            JWTError::FailedDecode => "Failed to decode and validate token"@,
        }
    }

    /// A sentence for logs and messages.
    pub fn message(&self) -> (r: String)
        ensures
            r@ == self.spec_message(),
    {
        match self {
            JWTError::FailedGenerateTokens => String::from_str("Failed to generate tokens"),
            JWTError::FailedGenerateRefreshToken => String::from_str(
                "Failed to generate refresh tokens",
            ),
            JWTError::FailedGenerateAccessToken => String::from_str(
                "Failed to generate access token",
            ),
            JWTError::InvalidRefreshToken => String::from_str("Invalid or expired refresh token"),
            JWTError::FailedDecode => String::from_str("Failed to decode and validate token"),
        }
    }
}

} // verus!
