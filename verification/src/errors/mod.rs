pub mod auth_error;
pub mod hash_error;
pub mod jwt_error;

use vstd::prelude::*;
use vstd::string::StringExecFns;

verus! {

/// The write error code by which the storage reports that a unique key is
/// already taken.
pub const DUPLICATE_KEY_CODE: i32 = 11000;

/// What the storage said when an operation failed, as far as the rules here
/// read it.
#[derive(Debug, Clone)]
pub struct StorageError {
    /// The code of the write error, where the failure was a rejected write.
    pub write_code: Option<i32>,
    /// The storage's own account of the failure. It is kept for the server's
    /// log and never shown to a client.
    pub detail: String,
}

impl StorageError {
    /// Whether the storage rejected a write because a unique key is taken.
    pub open spec fn spec_is_duplicate_key(&self) -> bool {
        self.write_code == Some(DUPLICATE_KEY_CODE)
    }

    /// Whether the storage rejected a write because a unique key is taken.
    pub fn is_duplicate_key(&self) -> (r: bool)
        ensures
            r == self.spec_is_duplicate_key(),
    {
        match self.write_code {
            Some(code) => code == DUPLICATE_KEY_CODE,
            None => false,
        }
    }
}

/// Every way in which a request can fail.
#[derive(Debug, Clone)]
pub enum AppErrors {
    /// The storage failed.
    Mongo(StorageError),
    /// A value could not be written in the storage's format. The text is
    /// the serializer's account of it.
    Bson(String),
    Jwt(jwt_error::JWTError),
    Hash(hash_error::HashError),
    Auth(auth_error::AuthError),
    /// A resource identifier that is no identifier at all.
    InvalidUUID,
    /// The named resource does not exist.
    NotFound(String),
}

/// The body of every error answer.
#[derive(Debug, Clone)]
pub struct ErrorResponse {
    /// The kind of the error, a fixed word per kind.
    pub error: String,
    pub message: String,
    pub details: Option<String>,
}

/// An error answer: the status and the body.
#[derive(Debug, Clone)]
pub struct HttpError {
    pub status: u16,
    pub body: ErrorResponse,
}

impl AppErrors {
    /// The status that answers this error.
    pub open spec fn spec_status_code(&self) -> u16 {
        match self {
            AppErrors::Jwt(_) => 401,
            AppErrors::Auth(_) => 401,
            AppErrors::Hash(_) => 500,
            AppErrors::Mongo(e) => if e.spec_is_duplicate_key() {
                409
            } else {
                500
            },
            AppErrors::Bson(_) => 500,
            AppErrors::InvalidUUID => 400,
            AppErrors::NotFound(_) => 404,
        }
    }

    /// The fixed word for the kind of this error.
    pub open spec fn spec_kind(&self) -> Seq<char> {
        match self {
            AppErrors::Jwt(e) => match e {
                jwt_error::JWTError::FailedDecode => "failed_decode"@,
                jwt_error::JWTError::FailedGenerateAccessToken => "failed_generate"@,
                jwt_error::JWTError::FailedGenerateRefreshToken => "failed_generate"@,
                jwt_error::JWTError::FailedGenerateTokens => "failed_generate"@,
                jwt_error::JWTError::InvalidRefreshToken => "invalid_refresh_token"@,
            },
            AppErrors::Auth(e) => match e {
                auth_error::AuthError::AuthFailed => "auth_failed"@,
                auth_error::AuthError::InvalidEmailORPassword => "invalid_credentials"@,
                auth_error::AuthError::Unauthorized => "unauthorized"@,
            },
            AppErrors::Hash(_) => "hash_error"@,
            AppErrors::Mongo(e) => if e.spec_is_duplicate_key() {
                "duplicate_key"@
            } else {
                "database_error"@
            },
            AppErrors::Bson(_) => "serialization_error"@,
            AppErrors::InvalidUUID => "invalid_uuid"@,
            AppErrors::NotFound(_) => "not_found"@,
        }
    }

    /// The sentence shown to the client.
    pub open spec fn spec_client_message(&self) -> Seq<char> {
        match self {
            AppErrors::Jwt(e) => match e {
                jwt_error::JWTError::FailedDecode => "Unable to decode token"@,
                jwt_error::JWTError::FailedGenerateAccessToken => "Failed generate access token"@,
                jwt_error::JWTError::FailedGenerateRefreshToken => "Failed generate refresh token"@,
                jwt_error::JWTError::FailedGenerateTokens => "Failed generate tokens"@,
                jwt_error::JWTError::InvalidRefreshToken => "Invalid refresh token"@,
            },
            AppErrors::Auth(e) => match e {
                auth_error::AuthError::AuthFailed => "Auth failed"@,
                auth_error::AuthError::InvalidEmailORPassword => "Invalid email or password"@,
                auth_error::AuthError::Unauthorized => "No claims found"@,
            },
            AppErrors::Hash(_) => "Password processing error"@,
            AppErrors::Mongo(e) => if e.spec_is_duplicate_key() {
                "Email already exists"@
            } else {
                "Database error"@
            },
            AppErrors::Bson(_) => "Data serialization error"@,
            AppErrors::InvalidUUID => "Invalid UUID format"@,
            AppErrors::NotFound(resource) => resource@ + " not found"@,
        }
    }

    /// What more the client is told. Only a malformed identifier has
    /// anything here: it says what a well-formed one looks like.
    pub open spec fn spec_details(&self) -> Option<Seq<char>> {
        match self {
            AppErrors::InvalidUUID => Some(
                "The UUID must be in the following format: xxxxxxxx-xxxx-xxxx-xxxx-xxxxxxxxxxxx"@,
            ),
            _ => None,
        }
    }

    /// The status that answers this error.
    pub fn status_code(&self) -> (s: u16)
        ensures
            s == self.spec_status_code(),
    {
        match self {
            AppErrors::Jwt(_) => 401,
            AppErrors::Auth(_) => 401,
            AppErrors::Hash(_) => 500,
            AppErrors::Mongo(e) => if e.is_duplicate_key() {
                409
            } else {
                500
            },
            AppErrors::Bson(_) => 500,
            AppErrors::InvalidUUID => 400,
            AppErrors::NotFound(_) => 404,
        }
    }

    /// The fixed word for the kind of this error.
    pub fn kind(&self) -> (r: String)
        ensures
            r@ == self.spec_kind(),
    {
        match self {
            AppErrors::Jwt(e) => match e {
                jwt_error::JWTError::FailedDecode => String::from_str("failed_decode"),
                jwt_error::JWTError::FailedGenerateAccessToken => String::from_str(
                    "failed_generate",
                ),
                jwt_error::JWTError::FailedGenerateRefreshToken => String::from_str(
                    "failed_generate",
                ),
                jwt_error::JWTError::FailedGenerateTokens => String::from_str("failed_generate"),
                jwt_error::JWTError::InvalidRefreshToken => String::from_str(
                    "invalid_refresh_token",
                ),
            },
            AppErrors::Auth(e) => match e {
                auth_error::AuthError::AuthFailed => String::from_str("auth_failed"),
                auth_error::AuthError::InvalidEmailORPassword => String::from_str(
                    "invalid_credentials",
                ),
                auth_error::AuthError::Unauthorized => String::from_str("unauthorized"),
            },
            AppErrors::Hash(_) => String::from_str("hash_error"),
            AppErrors::Mongo(e) => if e.is_duplicate_key() {
                String::from_str("duplicate_key")
            } else {
                String::from_str("database_error")
            },
            AppErrors::Bson(_) => String::from_str("serialization_error"),
            AppErrors::InvalidUUID => String::from_str("invalid_uuid"),
            AppErrors::NotFound(_) => String::from_str("not_found"),
        }
    }

    /// The sentence shown to the client.
    pub fn client_message(&self) -> (r: String)
        ensures
            r@ == self.spec_client_message(),
    {
        match self {
            AppErrors::Jwt(e) => match e {
                jwt_error::JWTError::FailedDecode => String::from_str("Unable to decode token"),
                jwt_error::JWTError::FailedGenerateAccessToken => String::from_str(
                    "Failed generate access token",
                ),
                jwt_error::JWTError::FailedGenerateRefreshToken => String::from_str(
                    "Failed generate refresh token",
                ),
                jwt_error::JWTError::FailedGenerateTokens => String::from_str(
                    "Failed generate tokens",
                ),
                jwt_error::JWTError::InvalidRefreshToken => String::from_str(
                    "Invalid refresh token",
                ),
            },
            AppErrors::Auth(e) => match e {
                auth_error::AuthError::AuthFailed => String::from_str("Auth failed"),
                auth_error::AuthError::InvalidEmailORPassword => String::from_str(
                    "Invalid email or password",
                ),
                auth_error::AuthError::Unauthorized => String::from_str("No claims found"),
            },
            AppErrors::Hash(_) => String::from_str("Password processing error"),
            AppErrors::Mongo(e) => if e.is_duplicate_key() {
                String::from_str("Email already exists")
            } else {
                String::from_str("Database error")
            },
            AppErrors::Bson(_) => String::from_str("Data serialization error"),
            AppErrors::InvalidUUID => String::from_str("Invalid UUID format"),
            AppErrors::NotFound(resource) => resource.clone().concat(" not found"),
        }
    }

    /// How the sentence that describes this error begins. For an error of
    /// the password hasher the hasher's own words may follow; for every
    /// other error this is the whole sentence.
    pub open spec fn spec_message_head(&self) -> Seq<char> {
        match self {
            AppErrors::Mongo(_) => "Database error"@,
            AppErrors::Bson(cause) => "BSON serialization error: "@ + cause@,
            AppErrors::Jwt(e) => e.spec_message(),
            AppErrors::Hash(e) => e.spec_message_head(),
            AppErrors::Auth(e) => e.spec_message(),
            AppErrors::InvalidUUID => "Invalid UUID"@,
            AppErrors::NotFound(resource) => resource@ + " not found"@,
        }
    }

    /// A sentence that describes this error, for logs and messages.
    pub fn message(&self) -> (r: String)
        ensures
            self.spec_message_head().is_prefix_of(r@),
            !(self is Hash) ==> r@ == self.spec_message_head(),
    {
        match self {
            AppErrors::Mongo(_) => String::from_str("Database error"),
            AppErrors::Bson(cause) => String::from_str("BSON serialization error: ").concat(
                cause.as_str(),
            ),
            AppErrors::Jwt(e) => e.message(),
            AppErrors::Hash(e) => e.message(),
            AppErrors::Auth(e) => e.message(),
            AppErrors::InvalidUUID => String::from_str("Invalid UUID"),
            AppErrors::NotFound(resource) => resource.clone().concat(" not found"),
        }
    }

    /// The whole answer to this error. The status is that of
    /// `status_code`, and an answer with status 500 tells the client
    /// nothing beyond the fixed word and sentence of its kind.
    pub fn error_response(&self) -> (r: HttpError)
        ensures
            r.status == self.spec_status_code(),
            r.body.error@ == self.spec_kind(),
            r.body.message@ == self.spec_client_message(),
            match self.spec_details() {
                Some(d) => r.body.details matches Some(t) && t@ == d,
                None => r.body.details is None,
            },
    {
        let details = match self {
            AppErrors::InvalidUUID => Some(
                String::from_str(
                    "The UUID must be in the following format: xxxxxxxx-xxxx-xxxx-xxxx-xxxxxxxxxxxx",
                ),
            ),
            _ => None,
        };
        HttpError {
            status: self.status_code(),
            body: ErrorResponse { error: self.kind(), message: self.client_message(), details },
        }
    }
}

/// Each error has one status, out of five. What is neither the caller's
/// fault nor a conflict is answered with 500 and without details; only a
/// malformed identifier carries details.
pub proof fn lemma_status_taxonomy(e: AppErrors)
    ensures
        e.spec_status_code() == 400 || e.spec_status_code() == 401 || e.spec_status_code() == 404
            || e.spec_status_code() == 409 || e.spec_status_code() == 500,
        (e is Jwt || e is Auth) <==> e.spec_status_code() == 401,
        e is NotFound <==> e.spec_status_code() == 404,
        e is InvalidUUID <==> e.spec_status_code() == 400,
        (e matches AppErrors::Mongo(s) && s.spec_is_duplicate_key()) <==> e.spec_status_code()
            == 409,
        e.spec_status_code() == 500 ==> e.spec_details() is None,
        e.spec_details() is Some <==> e is InvalidUUID,
{
}

} // verus!
