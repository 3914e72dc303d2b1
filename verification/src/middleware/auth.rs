use vstd::prelude::*;
use vstd::string::{StrSliceExecFns, StringExecFns};

use crate::errors::auth_error::AuthError;
use crate::errors::jwt_error::JWTError;
use crate::errors::{AppErrors, ErrorResponse, HttpError};
use crate::middleware::permissions::{spec_is_forbidden, PermissionCheck};
use crate::utils::jwt::{spec_claims_in, validate_token, Claims, TokenConfig};
use crate::utils::text::same_text;

verus! {

/// The token in an authorization header: what follows `Bearer ` and one
/// space. There is none where the header is missing or begins otherwise.
pub open spec fn spec_bearer_token(header: Option<Seq<char>>) -> Option<Seq<char>> {
    match header {
        Some(value) => if "Bearer "@.is_prefix_of(value) {
            Some(value.skip(7))
        } else {
            None
        },
        None => None,
    }
}

/// The answer to a request without a bearer token.
pub open spec fn spec_is_missing_token(answer: HttpError) -> bool {
    &&& answer.status == 401
    &&& answer.body.error@ == "missing_token"@
    &&& answer.body.message@ == "Missing or invalid Authorization header"@
    &&& answer.body.details is None
}

/// The answer to a request whose bearer token does not validate. It is the
/// same for a forged, a malformed and an expired token.
pub open spec fn spec_is_invalid_token(answer: HttpError) -> bool {
    &&& answer.status == 401
    &&& answer.body.error@ == "invalid_token"@
    &&& answer.body.message@ == "Invalid token: "@ + JWTError::FailedDecode.spec_message()
    &&& answer.body.details is None
}

/// What became of a request at the door.
#[derive(Debug, Clone)]
pub enum AuthOutcome {
    /// The request carries a valid token, and these are its claims. They
    /// belong to this request alone.
    Authenticated(Claims),
    /// The request is turned away with this answer.
    Rejected(HttpError),
}

/// The token in an authorization header: what follows `Bearer ` and one
/// space. There is none where the header is missing or begins otherwise.
pub fn bearer_token<'a>(header: Option<&'a str>) -> (r: Option<&'a str>)
    ensures
        match spec_bearer_token(
            match header {
                Some(value) => Some(value@),
                None => None,
            },
        ) {
            Some(token) => r matches Some(t) && t@ == token,
            None => r is None,
        },
{
    proof {
        reveal_strlit("Bearer ");
    }
    match header {
        Some(value) => {
            let length = value.unicode_len();
            if length < 7 {
                None
            } else {
                let head = value.substring_char(0, 7);
                if same_text(head, "Bearer ") {
                    assert(value@.subrange(0, 7) == "Bearer "@);
                    Some(value.substring_char(7, length))
                } else {
                    None
                }
            }
        },
        None => None,
    }
}

/// The answer to a request without a bearer token.
pub fn missing_token() -> (answer: HttpError)
    ensures
        spec_is_missing_token(answer),
{
    HttpError {
        status: 401,
        body: ErrorResponse {
            error: String::from_str("missing_token"),
            message: String::from_str("Missing or invalid Authorization header"),
            details: None,
        },
    }
}

/// The answer to a request whose bearer token failed with `cause`.
pub fn invalid_token(cause: &AppErrors) -> (answer: HttpError)
    ensures
        answer.status == 401,
        answer.body.error@ == "invalid_token"@,
        ("Invalid token: "@ + cause.spec_message_head()).is_prefix_of(answer.body.message@),
        !(cause is Hash) ==> answer.body.message@ == "Invalid token: "@
            + cause.spec_message_head(),
        answer.body.details is None,
{
    let said = cause.message();
    let message = String::from_str("Invalid token: ").concat(said.as_str());
    HttpError {
        status: 401,
        body: ErrorResponse { error: String::from_str("invalid_token"), message, details: None },
    }
}

/// What becomes of a request once its token has been checked: with claims
/// it is let in, and with an error it is turned away as one with an
/// invalid token.
pub fn outcome_of(validated: Result<Claims, AppErrors>) -> (r: AuthOutcome)
    ensures
        match validated {
            Ok(claims) => r matches AuthOutcome::Authenticated(c) && c@ == claims@,
            Err(cause) => r matches AuthOutcome::Rejected(answer) && answer.status == 401
                && answer.body.error@ == "invalid_token"@ && (!(cause is Hash)
                ==> answer.body.message@ == "Invalid token: "@ + cause.spec_message_head())
                && answer.body.details is None,
        },
{
    match validated {
        Ok(claims) => AuthOutcome::Authenticated(claims),
        Err(cause) => AuthOutcome::Rejected(invalid_token(&cause)),
    }
}

/// The identity that a handler works for: the claims that came with the
/// request. A request that reached a handler without any is refused as
/// unauthorized.
pub fn identity(attached: Option<Claims>) -> (r: Result<Claims, AppErrors>)
    ensures
        match attached {
            Some(claims) => r == Ok::<Claims, AppErrors>(claims),
            None => r matches Err(AppErrors::Auth(AuthError::Unauthorized)),
        },
{
    match attached {
        Some(claims) => Ok(claims),
        None => Err(AppErrors::Auth(AuthError::Unauthorized)),
    }
}

/// The door: it lets in the requests that carry a valid bearer token.
#[derive(Clone)]
pub struct JwtMiddleware {
    pub config: TokenConfig,
}

impl JwtMiddleware {
    pub fn new(config: TokenConfig) -> (door: JwtMiddleware)
        ensures
            door.config == config,
    {
        JwtMiddleware { config }
    }

    /// Decides on a request by its authorization header, if it has one.
    /// Without a bearer token the request is turned away as one with a
    /// missing token, and the token crate is not asked. With one, the
    /// request is let in with the claims that the token carries, or turned
    /// away as one with an invalid token.
    pub fn authenticate(&self, authorization: Option<&str>) -> (r: AuthOutcome)
        ensures
            match spec_bearer_token(
                match authorization {
                    Some(value) => Some(value@),
                    None => None,
                },
            ) {
                None => r matches AuthOutcome::Rejected(answer) && spec_is_missing_token(answer),
                Some(token) => match r {
                    AuthOutcome::Authenticated(claims) => spec_claims_in(
                        token,
                        self.config.spec_key(),
                    ) == Some(claims@),
                    AuthOutcome::Rejected(answer) => spec_is_invalid_token(answer),
                },
            },
    {
        match bearer_token(authorization) {
            Some(token) => outcome_of(validate_token(&self.config, String::from_str(token))),
            None => AuthOutcome::Rejected(missing_token()),
        }
    }

    /// Decides on a request that has to pass the door and then, where the
    /// route has one, a guard. The guard sees the role of the claims that
    /// the door found. A request that the door turns away never reaches
    /// the guard.
    pub fn authorize(&self, guard: Option<&PermissionCheck>, authorization: Option<&str>) -> (r:
        AuthOutcome)
        ensures
            match spec_bearer_token(
                match authorization {
                    Some(value) => Some(value@),
                    None => None,
                },
            ) {
                None => r matches AuthOutcome::Rejected(answer) && spec_is_missing_token(answer),
                Some(token) => match r {
                    AuthOutcome::Authenticated(claims) => {
                        &&& spec_claims_in(token, self.config.spec_key()) == Some(claims@)
                        &&& guard matches Some(g) ==> claims.role == g.spec_required_role()
                    },
                    AuthOutcome::Rejected(answer) => {
                        ||| spec_is_invalid_token(answer)
                        ||| {
                            &&& guard matches Some(g)
                            &&& spec_is_forbidden(answer, g.spec_required_role())
                            &&& spec_claims_in(token, self.config.spec_key()) matches Some(c)
                            &&& c.role != g.spec_required_role()
                        }
                    },
                },
            },
    {
        match self.authenticate(authorization) {
            AuthOutcome::Authenticated(claims) => match guard {
                Some(g) => match g.check(Some(claims.role)) {
                    Ok(()) => AuthOutcome::Authenticated(claims),
                    Err(answer) => AuthOutcome::Rejected(answer),
                },
                None => AuthOutcome::Authenticated(claims),
            },
            AuthOutcome::Rejected(answer) => AuthOutcome::Rejected(answer),
        }
    }
}

/// A request without a token and a request with a bad token are told
/// apart by the kind of the answer, though both are answered with 401.
pub proof fn lemma_missing_is_not_invalid(missing: HttpError, invalid: HttpError)
    requires
        spec_is_missing_token(missing),
        spec_is_invalid_token(invalid),
    ensures
        missing.status == invalid.status,
        missing.body.error@ != invalid.body.error@,
{
    reveal_strlit("missing_token");
    reveal_strlit("invalid_token");
    assert("missing_token"@[0] != "invalid_token"@[0]);
}

} // verus!
