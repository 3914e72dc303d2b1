use vstd::prelude::*;
use vstd::string::StringExecFns;

use crate::dto::auth::{AuthResponse, LoginDto, RefreshTokenRequest, RegisterDto};
use crate::errors::auth_error::AuthError;
use crate::errors::hash_error::HashError;
use crate::errors::jwt_error::JWTError;
use crate::errors::{AppErrors, StorageError};
use crate::models::role::Role;
use crate::models::user::User;
use crate::utils::hash::{
    hash_password, phc_well_formed, spec_accepts, spec_hash_with, spec_hashed_with, spec_outcome,
    verify_password,
};
use crate::utils::ident::{random_uuid, uuid_parse, uuid_text, write_uuid};
use crate::utils::jwt::{
    generate_access_token, generate_token_pair, spec_claims_in, spec_clock, spec_issued_at,
    spec_issued_for, spec_pair_at, spec_refresh_minutes, spec_token_at, validate_token, Claims,
    ClaimsView, TokenConfig,
};

verus! {

/// `answer` is what a user gets who has just proved who they are: both
/// tokens issued for the user's identifier and role, and what the world
/// may see of the user.
pub open spec fn spec_session_of(answer: AuthResponse, user: User, config: TokenConfig) -> bool {
    &&& user.spec_shown_as(answer.user)
    &&& spec_issued_for(
        answer.access_token@,
        config.spec_key(),
        uuid_text(user._id),
        user.role,
        config.access_minutes as int,
    )
    &&& spec_issued_for(
        answer.refresh_token@,
        config.spec_key(),
        uuid_text(user._id),
        user.role,
        spec_refresh_minutes(config.refresh_days),
    )
}

/// `r` is what opening a session for a user gives, with the access token
/// issued in the second `access_now` and the refresh token in the second
/// `refresh_now`: the two tokens and what the world may see of the user
/// where there are both tokens, and `FailedGenerateTokens` where one is
/// missing.
pub open spec fn spec_session_at(
    r: Result<AuthResponse, AppErrors>,
    config: TokenConfig,
    user: User,
    access_now: i64,
    refresh_now: i64,
) -> bool {
    match (
        spec_token_at(
            config.spec_key(),
            uuid_text(user._id),
            user.role,
            access_now,
            config.access_minutes as int,
        ),
        spec_token_at(
            config.spec_key(),
            uuid_text(user._id),
            user.role,
            refresh_now,
            spec_refresh_minutes(config.refresh_days),
        ),
    ) {
        (Some(access), Some(refresh)) => {
            &&& r matches Ok(answer)
            &&& answer.access_token@ == access
            &&& answer.refresh_token@ == refresh
            &&& spec_session_of(answer, user, config)
        },
        _ => r matches Err(AppErrors::Jwt(JWTError::FailedGenerateTokens)),
    }
}

/// `r` is the account for a registration, with the password hashed under
/// `salt`: the email and the name as sent, the role `User`, and in place
/// of the password the hash, against which the password checks. Where the
/// hasher makes no hash there is no account, and the error is
/// `FailedHash`.
pub open spec fn spec_new_user_with(data: RegisterDto, salt: Seq<char>, r: Result<User, AppErrors>) -> bool {
    match spec_hash_with(data.password@, salt) {
        Some(hash) => {
            &&& r matches Ok(user)
            &&& user.password@ == hash
            &&& user.email@ == data.email@
            &&& user.name@ == data.name@
            &&& user.role == Role::User
            &&& spec_accepts(data.password@, user.password@)
        },
        None => r matches Err(AppErrors::Hash(HashError::FailedHash)),
    }
}

/// The account for a registration: a fresh identifier, the email and the
/// name as sent, the role `User`, and in place of the password a hash of
/// it under a fresh salt, against which the password checks. There is an
/// account exactly where the hasher makes a hash; otherwise the error is
/// `FailedHash`.
pub fn new_user(data: &RegisterDto) -> (r: Result<User, AppErrors>)
    ensures
        exists|salt: Seq<char>| #[trigger] spec_new_user_with(*data, salt, r),
        r matches Ok(user) ==> {
            &&& user.email@ == data.email@
            &&& user.name@ == data.name@
            &&& user.role == Role::User
            &&& spec_accepts(data.password@, user.password@)
        },
        r matches Err(e) ==> e matches AppErrors::Hash(HashError::FailedHash),
{
    let hashed = hash_password(data.password.as_str());
    let ghost hashed_before = hashed;
    let r = match hashed {
        Ok(password) => Ok(
            User {
                _id: random_uuid(),
                email: data.email.clone(),
                name: data.name.clone(),
                password,
                role: Role::User,
            },
        ),
        Err(_) => Err(AppErrors::Hash(HashError::FailedHash)),
    };
    proof {
        let salt = choose|salt: Seq<char>| #[trigger]
            spec_hashed_with(data.password@, salt, hashed_before);
        assert(spec_new_user_with(*data, salt, r));
    }
    r
}

/// Opens a session for a user: issues both tokens, each in the second
/// that the clock shows for it. There is a session exactly where both
/// tokens can be issued; every failure to issue them is
/// `FailedGenerateTokens`.
pub fn open_session(config: &TokenConfig, user: User) -> (r: Result<AuthResponse, AppErrors>)
    ensures
        exists|access_now: i64, refresh_now: i64|
            spec_clock(access_now) && spec_clock(refresh_now) && #[trigger] spec_session_at(
                r,
                *config,
                user,
                access_now,
                refresh_now,
            ),
        r matches Ok(answer) ==> spec_session_of(answer, user, *config),
        r matches Err(e) ==> e matches AppErrors::Jwt(JWTError::FailedGenerateTokens),
{
    let subject = write_uuid(user._id);
    let pair = generate_token_pair(config, subject, user.role);
    let ghost pair_before = pair;
    let r = match pair {
        Ok(tokens) => Ok(
            AuthResponse {
                access_token: tokens.access_token,
                refresh_token: tokens.refresh_token,
                user: user.info(),
            },
        ),
        Err(_) => Err(AppErrors::Jwt(JWTError::FailedGenerateTokens)),
    };
    proof {
        let (access_now, refresh_now) = choose|access_now: i64, refresh_now: i64|
            spec_clock(access_now) && spec_clock(refresh_now) && #[trigger] spec_pair_at(
                pair_before,
                *config,
                uuid_text(user._id),
                user.role,
                access_now,
                refresh_now,
            );
        assert(spec_session_at(r, *config, user, access_now, refresh_now));
    }
    r
}

/// `r` is what completing a registration gives, once the storage has
/// answered the request to store the account. Where the storage refused,
/// its failure is the error. Where it stored the account, a session is
/// opened, with the tokens issued in the seconds `access_now` and
/// `refresh_now`.
pub open spec fn spec_registered_at(
    r: Result<AuthResponse, AppErrors>,
    config: TokenConfig,
    user: User,
    stored: Result<(), StorageError>,
    access_now: i64,
    refresh_now: i64,
) -> bool {
    match stored {
        Err(cause) => r matches Err(AppErrors::Mongo(e)) && e == cause,
        Ok(()) => spec_session_at(r, config, user, access_now, refresh_now),
    }
}

/// Completes a registration, once the storage has answered the request to
/// store the account. Where the storage refused, nobody is registered and
/// its failure is the error: for an email that is taken this is the
/// storage's duplicate key failure, which is answered as a conflict.
/// Where it stored the account, a session is opened.
pub fn register(config: &TokenConfig, user: User, stored: Result<(), StorageError>) -> (r: Result<
    AuthResponse,
    AppErrors,
>)
    ensures
        exists|access_now: i64, refresh_now: i64|
            spec_clock(access_now) && spec_clock(refresh_now) && #[trigger] spec_registered_at(
                r,
                *config,
                user,
                stored,
                access_now,
                refresh_now,
            ),
        r matches Ok(answer) ==> spec_session_of(answer, user, *config),
{
    match stored {
        Ok(()) => {
            let r = open_session(config, user);
            proof {
                let (access_now, refresh_now) = choose|access_now: i64, refresh_now: i64|
                    spec_clock(access_now) && spec_clock(refresh_now) && #[trigger] spec_session_at(
                        r,
                        *config,
                        user,
                        access_now,
                        refresh_now,
                    );
                assert(spec_registered_at(r, *config, user, stored, access_now, refresh_now));
            }
            r
        },
        Err(cause) => {
            let r = Err(AppErrors::Mongo(cause));
            assert(spec_clock(0) && spec_registered_at(r, *config, user, stored, 0, 0));
            r
        },
    }
}

/// `r` is what becomes of a login once the password has been checked
/// against the account's hash. A check that failed is `AuthFailed`; a
/// wrong password is `InvalidEmailORPassword`; the right password opens a
/// session, with the tokens issued in the seconds `access_now` and
/// `refresh_now`.
pub open spec fn spec_login_checked_at(
    r: Result<AuthResponse, AppErrors>,
    config: TokenConfig,
    user: User,
    checked: Result<bool, AppErrors>,
    access_now: i64,
    refresh_now: i64,
) -> bool {
    match checked {
        Err(_) => r matches Err(AppErrors::Auth(AuthError::AuthFailed)),
        Ok(false) => r matches Err(AppErrors::Auth(AuthError::InvalidEmailORPassword)),
        Ok(true) => spec_session_at(r, config, user, access_now, refresh_now),
    }
}

/// What becomes of a login once the password has been checked against the
/// account's hash. A check that failed is `AuthFailed`; a wrong password
/// is `InvalidEmailORPassword`; the right password opens a session.
pub fn login_checked(config: &TokenConfig, user: User, checked: Result<bool, AppErrors>) -> (r:
    Result<AuthResponse, AppErrors>)
    ensures
        exists|access_now: i64, refresh_now: i64|
            spec_clock(access_now) && spec_clock(refresh_now) && #[trigger] spec_login_checked_at(
                r,
                *config,
                user,
                checked,
                access_now,
                refresh_now,
            ),
        r matches Ok(answer) ==> spec_session_of(answer, user, *config),
{
    match checked {
        Ok(true) => {
            let r = open_session(config, user);
            proof {
                let (access_now, refresh_now) = choose|access_now: i64, refresh_now: i64|
                    spec_clock(access_now) && spec_clock(refresh_now) && #[trigger] spec_session_at(
                        r,
                        *config,
                        user,
                        access_now,
                        refresh_now,
                    );
                assert(spec_login_checked_at(r, *config, user, checked, access_now, refresh_now));
            }
            r
        },
        Ok(false) => {
            let r = Err(AppErrors::Auth(AuthError::InvalidEmailORPassword));
            assert(spec_clock(0) && spec_login_checked_at(r, *config, user, checked, 0, 0));
            r
        },
        Err(_) => {
            let r = Err(AppErrors::Auth(AuthError::AuthFailed));
            assert(spec_clock(0) && spec_login_checked_at(r, *config, user, checked, 0, 0));
            r
        },
    }
}

/// `r` is what a login with `password` gives, once the storage has said
/// what it holds under the caller's email. Without an account the error is
/// that no user was found. With one, the password is checked against the
/// account's hash: a hash that is no hash string, or a check that fails,
/// is `AuthFailed`; a wrong password is `InvalidEmailORPassword`; and the
/// password that was hashed opens a session, with the tokens issued in the
/// seconds `access_now` and `refresh_now`.
pub open spec fn spec_logged_in(
    config: TokenConfig,
    password: Seq<char>,
    found: Result<Option<User>, StorageError>,
    access_now: i64,
    refresh_now: i64,
    r: Result<AuthResponse, AppErrors>,
) -> bool {
    match found {
        Err(cause) => r matches Err(AppErrors::Mongo(e)) && e == cause,
        Ok(None) => r matches Err(AppErrors::NotFound(name)) && name@ == "User"@,
        Ok(Some(user)) => if spec_accepts(password, user.password@) {
            spec_session_at(r, config, user, access_now, refresh_now)
        } else if phc_well_formed(user.password@) && spec_outcome(password, user.password@)
            == Some(false) {
            r matches Err(AppErrors::Auth(AuthError::InvalidEmailORPassword))
        } else {
            r matches Err(AppErrors::Auth(AuthError::AuthFailed))
        },
    }
}

/// Logs a caller in, from what the storage found under the caller's
/// email. A session is opened for the password that was hashed into the
/// account, and for no other.
pub fn login(config: &TokenConfig, data: &LoginDto, found: Result<Option<User>, StorageError>) -> (r:
    Result<AuthResponse, AppErrors>)
    ensures
        exists|access_now: i64, refresh_now: i64|
            spec_clock(access_now) && spec_clock(refresh_now) && #[trigger] spec_logged_in(
                *config,
                data.password@,
                found,
                access_now,
                refresh_now,
                r,
            ),
{
    match found {
        Ok(Some(user)) => {
            let checked = verify_password(data.password.as_str(), user.password.as_str());
            let r = login_checked(config, user, checked);
            proof {
                let (access_now, refresh_now) = choose|access_now: i64, refresh_now: i64|
                    spec_clock(access_now) && spec_clock(refresh_now)
                        && #[trigger] spec_login_checked_at(
                        r,
                        *config,
                        user,
                        checked,
                        access_now,
                        refresh_now,
                    );
                assert(spec_logged_in(
                    *config,
                    data.password@,
                    found,
                    access_now,
                    refresh_now,
                    r,
                ));
            }
            r
        },
        Ok(None) => {
            let r = Err(AppErrors::NotFound(String::from_str("User")));
            assert(spec_clock(0) && spec_logged_in(*config, data.password@, found, 0, 0, r));
            r
        },
        Err(cause) => {
            let r = Err(AppErrors::Mongo(cause));
            assert(spec_clock(0) && spec_logged_in(*config, data.password@, found, 0, 0, r));
            r
        },
    }
}

/// `r` is what becomes of a refresh once the refresh token has been
/// checked. A token that did not validate is `InvalidRefreshToken`. For
/// one that did, an access token is issued in the second `now` for the
/// subject and role of its claims.
pub open spec fn spec_refreshed_at(
    r: Result<String, AppErrors>,
    config: TokenConfig,
    validated: Result<Claims, AppErrors>,
    now: i64,
) -> bool {
    match validated {
        Err(_) => r matches Err(AppErrors::Jwt(JWTError::InvalidRefreshToken)),
        Ok(claims) => spec_issued_at(
            r,
            JWTError::FailedGenerateAccessToken,
            config.spec_key(),
            claims.sub@,
            claims.role,
            now,
            config.access_minutes as int,
        ),
    }
}

/// What becomes of a refresh once the refresh token has been checked. A
/// token that did not validate is `InvalidRefreshToken`. For one that did,
/// an access token is issued for the subject and role of its claims.
pub fn refresh_validated(config: &TokenConfig, validated: Result<Claims, AppErrors>) -> (r: Result<
    String,
    AppErrors,
>)
    ensures
        exists|now: i64| spec_clock(now) && #[trigger] spec_refreshed_at(r, *config, validated, now),
        match (validated, r) {
            (Ok(claims), Ok(token)) => spec_issued_for(
                token@,
                config.spec_key(),
                claims.sub@,
                claims.role,
                config.access_minutes as int,
            ),
            _ => true,
        },
{
    match validated {
        Ok(claims) => {
            let r = generate_access_token(config, claims.sub, claims.role);
            proof {
                let now = choose|now: i64|
                    spec_clock(now) && #[trigger] spec_issued_at(
                        r,
                        JWTError::FailedGenerateAccessToken,
                        config.spec_key(),
                        claims.sub@,
                        claims.role,
                        now,
                        config.access_minutes as int,
                    );
                assert(spec_refreshed_at(r, *config, validated, now));
            }
            r
        },
        Err(_) => {
            let r = Err(AppErrors::Jwt(JWTError::InvalidRefreshToken));
            assert(spec_clock(0) && spec_refreshed_at(r, *config, validated, 0));
            r
        },
    }
}

/// `r` is what a refresh gives where the refresh token `token` was not
/// refused: the access token that is issued in the second `now` for the
/// subject and role that the refresh token carries.
pub open spec fn spec_refresh_answer_at(
    r: Result<String, AppErrors>,
    config: TokenConfig,
    token: Seq<char>,
    now: i64,
) -> bool {
    &&& spec_claims_in(token, config.spec_key()) matches Some(claims)
    &&& spec_issued_at(
        r,
        JWTError::FailedGenerateAccessToken,
        config.spec_key(),
        claims.sub,
        claims.role,
        now,
        config.access_minutes as int,
    )
}

/// Issues a new access token for the bearer of a refresh token: for the
/// same subject and the same role. A refresh token that does not validate
/// is `InvalidRefreshToken`; unless that is the answer, the answer is what
/// issuing the access token gives. The refresh token itself stays as it
/// is, and stays good until it expires.
pub fn refresh_token(config: &TokenConfig, data: &RefreshTokenRequest) -> (r: Result<
    String,
    AppErrors,
>)
    ensures
        r matches Err(AppErrors::Jwt(JWTError::InvalidRefreshToken)) || exists|now: i64|
            spec_clock(now) && #[trigger] spec_refresh_answer_at(
                r,
                *config,
                data.refresh_token@,
                now,
            ),
        r matches Ok(token) ==> {
            &&& spec_claims_in(data.refresh_token@, config.spec_key()) matches Some(claims)
            &&& spec_issued_for(
                token@,
                config.spec_key(),
                claims.sub,
                claims.role,
                config.access_minutes as int,
            )
        },
        r matches Err(e) ==> (e matches AppErrors::Jwt(JWTError::InvalidRefreshToken) || e
            matches AppErrors::Jwt(JWTError::FailedGenerateAccessToken)),
{
    let validated = validate_token(config, data.refresh_token.clone());
    let ghost validated_before = validated;
    let r = refresh_validated(config, validated);
    proof {
        if validated_before is Ok {
            let now = choose|now: i64|
                spec_clock(now) && #[trigger] spec_refreshed_at(r, *config, validated_before, now);
            assert(spec_refresh_answer_at(r, *config, data.refresh_token@, now));
        }
    }
    r
}

/// Whoever presents a token of a session is found under the key of the
/// user for whom the session was opened, and has that user's role: the
/// subject of the token is the text of the user's identifier, and the
/// identifier is read back from it.
pub proof fn lemma_session_subject_is_the_user(
    answer: AuthResponse,
    user: User,
    config: TokenConfig,
    claims: ClaimsView,
)
    requires
        spec_session_of(answer, user, config),
        spec_claims_in(answer.access_token@, config.spec_key()) == Some(claims) || spec_claims_in(
            answer.refresh_token@,
            config.spec_key(),
        ) == Some(claims),
    ensures
        uuid_parse(claims.sub) == Some(user._id),
        claims.role == user.role,
{
}

/// A registration that the storage refuses because the email is taken is
/// answered as a conflict, with status 409 and the kind `duplicate_key`;
/// every other refusal of the storage is answered with status 500.
pub proof fn lemma_taken_email_is_a_conflict(refusal: StorageError)
    ensures
        refusal.spec_is_duplicate_key() ==> AppErrors::Mongo(refusal).spec_status_code() == 409
            && AppErrors::Mongo(refusal).spec_kind() == "duplicate_key"@,
        !refusal.spec_is_duplicate_key() ==> AppErrors::Mongo(refusal).spec_status_code() == 500
            && AppErrors::Mongo(refusal).spec_kind() == "database_error"@,
{
}

/// Whoever registered with a password is let in with that password: a
/// login with it against the account that registration made is never
/// answered as a wrong password or a failed check. The answer is the
/// session, and the only thing that can still go wrong is the issuing of
/// the tokens.
pub proof fn lemma_registered_password_logs_in(
    config: TokenConfig,
    password: Seq<char>,
    user: User,
    access_now: i64,
    refresh_now: i64,
    r: Result<AuthResponse, AppErrors>,
)
    requires
        spec_accepts(password, user.password@),
        spec_logged_in(config, password, Ok(Some(user)), access_now, refresh_now, r),
    ensures
        spec_session_at(r, config, user, access_now, refresh_now),
        match r {
            Ok(answer) => spec_session_of(answer, user, config),
            Err(e) => e matches AppErrors::Jwt(JWTError::FailedGenerateTokens),
        },
{
}

} // verus!
