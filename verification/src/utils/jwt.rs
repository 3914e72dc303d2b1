use vstd::prelude::*;
use vstd::string::StringExecFns;
use vstd::utf8::encode_utf8;

use crate::errors::jwt_error::JWTError;
use crate::errors::AppErrors;
use crate::models::role::{lemma_role_name_round_trip, Role};
use crate::utils::number::{parse_i64, spec_i64_from_text};

verus! {

/// The secret that signs tokens where none is configured. It is public
/// knowledge: a deployment sets its own.
pub const DEFAULT_SECRET: &'static str = "development-secret-key-change-in-production";

/// The lifetime of an access token, in minutes, where none is configured.
pub const DEFAULT_ACCESS_MINUTES: i64 = 60;

/// The lifetime of a refresh token, in days, where none is configured.
pub const DEFAULT_REFRESH_DAYS: i64 = 30;

/// The longest lifetime, in minutes, forwards or backwards, that
/// `Claims::new` takes.
pub const MAX_DURATION_MINUTES: i64 = 153_722_867_280_912;

/// For how many seconds after its expiry a token is still accepted: none.
/// A token is good until it expires, and not a second longer.
pub const EXPIRY_LEEWAY_SECONDS: u64 = 0;

/// No reading of the clock is as far from 1970 as this many seconds.
pub const CLOCK_BOUND: i64 = 0x1_0000_0000_0000;

/// The error type of the token crate. Nothing in this library looks inside
/// a value of it.
#[verifier::external_type_specification]
#[verifier::external_body]
pub struct ExJwtError(jsonwebtoken::errors::Error);

/// What a token says of its bearer.
#[derive(Debug, Clone)]
pub struct Claims {
    /// The subject: the bearer's user id.
    pub sub: String,
    pub role: Role,
    /// The second after which the token is expired, counted from 1970.
    pub exp: i64,
    /// The second in which the token was issued, counted from 1970.
    pub iat: i64,
}

/// `Claims`, with the subject as a sequence of characters.
pub ghost struct ClaimsView {
    pub sub: Seq<char>,
    pub role: Role,
    pub exp: i64,
    pub iat: i64,
}

impl View for Claims {
    type V = ClaimsView;

    open spec fn view(&self) -> ClaimsView {
        ClaimsView { sub: self.sub@, role: self.role, exp: self.exp, iat: self.iat }
    }
}

/// The four fields that this library reads in the payload of a token, each
/// as the payload has it: absent where the payload lacks the field or holds
/// a value of another kind there.
#[derive(Debug, Clone)]
pub struct RawClaims {
    pub sub: Option<String>,
    pub role: Option<String>,
    pub exp: Option<i64>,
    pub iat: Option<i64>,
}

/// `RawClaims`, with texts as sequences of characters.
pub ghost struct RawClaimsView {
    pub sub: Option<Seq<char>>,
    pub role: Option<Seq<char>>,
    pub exp: Option<i64>,
    pub iat: Option<i64>,
}

impl View for RawClaims {
    type V = RawClaimsView;

    open spec fn view(&self) -> RawClaimsView {
        RawClaimsView {
            sub: match self.sub {
                Some(s) => Some(s@),
                None => None,
            },
            role: match self.role {
                Some(s) => Some(s@),
                None => None,
            },
            exp: self.exp,
            iat: self.iat,
        }
    }
}

/// An access token and a refresh token for one bearer.
#[derive(Debug, Clone)]
pub struct TokenPair {
    pub access_token: String,
    pub refresh_token: String,
}

/// What `jsonwebtoken::decode` reads from a token under a secret, the
/// clock left aside: the payload fields of a token whose signature is the
/// one that the secret gives, and `None` for every other text.
pub uninterp spec fn jwt_reading(token: Seq<char>, secret: Seq<u8>) -> Option<RawClaimsView>;

/// The token that `jsonwebtoken::encode` makes with the default header
/// (HS256) for a payload of these four fields under a secret; `None` where
/// it makes none.
pub uninterp spec fn jwt_signed(
    sub: Seq<char>,
    role: Seq<char>,
    exp: i64,
    iat: i64,
    secret: Seq<u8>,
) -> Option<Seq<char>>;

/// The fields of claims as they are written into a payload.
pub open spec fn spec_raw_of(claims: ClaimsView) -> RawClaimsView {
    RawClaimsView {
        sub: Some(claims.sub),
        role: Some(claims.role.spec_name()),
        exp: Some(claims.exp),
        iat: Some(claims.iat),
    }
}

/// The claims that payload fields stand for: all four fields are there, and
/// the role is one that exists.
pub open spec fn spec_claims_of(raw: RawClaimsView) -> Option<ClaimsView> {
    if raw.sub is Some && raw.role is Some && raw.exp is Some && raw.iat is Some
        && Role::spec_from_name(raw.role->0) is Some {
        Some(
            ClaimsView {
                sub: raw.sub->0,
                role: Role::spec_from_name(raw.role->0)->0,
                exp: raw.exp->0,
                iat: raw.iat->0,
            },
        )
    } else {
        None
    }
}

/// The claims that a token carries under a secret: those of its payload,
/// where the token is signed with the secret and the payload holds claims.
/// Whether the token is expired plays no part.
pub open spec fn spec_claims_in(token: Seq<char>, secret: Seq<u8>) -> Option<ClaimsView> {
    match jwt_reading(token, secret) {
        Some(raw) => spec_claims_of(raw),
        None => None,
    }
}

/// Whether a lifetime in minutes, added to a second of issue, gives a
/// second of expiry that an `i64` holds.
pub open spec fn spec_expiry_fits(issued_at: i64, duration_minutes: i64) -> bool {
    i64::MIN <= issued_at + 60 * duration_minutes <= i64::MAX
}

/// Whether a lifetime in minutes is so long, forwards or backwards, that
/// there is no reading of the clock at which it gives a second of expiry
/// that an `i64` holds.
pub open spec fn spec_never_fits(duration_minutes: int) -> bool {
    60 * duration_minutes >= i64::MAX + CLOCK_BOUND || 60 * duration_minutes <= i64::MIN
        - CLOCK_BOUND
}

/// `token` is signed with `secret` and carries claims for this subject and
/// role, with this lifetime.
pub open spec fn spec_issued_for(
    token: Seq<char>,
    secret: Seq<u8>,
    sub: Seq<char>,
    role: Role,
    duration_minutes: int,
) -> bool {
    &&& spec_claims_in(token, secret) matches Some(c)
    &&& c.sub == sub
    &&& c.role == role
    &&& c.exp == c.iat + 60 * duration_minutes
}

/// Whether a number of seconds can be a reading of the clock.
pub open spec fn spec_clock(now: i64) -> bool {
    -CLOCK_BOUND < now < CLOCK_BOUND
}

/// The token that signing makes for claims under a secret, if it makes
/// one.
pub open spec fn spec_token_for(claims: ClaimsView, secret: Seq<u8>) -> Option<Seq<char>> {
    jwt_signed(claims.sub, claims.role.spec_name(), claims.exp, claims.iat, secret)
}

/// The claims for a subject and a role that are issued in the second
/// `now` with a lifetime in minutes; none where the second of expiry is
/// beyond what an `i64` holds.
pub open spec fn spec_claims_at(sub: Seq<char>, role: Role, now: i64, duration_minutes: int) -> Option<
    ClaimsView,
> {
    if i64::MIN <= now + 60 * duration_minutes <= i64::MAX {
        Some(ClaimsView { sub, role, exp: (now + 60 * duration_minutes) as i64, iat: now })
    } else {
        None
    }
}

/// The token for a subject and a role that is issued in the second `now`
/// with a lifetime in minutes under a secret; none where there are no such
/// claims, or where signing makes no token for them.
pub open spec fn spec_token_at(
    secret: Seq<u8>,
    sub: Seq<char>,
    role: Role,
    now: i64,
    duration_minutes: int,
) -> Option<Seq<char>> {
    match spec_claims_at(sub, role, now, duration_minutes) {
        Some(claims) => spec_token_for(claims, secret),
        None => None,
    }
}

/// `r` is what issuing a token in the second `now` gives: the token where
/// there is one, and the error `failure` where there is none.
pub open spec fn spec_issued_at(
    r: Result<String, AppErrors>,
    failure: JWTError,
    secret: Seq<u8>,
    sub: Seq<char>,
    role: Role,
    now: i64,
    duration_minutes: int,
) -> bool {
    match spec_token_at(secret, sub, role, now, duration_minutes) {
        Some(text) => r matches Ok(token) && token@ == text,
        None => r matches Err(AppErrors::Jwt(e)) && e == failure,
    }
}

/// `chrono::Utc::now().timestamp()`: the current second, counted from 1970.
/// The clock decides what it is. The time crate builds every reading from a
/// number of days that fits in 32 bits, so no reading is `CLOCK_BOUND`
/// seconds or more away from 1970.
#[verifier::external_body]
fn unix_now() -> (t: i64)
    ensures
        -CLOCK_BOUND < t < CLOCK_BOUND,
{
    chrono::Utc::now().timestamp()
}

/// `jsonwebtoken::encode` with the default header (HS256), for a payload of
/// the four fields `sub`, `role`, `exp` and `iat`, signed with `secret`.
/// Whether a token comes out, and which, depends on the four fields and
/// the secret alone. Of a token that comes out, the contract says that
/// under the same secret it reads back as the four fields given.
#[verifier::external_body]
fn sign_hs256(sub: &str, role: &str, exp: i64, iat: i64, secret: &[u8]) -> (r: Result<
    String,
    jsonwebtoken::errors::Error,
>)
    ensures
        match r {
            Ok(token) => jwt_signed(sub@, role@, exp, iat, secret@) == Some(token@),
            Err(_) => jwt_signed(sub@, role@, exp, iat, secret@) is None,
        },
        r matches Ok(token) ==> jwt_reading(token@, secret@) == Some(
            RawClaimsView { sub: Some(sub@), role: Some(role@), exp: Some(exp), iat: Some(iat) },
        ),
{
    let mut payload = serde_json::Map::new();
    payload.insert(String::from("sub"), serde_json::Value::from(sub));
    payload.insert(String::from("role"), serde_json::Value::from(role));
    payload.insert(String::from("exp"), serde_json::Value::from(exp));
    payload.insert(String::from("iat"), serde_json::Value::from(iat));
    let key = jsonwebtoken::EncodingKey::from_secret(secret);
    jsonwebtoken::encode(&jsonwebtoken::Header::default(), &payload, &key)
}

/// `jsonwebtoken::decode` for HS256 with the crate's default validation
/// and the leeway given: the signature must be that of `secret`, and the
/// token must carry an expiry that the clock has not passed by more than
/// `leeway` seconds. The token crate subtracts the leeway from the clock's
/// reading, so the only leeway taken is the library's own, which is none.
/// Whether the token is accepted depends on the clock, so nothing is said
/// of that. Of a token that is accepted, the contract says that it is
/// signed with the secret, and that the fields handed back are those of
/// its payload.
#[verifier::external_body]
fn decode_hs256(token: &str, secret: &[u8], leeway: u64) -> (r: Result<
    RawClaims,
    jsonwebtoken::errors::Error,
>)
    requires
        leeway == EXPIRY_LEEWAY_SECONDS,
    ensures
        r matches Ok(raw) ==> jwt_reading(token@, secret@) == Some(raw@),
{
    let key = jsonwebtoken::DecodingKey::from_secret(secret);
    let mut rules = jsonwebtoken::Validation::new(jsonwebtoken::Algorithm::HS256);
    rules.leeway = leeway;
    let data = jsonwebtoken::decode::<serde_json::Value>(token, &key, &rules)?;
    Ok(
        RawClaims {
            sub: data.claims.get("sub").and_then(serde_json::Value::as_str).map(String::from),
            role: data.claims.get("role").and_then(serde_json::Value::as_str).map(String::from),
            exp: data.claims.get("exp").and_then(serde_json::Value::as_i64),
            iat: data.claims.get("iat").and_then(serde_json::Value::as_i64),
        },
    )
}

impl Claims {
    /// Claims issued in the second `issued_at` that expire `duration_minutes`
    /// later; earlier, where the lifetime is negative. There are none where
    /// the second of expiry is beyond what an `i64` holds.
    pub fn issued_at(user_id: String, role: Role, issued_at: i64, duration_minutes: i64) -> (r:
        Option<Claims>)
        ensures
            r is Some <==> spec_expiry_fits(issued_at, duration_minutes),
            r matches Some(c) ==> c@ == (ClaimsView {
                sub: user_id@,
                role,
                exp: (issued_at + 60 * duration_minutes) as i64,
                iat: issued_at,
            }),
    {
        let exp: i128 = issued_at as i128 + 60 * (duration_minutes as i128);
        if exp < i64::MIN as i128 || exp > i64::MAX as i128 {
            None
        } else {
            Some(Claims { sub: user_id, role, exp: exp as i64, iat: issued_at })
        }
    }

    /// Claims issued now that expire `duration_minutes` from now; a negative
    /// lifetime gives claims that are expired already.
    pub fn new(user_id: String, duration_minutes: i64, role: Role) -> (c: Claims)
        requires
            -MAX_DURATION_MINUTES <= duration_minutes <= MAX_DURATION_MINUTES,
        ensures
            c.sub@ == user_id@,
            c.role == role,
            c.exp == c.iat + 60 * duration_minutes,
            -CLOCK_BOUND < c.iat < CLOCK_BOUND,
    {
        let now = unix_now();
        Claims { sub: user_id, role, exp: now + 60 * duration_minutes, iat: now }
    }
}

/// The secret and the two lifetimes with which tokens are issued and
/// checked. It cannot be printed: the secret stays out of logs.
#[derive(Clone)]
pub struct TokenConfig {
    pub secret: String,
    pub access_minutes: i64,
    pub refresh_days: i64,
}

/// The lifetime of a refresh token in minutes, for a lifetime in days.
pub open spec fn spec_refresh_minutes(refresh_days: i64) -> int {
    refresh_days * 24 * 60
}

impl TokenConfig {
    /// The secret as the bytes that sign: the text in UTF-8.
    pub open spec fn spec_key(&self) -> Seq<u8> {
        encode_utf8(self.secret@)
    }

    pub fn new(secret: String, access_minutes: i64, refresh_days: i64) -> (r: TokenConfig)
        ensures
            r.secret@ == secret@,
            r.access_minutes == access_minutes,
            r.refresh_days == refresh_days,
    {
        TokenConfig { secret, access_minutes, refresh_days }
    }

    /// The configuration for settings of which some may be missing: each
    /// missing one takes its default.
    pub fn from_parsed(
        secret: Option<String>,
        access_minutes: Option<i64>,
        refresh_days: Option<i64>,
    ) -> (r: TokenConfig)
        ensures
            r.secret@ == (match secret {
                Some(s) => s@,
                None => DEFAULT_SECRET@,
            }),
            r.access_minutes == (match access_minutes {
                Some(m) => m,
                None => DEFAULT_ACCESS_MINUTES,
            }),
            r.refresh_days == (match refresh_days {
                Some(d) => d,
                None => DEFAULT_REFRESH_DAYS,
            }),
    {
        TokenConfig {
            secret: match secret {
                Some(s) => s,
                None => String::from_str(DEFAULT_SECRET),
            },
            access_minutes: match access_minutes {
                Some(m) => m,
                None => DEFAULT_ACCESS_MINUTES,
            },
            refresh_days: match refresh_days {
                Some(d) => d,
                None => DEFAULT_REFRESH_DAYS,
            },
        }
    }

    /// The configuration for settings as they are written down: the two
    /// lifetimes are texts. A lifetime that is missing, or whose text is
    /// no number, takes its default, and so does a missing secret.
    pub fn from_settings(
        secret: Option<String>,
        access_minutes: Option<&str>,
        refresh_days: Option<&str>,
    ) -> (r: TokenConfig)
        ensures
            r.secret@ == (match secret {
                Some(s) => s@,
                None => DEFAULT_SECRET@,
            }),
            r.access_minutes == (match access_minutes {
                Some(text) if spec_i64_from_text(text@) is Some => spec_i64_from_text(text@)->0,
                _ => DEFAULT_ACCESS_MINUTES,
            }),
            r.refresh_days == (match refresh_days {
                Some(text) if spec_i64_from_text(text@) is Some => spec_i64_from_text(text@)->0,
                _ => DEFAULT_REFRESH_DAYS,
            }),
    {
        let access = match access_minutes {
            Some(text) => parse_i64(text),
            None => None,
        };
        let refresh = match refresh_days {
            Some(text) => parse_i64(text),
            None => None,
        };
        TokenConfig::from_parsed(secret, access, refresh)
    }
}

impl Default for TokenConfig {
    fn default() -> (r: TokenConfig)
        ensures
            r.secret@ == DEFAULT_SECRET@,
            r.access_minutes == DEFAULT_ACCESS_MINUTES,
            r.refresh_days == DEFAULT_REFRESH_DAYS,
    {
        TokenConfig::from_parsed(None, None, None)
    }
}

/// Reads claims from payload fields. There are claims exactly where all
/// four fields are present and the role is one that exists.
pub fn claims_from_raw(raw: RawClaims) -> (r: Option<Claims>)
    ensures
        match spec_claims_of(raw@) {
            Some(c) => r matches Some(claims) && claims@ == c,
            None => r is None,
        },
{
    let RawClaims { sub, role, exp, iat } = raw;
    match (sub, role, exp, iat) {
        (Some(sub), Some(role), Some(exp), Some(iat)) => match Role::from_name(role.as_str()) {
            Some(role) => Some(Claims { sub, role, exp, iat }),
            None => None,
        },
        _ => None,
    }
}

/// What becomes of a decoded token. A token that the token crate refused,
/// for whatever reason, and one whose payload does not hold claims get the
/// same error: a caller cannot tell an expired token from a forged one.
pub fn claims_from_decoded(decoded: Result<RawClaims, jsonwebtoken::errors::Error>) -> (r: Result<
    Claims,
    AppErrors,
>)
    ensures
        match decoded {
            Ok(raw) => match spec_claims_of(raw@) {
                Some(c) => r matches Ok(claims) && claims@ == c,
                None => r matches Err(AppErrors::Jwt(JWTError::FailedDecode)),
            },
            Err(_) => r matches Err(AppErrors::Jwt(JWTError::FailedDecode)),
        },
{
    match decoded {
        Ok(raw) => match claims_from_raw(raw) {
            Some(claims) => Ok(claims),
            None => Err(AppErrors::Jwt(JWTError::FailedDecode)),
        },
        Err(_) => Err(AppErrors::Jwt(JWTError::FailedDecode)),
    }
}

/// What becomes of a signing attempt: the token, or the error `failure`.
pub fn token_from_signed(
    signed: Result<String, jsonwebtoken::errors::Error>,
    failure: JWTError,
) -> (r: Result<String, AppErrors>)
    ensures
        match signed {
            Ok(token) => r matches Ok(t) && t@ == token@,
            Err(_) => r matches Err(AppErrors::Jwt(e)) && e == failure,
        },
{
    match signed {
        Ok(token) => Ok(token),
        Err(_) => Err(AppErrors::Jwt(failure)),
    }
}

/// Signs claims with the configured secret. Whether a token comes out,
/// and which, depends on the claims and the secret alone; a token that
/// comes out carries exactly these claims.
pub fn sign_claims(config: &TokenConfig, claims: &Claims) -> (r: Result<
    String,
    jsonwebtoken::errors::Error,
>)
    ensures
        match r {
            Ok(token) => spec_token_for(claims@, config.spec_key()) == Some(token@),
            Err(_) => spec_token_for(claims@, config.spec_key()) is None,
        },
        r matches Ok(token) ==> spec_claims_in(token@, config.spec_key()) == Some(claims@),
{
    let role = claims.role.name();
    let signed = sign_hs256(
        claims.sub.as_str(),
        role.as_str(),
        claims.exp,
        claims.iat,
        config.secret.as_str().as_bytes(),
    );
    proof {
        lemma_role_name_round_trip(claims.role);
    }
    signed
}

/// Issues a token for a subject and a role in the second `now`, with a
/// lifetime in minutes. There is a token exactly where the second of
/// expiry is one that an `i64` holds and signing makes a token; every
/// failure is the error `failure`.
fn token_at(
    config: &TokenConfig,
    user_id: String,
    role: Role,
    now: i64,
    duration_minutes: i64,
    failure: JWTError,
) -> (r: Result<String, AppErrors>)
    ensures
        spec_issued_at(
            r,
            failure,
            config.spec_key(),
            user_id@,
            role,
            now,
            duration_minutes as int,
        ),
        r matches Ok(token) ==> spec_issued_for(
            token@,
            config.spec_key(),
            user_id@,
            role,
            duration_minutes as int,
        ),
{
    match Claims::issued_at(user_id, role, now, duration_minutes) {
        Some(claims) => token_from_signed(sign_claims(config, &claims), failure),
        None => Err(AppErrors::Jwt(failure)),
    }
}

/// Issues an access token for a subject and a role in the second `now`,
/// with the configured access lifetime. There is a token exactly where
/// the second of expiry is one that an `i64` holds and signing makes a
/// token; every failure is `FailedGenerateAccessToken`.
pub fn access_token_at(config: &TokenConfig, user_id: String, role: Role, now: i64) -> (r: Result<
    String,
    AppErrors,
>)
    ensures
        spec_issued_at(
            r,
            JWTError::FailedGenerateAccessToken,
            config.spec_key(),
            user_id@,
            role,
            now,
            config.access_minutes as int,
        ),
        r matches Ok(token) ==> spec_issued_for(
            token@,
            config.spec_key(),
            user_id@,
            role,
            config.access_minutes as int,
        ),
{
    token_at(
        config,
        user_id,
        role,
        now,
        config.access_minutes,
        JWTError::FailedGenerateAccessToken,
    )
}

/// Issues a refresh token for a subject and a role in the second `now`,
/// with the configured refresh lifetime, which is counted in days. There
/// is a token exactly where the second of expiry is one that an `i64`
/// holds and signing makes a token; every failure is
/// `FailedGenerateRefreshToken`.
pub fn refresh_token_at(config: &TokenConfig, user_id: String, role: Role, now: i64) -> (r: Result<
    String,
    AppErrors,
>)
    ensures
        spec_issued_at(
            r,
            JWTError::FailedGenerateRefreshToken,
            config.spec_key(),
            user_id@,
            role,
            now,
            spec_refresh_minutes(config.refresh_days),
        ),
        r matches Ok(token) ==> spec_issued_for(
            token@,
            config.spec_key(),
            user_id@,
            role,
            spec_refresh_minutes(config.refresh_days),
        ),
{
    match config.refresh_days.checked_mul(24 * 60) {
        Some(minutes) => token_at(
            config,
            user_id,
            role,
            now,
            minutes,
            JWTError::FailedGenerateRefreshToken,
        ),
        None => Err(AppErrors::Jwt(JWTError::FailedGenerateRefreshToken)),
    }
}

/// `r` is what issuing both tokens gives, the access token in the second
/// `access_now` and the refresh token in the second `refresh_now`: the two
/// tokens where there are both, `FailedGenerateAccessToken` where there is
/// no access token, and `FailedGenerateRefreshToken` where only the
/// refresh token is missing.
pub open spec fn spec_pair_at(
    r: Result<TokenPair, AppErrors>,
    config: TokenConfig,
    sub: Seq<char>,
    role: Role,
    access_now: i64,
    refresh_now: i64,
) -> bool {
    match spec_token_at(config.spec_key(), sub, role, access_now, config.access_minutes as int) {
        Some(access) => match spec_token_at(
            config.spec_key(),
            sub,
            role,
            refresh_now,
            spec_refresh_minutes(config.refresh_days),
        ) {
            Some(refresh) => r matches Ok(pair) && pair.access_token@ == access
                && pair.refresh_token@ == refresh,
            None => r matches Err(AppErrors::Jwt(JWTError::FailedGenerateRefreshToken)),
        },
        None => r matches Err(AppErrors::Jwt(JWTError::FailedGenerateAccessToken)),
    }
}

/// Both tokens carry this subject and role, each with its configured
/// lifetime.
pub open spec fn spec_pair_for(pair: TokenPair, config: TokenConfig, sub: Seq<char>, role: Role) -> bool {
    &&& spec_issued_for(
        pair.access_token@,
        config.spec_key(),
        sub,
        role,
        config.access_minutes as int,
    )
    &&& spec_issued_for(
        pair.refresh_token@,
        config.spec_key(),
        sub,
        role,
        spec_refresh_minutes(config.refresh_days),
    )
}

/// Issues both tokens for one subject and role, the access token in the
/// second `access_now` and the refresh token in the second `refresh_now`.
pub fn token_pair_at(
    config: &TokenConfig,
    user_id: String,
    role: Role,
    access_now: i64,
    refresh_now: i64,
) -> (r: Result<TokenPair, AppErrors>)
    ensures
        spec_pair_at(r, *config, user_id@, role, access_now, refresh_now),
        r matches Ok(pair) ==> spec_pair_for(pair, *config, user_id@, role),
{
    let access_token = match access_token_at(config, user_id.clone(), role, access_now) {
        Ok(token) => token,
        Err(e) => { return Err(e); },
    };
    let refresh_token = match refresh_token_at(config, user_id, role, refresh_now) {
        Ok(token) => token,
        Err(e) => { return Err(e); },
    };
    Ok(TokenPair { access_token, refresh_token })
}

/// Issues an access token for a subject and a role, with the configured
/// access lifetime, in the second that the clock shows. There is a token
/// exactly where the second of expiry is one that an `i64` holds and
/// signing makes a token, and it carries that subject, that role and that
/// lifetime. Every failure is `FailedGenerateAccessToken`.
pub fn generate_access_token(config: &TokenConfig, user_id: String, role: Role) -> (r: Result<
    String,
    AppErrors,
>)
    ensures
        exists|now: i64|
            spec_clock(now) && #[trigger] spec_issued_at(
                r,
                JWTError::FailedGenerateAccessToken,
                config.spec_key(),
                user_id@,
                role,
                now,
                config.access_minutes as int,
            ),
        r matches Ok(token) ==> spec_issued_for(
            token@,
            config.spec_key(),
            user_id@,
            role,
            config.access_minutes as int,
        ),
        r matches Err(e) ==> e matches AppErrors::Jwt(JWTError::FailedGenerateAccessToken),
        spec_never_fits(config.access_minutes as int) ==> r is Err,
{
    let now = unix_now();
    access_token_at(config, user_id, role, now)
}

/// Issues a refresh token for a subject and a role, with the configured
/// refresh lifetime, in the second that the clock shows. There is a token
/// exactly where the second of expiry is one that an `i64` holds and
/// signing makes a token, and it carries that subject, that role and that
/// lifetime. Every failure is `FailedGenerateRefreshToken`.
pub fn generate_refresh_token(config: &TokenConfig, user_id: String, role: Role) -> (r: Result<
    String,
    AppErrors,
>)
    ensures
        exists|now: i64|
            spec_clock(now) && #[trigger] spec_issued_at(
                r,
                JWTError::FailedGenerateRefreshToken,
                config.spec_key(),
                user_id@,
                role,
                now,
                spec_refresh_minutes(config.refresh_days),
            ),
        r matches Ok(token) ==> spec_issued_for(
            token@,
            config.spec_key(),
            user_id@,
            role,
            spec_refresh_minutes(config.refresh_days),
        ),
        r matches Err(e) ==> e matches AppErrors::Jwt(JWTError::FailedGenerateRefreshToken),
        spec_never_fits(spec_refresh_minutes(config.refresh_days)) ==> r is Err,
{
    let now = unix_now();
    refresh_token_at(config, user_id, role, now)
}

/// Issues both tokens for one subject and role, each in the second that
/// the clock shows for it. Where the access token fails the error is
/// `FailedGenerateAccessToken`, and where the refresh token fails it is
/// `FailedGenerateRefreshToken`; otherwise both tokens come out.
pub fn generate_token_pair(config: &TokenConfig, user_id: String, role: Role) -> (r: Result<
    TokenPair,
    AppErrors,
>)
    ensures
        exists|access_now: i64, refresh_now: i64|
            spec_clock(access_now) && spec_clock(refresh_now) && #[trigger] spec_pair_at(
                r,
                *config,
                user_id@,
                role,
                access_now,
                refresh_now,
            ),
        r matches Ok(pair) ==> spec_pair_for(pair, *config, user_id@, role),
        r matches Err(e) ==> (e matches AppErrors::Jwt(JWTError::FailedGenerateAccessToken) || e
            matches AppErrors::Jwt(JWTError::FailedGenerateRefreshToken)),
        spec_never_fits(config.access_minutes as int) ==> r matches Err(
            AppErrors::Jwt(JWTError::FailedGenerateAccessToken),
        ),
        spec_never_fits(spec_refresh_minutes(config.refresh_days)) ==> r is Err,
{
    let access_now = unix_now();
    let refresh_now = unix_now();
    token_pair_at(config, user_id, role, access_now, refresh_now)
}

/// Whether claims are still good in the second `now`: they are until
/// their second of expiry, and not a second longer.
pub open spec fn spec_live(claims: ClaimsView, now: i64) -> bool {
    claims.exp >= now
}

/// Lets claims through that are still good in the second `now`. Expired
/// claims get the error that every token gets that does not validate.
pub fn live_at(claims: Claims, now: i64) -> (r: Result<Claims, AppErrors>)
    ensures
        if spec_live(claims@, now) {
            r == Ok::<Claims, AppErrors>(claims)
        } else {
            r matches Err(AppErrors::Jwt(JWTError::FailedDecode))
        },
{
    if claims.exp >= now {
        Ok(claims)
    } else {
        Err(AppErrors::Jwt(JWTError::FailedDecode))
    }
}

/// Checks a token: its signature against the configured secret, and its
/// expiry against the clock, without leeway. The claims that come out are
/// those that the token carries under that secret, and they were still
/// good in a second that the clock showed. Every failure is
/// `FailedDecode`.
pub fn validate_token(config: &TokenConfig, token: String) -> (r: Result<Claims, AppErrors>)
    ensures
        r matches Ok(claims) ==> spec_claims_in(token@, config.spec_key()) == Some(claims@),
        r matches Ok(claims) ==> exists|now: i64| spec_clock(now) && #[trigger] spec_live(claims@, now),
        r matches Err(e) ==> e matches AppErrors::Jwt(JWTError::FailedDecode),
{
    let decoded = decode_hs256(
        token.as_str(),
        config.secret.as_str().as_bytes(),
        EXPIRY_LEEWAY_SECONDS,
    );
    match claims_from_decoded(decoded) {
        Ok(claims) => {
            let now = unix_now();
            live_at(claims, now)
        },
        Err(e) => Err(e),
    }
}

/// The claims that come out of a successful check of a token are the
/// claims with which it was issued under the same secret: the same
/// subject, role and lifetime, whatever the clock and however often the
/// token is checked.
pub proof fn lemma_validated_claims_are_issued_claims(
    token: Seq<char>,
    secret: Seq<u8>,
    sub: Seq<char>,
    role: Role,
    duration_minutes: int,
    validated: ClaimsView,
)
    requires
        spec_issued_for(token, secret, sub, role, duration_minutes),
        spec_claims_in(token, secret) == Some(validated),
    ensures
        validated.sub == sub,
        validated.role == role,
        validated.exp == validated.iat + 60 * duration_minutes,
{
}

/// Claims survive being written into a payload and read back.
pub proof fn lemma_claims_round_trip(claims: ClaimsView)
    ensures
        spec_claims_of(spec_raw_of(claims)) == Some(claims),
{
    lemma_role_name_round_trip(claims.role);
}

} // verus!
