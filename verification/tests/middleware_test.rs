use bike_shopping_backend::errors::auth_error::AuthError;
use bike_shopping_backend::errors::jwt_error::JWTError;
use bike_shopping_backend::errors::HttpError;
use bike_shopping_backend::middleware::auth::{
    bearer_token, identity, invalid_token, missing_token, outcome_of, AuthOutcome, JwtMiddleware,
};
use bike_shopping_backend::middleware::permissions::PermissionCheck;
use bike_shopping_backend::utils::jwt::{
    generate_access_token, sign_claims, Claims, TokenConfig,
};
use bike_shopping_backend::{AppErrors, Role};

fn door(secret: &str) -> JwtMiddleware {
    JwtMiddleware::new(TokenConfig::new(secret.to_string(), 60, 30))
}

fn token(secret: &str, subject: &str, role: Role) -> String {
    let config = TokenConfig::new(secret.to_string(), 60, 30);
    generate_access_token(&config, subject.to_string(), role).unwrap()
}

fn rejected(outcome: AuthOutcome) -> HttpError {
    match outcome {
        AuthOutcome::Rejected(answer) => answer,
        AuthOutcome::Authenticated(claims) => panic!("let in: {:?}", claims),
    }
}

fn let_in(outcome: AuthOutcome) -> Claims {
    match outcome {
        AuthOutcome::Authenticated(claims) => claims,
        AuthOutcome::Rejected(answer) => panic!("turned away: {:?}", answer),
    }
}

fn assert_missing(answer: HttpError) {
    assert_eq!(answer.status, 401);
    assert_eq!(answer.body.error, "missing_token");
    assert_eq!(answer.body.message, "Missing or invalid Authorization header");
    assert!(answer.body.details.is_none());
}

fn assert_invalid(answer: HttpError) {
    assert_eq!(answer.status, 401);
    assert_eq!(answer.body.error, "invalid_token");
    assert_eq!(
        answer.body.message,
        "Invalid token: Failed to decode and validate token"
    );
    assert!(answer.body.details.is_none());
}

#[test]
fn test_bearer_token() {
    assert_eq!(bearer_token(Some("Bearer abc.def.ghi")), Some("abc.def.ghi"));
    assert_eq!(bearer_token(Some("Bearer ")), Some(""));
    assert_eq!(bearer_token(Some("Bearer  two spaces")), Some(" two spaces"));
    assert_eq!(bearer_token(Some("Bearer \u{1F512}x")), Some("\u{1F512}x"));
}

#[test]
fn test_bearer_token_missing_or_malformed() {
    assert_eq!(bearer_token(None), None);
    assert_eq!(bearer_token(Some("")), None);
    assert_eq!(bearer_token(Some("Bearer")), None);
    assert_eq!(bearer_token(Some("bearer abc")), None);
    assert_eq!(bearer_token(Some("Basic abc")), None);
    assert_eq!(bearer_token(Some(" Bearer abc")), None);
    assert_eq!(bearer_token(Some("Bearer\tabc")), None);
    assert_eq!(bearer_token(Some("\u{1F512}\u{1F512}\u{1F512}\u{1F512}\u{1F512}\u{1F512}\u{1F512}x")), None);
}

#[test]
fn test_fixed_answers() {
    assert_missing(missing_token());
    assert_invalid(invalid_token(&AppErrors::Jwt(JWTError::FailedDecode)));

    let answer = invalid_token(&AppErrors::NotFound("Key".to_string()));
    assert_eq!(answer.status, 401);
    assert_eq!(answer.body.error, "invalid_token");
    assert_eq!(answer.body.message, "Invalid token: Key not found");
}

#[test]
fn test_outcome_of() {
    let claims = Claims::issued_at("s".to_string(), Role::Admin, 10, 1).unwrap();
    let inside = let_in(outcome_of(Ok(claims)));
    assert_eq!(inside.sub, "s");
    assert_eq!(inside.role, Role::Admin);
    assert_eq!(inside.iat, 10);
    assert_eq!(inside.exp, 70);

    assert_invalid(rejected(outcome_of(Err(AppErrors::Jwt(JWTError::FailedDecode)))));
}

#[test]
fn test_authenticate_without_a_token() {
    let door = door("k");
    assert_missing(rejected(door.authenticate(None)));
    assert_missing(rejected(door.authenticate(Some(""))));
    assert_missing(rejected(door.authenticate(Some("Basic dXNlcjpwYXNz"))));
    let bare = token("k", "s", Role::User);
    assert_missing(rejected(door.authenticate(Some(&bare))));
}

#[test]
fn test_authenticate_with_an_invalid_token() {
    let door = door("k");
    assert_invalid(rejected(door.authenticate(Some("Bearer "))));
    assert_invalid(rejected(door.authenticate(Some("Bearer invalid.token.string"))));

    let foreign = format!("Bearer {}", token("another secret", "s", Role::Admin));
    assert_invalid(rejected(door.authenticate(Some(&foreign))));

    let config = TokenConfig::new("k".to_string(), 60, 30);
    let expired = Claims::new("s".to_string(), -10, Role::User);
    let header = format!("Bearer {}", sign_claims(&config, &expired).unwrap());
    assert_invalid(rejected(door.authenticate(Some(&header))));
}

#[test]
fn test_authenticate_with_a_valid_token() {
    let door = door("k");
    let header = format!("Bearer {}", token("k", "user-1", Role::Admin));

    let claims = let_in(door.authenticate(Some(&header)));

    assert_eq!(claims.sub, "user-1");
    assert_eq!(claims.role, Role::Admin);
    assert_eq!(claims.exp - claims.iat, 3600);
}

#[test]
fn test_authorize_without_a_guard_is_authenticate() {
    let door = door("k");
    let header = format!("Bearer {}", token("k", "user-1", Role::User));

    assert_eq!(let_in(door.authorize(None, Some(&header))).sub, "user-1");
    assert_missing(rejected(door.authorize(None, None)));
    assert_invalid(rejected(door.authorize(None, Some("Bearer x"))));
}

#[test]
fn test_authorize_with_a_guard() {
    let door = door("k");
    let admins = PermissionCheck::new(Role::Admin);
    let admin = format!("Bearer {}", token("k", "root", Role::Admin));
    let user = format!("Bearer {}", token("k", "user-1", Role::User));

    let claims = let_in(door.authorize(Some(&admins), Some(&admin)));
    assert_eq!(claims.sub, "root");
    assert_eq!(claims.role, Role::Admin);

    let answer = rejected(door.authorize(Some(&admins), Some(&user)));
    assert_eq!(answer.status, 403);
    assert_eq!(answer.body.error, "insufficient_permissions");
    assert_eq!(answer.body.message, "Necessary role: Admin");

    // The door comes first: without a valid token the guard is never asked.
    assert_missing(rejected(door.authorize(Some(&admins), None)));
    assert_invalid(rejected(door.authorize(Some(&admins), Some("Bearer x"))));

    let users = PermissionCheck::new(Role::User);
    assert_eq!(let_in(door.authorize(Some(&users), Some(&user))).sub, "user-1");
    let answer = rejected(door.authorize(Some(&users), Some(&admin)));
    assert_eq!(answer.status, 403);
    assert_eq!(answer.body.message, "Necessary role: User");
}

#[test]
fn test_identity() {
    let claims = Claims::issued_at("s".to_string(), Role::User, 1, 1).unwrap();
    assert_eq!(identity(Some(claims)).unwrap().sub, "s");
    assert!(matches!(
        identity(None).unwrap_err(),
        AppErrors::Auth(AuthError::Unauthorized)
    ));
}
