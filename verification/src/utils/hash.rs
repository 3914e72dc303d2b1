use argon2::password_hash::{PasswordHasher, PasswordVerifier};
use vstd::prelude::*;
use vstd::utf8::encode_utf8;

use crate::errors::hash_error::HashError;
use crate::errors::AppErrors;

verus! {

/// A parsed hash string of the password hashing crate. It borrows from the
/// text that it was parsed from.
#[verifier::external_type_specification]
#[verifier::external_body]
pub struct ExPasswordHash<'a>(argon2::password_hash::PasswordHash<'a>);

/// Whether `argon2::password_hash::PasswordHash::new` accepts a text as a
/// hash string.
pub uninterp spec fn phc_well_formed(hash: Seq<char>) -> bool;

/// The hash string that `hash_password` of `argon2::Argon2` makes with its
/// default parameters for a password under a salt, the salt given as its
/// text; `None` where it makes none, as for a text that is no salt.
pub uninterp spec fn argon2_hashed(password: Seq<u8>, salt: Seq<char>) -> Option<Seq<char>>;

/// What `verify_password` of `argon2::Argon2` finds when it checks a
/// password against a hash string that has been parsed: `Some(true)` where
/// the password is the one that was hashed, `Some(false)` where the crate
/// reports a wrong password, and `None` where the check fails otherwise.
pub uninterp spec fn argon2_outcome(password: Seq<u8>, hash: Seq<char>) -> Option<bool>;

/// A hash string that parsed, together with the text that it was parsed
/// from. Only parsing makes one, so the two always belong together.
struct ParsedHash<'a> {
    source: &'a str,
    parsed: argon2::password_hash::PasswordHash<'a>,
}

impl<'a> View for ParsedHash<'a> {
    type V = Seq<char>;

    /// The text that was parsed.
    closed spec fn view(&self) -> Seq<char> {
        self.source@
    }
}

/// What the password hashing crate found when it checked a password
/// against a parsed hash.
#[derive(Debug, Clone, Copy, PartialEq, Eq)]
pub enum PasswordCheck {
    /// The password is the one that was hashed.
    Match,
    /// The password is another one.
    Mismatch,
    /// The check itself failed.
    Failed(argon2::password_hash::Error),
}

impl PasswordCheck {
    /// The finding without its cause: whether the password is the one that
    /// was hashed, and `None` where the check failed.
    pub open spec fn spec_answer(self) -> Option<bool> {
        match self {
            PasswordCheck::Match => Some(true),
            PasswordCheck::Mismatch => Some(false),
            PasswordCheck::Failed(_) => None,
        }
    }
}

/// What the hasher finds when it checks a password against a hash
/// string. The hasher sees the password as its bytes in UTF-8.
pub open spec fn spec_outcome(password: Seq<char>, hash: Seq<char>) -> Option<bool> {
    argon2_outcome(encode_utf8(password), hash)
}

/// Whether a text is a hash string against which a password checks: the
/// text parses, and the password is found to be the one that was hashed.
pub open spec fn spec_accepts(password: Seq<char>, hash: Seq<char>) -> bool {
    phc_well_formed(hash) && spec_outcome(password, hash) == Some(true)
}

/// `argon2::password_hash::SaltString::generate` with the operating
/// system's random numbers: a fresh random salt, as its text. Nothing is
/// known of it beforehand.
#[verifier::external_body]
fn fresh_salt() -> (r: String) {
    argon2::password_hash::SaltString::generate(&mut argon2::password_hash::rand_core::OsRng)
        .as_str()
        .to_owned()
}

/// `hash_password` of `argon2::Argon2` with its default parameters, for a
/// salt that `Salt::from_b64` reads from its text, followed by `to_string`
/// of the hash. Whether a hash comes out, and which, depends on the
/// password and the salt alone. Of a hash that comes out, the contract
/// says what the crate's documentation shows for it: the crate's parser
/// accepts it, and the password that was hashed checks against it.
#[verifier::external_body]
fn argon2_hash(password: &[u8], salt: &str) -> (r: Result<String, argon2::password_hash::Error>)
    ensures
        match r {
            Ok(hash) => argon2_hashed(password@, salt@) == Some(hash@),
            Err(_) => argon2_hashed(password@, salt@) is None,
        },
        r matches Ok(hash) ==> phc_well_formed(hash@) && argon2_outcome(password@, hash@) == Some(
            true,
        ),
{
    let salt = argon2::password_hash::Salt::from_b64(salt)?;
    match argon2::Argon2::default().hash_password(password, salt) {
        Ok(hash) => Ok(hash.to_string()),
        Err(e) => Err(e),
    }
}

/// `argon2::password_hash::PasswordHash::new`: parses a hash string. It
/// succeeds exactly on the texts that the parser accepts, and what comes
/// out is kept together with the text.
#[verifier::external_body]
fn parse_phc<'a>(hash: &'a str) -> (r: Result<ParsedHash<'a>, argon2::password_hash::Error>)
    ensures
        r is Ok <==> phc_well_formed(hash@),
        r matches Ok(parsed) ==> parsed@ == hash@,
{
    match argon2::password_hash::PasswordHash::new(hash) {
        Ok(parsed) => Ok(ParsedHash { source: hash, parsed }),
        Err(e) => Err(e),
    }
}

/// `verify_password` of `argon2::Argon2` with its default parameters. The
/// crate reports a wrong password as the error `Password`; here that one
/// error is told apart from all others. What is found depends on the
/// password and on the hash string alone.
#[verifier::external_body]
fn argon2_verify(password: &[u8], hash: &ParsedHash<'_>) -> (r: PasswordCheck)
    ensures
        r.spec_answer() == argon2_outcome(password@, hash@),
{
    match argon2::Argon2::default().verify_password(password, &hash.parsed) {
        Ok(()) => PasswordCheck::Match,
        Err(argon2::password_hash::Error::Password) => PasswordCheck::Mismatch,
        Err(e) => PasswordCheck::Failed(e),
    }
}

/// What becomes of a hashing attempt: the hash, or the one error that
/// stands for every failure to hash.
pub fn hash_from_outcome(outcome: Result<String, argon2::password_hash::Error>) -> (r: Result<
    String,
    AppErrors,
>)
    ensures
        match outcome {
            Ok(hash) => r matches Ok(h) && h@ == hash@,
            Err(_) => r matches Err(AppErrors::Hash(HashError::FailedHash)),
        },
{
    match outcome {
        Ok(hash) => Ok(hash),
        Err(_) => Err(AppErrors::Hash(HashError::FailedHash)),
    }
}

/// What becomes of a password check. A wrong password is an answer, `false`,
/// and no error; a check that failed is an error, and never `false`.
pub fn verdict(check: PasswordCheck) -> (r: Result<bool, AppErrors>)
    ensures
        match check {
            PasswordCheck::Match => r matches Ok(true),
            PasswordCheck::Mismatch => r matches Ok(false),
            PasswordCheck::Failed(cause) => r matches Err(
                AppErrors::Hash(HashError::VerificationError(e)),
            ) && e == cause,
        },
{
    match check {
        PasswordCheck::Match => Ok(true),
        PasswordCheck::Mismatch => Ok(false),
        PasswordCheck::Failed(e) => Err(AppErrors::Hash(HashError::VerificationError(e))),
    }
}

/// `hashed` is what hashing `password` may give: a hash string against
/// which the password checks, or the error `FailedHash`.
pub open spec fn spec_hashed(password: Seq<char>, hashed: Result<String, AppErrors>) -> bool {
    match hashed {
        Ok(hash) => spec_accepts(password, hash@),
        Err(e) => e matches AppErrors::Hash(HashError::FailedHash),
    }
}

/// `verified` is what checking `password` against `hash` gives. A text
/// that is no hash string is the error `FailedParse`. For a hash string
/// the answer is what the hasher finds: `true` or `false`, or the error
/// `VerificationError` where the check itself failed.
pub open spec fn spec_verified(
    password: Seq<char>,
    hash: Seq<char>,
    verified: Result<bool, AppErrors>,
) -> bool {
    if !phc_well_formed(hash) {
        verified matches Err(AppErrors::Hash(HashError::FailedParse(_)))
    } else {
        match spec_outcome(password, hash) {
            Some(answer) => verified matches Ok(found) && found == answer,
            None => verified matches Err(AppErrors::Hash(HashError::VerificationError(_))),
        }
    }
}

/// The hash string that the hasher makes for a password under a salt, if
/// it makes one. The hasher sees the password as its bytes in UTF-8.
pub open spec fn spec_hash_with(password: Seq<char>, salt: Seq<char>) -> Option<Seq<char>> {
    argon2_hashed(encode_utf8(password), salt)
}

/// `hashed` is what hashing `password` under `salt` gives: the hash string
/// where the hasher makes one, and the error `FailedHash` where it makes
/// none.
pub open spec fn spec_hashed_with(
    password: Seq<char>,
    salt: Seq<char>,
    hashed: Result<String, AppErrors>,
) -> bool {
    match spec_hash_with(password, salt) {
        Some(text) => hashed matches Ok(hash) && hash@ == text,
        None => hashed matches Err(AppErrors::Hash(HashError::FailedHash)),
    }
}

/// Hashes a password under a salt that is given as its text. There is a
/// hash exactly where the hasher makes one for this password and salt,
/// and the password checks against it; every failure, a text that is no
/// salt among them, is `FailedHash`.
pub fn hash_with_salt(password: &str, salt: &str) -> (r: Result<String, AppErrors>)
    ensures
        spec_hashed_with(password@, salt@, r),
        spec_hashed(password@, r),
{
    hash_from_outcome(argon2_hash(password.as_bytes(), salt))
}

/// Hashes a password with a fresh random salt. There is a hash exactly
/// where the hasher makes one for this password and the salt that was
/// drawn, and the password checks against it; every failure is
/// `FailedHash`.
pub fn hash_password(password: &str) -> (r: Result<String, AppErrors>)
    ensures
        exists|salt: Seq<char>| #[trigger] spec_hashed_with(password@, salt, r),
        spec_hashed(password@, r),
{
    let salt = fresh_salt();
    hash_with_salt(password, salt.as_str())
}

/// Checks a password against a stored hash. A text that is no hash string
/// is an error, `FailedParse`, and never `false`. For a hash string the
/// answer is whether the password is the one that was hashed, or the error
/// `VerificationError` where the check itself failed.
pub fn verify_password(password: &str, hash: &str) -> (r: Result<bool, AppErrors>)
    ensures
        spec_verified(password@, hash@, r),
{
    match parse_phc(hash) {
        Ok(parsed) => verdict(argon2_verify(password.as_bytes(), &parsed)),
        Err(e) => Err(AppErrors::Hash(HashError::FailedParse(e))),
    }
}

/// A password checks against every hash that was made from it: whatever
/// the salt was, the answer is `true`, and neither `false` nor an error.
pub proof fn lemma_own_hash_verifies(
    password: Seq<char>,
    hashed: Result<String, AppErrors>,
    verified: Result<bool, AppErrors>,
)
    requires
        spec_hashed(password, hashed),
        hashed matches Ok(hash) && spec_verified(password, hash@, verified),
    ensures
        verified matches Ok(true),
{
}

/// A text that is no hash string is never answered with `true` or
/// `false`: whatever the password, the answer is the error `FailedParse`.
pub proof fn lemma_malformed_hash_is_an_error(
    password: Seq<char>,
    hash: Seq<char>,
    verified: Result<bool, AppErrors>,
)
    requires
        !phc_well_formed(hash),
        spec_verified(password, hash, verified),
    ensures
        verified matches Err(AppErrors::Hash(HashError::FailedParse(_))),
{
}

} // verus!
