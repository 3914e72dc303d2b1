use vstd::prelude::*;

use crate::errors::AppErrors;

verus! {

/// The error type of the identifier crate. Nothing in this library looks
/// inside a value of it.
#[verifier::external_type_specification]
#[verifier::external_body]
pub struct ExUuidError(uuid::Error);

/// The identifier that `uuid::Uuid::parse_str` reads from a text, as a
/// 128-bit number; `None` where it reads none.
pub uninterp spec fn uuid_parse(text: Seq<char>) -> Option<u128>;

/// The text that `Display` of `uuid::Uuid` writes for the identifier with
/// this 128-bit number.
pub uninterp spec fn uuid_text(value: u128) -> Seq<char>;

/// `uuid::Uuid::parse_str`, with the identifier handed back as its number
/// (`as_u128`). The call succeeds exactly on the texts that the parser
/// accepts, and what it reads depends on the text alone.
#[verifier::external_body]
pub(crate) fn parse_uuid(text: &str) -> (r: Result<u128, uuid::Error>)
    ensures
        match r {
            Ok(value) => uuid_parse(text@) == Some(value),
            Err(_) => uuid_parse(text@) is None,
        },
{
    match uuid::Uuid::parse_str(text) {
        Ok(id) => Ok(id.as_u128()),
        Err(e) => Err(e),
    }
}

/// `Display` of `uuid::Uuid`, for the identifier made from this number
/// (`from_u128`). The text depends on the number alone, and the parser
/// reads the same identifier back from it: it accepts every format that
/// the crate writes.
#[verifier::external_body]
pub(crate) fn write_uuid(value: u128) -> (r: String)
    ensures
        r@ == uuid_text(value),
        uuid_parse(r@) == Some(value),
{
    uuid::Uuid::from_u128(value).to_string()
}

/// `uuid::Uuid::new_v4`: a random identifier, as its number. Nothing is
/// known of it beforehand.
#[verifier::external_body]
pub(crate) fn random_uuid() -> (r: u128) {
    uuid::Uuid::new_v4().as_u128()
}

/// What becomes of a parsed identifier: the identifier, or the one error
/// that stands for every malformed text.
pub fn id_from_parsed(parsed: Result<u128, uuid::Error>) -> (r: Result<u128, AppErrors>)
    ensures
        match parsed {
            Ok(value) => r == Ok::<u128, AppErrors>(value),
            Err(_) => r matches Err(AppErrors::InvalidUUID),
        },
{
    match parsed {
        Ok(value) => Ok(value),
        Err(_) => Err(AppErrors::InvalidUUID),
    }
}

/// Reads a resource identifier. A text that is no identifier is rejected
/// here, before anything is asked of the storage, and under its own error:
/// it is never reported as a resource that was not found.
pub fn parse_id(text: &str) -> (r: Result<u128, AppErrors>)
    ensures
        match uuid_parse(text@) {
            Some(value) => r == Ok::<u128, AppErrors>(value),
            None => r matches Err(AppErrors::InvalidUUID),
        },
{
    id_from_parsed(parse_uuid(text))
}

} // verus!
