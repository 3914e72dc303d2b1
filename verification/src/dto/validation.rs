use vstd::prelude::*;
use vstd::string::{StrSliceExecFns, StringExecFns};

use crate::errors::{ErrorResponse, HttpError};
use crate::models::product::{MAX_CATEGORY, MAX_DISCOUNT};

verus! {

/// The fewest characters of a password.
pub const MIN_PASSWORD_CHARS: usize = 8;

/// The fewest characters of a name or a description.
pub const MIN_NAME_CHARS: usize = 2;

/// The most characters of a user's name.
pub const MAX_NAME_CHARS: usize = 50;

/// One field of a request that breaks a rule, and the rule in words.
#[derive(Debug, Clone)]
pub struct FieldError {
    pub field: String,
    pub message: String,
}

/// A field error as a pair of texts: the field, then the message.
pub type Broken = (Seq<char>, Seq<char>);

/// Whether `validate_email` of the validator crate takes a text for an
/// email address.
pub uninterp spec fn email_well_formed(text: Seq<char>) -> bool;

/// `ValidateEmail::validate_email` of the validator crate, on a string
/// slice. The answer depends on the text alone.
#[verifier::external_body]
fn is_email(text: &str) -> (r: bool)
    ensures
        r == email_well_formed(text@),
{
    validator::ValidateEmail::validate_email(&text)
}

/// The field errors of a list, as pairs of texts.
pub open spec fn spec_broken(errors: Seq<FieldError>) -> Seq<Broken> {
    Seq::new(errors.len(), |i: int| (errors[i].field@, errors[i].message@))
}

/// Nothing, or the one pair for a rule that is broken.
pub open spec fn spec_when(broken: bool, field: Seq<char>, message: Seq<char>) -> Seq<Broken> {
    if broken {
        seq![(field, message)]
    } else {
        Seq::empty()
    }
}

/// The rule for an email address.
pub open spec fn spec_check_email(email: Seq<char>) -> Seq<Broken> {
    spec_when(!email_well_formed(email), "email"@, "Invalid email format"@)
}

/// The rule for a password: at least eight characters.
pub open spec fn spec_check_password(password: Seq<char>) -> Seq<Broken> {
    spec_when(
        password.len() < MIN_PASSWORD_CHARS,
        "password"@,
        "Password must be at least 8 characters"@,
    )
}

/// The rule for a user's name: from two to fifty characters.
pub open spec fn spec_check_user_name(name: Seq<char>) -> Seq<Broken> {
    spec_when(
        name.len() < MIN_NAME_CHARS || name.len() > MAX_NAME_CHARS,
        "name"@,
        "Name must be between 2 and 50 characters"@,
    )
}

/// The rule for a text of a product, which is its name or its description:
/// at least two characters.
pub open spec fn spec_check_product_text(field: Seq<char>, text: Seq<char>) -> Seq<Broken> {
    spec_when(text.len() < MIN_NAME_CHARS, field, "The number of letters must be at least 2."@)
}

/// The rule for a discount: at most `MAX_DISCOUNT` percent.
pub open spec fn spec_check_discount(discount: u8) -> Seq<Broken> {
    spec_when(discount > MAX_DISCOUNT, "discount"@, "The discount must be between 0 and 100."@)
}

/// The rule for a category: none beyond `MAX_CATEGORY`.
pub open spec fn spec_check_category(category: u8) -> Seq<Broken> {
    spec_when(category > MAX_CATEGORY, "category"@, "The category must be between 0 and 1."@)
}

/// Adds a field error to a list if a rule is broken.
pub fn note(errors: &mut Vec<FieldError>, broken: bool, field: &str, message: &str)
    ensures
        spec_broken(final(errors)@) == spec_broken(old(errors)@) + spec_when(
            broken,
            field@,
            message@,
        ),
{
    if broken {
        errors.push(
            FieldError { field: String::from_str(field), message: String::from_str(message) },
        );
    }
    assert(spec_broken(errors@) =~= spec_broken(old(errors)@) + spec_when(
        broken,
        field@,
        message@,
    ));
}

/// Applies the rule for an email address.
pub fn check_email(errors: &mut Vec<FieldError>, email: &str)
    ensures
        spec_broken(final(errors)@) == spec_broken(old(errors)@) + spec_check_email(email@),
{
    let good = is_email(email);
    note(errors, !good, "email", "Invalid email format");
}

/// Applies the rule for a password.
pub fn check_password(errors: &mut Vec<FieldError>, password: &str)
    ensures
        spec_broken(final(errors)@) == spec_broken(old(errors)@) + spec_check_password(password@),
{
    let length = password.unicode_len();
    note(
        errors,
        length < MIN_PASSWORD_CHARS,
        "password",
        "Password must be at least 8 characters",
    );
}

/// Applies the rule for a user's name.
pub fn check_user_name(errors: &mut Vec<FieldError>, name: &str)
    ensures
        spec_broken(final(errors)@) == spec_broken(old(errors)@) + spec_check_user_name(name@),
{
    let length = name.unicode_len();
    note(
        errors,
        length < MIN_NAME_CHARS || length > MAX_NAME_CHARS,
        "name",
        "Name must be between 2 and 50 characters",
    );
}

/// Applies the rule for a text of a product.
pub fn check_product_text(errors: &mut Vec<FieldError>, field: &str, text: &str)
    ensures
        spec_broken(final(errors)@) == spec_broken(old(errors)@) + spec_check_product_text(
            field@,
            text@,
        ),
{
    let length = text.unicode_len();
    note(errors, length < MIN_NAME_CHARS, field, "The number of letters must be at least 2.");
}

/// Applies the rule for a discount.
pub fn check_discount(errors: &mut Vec<FieldError>, discount: u8)
    ensures
        spec_broken(final(errors)@) == spec_broken(old(errors)@) + spec_check_discount(discount),
{
    note(errors, discount > MAX_DISCOUNT, "discount", "The discount must be between 0 and 100.");
}

/// Applies the rule for a category.
pub fn check_category(errors: &mut Vec<FieldError>, category: u8)
    ensures
        spec_broken(final(errors)@) == spec_broken(old(errors)@) + spec_check_category(category),
{
    note(errors, category > MAX_CATEGORY, "category", "The category must be between 0 and 1.");
}

/// The field errors in one line: each as the field, a colon and the
/// message, with a semicolon between two of them.
pub open spec fn spec_details(broken: Seq<Broken>) -> Seq<char>
    decreases broken.len(),
{
    if broken.len() == 0 {
        Seq::empty()
    } else if broken.len() == 1 {
        broken[0].0 + ": "@ + broken[0].1
    } else {
        spec_details(broken.drop_last()) + "; "@ + broken.last().0 + ": "@ + broken.last().1
    }
}

/// The answer to a request that breaks rules: status 400, with every
/// broken rule in the details.
pub open spec fn spec_is_validation_error(answer: HttpError, broken: Seq<Broken>) -> bool {
    &&& answer.status == 400
    &&& answer.body.error@ == "validation_error"@
    &&& answer.body.message@ == "Validation failed"@
    &&& answer.body.details matches Some(text)
    &&& text@ == spec_details(broken)
}

/// The answer to a request that breaks rules.
pub fn validation_error(errors: &Vec<FieldError>) -> (answer: HttpError)
    ensures
        spec_is_validation_error(answer, spec_broken(errors@)),
{
    let mut text = String::new();
    let mut at: usize = 0;
    while at < errors.len()
        invariant
            at <= errors.len(),
            text@ == spec_details(spec_broken(errors@).take(at as int)),
        decreases errors.len() - at,
    {
        let ghost before = spec_broken(errors@).take(at as int);
        let ghost after = spec_broken(errors@).take(at + 1);
        proof {
            assert(after.drop_last() =~= before);
            assert(after.last() == (errors[at as int].field@, errors[at as int].message@));
        }
        if at > 0 {
            text.append("; ");
        }
        text.append(errors[at].field.as_str());
        text.append(": ");
        text.append(errors[at].message.as_str());
        proof {
            if at == 0 {
                assert(before.len() == 0);
                assert(text@ =~= after[0].0 + ": "@ + after[0].1);
            } else {
                assert(text@ =~= spec_details(before) + "; "@ + after.last().0 + ": "@
                    + after.last().1);
            }
        }
        at += 1;
    }
    assert(spec_broken(errors@).take(errors.len() as int) =~= spec_broken(errors@));
    HttpError {
        status: 400,
        body: ErrorResponse {
            error: String::from_str("validation_error"),
            message: String::from_str("Validation failed"),
            details: Some(text),
        },
    }
}

/// Passes a request that broke no rule, and answers one that broke any:
/// an empty list of field errors says that the request is in order.
pub fn in_order(errors: &Vec<FieldError>) -> (r: Result<(), HttpError>)
    ensures
        if errors.len() == 0 {
            r is Ok
        } else {
            r matches Err(answer) && spec_is_validation_error(answer, spec_broken(errors@))
        },
{
    if errors.len() == 0 {
        Ok(())
    } else {
        Err(validation_error(errors))
    }
}

} // verus!
