//! Checks on the fields of a request, and the complaints that come of them.

use vstd::prelude::*;

use crate::json::{JsonField, JsonModel};

verus! {

/// `validator::ValidationErrors`, the complaints about a request by field.
#[verifier::external_type_specification]
#[verifier::external_body]
pub struct ExValidationErrors(validator::ValidationErrors);

/// `validator::ValidationError`, one complaint.
#[verifier::external_type_specification]
#[verifier::external_body]
pub struct ExValidationError(validator::ValidationError);

/// What a complaint says: the rule that was broken, a message to show in its
/// place where there is one, and the numbers and texts that go with it.
pub struct Complaint {
    pub code: Seq<char>,
    pub message: Option<Seq<char>>,
    pub params: Map<Seq<char>, JsonModel>,
}

/// The complaints about each field of a request.
pub uninterp spec fn complaints(errors: validator::ValidationErrors) -> Map<
    Seq<char>,
    Seq<Complaint>,
>;

/// The rule that a complaint names.
pub uninterp spec fn error_code(error: validator::ValidationError) -> Seq<char>;

/// The message of a complaint, where it has one.
pub uninterp spec fn error_message(error: validator::ValidationError) -> Option<Seq<char>>;

/// The parameters of a complaint.
pub uninterp spec fn error_params(error: validator::ValidationError) -> Map<Seq<char>, JsonModel>;

/// What a complaint says.
pub open spec fn complaint(error: validator::ValidationError) -> Complaint {
    Complaint {
        code: error_code(error),
        message: error_message(error),
        params: error_params(error),
    }
}

/// No complaints about any field.
pub open spec fn no_complaints() -> Map<Seq<char>, Seq<Complaint>> {
    Map::empty()
}

/// No message.
pub open spec fn no_message() -> Option<Seq<char>> {
    None
}

/// No parameters.
pub open spec fn no_params() -> Map<Seq<char>, JsonModel> {
    Map::empty()
}

/// `validator::ValidationErrors::new`: no complaints.
#[verifier::external_body]
pub(crate) fn no_errors() -> (errors: validator::ValidationErrors)
    ensures
        complaints(errors) == no_complaints(),
{
    validator::ValidationErrors::new()
}

/// `validator::ValidationErrors::is_empty`: whether there is no complaint.
#[verifier::external_body]
pub(crate) fn is_empty(errors: &validator::ValidationErrors) -> (empty: bool)
    ensures
        empty == (complaints(*errors) == no_complaints()),
{
    errors.is_empty()
}

/// `validator::ValidationError::new`: a complaint without a message and
/// without parameters.
#[verifier::external_body]
pub(crate) fn new_error(code: &'static str) -> (error: validator::ValidationError)
    ensures
        error_code(error) == code@,
        error_message(error) == no_message(),
        error_params(error) == no_params(),
{
    validator::ValidationError::new(code)
}

/// `validator::ValidationError::add_param`: sets a parameter of a complaint.
#[verifier::external_body]
pub(crate) fn add_param(
    error: &mut validator::ValidationError,
    name: &'static str,
    value: JsonField,
)
    ensures
        error_code(*final(error)) == error_code(*old(error)),
        error_message(*final(error)) == error_message(*old(error)),
        error_params(*final(error)) == error_params(*old(error)).insert(name@, value@),
{
    let value = match value {
        JsonField::Null => serde_json::Value::Null,
        JsonField::Number(n) => serde_json::Value::from(n),
        JsonField::Text(t) => serde_json::Value::from(t),
        JsonField::Object(inner) => serde_json::Value::from(inner),
    };
    error.add_param(std::borrow::Cow::from(name), &value);
}

/// `validator::ValidationErrors::add`: the first complaint about a field.
#[verifier::external_body]
pub(crate) fn add_error(
    errors: &mut validator::ValidationErrors,
    field: &'static str,
    error: validator::ValidationError,
)
    requires
        !complaints(*old(errors)).contains_key(field@),
    ensures
        complaints(*final(errors)) == complaints(*old(errors)).insert(
            field@,
            seq![complaint(error)],
        ),
{
    errors.add(field, error);
}

/// How the text of a complaint about a field begins: the field, the rule, and
/// the bracket that opens its parameters.
pub open spec fn complaint_text(field: Seq<char>, code: Seq<char>) -> Seq<char> {
    field + ": Validation error: "@ + code + " ["@
}

/// Every field with a single complaint, and that without a message of its own,
/// is told of somewhere in the text.
pub open spec fn tells_of(text: Seq<char>, told: Map<Seq<char>, Seq<Complaint>>) -> bool {
    forall|field: Seq<char>| #[trigger]
        told.contains_key(field) && told[field].len() == 1 && told[field][0].message is None
            ==> crate::text::contains_text(text, complaint_text(field, told[field][0].code))
}

/// The `Display` form of `validator::ValidationErrors`: all complaints in
/// words, each field with its name, the rule and the parameters.  Fields and
/// parameters come in the order of a hash map, which differs from run to run, so
/// nothing is promised of where in the text a field is told of, nor of how its
/// parameters are written.
#[verifier::external_body]
pub(crate) fn errors_text(errors: &validator::ValidationErrors) -> (text: String)
    ensures
        tells_of(text@, complaints(*errors)),
{
    errors.to_string()
}

/// `validator::ValidateLength::validate_length` on a text: whether the number
/// of its characters is the one asked for, or else within the bounds given.
#[verifier::external_body]
pub(crate) fn validate_length(
    value: &str,
    min: Option<u64>,
    max: Option<u64>,
    equal: Option<u64>,
) -> (valid: bool)
    ensures
        valid == match equal {
            Some(n) => value@.len() == n,
            None => (min is Some ==> min->0 <= value@.len()) && (max is Some ==> value@.len()
                <= max->0),
        },
{
    validator::ValidateLength::validate_length(value, min, max, equal)
}

/// `validator::ValidateRange::validate_range` on a number: whether it is within
/// the bounds given.
#[verifier::external_body]
pub(crate) fn validate_range(
    value: i32,
    min: Option<i32>,
    max: Option<i32>,
    exclusive_min: Option<i32>,
    exclusive_max: Option<i32>,
) -> (valid: bool)
    ensures
        valid == ((min is Some ==> min->0 <= value) && (max is Some ==> value <= max->0) && (
        exclusive_min is Some ==> exclusive_min->0 < value) && (exclusive_max is Some ==> value
            < exclusive_max->0)),
{
    validator::ValidateRange::validate_range(&value, min, max, exclusive_min, exclusive_max)
}

} // verus!
