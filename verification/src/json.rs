//! JSON objects, built field by field.

use vstd::prelude::*;

verus! {

/// `serde_json::Map`, the object type of `serde_json`.
#[verifier::external_type_specification]
#[verifier::external_body]
#[verifier::reject_recursive_types(K)]
#[verifier::reject_recursive_types(V)]
pub struct ExMap<K, V>(serde_json::Map<K, V>);

/// `serde_json::Value`, any JSON value.
#[verifier::external_type_specification]
#[verifier::external_body]
pub struct ExValue(serde_json::Value);

/// `serde_json::Error`, why a value could not be written.
#[verifier::external_type_specification]
#[verifier::external_body]
pub struct ExError(serde_json::Error);

/// A JSON object of `serde_json`.
pub type JsonObject = serde_json::Map<String, serde_json::Value>;

/// A JSON value, as far as this service writes any.
pub enum JsonModel {
    Null,
    Number(int),
    Text(Seq<char>),
    Object(Map<Seq<char>, JsonModel>),
}

/// The fields of a JSON object, by name.
pub uninterp spec fn json_fields(object: JsonObject) -> Map<Seq<char>, JsonModel>;

/// The fields of the empty object.
pub open spec fn no_fields() -> Map<Seq<char>, JsonModel> {
    Map::empty()
}

/// The value of a field to be written.
#[derive(Debug)]
pub enum JsonField {
    Null,
    Number(i64),
    Text(String),
    Object(JsonObject),
}

impl View for JsonField {
    type V = JsonModel;

    open spec fn view(&self) -> JsonModel {
        match *self {
            JsonField::Null => JsonModel::Null,
            JsonField::Number(n) => JsonModel::Number(n as int),
            JsonField::Text(t) => JsonModel::Text(t@),
            JsonField::Object(object) => JsonModel::Object(json_fields(object)),
        }
    }
}

/// `serde_json::Map::new`: an object without fields.
#[verifier::external_body]
pub(crate) fn empty_object() -> (object: JsonObject)
    ensures
        json_fields(object) == no_fields(),
{
    serde_json::Map::new()
}

/// `serde_json::Map::insert`: sets a field, whether or not there was one of
/// that name, and leaves the others alone.  `null`, a number, a text and an
/// object each become the `serde_json::Value` of that kind.
#[verifier::external_body]
pub(crate) fn set_field(object: &mut JsonObject, name: &str, value: JsonField)
    ensures
        json_fields(*final(object)) == json_fields(*old(object)).insert(name@, value@),
{
    let value = match value {
        JsonField::Null => serde_json::Value::Null,
        JsonField::Number(n) => serde_json::Value::from(n),
        JsonField::Text(t) => serde_json::Value::from(t),
        JsonField::Object(inner) => serde_json::Value::from(inner),
    };
    object.insert(name.to_string(), value);
}

/// The JSON text of an object with the given fields, as `serde_json` writes it.
pub uninterp spec fn json_text(fields: Map<Seq<char>, JsonModel>) -> Seq<u8>;

/// `serde_json::to_vec` on an object: its JSON text, fields in the order of
/// their names.  That never fails: names are texts, and memory takes all that
/// is written to it.
#[verifier::external_body]
pub(crate) fn to_vec(object: &JsonObject) -> (text: Result<Vec<u8>, serde_json::Error>)
    ensures
        text is Ok,
        text->Ok_0@ == json_text(json_fields(*object)),
{
    serde_json::to_vec(object)
}

/// The `Display` form of `serde_json::Error`, the error in words; nothing is
/// promised of the words.
#[verifier::external_body]
pub(crate) fn error_words(error: &serde_json::Error) -> (words: String) {
    error.to_string()
}

/// A text where there is one, and `null` where there is none.
pub open spec fn optional_text(value: Option<Seq<char>>) -> JsonModel {
    match value {
        Some(t) => JsonModel::Text(t),
        None => JsonModel::Null,
    }
}

/// A number where there is one, and `null` where there is none.
pub open spec fn optional_number(value: Option<i32>) -> JsonModel {
    match value {
        Some(n) => JsonModel::Number(n as int),
        None => JsonModel::Null,
    }
}

} // verus!
