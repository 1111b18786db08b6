//! JSON as `serde_json` reads and writes it.
//!
//! Nothing in this file is proved: it states what the rest of the crate takes
//! on trust from `serde_json`. A document is held as a `serde_json::Value`;
//! contracts speak of it through [`json_model`].

use vstd::prelude::*;

verus! {

/// What a JSON value holds.
pub enum JsonModel {
    Null,
    /// `true` or `false`.
    Bool,
    /// A number; no contract of this crate reads its value.
    Number,
    Text(Seq<char>),
    Array(Seq<JsonModel>),
    /// The members by name. A name occurs once.
    Object(Map<Seq<char>, JsonModel>),
}

/// `serde_json::Value`: any JSON value. Nothing of it is seen but through
/// the contracts below.
#[verifier::external_type_specification]
#[verifier::external_body]
pub struct ExValue(serde_json::Value);

/// `serde_json::Error`: why bytes were not read. Nothing of it is seen.
#[verifier::external_type_specification]
#[verifier::external_body]
pub struct ExError(serde_json::Error);

/// What the value `v` holds.
pub uninterp spec fn json_model(v: serde_json::Value) -> JsonModel;

/// What `serde_json` reads from `bytes`: the value of the one JSON document
/// that they spell, or `None` where it reports an error.
pub uninterp spec fn json_parsed(bytes: Seq<u8>) -> Option<JsonModel>;

/// The text that `serde_json` writes for the object whose only member has
/// the name `key` and the string `value`.
pub uninterp spec fn json_object_text(key: Seq<char>, value: Seq<char>) -> Seq<char>;

/// The member `key` of `j`, where `j` is an object that has one.
pub open spec fn member_of(j: JsonModel, key: Seq<char>) -> Option<JsonModel> {
    match j {
        JsonModel::Object(members) => if members.contains_key(key) {
            Some(members[key])
        } else {
            None
        },
        _ => None,
    }
}

/// The members of an array, each as what it holds.
pub open spec fn models_of(items: Seq<serde_json::Value>) -> Seq<JsonModel> {
    items.map_values(|v: serde_json::Value| json_model(v))
}

/// `serde_json::from_slice` at the type `Value`: the bytes are read as one
/// JSON document. The result is a function of the bytes alone, and an error
/// comes exactly where no value does.
#[verifier::external_body]
pub(crate) fn parse(bytes: &[u8]) -> (r: Result<serde_json::Value, serde_json::Error>)
    ensures
        match r {
            Ok(v) => json_parsed(bytes@) == Some(json_model(v)),
            Err(_) => json_parsed(bytes@).is_none(),
        },
{
    serde_json::from_slice::<serde_json::Value>(bytes)
}

/// `Value::get` with a string key: the member of that name where the value
/// is an object that has it, and `None` for every other value.
#[verifier::external_body]
pub(crate) fn member<'a>(v: &'a serde_json::Value, key: &str) -> (r: Option<&'a serde_json::Value>)
    ensures
        match r {
            Some(m) => member_of(json_model(*v), key@) == Some(json_model(*m)),
            None => member_of(json_model(*v), key@).is_none(),
        },
{
    v.get(key)
}

/// `Value::as_str`: the text of a string, and `None` for every other value.
pub assume_specification[ serde_json::Value::as_str ](v: &serde_json::Value) -> (r: Option<&str>)
    ensures
        match r {
            Some(s) => json_model(*v) == JsonModel::Text(s@),
            None => !(json_model(*v) is Text),
        },
;

/// `Value::as_array`: the members of an array in their order, and `None` for
/// every other value.
pub assume_specification[ serde_json::Value::as_array ](v: &serde_json::Value) -> (r: Option<
    &Vec<serde_json::Value>,
>)
    ensures
        match r {
            Some(items) => json_model(*v) == JsonModel::Array(models_of(items@)),
            None => !(json_model(*v) is Array),
        },
;

/// `Value::is_null`: whether the value is `null`.
pub assume_specification[ serde_json::Value::is_null ](v: &serde_json::Value) -> (b: bool)
    ensures
        b == (json_model(*v) is Null),
;

/// `Value::is_object`: whether the value is an object.
pub assume_specification[ serde_json::Value::is_object ](v: &serde_json::Value) -> (b: bool)
    ensures
        b == (json_model(*v) is Object),
;

/// Builds the object with the one member `key`, a string `value`, by
/// `Map::insert`, and writes it as `Value`'s `Display` does, in the compact
/// form. The result is a function of the two strings alone.
#[verifier::external_body]
pub(crate) fn object_text(key: &str, value: &str) -> (r: String)
    ensures
        r@ == json_object_text(key@, value@),
{
    let mut members = serde_json::Map::new();
    members.insert(key.to_owned(), serde_json::Value::String(value.to_owned()));
    serde_json::Value::Object(members).to_string()
}

} // verus!
