//! JSON documents, as `serde_json` reads and writes them.
//!
//! Nothing in this file is proved. Each function is one call into
//! `serde_json`, and its contract says what that call does in terms of
//! [`JsonModel`], the contents of a `serde_json::Value`.

use vstd::prelude::*;
use serde_json::Value;

verus! {

/// A JSON value as `serde_json` holds it.
#[verifier::external_type_specification]
#[verifier::external_body]
pub struct ExValue(serde_json::Value);

/// What a JSON number holds: the text that `serde_json` prints for it,
/// and its value where it is an integer that an `i64` can hold.
pub ghost struct NumberModel {
    pub text: Seq<char>,
    pub integer: Option<i64>,
}

/// What a JSON value holds.
pub ghost enum JsonModel {
    Null,
    Bool(bool),
    Number(NumberModel),
    Str(Seq<char>),
    Array(Seq<JsonModel>),
    Object(Map<Seq<char>, JsonModel>),
}

/// What `value` holds.
pub uninterp spec fn json_model(value: Value) -> JsonModel;

/// What `serde_json::from_str` reads from `text`: the contents of the value,
/// or `None` where the text is not one JSON value.
pub uninterp spec fn parsed_json(text: Seq<char>) -> Option<JsonModel>;

/// The text that `serde_json::to_string` writes for a value with these
/// contents. (The keys of an object come out sorted, so the text depends
/// on nothing but the contents.)
pub uninterp spec fn json_text(model: JsonModel) -> Seq<char>;

/// The models of `values`, in order.
pub open spec fn models(values: Seq<Value>) -> Seq<JsonModel> {
    Seq::new(values.len(), |i: int| json_model(values[i]))
}

/// `serde_json::from_str` for a `Value`: the value that `text` spells,
/// `None` where it spells none.
#[verifier::external_body]
pub(crate) fn parse(text: &str) -> (value: Option<Value>)
    ensures
        match value {
            Some(v) => parsed_json(text@) == Some(json_model(v)),
            None => parsed_json(text@) is None,
        },
{
    serde_json::from_str::<Value>(text).ok()
}

/// `Value::get` with a string index: the member of an object under
/// `key`; `None` where `value` is no object or has no such member.
#[verifier::external_body]
pub(crate) fn member<'a>(value: &'a Value, key: &str) -> (found: Option<&'a Value>)
    ensures
        match json_model(*value) {
            JsonModel::Object(members) if members.contains_key(key@) => found matches Some(v)
                && json_model(*v) == members[key@],
            _ => found is None,
        },
{
    value.get(key)
}

/// `Value::is_null`: whether `value` is the JSON null.
#[verifier::external_body]
pub(crate) fn is_null(value: &Value) -> (null: bool)
    ensures
        null == (json_model(*value) is Null),
{
    value.is_null()
}

/// `Value::as_str`: the text of a JSON string; `None` for any other value.
#[verifier::external_body]
pub(crate) fn as_text<'a>(value: &'a Value) -> (text: Option<&'a str>)
    ensures
        match json_model(*value) {
            JsonModel::Str(s) => text matches Some(t) && t@ == s,
            _ => text is None,
        },
{
    value.as_str()
}

/// `Value::as_array`: the elements of a JSON array; `None` for any other
/// value.
#[verifier::external_body]
pub(crate) fn as_items<'a>(value: &'a Value) -> (items: Option<&'a Vec<Value>>)
    ensures
        match json_model(*value) {
            JsonModel::Array(elements) => items matches Some(v) && models(v@) == elements,
            _ => items is None,
        },
{
    value.as_array()
}

/// `Value::as_i64`: the value of a JSON number that is an integer in the
/// range of `i64`; `None` for any other number and any other value.
#[verifier::external_body]
pub(crate) fn as_integer(value: &Value) -> (integer: Option<i64>)
    ensures
        match json_model(*value) {
            JsonModel::Number(n) => integer == n.integer,
            _ => integer is None,
        },
{
    value.as_i64()
}

/// `Value::as_number` and the number's `Display`: the text of a JSON
/// number; `None` for any other value.
#[verifier::external_body]
pub(crate) fn number_text(value: &Value) -> (text: Option<String>)
    ensures
        match json_model(*value) {
            JsonModel::Number(n) => text matches Some(t) && t@ == n.text,
            _ => text is None,
        },
{
    match value.as_number() {
        Some(number) => Some(number.to_string()),
        None => None,
    }
}

/// `Value::String`: the JSON string that holds `text`.
#[verifier::external_body]
pub(crate) fn text_value(text: &str) -> (value: Value)
    ensures
        json_model(value) == JsonModel::Str(text@),
{
    Value::String(text.to_owned())
}

/// `Value::Array`: the JSON array of `items`, in their order.
#[verifier::external_body]
pub(crate) fn array_value(items: Vec<Value>) -> (value: Value)
    ensures
        json_model(value) == JsonModel::Array(models(items@)),
{
    Value::Array(items)
}

/// `Value::Object` of `Map::new`: the JSON object without members.
#[verifier::external_body]
pub(crate) fn empty_object() -> (value: Value)
    ensures
        json_model(value) == JsonModel::Object(Map::empty()),
{
    Value::Object(serde_json::Map::new())
}

/// `Map::insert` on the members of an object: `member` is what the object
/// holds under `key` from now on, whether or not it held that key before.
#[verifier::external_body]
pub(crate) fn insert_member(object: &mut Value, key: &str, member: Value)
    requires
        json_model(*old(object)) is Object,
    ensures
        json_model(*final(object)) == JsonModel::Object(
            json_model(*old(object))->Object_0.insert(key@, json_model(member)),
        ),
{
    if let Value::Object(members) = object {
        members.insert(key.to_owned(), member);
    }
}

/// `serde_json::to_string` for a `Value`, which cannot fail: the JSON
/// text of `value`.
#[verifier::external_body]
pub(crate) fn render(value: &Value) -> (text: String)
    ensures
        text@ == json_text(json_model(*value)),
{
    serde_json::to_string(value).unwrap_or_default()
}

} // verus!
