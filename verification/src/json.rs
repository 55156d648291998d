//! The boundary to `serde_json`.
//!
//! JSON documents are parsed, built, inspected and printed by `serde_json`.
//! Verus cannot look inside a `serde_json::Value`, so this module gives its
//! content a mathematical model, [`JsonModel`], and states over that model
//! what each call into `serde_json` returns. Those statements are believed,
//! not proved; everything else in the crate is proved from them.

use vstd::prelude::*;

verus! {

/// The JSON document type of `serde_json`.
#[verifier::external_type_specification]
#[verifier::external_body]
pub struct ExValue(serde_json::Value);

/// The object type of `serde_json`: a map from keys to documents.
#[verifier::external_type_specification]
#[verifier::external_body]
#[verifier::reject_recursive_types(K)]
#[verifier::reject_recursive_types(V)]
pub struct ExObject<K, V>(serde_json::Map<K, V>);

/// The error type of `serde_json`.
#[verifier::external_type_specification]
#[verifier::external_body]
pub struct ExJsonError(serde_json::Error);

/// The mathematical content of a JSON document.
///
/// An integer that `serde_json` holds exactly (from `i64::MIN` to `u64::MAX`)
/// is an `Int`. Any other number is a `Real`, kept as the text that
/// `serde_json` prints for it.
pub enum JsonModel {
    Null,
    Bool(bool),
    Int(int),
    Real(Seq<char>),
    Str(Seq<char>),
    Array(Seq<JsonModel>),
    Object(Map<Seq<char>, JsonModel>),
}

/// What a `serde_json::Value` holds.
pub uninterp spec fn value_model(v: serde_json::Value) -> JsonModel;

/// What a `serde_json::Map` holds.
pub uninterp spec fn object_model(m: serde_json::Map<String, serde_json::Value>) -> Map<
    Seq<char>,
    JsonModel,
>;

/// The document that `serde_json::from_str` reads from a text, if it reads one.
pub uninterp spec fn json_parse(text: Seq<char>) -> Option<JsonModel>;

/// The text that `serde_json::to_string` prints for a document.
pub uninterp spec fn json_print(doc: JsonModel) -> Seq<char>;

/// The content of an object without members.
pub open spec fn no_members() -> Map<Seq<char>, JsonModel> {
    Map::empty()
}

/// The member of an object under a key; nothing where the document is no
/// object or has no such member.
pub open spec fn member(doc: JsonModel, key: Seq<char>) -> Option<JsonModel> {
    match doc {
        JsonModel::Object(o) => if o.contains_key(key) {
            Some(o[key])
        } else {
            None
        },
        _ => None,
    }
}

/// The models of a sequence of documents.
pub open spec fn models(items: Seq<serde_json::Value>) -> Seq<JsonModel> {
    items.map_values(|v: serde_json::Value| value_model(v))
}

/// `serde_json::from_str::<Value>`: parses a text as one JSON document.
#[verifier::external_body]
pub(crate) fn parse_value(text: &str) -> (r: Result<serde_json::Value, serde_json::Error>)
    ensures
        match r {
            Ok(v) => json_parse(text@) == Some(value_model(v)),
            Err(_) => json_parse(text@).is_none(),
        },
{
    serde_json::from_str::<serde_json::Value>(text)
}

/// `serde_json::to_string` on a `Value`: prints the document in compact form.
/// Printing a `Value` cannot fail: its keys are strings and its numbers finite.
/// A number that is not held as an integer is printed as the text that the
/// model keeps for it.
#[verifier::external_body]
pub(crate) fn print_value(v: &serde_json::Value) -> (text: String)
    ensures
        text@ == json_print(value_model(*v)),
        value_model(*v) matches JsonModel::Real(number) ==> text@ == number,
{
    serde_json::to_string(v).unwrap_or_default()
}

/// `Value::as_bool`: the boolean of a boolean document.
#[verifier::external_body]
pub(crate) fn value_as_bool(v: &serde_json::Value) -> (r: Option<bool>)
    ensures
        r == (match value_model(*v) {
            JsonModel::Bool(b) => Some(b),
            _ => None,
        }),
{
    v.as_bool()
}

/// `Value::as_u64`: the number of an integer document that is not negative.
#[verifier::external_body]
pub(crate) fn value_as_u64(v: &serde_json::Value) -> (r: Option<u64>)
    ensures
        r == (match value_model(*v) {
            JsonModel::Int(i) if 0 <= i <= u64::MAX => Some(i as u64),
            _ => None,
        }),
{
    v.as_u64()
}

/// `Value::as_i64`: the number of an integer document that fits in an `i64`.
#[verifier::external_body]
pub(crate) fn value_as_i64(v: &serde_json::Value) -> (r: Option<i64>)
    ensures
        r == (match value_model(*v) {
            JsonModel::Int(i) if i64::MIN <= i <= i64::MAX => Some(i as i64),
            _ => None,
        }),
{
    v.as_i64()
}

/// `Value::is_f64`: whether the document is a number that is not held as
/// an integer.
#[verifier::external_body]
pub(crate) fn value_is_real(v: &serde_json::Value) -> (r: bool)
    ensures
        r == (value_model(*v) is Real),
{
    v.is_f64()
}

/// `Value::as_str`: the text of a string document.
#[verifier::external_body]
pub(crate) fn value_as_str(v: &serde_json::Value) -> (r: Option<&str>)
    ensures
        match value_model(*v) {
            JsonModel::Str(s) => r.is_some() && r.unwrap()@ == s,
            _ => r.is_none(),
        },
{
    v.as_str()
}

/// `Value::as_array`: the items of an array document, in order.
#[verifier::external_body]
pub(crate) fn value_as_array(v: &serde_json::Value) -> (r: Option<&Vec<serde_json::Value>>)
    ensures
        match value_model(*v) {
            JsonModel::Array(items) => r.is_some() && models(r.unwrap()@) == items,
            _ => r.is_none(),
        },
{
    v.as_array()
}

/// `Value::get` with a string index: the member of an object document under
/// a key, nothing where the document is no object or has no such key.
#[verifier::external_body]
pub(crate) fn value_get<'a>(v: &'a serde_json::Value, key: &str) -> (r: Option<
    &'a serde_json::Value,
>)
    ensures
        match member(value_model(*v), key@) {
            Some(m) => r.is_some() && value_model(*r.unwrap()) == m,
            None => r.is_none(),
        },
{
    v.get(key)
}

/// `Value::Null`: the `null` document.
#[verifier::external_body]
pub(crate) fn value_null() -> (v: serde_json::Value)
    ensures
        value_model(v) == JsonModel::Null,
{
    serde_json::Value::Null
}

/// `Value::from(u64)`: an integer document.
#[verifier::external_body]
pub(crate) fn value_from_u64(n: u64) -> (v: serde_json::Value)
    ensures
        value_model(v) == JsonModel::Int(n as int),
{
    serde_json::Value::from(n)
}

/// `Value::from(&str)`: a string document.
#[verifier::external_body]
pub(crate) fn value_from_str(s: &str) -> (v: serde_json::Value)
    ensures
        value_model(v) == JsonModel::Str(s@),
{
    serde_json::Value::from(s)
}

/// `Value::Array`: an array document with the given items, in order.
#[verifier::external_body]
pub(crate) fn value_from_array(items: Vec<serde_json::Value>) -> (v: serde_json::Value)
    ensures
        value_model(v) == JsonModel::Array(models(items@)),
{
    serde_json::Value::Array(items)
}

/// `Map::new`: an object without members.
#[verifier::external_body]
pub(crate) fn object_new() -> (m: serde_json::Map<String, serde_json::Value>)
    ensures
        object_model(m) == no_members(),
{
    serde_json::Map::new()
}

/// `Map::insert`: sets the member under a key, replacing one that was there.
#[verifier::external_body]
pub(crate) fn object_insert(m: &mut serde_json::Map<String, serde_json::Value>, key: &str, v: serde_json::Value)
    ensures
        object_model(*final(m)) == object_model(*old(m)).insert(key@, value_model(v)),
{
    m.insert(key.to_owned(), v);
}

/// `Value::Object`: an object document with the given members.
#[verifier::external_body]
pub(crate) fn value_from_object(m: serde_json::Map<String, serde_json::Value>) -> (v:
    serde_json::Value)
    ensures
        value_model(v) == JsonModel::Object(object_model(m)),
{
    serde_json::Value::Object(m)
}

} // verus!
