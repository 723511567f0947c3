//! JSON documents, as `serde_json` reads and writes them.

use vstd::prelude::*;
use vstd::string::StringExecFns;

verus! {

/// A JSON document of `serde_json`. Its content is known through `json_of`.
#[verifier::external_type_specification]
#[verifier::external_body]
pub struct ExValue(serde_json::Value);

/// The mathematical value of a JSON document. An object is the sequence of
/// its members in the order of the document. A number with a fraction or
/// an exponent is `Real`, whatever its value.
pub enum Json {
    Null,
    Bool(bool),
    Integer(int),
    Real,
    Text(Seq<char>),
    Array(Seq<Json>),
    Object(Seq<(Seq<char>, Json)>),
}

/// The content of a document.
pub uninterp spec fn json_of(value: serde_json::Value) -> Json;

/// The document that `serde_json::from_slice` reads from `bytes`, or `None`
/// where it rejects them.
pub uninterp spec fn parsed(bytes: Seq<u8>) -> Option<Json>;

/// The bytes that `serde_json::to_vec` writes for an array of records. It
/// stands for nothing on other documents: the content of a document does
/// not tell which value a `Real` has, so it does not fix their bytes.
pub uninterp spec fn rendered(doc: Json) -> Seq<u8>;

/// The contents of a list of documents.
pub open spec fn contents(values: Seq<serde_json::Value>) -> Seq<Json> {
    values.map_values(|value: serde_json::Value| json_of(value))
}

/// A list of keys with their documents, as members of an object.
pub open spec fn members_of(pairs: Seq<(String, serde_json::Value)>) -> Seq<(Seq<char>, Json)> {
    pairs.map_values(|pair: (String, serde_json::Value)| (pair.0@, json_of(pair.1)))
}

/// No two members share a key.
pub open spec fn distinct_keys(members: Seq<(Seq<char>, Json)>) -> bool {
    forall|i: int, j: int|
        0 <= i < j < members.len() ==> (#[trigger] members[i]).0 != (#[trigger] members[j]).0
}

/// The value of the first member under `key`, if there is one.
pub open spec fn lookup(members: Seq<(Seq<char>, Json)>, key: Seq<char>) -> Option<Json>
    decreases members.len(),
{
    if members.len() == 0 {
        None
    } else if members[0].0 == key {
        Some(members[0].1)
    } else {
        lookup(members.skip(1), key)
    }
}

/// A value without parts: a text, an integer or a truth value.
pub open spec fn is_scalar(doc: Json) -> bool {
    doc is Text || doc is Integer || doc is Bool
}

/// An object whose members have distinct keys and scalar values.
pub open spec fn is_record(doc: Json) -> bool {
    &&& doc matches Json::Object(members)
    &&& distinct_keys(members)
    &&& forall|i: int| 0 <= i < members.len() ==> is_scalar((#[trigger] members[i]).1)
}

/// An array of records.
pub open spec fn is_table(doc: Json) -> bool {
    &&& doc matches Json::Array(items)
    &&& forall|i: int| 0 <= i < items.len() ==> is_record(#[trigger] items[i])
}

/// Member `i` is the first one under its key where no earlier member has it.
pub proof fn lemma_lookup(members: Seq<(Seq<char>, Json)>, i: int)
    requires
        0 <= i < members.len(),
        forall|j: int| 0 <= j < i ==> (#[trigger] members[j]).0 != members[i].0,
    ensures
        lookup(members, members[i].0) == Some(members[i].1),
    decreases i,
{
    if i > 0 {
        let rest = members.skip(1);
        assert(members[0].0 != members[i].0);
        assert(rest[i - 1] == members[i]);
        assert forall|j: int| 0 <= j < i - 1 implies (#[trigger] rest[j]).0 != rest[i - 1].0 by {
            assert(members[j + 1].0 != members[i].0);
        }
        lemma_lookup(rest, i - 1);
    }
}

/// Whether two texts hold the same characters.
pub(crate) fn same_text(a: &str, b: &str) -> (same: bool)
    ensures
        same == (a@ == b@),
{
    let left = String::from_str(a);
    let right = String::from_str(b);
    left.eq(&right)
}

/// Wraps a text as a document: `serde_json::Value::String`.
#[verifier::external_body]
pub(crate) fn text_value(text: String) -> (value: serde_json::Value)
    ensures
        json_of(value) == Json::Text(text@),
{
    serde_json::Value::String(text)
}

/// Wraps an integer as a document: `serde_json::Value::from` on an `i64`,
/// which gives a number without fraction.
#[verifier::external_body]
pub(crate) fn integer_value(n: i64) -> (value: serde_json::Value)
    ensures
        json_of(value) == Json::Integer(n as int),
{
    serde_json::Value::from(n)
}

/// Wraps a truth value as a document: `serde_json::Value::Bool`.
#[verifier::external_body]
pub(crate) fn flag_value(flag: bool) -> (value: serde_json::Value)
    ensures
        json_of(value) == Json::Bool(flag),
{
    serde_json::Value::Bool(flag)
}

/// Wraps a list of documents as an array: `serde_json::Value::Array`.
#[verifier::external_body]
pub(crate) fn array_value(items: Vec<serde_json::Value>) -> (value: serde_json::Value)
    ensures
        json_of(value) == Json::Array(contents(items@)),
{
    serde_json::Value::Array(items)
}

/// Collects keys and documents into an object: `serde_json::Map` as it is
/// built from an iterator, inside `serde_json::Value::Object`. With keys
/// that are distinct the members stand in the order given.
#[verifier::external_body]
pub(crate) fn object_value(pairs: Vec<(String, serde_json::Value)>) -> (value: serde_json::Value)
    requires
        distinct_keys(members_of(pairs@)),
    ensures
        json_of(value) == Json::Object(members_of(pairs@)),
{
    serde_json::Value::Object(pairs.into_iter().collect())
}

/// Reads a document: `serde_json::from_slice`. The result is `Ok` exactly
/// where `parsed` is defined, and then holds that document; otherwise it
/// holds the message of the failure that `serde_json` reported.
#[verifier::external_body]
pub(crate) fn parse(bytes: &[u8]) -> (r: Result<serde_json::Value, String>)
    ensures
        r is Ok <==> parsed(bytes@) is Some,
        r matches Ok(value) ==> parsed(bytes@) == Some(json_of(value)),
{
    match serde_json::from_slice::<serde_json::Value>(bytes) {
        Ok(value) => Ok(value),
        Err(err) => Err(err.to_string()),
    }
}

/// Writes an array of records: `serde_json::to_vec`. On a
/// `serde_json::Value` the writer has nothing to refuse, since every key is
/// a text and the target is a vector, so the result is `Ok` and holds the
/// bytes `rendered`. `serde_json::from_slice` reads them back as the same
/// document: texts, integers and truth values are written in full, and the
/// members keep their order.
#[verifier::external_body]
pub(crate) fn render(value: &serde_json::Value) -> (r: Result<Vec<u8>, String>)
    requires
        is_table(json_of(*value)),
    ensures
        r is Ok,
        r matches Ok(bytes) ==> bytes@ == rendered(json_of(*value)),
        r matches Ok(bytes) ==> parsed(bytes@) == Some(json_of(*value)),
{
    match serde_json::to_vec(value) {
        Ok(bytes) => Ok(bytes),
        Err(err) => Err(err.to_string()),
    }
}

/// Whether a document is `null`: `serde_json::Value::is_null`.
#[verifier::external_body]
pub(crate) fn is_null(value: &serde_json::Value) -> (null: bool)
    ensures
        null == (json_of(*value) is Null),
{
    value.is_null()
}

/// Whether a document is an object: `serde_json::Value::is_object`.
#[verifier::external_body]
pub(crate) fn is_object(value: &serde_json::Value) -> (object: bool)
    ensures
        object == (json_of(*value) is Object),
{
    value.is_object()
}

/// The items of an array: `serde_json::Value::as_array`, which gives
/// nothing for a document that is no array.
#[verifier::external_body]
pub(crate) fn as_items(value: &serde_json::Value) -> (r: Option<&Vec<serde_json::Value>>)
    ensures
        match json_of(*value) {
            Json::Array(items) => r matches Some(list) && contents(list@) == items,
            _ => r is None,
        },
{
    value.as_array()
}

/// The member of an object under a key: `serde_json::Value::get` with a
/// text, which gives nothing where there is no such member or the document
/// is no object.
#[verifier::external_body]
pub(crate) fn member<'a>(value: &'a serde_json::Value, key: &str) -> (r: Option<
    &'a serde_json::Value,
>)
    ensures
        match json_of(*value) {
            Json::Object(members) => match lookup(members, key@) {
                Some(found) => r matches Some(inner) && json_of(*inner) == found,
                None => r is None,
            },
            _ => r is None,
        },
{
    value.get(key)
}

/// The text of a document: `serde_json::Value::as_str`, which gives
/// nothing for a document that is no text.
#[verifier::external_body]
pub(crate) fn as_text(value: &serde_json::Value) -> (r: Option<&str>)
    ensures
        match json_of(*value) {
            Json::Text(text) => r matches Some(found) && found@ == text,
            _ => r is None,
        },
{
    value.as_str()
}

/// The integer of a document: `serde_json::Value::as_i64`, which gives
/// nothing for a document that is no integer or does not fit an `i64`.
#[verifier::external_body]
pub(crate) fn as_integer(value: &serde_json::Value) -> (r: Option<i64>)
    ensures
        match json_of(*value) {
            Json::Integer(n) => if i64::MIN <= n <= i64::MAX {
                r == Some(n as i64)
            } else {
                r is None
            },
            _ => r is None,
        },
{
    value.as_i64()
}

/// The truth value of a document: `serde_json::Value::as_bool`, which
/// gives nothing for a document that is no truth value.
#[verifier::external_body]
pub(crate) fn as_flag(value: &serde_json::Value) -> (r: Option<bool>)
    ensures
        match json_of(*value) {
            Json::Bool(flag) => r == Some(flag),
            _ => r is None,
        },
{
    value.as_bool()
}

} // verus!
