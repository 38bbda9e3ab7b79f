//! What the library reads of JSON documents.

use vstd::prelude::*;

verus! {

/// A JSON document, as far as the library tells documents apart.
pub enum Json {
    /// `null`, a truth value or a number.
    Other,
    /// A string.
    Text(Seq<char>),
    /// An array.
    List(Seq<Json>),
    /// An object.
    Record(Map<Seq<char>, Json>),
}

impl Json {
    /// What stands under `key` in an object that holds it.
    pub open spec fn member(self, key: Seq<char>) -> Option<Json> {
        match self {
            Json::Record(m) => if m.dom().contains(key) {
                Some(m[key])
            } else {
                None
            },
            _ => None,
        }
    }

    /// The array element at `index`, where there is one.
    pub open spec fn element(self, index: int) -> Option<Json> {
        match self {
            Json::List(s) => if 0 <= index < s.len() {
                Some(s[index])
            } else {
                None
            },
            _ => None,
        }
    }

    /// The string that the document is.
    pub open spec fn text(self) -> Option<Seq<char>> {
        match self {
            Json::Text(s) => Some(s),
            _ => None,
        }
    }
}

#[verifier::external_type_specification]
#[verifier::external_body]
pub struct ExValue(serde_json::Value);

#[verifier::external_type_specification]
#[verifier::external_body]
pub struct ExError(serde_json::Error);

/// The document that a value of `serde_json` holds.
pub uninterp spec fn document(v: serde_json::Value) -> Json;

/// The document that bytes denote, when they are one.
pub uninterp spec fn parsed_document(bytes: Seq<u8>) -> Option<Json>;

/// `serde_json::from_slice`, into a `Value`: whether it succeeds, and the
/// document that comes out, depend on the bytes alone.
#[verifier::external_body]
pub(crate) fn parse(bytes: &[u8]) -> (r: Result<serde_json::Value, serde_json::Error>)
    ensures
        match parsed_document(bytes@) {
            Some(j) => r is Ok && document(r->Ok_0) == j,
            None => r is Err,
        },
{
    serde_json::from_slice(bytes)
}

/// `serde_json::Value::get` with a string: the member of that name, of an
/// object that has one.
#[verifier::external_body]
pub(crate) fn member<'a>(v: &'a serde_json::Value, key: &str) -> (r: Option<&'a serde_json::Value>)
    ensures
        match document(*v).member(key@) {
            Some(j) => r is Some && document(*r->0) == j,
            None => r is None,
        },
{
    v.get(key)
}

/// `serde_json::Value::get` with a number: the element at that index, of an
/// array that is long enough.
#[verifier::external_body]
pub(crate) fn element<'a>(v: &'a serde_json::Value, index: usize) -> (r: Option<
    &'a serde_json::Value,
>)
    ensures
        match document(*v).element(index as int) {
            Some(j) => r is Some && document(*r->0) == j,
            None => r is None,
        },
{
    v.get(index)
}

/// `serde_json::Value::as_str`: the string that the value is, if it is one.
#[verifier::external_body]
pub(crate) fn as_text<'a>(v: &'a serde_json::Value) -> (r: Option<&'a str>)
    ensures
        match document(*v).text() {
            Some(s) => r is Some && r->0@ == s,
            None => r is None,
        },
{
    v.as_str()
}

} // verus!
