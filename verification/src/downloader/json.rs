//! JSON documents, as `serde_json` holds them.
//!
//! Verified code never looks inside a `serde_json::Value`. It reasons about
//! the tree that a value stands for, [`json_view`], and reads and builds
//! values through the functions of this module, whose contracts are stated
//! over that tree and are taken on trust from `serde_json`.

use vstd::prelude::*;

verus! {

/// A JSON number, as far as this library distinguishes numbers.
pub enum JsonNumber {
    /// A non-negative integer that fits in 64 bits.
    Unsigned(u64),
    /// A negative integer or a number with a fraction or an exponent.
    Other,
}

/// The tree that a JSON value stands for.
pub enum JsonView {
    Null,
    Bool(bool),
    Number(JsonNumber),
    Text(Seq<char>),
    Array(Seq<JsonView>),
    Object(Map<Seq<char>, JsonView>),
}

impl JsonView {
    /// The member `key` of an object. Anything but an object has no members.
    pub open spec fn get(self, key: Seq<char>) -> Option<JsonView> {
        match self {
            JsonView::Object(members) => if members.contains_key(key) {
                Some(members[key])
            } else {
                None
            },
            _ => None,
        }
    }

    /// The member `key` unless it is missing or `null`.
    pub open spec fn present(self, key: Seq<char>) -> Option<JsonView> {
        match self.get(key) {
            Some(JsonView::Null) => None,
            other => other,
        }
    }
}

/// `serde_json::Value`, a JSON value. Opaque to the verifier.
#[verifier::external_type_specification]
#[verifier::external_body]
pub struct ExValue(serde_json::Value);

/// `serde_json::Map`, the members of a JSON object. Opaque to the verifier.
#[verifier::external_type_specification]
#[verifier::external_body]
#[verifier::reject_recursive_types(K)]
#[verifier::reject_recursive_types(V)]
pub struct ExMap<K, V>(serde_json::Map<K, V>);

/// The tree that `value` stands for.
pub uninterp spec fn json_view(value: serde_json::Value) -> JsonView;

/// The members that `object` holds, by key.
pub uninterp spec fn members_view(object: serde_json::Map<String, serde_json::Value>) -> Map<
    Seq<char>,
    JsonView,
>;

/// What `serde_json` makes of `text`: the tree that it reads where `text` is
/// a JSON document, and its complaint where it is none.
pub uninterp spec fn json_parse(text: Seq<u8>) -> Result<JsonView, Seq<char>>;

/// `serde_json::from_slice` at `Value`: parses a whole JSON document. A
/// failure comes back as the text that the error displays. The result
/// depends on the bytes alone.
#[verifier::external_body]
pub(crate) fn parse(text: &[u8]) -> (r: Result<serde_json::Value, String>)
    ensures
        r matches Ok(value) ==> json_parse(text@) == (Ok::<JsonView, Seq<char>>(json_view(value))),
        r matches Err(complaint) ==> json_parse(text@) == (Err::<JsonView, Seq<char>>(complaint@)),
{
    match serde_json::from_slice::<serde_json::Value>(text) {
        Ok(value) => Ok(value),
        Err(error) => Err(error.to_string()),
    }
}

/// `Value::get` with a string key: the member of that name when the value is
/// an object that has it.
#[verifier::external_body]
pub(crate) fn get<'a>(value: &'a serde_json::Value, key: &str) -> (r: Option<&'a serde_json::Value>)
    ensures
        r matches Some(member) ==> json_view(*value).get(key@) == Some(json_view(*member)),
        r is None ==> json_view(*value).get(key@) is None,
{
    value.get(key)
}

/// `Value::is_object`.
#[verifier::external_body]
pub(crate) fn is_object(value: &serde_json::Value) -> (r: bool)
    ensures
        r == (json_view(*value) is Object),
{
    value.is_object()
}

/// `Value::is_null`.
#[verifier::external_body]
pub(crate) fn is_null(value: &serde_json::Value) -> (r: bool)
    ensures
        r == (json_view(*value) is Null),
{
    value.is_null()
}

/// `Value::as_str`: the text of a JSON string.
#[verifier::external_body]
pub(crate) fn as_str<'a>(value: &'a serde_json::Value) -> (r: Option<&'a str>)
    ensures
        r matches Some(text) ==> json_view(*value) == JsonView::Text(text@),
        r is None ==> !(json_view(*value) is Text),
{
    value.as_str()
}

/// `Value::as_u64`: the value of a number that is a non-negative integer
/// below 2^64.
#[verifier::external_body]
pub(crate) fn as_u64(value: &serde_json::Value) -> (r: Option<u64>)
    ensures
        r matches Some(n) ==> json_view(*value) == JsonView::Number(JsonNumber::Unsigned(n)),
        r is None ==> !(json_view(*value) matches JsonView::Number(JsonNumber::Unsigned(_))),
{
    value.as_u64()
}

/// `Value::as_array`: the elements of a JSON array, in order.
#[verifier::external_body]
pub(crate) fn as_array<'a>(value: &'a serde_json::Value) -> (r: Option<&'a Vec<serde_json::Value>>)
    ensures
        r matches Some(items) ==> json_view(*value) == JsonView::Array(
            Seq::new(items@.len(), |i: int| json_view(items@[i])),
        ),
        r is None ==> !(json_view(*value) is Array),
{
    value.as_array()
}

/// `Value::clone`: a value that stands for the same tree.
#[verifier::external_body]
pub(crate) fn duplicate(value: &serde_json::Value) -> (r: serde_json::Value)
    ensures
        json_view(r) == json_view(*value),
{
    value.clone()
}

/// `Value::Null`.
#[verifier::external_body]
pub(crate) fn null() -> (r: serde_json::Value)
    ensures
        json_view(r) == JsonView::Null,
{
    serde_json::Value::Null
}

/// `Value::from` at `&str`: a JSON string.
#[verifier::external_body]
pub(crate) fn text(content: &str) -> (r: serde_json::Value)
    ensures
        json_view(r) == JsonView::Text(content@),
{
    serde_json::Value::from(content)
}

/// `Value::from` at `u64`: a JSON number.
#[verifier::external_body]
pub(crate) fn unsigned(n: u64) -> (r: serde_json::Value)
    ensures
        json_view(r) == JsonView::Number(JsonNumber::Unsigned(n)),
{
    serde_json::Value::from(n)
}

/// `Value::from` at `bool`.
#[verifier::external_body]
pub(crate) fn boolean(b: bool) -> (r: serde_json::Value)
    ensures
        json_view(r) == JsonView::Bool(b),
{
    serde_json::Value::from(b)
}

/// `Map::new`: an object without members.
#[verifier::external_body]
pub(crate) fn new_members() -> (r: serde_json::Map<String, serde_json::Value>)
    ensures
        members_view(r) == (Map::<Seq<char>, JsonView>::empty()),
{
    serde_json::Map::new()
}

/// `Map::insert`: sets the member `key`, replacing an earlier one of that name.
#[verifier::external_body]
pub(crate) fn insert(object: &mut serde_json::Map<String, serde_json::Value>, key: &str, value: serde_json::Value)
    ensures
        members_view(*final(object)) == members_view(*old(object)).insert(key@, json_view(value)),
{
    object.insert(key.to_string(), value);
}

/// `Value::from` at `Map`: the object with the given members.
#[verifier::external_body]
pub(crate) fn object(members: serde_json::Map<String, serde_json::Value>) -> (r: serde_json::Value)
    ensures
        json_view(r) == JsonView::Object(members_view(members)),
{
    serde_json::Value::from(members)
}

} // verus!
