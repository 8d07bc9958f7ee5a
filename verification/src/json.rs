//! JSON documents as `serde_json` holds them, and what they mean.
//!
//! A `serde_json::Value` is opaque to the verifier. Its content is named by
//! [`json_model`], and the few constructors and accessors that the crate
//! needs are given contracts over that name. Those contracts are believed,
//! not proved; everything built from them is proved.

use vstd::prelude::*;
use serde_json::Value;

verus! {

/// The content of a JSON document.
pub enum JsonDoc {
    Null,
    Bool(bool),
    /// A number without fraction or exponent.
    Integer(int),
    /// Any other number. Its digits are not modelled.
    Fraction,
    Text(Seq<char>),
    List(Seq<JsonDoc>),
    Object(Map<Seq<char>, JsonDoc>),
}

impl JsonDoc {
    /// The members of an object; no members for any other document.
    pub open spec fn members(self) -> Map<Seq<char>, JsonDoc> {
        match self {
            JsonDoc::Object(m) => m,
            _ => Map::empty(),
        }
    }

    /// Whether the document is an object with a member of that name.
    pub open spec fn has(self, key: Seq<char>) -> bool {
        self is Object && self.members().contains_key(key)
    }

    /// The member of that name.
    pub open spec fn at(self, key: Seq<char>) -> JsonDoc
        recommends
            self.has(key),
    {
        self.members()[key]
    }
}

/// An object with one member.
pub open spec fn object1(key: Seq<char>, value: JsonDoc) -> JsonDoc {
    JsonDoc::Object(Map::empty().insert(key, value))
}

/// The members `m`, and over them the member `key` where a value is given.
pub open spec fn with_member(
    m: Map<Seq<char>, JsonDoc>,
    key: Seq<char>,
    value: Option<JsonDoc>,
) -> Map<Seq<char>, JsonDoc> {
    match value {
        Some(d) => m.insert(key, d),
        None => m,
    }
}

/// `serde_json::Value`, carried as an opaque value.
#[verifier::external_type_specification]
#[verifier::external_body]
pub struct ExValue(serde_json::Value);

/// `serde_json::Error`, carried as an opaque value.
#[verifier::external_type_specification]
#[verifier::external_body]
pub struct ExJsonError(serde_json::Error);

/// The document that a `serde_json::Value` holds.
pub uninterp spec fn json_model(v: serde_json::Value) -> JsonDoc;

/// The document of a value that may be absent.
pub open spec fn model_of(v: Option<Value>) -> Option<JsonDoc> {
    match v {
        Some(v) => Some(json_model(v)),
        None => None,
    }
}

/// `serde_json::Value::Object` on `serde_json::Map::new()`: an object
/// without members.
#[verifier::external_body]
pub(crate) fn empty_object() -> (v: Value)
    ensures
        json_model(v) == JsonDoc::Object(Map::empty()),
{
    Value::Object(serde_json::Map::new())
}

/// `serde_json::Value::String`: the string value with the given text.
#[verifier::external_body]
pub(crate) fn text_value(s: String) -> (v: Value)
    ensures
        json_model(v) == JsonDoc::Text(s@),
{
    Value::String(s)
}

/// `From<u64>` for `serde_json::Value`: the number value of that integer.
#[verifier::external_body]
pub(crate) fn integer_value(n: u64) -> (v: Value)
    ensures
        json_model(v) == JsonDoc::Integer(n as int),
{
    Value::from(n)
}

/// `IndexMut<&str>` for `serde_json::Value`, followed by an assignment:
/// `obj[key] = value`. On an object this sets the member `key` to `value`,
/// in place of an earlier member of that name, and leaves the other
/// members as they were. The index panics on a value that is neither an
/// object nor null, so only objects are admitted.
#[verifier::external_body]
pub(crate) fn set_member(obj: &mut Value, key: &str, value: Value)
    requires
        json_model(*old(obj)) is Object,
    ensures
        json_model(*final(obj)) == JsonDoc::Object(
            json_model(*old(obj)).members().insert(key@, json_model(value)),
        ),
{
    obj[key] = value;
}

/// `serde_json::Value::get` with a string index: the member of that name
/// if the value is an object that has one, and `None` otherwise.
#[verifier::external_body]
pub(crate) fn member<'a>(obj: &'a Value, key: &str) -> (r: Option<&'a Value>)
    ensures
        r is Some <==> json_model(*obj).has(key@),
        r matches Some(v) ==> json_model(*v) == json_model(*obj).at(key@),
{
    obj.get(key)
}

/// An object with the single member `key`.
pub(crate) fn singleton_object(key: &str, value: Value) -> (v: Value)
    ensures
        json_model(v) == object1(key@, json_model(value)),
{
    let mut obj = empty_object();
    set_member(&mut obj, key, value);
    obj
}

/// Sets the member `key` where a value is given, and leaves the object as it
/// is where none is.
pub(crate) fn set_optional_member(obj: &mut Value, key: &str, value: Option<Value>)
    requires
        json_model(*old(obj)) is Object,
    ensures
        json_model(*final(obj)) == JsonDoc::Object(
            with_member(json_model(*old(obj)).members(), key@, model_of(value)),
        ),
{
    match value {
        Some(v) => {
            set_member(obj, key, v);
        },
        None => {},
    }
}

} // verus!
