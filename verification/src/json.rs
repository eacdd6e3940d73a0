//! JSON values of `serde_json`, with the contents that contracts speak of.

use serde_json::Value;
use vstd::prelude::*;

verus! {

/// A JSON value of `serde_json`. Verified code carries it and reads it only
/// through the functions of this module.
#[verifier::external_type_specification]
#[verifier::external_body]
pub struct ExValue(serde_json::Value);

/// What a JSON value holds.
pub enum Json {
    /// `null`.
    Null,
    /// `true` or `false`.
    Bool(bool),
    /// A number that is stored as an integer.
    Int(int),
    /// Any other number, by the numeral that stands for it in JSON text.
    Float(Seq<char>),
    /// A string.
    Text(Seq<char>),
    /// An array.
    List(Seq<Json>),
    /// An object: each name with its value.
    Object(Map<Seq<char>, Json>),
}

impl Json {
    /// The member called `name`, where this is an object that has one.
    pub open spec fn member(self, name: Seq<char>) -> Option<Json> {
        match self {
            Json::Object(members) if members.contains_key(name) => Some(members[name]),
            _ => None,
        }
    }

    /// The characters of a string.
    pub open spec fn text(self) -> Option<Seq<char>> {
        match self {
            Json::Text(s) => Some(s),
            _ => None,
        }
    }

    /// The characters of the member called `name`, where it is a string.
    pub open spec fn text_member(self, name: Seq<char>) -> Option<Seq<char>> {
        match self.member(name) {
            Some(value) => value.text(),
            None => None,
        }
    }
}

/// The contents of a JSON value.
pub uninterp spec fn json(value: Value) -> Json;

/// The contents of the value that JSON text stands for; `None` where the text
/// is no JSON.
pub uninterp spec fn parsed(text: Seq<char>) -> Option<Json>;

/// The compact JSON text of a value.
pub uninterp spec fn rendered(contents: Json) -> Seq<char>;

/// Calls `serde_json::from_str` for a `Value`: the value that the text stands
/// for, or nothing where the text is rejected. What is accepted depends on
/// the text alone.
#[verifier::external_body]
pub(crate) fn parse(text: &str) -> (r: Option<Value>)
    ensures
        r is Some <==> parsed(text@) is Some,
        r matches Some(value) ==> json(value) == parsed(text@)->0,
{
    serde_json::from_str(text).ok()
}

/// Calls `Value::to_string`, the `Display` of a value: its compact JSON text,
/// which depends on the contents alone.
#[verifier::external_body]
pub(crate) fn render(value: &Value) -> (r: String)
    ensures
        r@ == rendered(json(*value)),
{
    value.to_string()
}

/// Calls `Value::get` with a string: the member of that name, where the value
/// is an object that has one, and nothing otherwise.
#[verifier::external_body]
pub(crate) fn get<'a>(value: &'a Value, name: &str) -> (r: Option<&'a Value>)
    ensures
        r is Some <==> json(*value).member(name@) is Some,
        r matches Some(found) ==> json(*found) == json(*value).member(name@)->0,
{
    value.get(name)
}

/// Calls `Value::as_str`: the characters of a string, and nothing for any
/// other value.
#[verifier::external_body]
pub(crate) fn as_str(value: &Value) -> (r: Option<&str>)
    ensures
        r is Some <==> json(*value).text() is Some,
        r matches Some(s) ==> s@ == json(*value).text()->0,
{
    value.as_str()
}

/// Calls `Value::clone`: a value with the same contents.
#[verifier::external_body]
pub(crate) fn copy(value: &Value) -> (r: Value)
    ensures
        json(r) == json(*value),
{
    value.clone()
}

/// Calls `Value::from` for a `String`: a string with these characters.
#[verifier::external_body]
pub(crate) fn new_text(s: String) -> (r: Value)
    ensures
        json(r) == Json::Text(s@),
{
    Value::from(s)
}

/// Calls `Value::from` for a `u64`: a number that is stored as this integer.
#[verifier::external_body]
pub(crate) fn new_int(n: u64) -> (r: Value)
    ensures
        json(r) == Json::Int(n as int),
{
    Value::from(n)
}

/// The contents of each value of a list.
pub open spec fn contents(items: Seq<Value>) -> Seq<Json> {
    Seq::new(items.len(), |i: int| json(items[i]))
}

/// Calls `Value::from` for a `Vec<Value>`: an array of these items, in this
/// order.
#[verifier::external_body]
pub(crate) fn new_list(items: Vec<Value>) -> (r: Value)
    ensures
        json(r) == Json::List(contents(items@)),
{
    Value::from(items)
}

/// Calls `serde_json::Map::new` for the members of an object: an object
/// without members.
#[verifier::external_body]
pub(crate) fn new_object() -> (r: Value)
    ensures
        json(r) == Json::Object(Map::<Seq<char>, Json>::empty()),
{
    Value::Object(serde_json::Map::new())
}

/// Calls the assignment through `Value`'s `IndexMut` with a string: the
/// object gets a member of that name, or its member of that name gets the new
/// value, and no other member changes.
#[verifier::external_body]
pub(crate) fn put(object: &mut Value, name: &str, value: Value)
    requires
        json(*old(object)) is Object,
    ensures
        json(*final(object)) == Json::Object(
            json(*old(object))->Object_0.insert(name@, json(value)),
        ),
{
    object[name] = value;
}

/// A number in decimal notation with so many digits behind the point.
pub uninterp spec fn fixed_point(contents: Json, digits: usize) -> Seq<char>;

/// Calls `Value::as_f64`, and `format!` for so many digits behind the point: a
/// numeral for a number, which depends on the number and the count of digits
/// alone, and nothing for any other value.
#[verifier::external_body]
pub(crate) fn to_fixed_point(value: &Value, digits: usize) -> (r: Option<String>)
    requires
        digits <= u16::MAX,
    ensures
        r is Some <==> json(*value) is Int || json(*value) is Float,
        r matches Some(numeral) ==> numeral@ == fixed_point(json(*value), digits),
{
    value.as_f64().map(|number| format!("{number:.digits$}"))
}

/// The string member called `name`.
pub fn text_member<'a>(value: &'a Value, name: &str) -> (r: Option<&'a str>)
    ensures
        r is Some <==> json(*value).text_member(name@) is Some,
        r matches Some(s) ==> s@ == json(*value).text_member(name@)->0,
{
    match get(value, name) {
        Some(member) => as_str(member),
        None => None,
    }
}

/// A member is found in an object, under its own name, and nowhere else; its
/// characters are found where it is a string, and nowhere else.
pub proof fn law_members(value: Json, name: Seq<char>, found: Json, text: Seq<char>)
    ensures
        value.member(name) == Some(found) <==> (value matches Json::Object(members)
            && members.contains_key(name) && members[name] == found),
        value.text() == Some(text) <==> value == Json::Text(text),
        value.text_member(name) == Some(text) <==> value.member(name) == Some(Json::Text(text)),
{
}

/// The contents of a list are those of its values, one by one.
pub proof fn law_contents(items: Seq<Value>, i: int)
    ensures
        contents(items).len() == items.len(),
        0 <= i < items.len() ==> contents(items)[i] == json(items[i]),
{
}

} // verus!
