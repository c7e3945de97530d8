//! JSON objects of `serde_json`, seen as maps from names to plain values.

use serde_json::Value;
use vstd::prelude::*;

verus! {

#[verifier::external_type_specification]
#[verifier::external_body]
pub struct ExJsonValue(Value);

#[verifier::external_type_specification]
#[verifier::external_body]
#[verifier::reject_recursive_types(K)]
#[verifier::reject_recursive_types(V)]
pub struct ExJsonMap<K, V>(serde_json::Map<K, V>);

/// A member's value, as far as it is told apart: numbers that are no `u64`,
/// arrays and objects count as `Other`.
pub enum JsonScalar {
    Null,
    Bool(bool),
    Number(u64),
    Text(Seq<char>),
    Other,
}

/// A value to store as a member.
#[derive(Debug, Clone, PartialEq, Eq)]
pub enum JsonField {
    Null,
    Bool(bool),
    Number(u64),
    Text(String),
}

impl View for JsonField {
    type V = JsonScalar;

    open spec fn view(&self) -> JsonScalar {
        match *self {
            JsonField::Null => JsonScalar::Null,
            JsonField::Bool(flag) => JsonScalar::Bool(flag),
            JsonField::Number(number) => JsonScalar::Number(number),
            JsonField::Text(text) => JsonScalar::Text(text@),
        }
    }
}

/// The members that a JSON object holds, by name.
pub uninterp spec fn json_members(object: serde_json::Map<String, Value>) -> Map<
    Seq<char>,
    JsonScalar,
>;

/// No members at all.
pub open spec fn no_members() -> Map<Seq<char>, JsonScalar> {
    Map::empty()
}

/// `serde_json::Map::new` makes an object without members.
#[verifier::external_body]
pub(crate) fn empty_object() -> (r: serde_json::Map<String, Value>)
    ensures
        json_members(r) == no_members(),
{
    serde_json::Map::new()
}

/// `serde_json::Map::insert` stores a member under its name, in place of one
/// that was there. The plain value becomes the JSON value of the same kind.
#[verifier::external_body]
pub(crate) fn put_member(object: &mut serde_json::Map<String, Value>, name: &str, field: JsonField)
    ensures
        json_members(*final(object)) == json_members(*old(object)).insert(name@, field@),
{
    let value = match field {
        JsonField::Null => Value::Null,
        JsonField::Bool(flag) => Value::Bool(flag),
        JsonField::Number(number) => Value::from(number),
        JsonField::Text(text) => Value::String(text),
    };
    object.insert(name.to_owned(), value);
}

/// `serde_json::Map::get` finds a member by its name, and `Value::as_str` gives
/// its text where it is a string: nothing for a missing member, `Some(None)`
/// for one of another kind.
#[verifier::external_body]
pub(crate) fn text_member(object: &serde_json::Map<String, Value>, name: &str) -> (r: Option<
    Option<String>,
>)
    ensures
        match r {
            None => !json_members(*object).contains_key(name@),
            Some(None) => json_members(*object).contains_key(name@) && !(json_members(
                *object,
            )[name@] is Text),
            Some(Some(text)) => json_members(*object).contains_key(name@) && json_members(
                *object,
            )[name@] == JsonScalar::Text(text@),
        },
{
    object.get(name).map(|value| value.as_str().map(str::to_owned))
}

/// A value to store is the JSON value of the same kind.
pub proof fn law_field_keeps_its_kind(flag: bool, number: u64, text: String)
    ensures
        JsonField::Null@ == JsonScalar::Null,
        JsonField::Bool(flag)@ == JsonScalar::Bool(flag),
        JsonField::Number(number)@ == JsonScalar::Number(number),
        JsonField::Text(text)@ == JsonScalar::Text(text@),
{
}

} // verus!
