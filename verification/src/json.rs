//! Reading JSON documents with `serde_json`.

use vstd::prelude::*;

verus! {

/// What a JSON document says. Of a number it says which one it is where it is a
/// whole number that fits 64 bits without a sign.
pub enum Json {
    Null,
    Bool(bool),
    Number(Option<u64>),
    Text(Seq<char>),
    List(Seq<Json>),
    Object(Map<Seq<char>, Json>),
}

impl Json {
    /// The member of an object; null where there is none.
    pub open spec fn member(self, key: Seq<char>) -> Json {
        if self is Object && self->Object_0.dom().contains(key) {
            self->Object_0[key]
        } else {
            Json::Null
        }
    }

    /// The number that the value is, where it is one.
    pub open spec fn number(self) -> Option<u64> {
        match self {
            Json::Number(n) => n,
            _ => None,
        }
    }

    /// The text that the value is, or else the default.
    pub open spec fn text_or(self, default: Seq<char>) -> Seq<char> {
        match self {
            Json::Text(text) => text,
            _ => default,
        }
    }
}

/// A JSON document of `serde_json`.
#[verifier::external_type_specification]
#[verifier::external_body]
pub struct ExValue(serde_json::Value);

/// What a document of `serde_json` says.
pub uninterp spec fn json_of(value: serde_json::Value) -> Json;

/// What the document that a text writes down says, or why the text is no JSON
/// document.
pub uninterp spec fn parsed_json(text: Seq<char>) -> Result<Json, Seq<char>>;

/// `serde_json::from_str` to a `serde_json::Value`: the document that the text
/// writes down, or the text of the error. Which texts are documents, what they say
/// and what the errors say is left to the name `parsed_json`.
#[verifier::external_body]
pub(crate) fn parse_json(text: &str) -> (r: Result<serde_json::Value, String>)
    ensures
        match r {
            Ok(value) => parsed_json(text@) == Ok::<Json, Seq<char>>(json_of(value)),
            Err(error) => parsed_json(text@) == Err::<Json, Seq<char>>(error@),
        },
{
    serde_json::from_str(text).map_err(|e: serde_json::Error| e.to_string())
}

/// `serde_json::Value::get` with a text: the member of that name, where the value
/// is an object that has one.
#[verifier::external_body]
pub(crate) fn get_member<'a>(value: &'a serde_json::Value, key: &str) -> (r: Option<
    &'a serde_json::Value,
>)
    ensures
        match r {
            Some(member) => json_of(*value) is Object && json_of(
                *value,
            )->Object_0.dom().contains(key@) && json_of(*member) == json_of(*value)->Object_0[key@],
            None => !(json_of(*value) is Object && json_of(*value)->Object_0.dom().contains(key@)),
        },
{
    value.get(key)
}

/// `serde_json::Value::as_u64`: the number, where the value is a whole number that
/// fits 64 bits without a sign.
pub assume_specification[ serde_json::Value::as_u64 ](value: &serde_json::Value) -> (r: Option<u64>)
    ensures
        r == json_of(*value).number(),
;

/// `serde_json::Value::as_str`: the text, where the value is one.
pub assume_specification<'a>[ serde_json::Value::as_str ](value: &'a serde_json::Value) -> (r:
    Option<&'a str>)
    ensures
        match r {
            Some(text) => json_of(*value) == Json::Text(text@),
            None => !(json_of(*value) is Text),
        },
;

/// `serde_json::Value::as_array`: the items, where the value is a list.
pub assume_specification<'a>[ serde_json::Value::as_array ](value: &'a serde_json::Value) -> (r:
    Option<&'a Vec<serde_json::Value>>)
    ensures
        match r {
            Some(items) => json_of(*value) == Json::List(
                Seq::new(items@.len(), |i: int| json_of(items@[i])),
            ),
            None => !(json_of(*value) is List),
        },
;

/// The text of a member, or else the default.
pub(crate) fn member_text<'a>(
    value: &'a serde_json::Value,
    key: &str,
    default: &'a str,
) -> (r: &'a str)
    ensures
        r@ == json_of(*value).member(key@).text_or(default@),
{
    match get_member(value, key) {
        Some(member) => match member.as_str() {
            Some(text) => text,
            None => default,
        },
        None => default,
    }
}

} // verus!
