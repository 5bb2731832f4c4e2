//! JSON values, as `serde_json` parses and holds them.
//!
//! A `serde_json::Value` is opaque to the verifier. What it holds is named by
//! [`json_model`], and the accessors that the decoders call have contracts
//! over that model. Those contracts and that of the parser are taken on
//! trust from the source of `serde_json`; everything else in this crate is
//! proved from them.

use crate::notion::text_option;
use vstd::prelude::*;

verus! {

/// What a JSON value holds. Of a number the model keeps only that it is one.
pub enum JsonModel {
    Null,
    Bool(bool),
    Number,
    Text(Seq<char>),
    List(Seq<JsonModel>),
    Object(Map<Seq<char>, JsonModel>),
}

/// The member of an object under `key`. A value that is no object has no
/// member.
pub open spec fn member_of(json: JsonModel, key: Seq<char>) -> Option<JsonModel> {
    match json {
        JsonModel::Object(members) => if members.contains_key(key) {
            Some(members[key])
        } else {
            None
        },
        _ => None,
    }
}

/// The text of a string.
pub open spec fn text_of(json: JsonModel) -> Option<Seq<char>> {
    match json {
        JsonModel::Text(text) => Some(text),
        _ => None,
    }
}

/// The value of a boolean.
pub open spec fn flag_of(json: JsonModel) -> Option<bool> {
    match json {
        JsonModel::Bool(flag) => Some(flag),
        _ => None,
    }
}

/// The items of an array.
pub open spec fn items_of(json: JsonModel) -> Option<Seq<JsonModel>> {
    match json {
        JsonModel::List(items) => Some(items),
        _ => None,
    }
}

/// The text of the member under `key`, where there is such a member and it
/// is a string.
pub open spec fn text_member_of(json: JsonModel, key: Seq<char>) -> Option<Seq<char>> {
    match member_of(json, key) {
        Some(m) => text_of(m),
        None => None,
    }
}

/// `serde_json::Value`, a JSON value.
#[verifier::external_type_specification]
#[verifier::external_body]
pub struct ExValue(serde_json::Value);

/// `serde_json::Error`, the failure of a parse.
#[verifier::external_type_specification]
#[verifier::external_body]
pub struct ExError(serde_json::Error);

/// What a `serde_json::Value` holds: which of `Null`, `Bool`, `Number`,
/// `String`, `Array` and `Object` it is, the flag of a `Bool`, the text of a
/// `String`, the items of an `Array` in order, and the members of an `Object`
/// by key.
pub uninterp spec fn json_model(value: serde_json::Value) -> JsonModel;

/// What `serde_json::from_str` makes of a text: the value that the text
/// denotes, or nothing where the parser refuses the text.
pub uninterp spec fn json_of_text(text: Seq<char>) -> Option<JsonModel>;

/// `serde_json::from_str`, asked for a `serde_json::Value`. Trusted: whether
/// it succeeds, and what the value then holds, depend on the text alone.
#[verifier::external_body]
pub(crate) fn parse(text: &str) -> (outcome: Result<serde_json::Value, serde_json::Error>)
    ensures
        match outcome {
            Ok(value) => json_of_text(text@) == Some(json_model(value)),
            Err(_) => json_of_text(text@) is None,
        },
{
    serde_json::from_str::<serde_json::Value>(text)
}

/// The `Display` text of a `serde_json::Error`. Nothing is claimed of it.
#[verifier::external_body]
pub(crate) fn describe(error: &serde_json::Error) -> String {
    error.to_string()
}

/// `serde_json::Value::get` with a text as index. Trusted: it yields the
/// member under `key` where the value is an object that has one, and nothing
/// for an object without such a member and for a value that is no object.
#[verifier::external_body]
pub(crate) fn member<'a>(value: &'a serde_json::Value, key: &str) -> (found: Option<
    &'a serde_json::Value,
>)
    ensures
        match found {
            Some(v) => member_of(json_model(*value), key@) == Some(json_model(*v)),
            None => member_of(json_model(*value), key@) is None,
        },
{
    value.get(key)
}

/// `serde_json::Value::as_str`. Trusted: it yields the text of a `String`
/// and nothing for any other value.
pub assume_specification<'a>[ serde_json::Value::as_str ](value: &'a serde_json::Value) -> (text:
    Option<&'a str>)
    ensures
        match text {
            Some(t) => text_of(json_model(*value)) == Some(t@),
            None => text_of(json_model(*value)) is None,
        },
;

/// `serde_json::Value::as_bool`. Trusted: it yields the flag of a `Bool` and
/// nothing for any other value.
pub assume_specification[ serde_json::Value::as_bool ](value: &serde_json::Value) -> (flag: Option<
    bool,
>)
    ensures
        flag == flag_of(json_model(*value)),
;

/// `serde_json::Value::as_array`. Trusted: it yields the items of an `Array`,
/// in order, and nothing for any other value.
pub assume_specification<'a>[ serde_json::Value::as_array ](value: &'a serde_json::Value) -> (list:
    Option<&'a Vec<serde_json::Value>>)
    ensures
        match list {
            Some(l) => items_of(json_model(*value)) == Some(
                l@.map_values(|v: serde_json::Value| json_model(v)),
            ),
            None => items_of(json_model(*value)) is None,
        },
;

/// `serde_json::Value::is_null`. Trusted: it tells whether the value is
/// `Null`.
pub assume_specification[ serde_json::Value::is_null ](value: &serde_json::Value) -> (null: bool)
    ensures
        null == (json_model(*value) is Null),
;

/// Whether two texts are the same, letter by letter.
pub fn same_text(left: &str, right: &str) -> (same: bool)
    ensures
        same == (left@ == right@),
{
    let l = left.to_owned();
    let r = right.to_owned();
    l == r
}

/// A copy of the text of the member under `key`, where the value is an
/// object with such a member and the member is a string.
pub fn text_member(value: &serde_json::Value, key: &str) -> (text: Option<String>)
    ensures
        text_option(text) == text_member_of(json_model(*value), key@),
{
    match member(value, key) {
        Some(m) => match m.as_str() {
            Some(t) => Some(t.to_owned()),
            None => None,
        },
        None => None,
    }
}

} // verus!
