//! What is taken on trust about `serde_json` and about `std`.
use vstd::prelude::*;
use vstd::utf8::{encode_utf8, valid_utf8};

use crate::json::{distinct_keys, JsonValue, JsonView};

verus! {

/// `serde_json::Value`: a JSON value, closed until [`open_value`] opens it.
#[verifier::external_type_specification]
#[verifier::external_body]
pub struct ExValue(serde_json::Value);

/// `serde_json::Number`: a JSON number, never looked into.
#[verifier::external_type_specification]
#[verifier::external_body]
pub struct ExNumber(serde_json::Number);

/// `serde_json::Error`: why a text is not the JSON that was asked for.
#[verifier::external_type_specification]
#[verifier::external_body]
pub struct ExJsonError(serde_json::Error);

/// `std::string::FromUtf8Error`: why some bytes are not UTF-8.
#[verifier::external_type_specification]
#[verifier::external_body]
pub struct ExFromUtf8Error(std::string::FromUtf8Error);

/// `serde_json::Value::clone`: the copy is the same JSON value.
pub assume_specification[ <serde_json::Value as Clone>::clone ](
    value: &serde_json::Value,
) -> (copy: serde_json::Value)
    ensures
        copy == *value,
;

/// What a `serde_json::Value` holds.
pub uninterp spec fn json_view(value: serde_json::Value) -> JsonView;

/// The variants of `serde_json::Value`, told apart: the kind of the value and what
/// it holds. A `serde_json::Map` hands out its members, which have distinct keys.
#[verifier::external_body]
pub(crate) fn open_value(value: serde_json::Value) -> (opened: JsonValue)
    ensures
        opened@ == json_view(value),
        opened matches JsonValue::Object(members) ==> distinct_keys(members@),
{
    match value {
        serde_json::Value::Null => JsonValue::Null,
        serde_json::Value::Bool(b) => JsonValue::Bool(b),
        serde_json::Value::Number(number) => JsonValue::Number(number),
        serde_json::Value::String(text) => JsonValue::Text(text),
        serde_json::Value::Array(items) => JsonValue::Array(items),
        serde_json::Value::Object(members) => JsonValue::Object(members.into_iter().collect()),
    }
}

/// The variants of `serde_json::Value`, as constructors: the value of that kind that
/// holds just this. A `serde_json::Map` that is collected from members with distinct
/// keys holds these members.
#[verifier::external_body]
pub(crate) fn close_value(opened: JsonValue) -> (value: serde_json::Value)
    requires
        opened matches JsonValue::Object(members) ==> distinct_keys(members@),
    ensures
        json_view(value) == opened@,
{
    match opened {
        JsonValue::Null => serde_json::Value::Null,
        JsonValue::Bool(b) => serde_json::Value::Bool(b),
        JsonValue::Number(number) => serde_json::Value::Number(number),
        JsonValue::Text(text) => serde_json::Value::String(text),
        JsonValue::Array(items) => serde_json::Value::Array(items),
        JsonValue::Object(members) => serde_json::Value::Object(members.into_iter().collect()),
    }
}

/// `String::from(&str)`: the string holds the characters of the slice.
pub assume_specification<'a>[ <String as From<&'a str>>::from ](text: &str) -> (string: String)
    ensures
        string@ == text@,
;

/// `From::from` from a type to itself: the argument unchanged.
pub assume_specification<T>[ <T as From<T>>::from ](value: T) -> (same: T)
    ensures
        same == value,
;

/// The error that `String::from_utf8` returns for bytes that are not UTF-8.
pub uninterp spec fn utf8_error(bytes: Seq<u8>) -> std::string::FromUtf8Error;

/// `String::from_utf8`: succeeds exactly on valid UTF-8, with the string whose
/// encoding the bytes are; which error comes back depends on the bytes alone.
pub assume_specification[ String::from_utf8 ](bytes: Vec<u8>) -> (string: Result<
    String,
    std::string::FromUtf8Error,
>)
    ensures
        string is Ok <==> valid_utf8(bytes@),
        string matches Ok(s) ==> encode_utf8(s@) == bytes@,
        string matches Err(e) ==> e == utf8_error(bytes@),
;

} // verus!
