//! What the library reads of a JSON value.
//!
//! Parsing is left to `serde_json`. A parsed value is opaque here; the library reads it only
//! through the few accessors below, and each accessor has a name for what it returns, so that
//! the decoders built on them can say exactly which values they accept.

use vstd::prelude::*;

verus! {

#[verifier::external_type_specification]
#[verifier::external_body]
pub struct ExValue(serde_json::Value);

#[verifier::external_type_specification]
#[verifier::external_body]
pub struct ExJsonError(serde_json::Error);

/// The value that `serde_json::from_str` reads from `text`; `None` where it reports an error.
pub uninterp spec fn json_of(text: Seq<char>) -> Option<serde_json::Value>;

/// What `serde_json::Value::get` finds in `v` under the key `key`: the member of that name
/// where `v` is an object that has one.
pub uninterp spec fn json_member(v: serde_json::Value, key: Seq<char>) -> Option<
    serde_json::Value,
>;

/// What `serde_json::Value::get` finds in `v` at the index `i`: the element at that place
/// where `v` is an array that is long enough.
pub uninterp spec fn json_element(v: serde_json::Value, i: int) -> Option<serde_json::Value>;

/// What `serde_json::Value::as_str` gives for `v`: its characters where `v` is a string.
pub uninterp spec fn json_text(v: serde_json::Value) -> Option<Seq<char>>;

/// What `serde_json::Value::as_i64` gives for `v`: its value where `v` is an integer that
/// fits.
pub uninterp spec fn json_integer(v: serde_json::Value) -> Option<i64>;

/// What `serde_json::Value::as_bool` gives for `v`: its value where `v` is a boolean.
pub uninterp spec fn json_flag(v: serde_json::Value) -> Option<bool>;

/// What `serde_json::Value::is_null` gives for `v`: whether `v` is the null value.
pub uninterp spec fn json_is_null(v: serde_json::Value) -> bool;

/// `serde_json::from_str`, read as a `serde_json::Value`: parses a text as one JSON value. It
/// is taken to depend on the characters of the text alone, and to return either the value or
/// an error.
#[verifier::external_body]
pub(crate) fn parse_json(text: &str) -> (r: Result<serde_json::Value, serde_json::Error>)
    ensures
        match r {
            Ok(v) => json_of(text@) == Some(v),
            Err(_) => json_of(text@) is None,
        },
{
    serde_json::from_str::<serde_json::Value>(text)
}

/// `serde_json::Value::get` with a text as the index: the member of that name, or `None`
/// where the value is no object or has no such member.
#[verifier::external_body]
pub(crate) fn member<'a>(v: &'a serde_json::Value, key: &str) -> (r: Option<&'a serde_json::Value>)
    ensures
        match r {
            Some(found) => json_member(*v, key@) == Some(*found),
            None => json_member(*v, key@) is None,
        },
{
    v.get(key)
}

/// `serde_json::Value::get` with a number as the index: the element at that place, or `None`
/// where the value is no array or is too short.
#[verifier::external_body]
pub(crate) fn element<'a>(v: &'a serde_json::Value, i: usize) -> (r: Option<&'a serde_json::Value>)
    ensures
        match r {
            Some(found) => json_element(*v, i as int) == Some(*found),
            None => json_element(*v, i as int) is None,
        },
{
    v.get(i)
}

/// `serde_json::Value::as_str` returns the text of a string value and `None` for any other
/// value.
pub assume_specification<'a>[ serde_json::Value::as_str ](v: &'a serde_json::Value) -> (r: Option<
    &'a str,
>)
    ensures
        match r {
            Some(s) => json_text(*v) == Some(s@),
            None => json_text(*v) is None,
        },
;

/// `serde_json::Value::as_i64` returns the value of an integer that fits in an `i64` and
/// `None` for any other value.
pub assume_specification[ serde_json::Value::as_i64 ](v: &serde_json::Value) -> (r: Option<i64>)
    ensures
        r == json_integer(*v),
;

/// `serde_json::Value::as_bool` returns the value of a boolean and `None` for any other
/// value.
pub assume_specification[ serde_json::Value::as_bool ](v: &serde_json::Value) -> (r: Option<bool>)
    ensures
        r == json_flag(*v),
;

/// `serde_json::Value::is_null` tells whether a value is the null value.
pub assume_specification[ serde_json::Value::is_null ](v: &serde_json::Value) -> (r: bool)
    ensures
        r == json_is_null(*v),
;

} // verus!
