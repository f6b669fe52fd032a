//! JSON values, as `serde_json` parses them.

use vstd::prelude::*;

verus! {

/// A JSON value, which the library only carries.
#[verifier::external_type_specification]
#[verifier::external_body]
pub struct ExJsonValue(serde_json::Value);

/// `serde_json::Value::clone`, which the crate derives: the copy equals the value.
pub assume_specification[ <serde_json::Value as Clone>::clone ](value: &serde_json::Value) -> (copy:
    serde_json::Value)
    ensures
        copy == *value,
;

/// What `serde_json::from_str` makes of a text: a value, or the text of the error that says why
/// there is none.
pub uninterp spec fn parsed_arguments(text: Seq<char>) -> Result<serde_json::Value, Seq<char>>;

/// The model of a parse result.
pub open spec fn parse_view(result: Result<serde_json::Value, String>) -> Result<
    serde_json::Value,
    Seq<char>,
> {
    match result {
        Ok(value) => Ok(value),
        Err(text) => Err(text@),
    }
}

/// Calls `serde_json::from_str` for a `serde_json::Value`, and turns its error into the text
/// that the error displays. Whether it succeeds, the value and the error's text depend on the
/// text alone.
#[verifier::external_body]
pub(crate) fn parse_json(text: &str) -> (result: Result<serde_json::Value, String>)
    ensures
        parse_view(result) == parsed_arguments(text@),
{
    match serde_json::from_str(text) {
        Ok(value) => Ok(value),
        Err(error) => Err(error.to_string()),
    }
}

/// Parses the arguments of a tool call.
pub fn parse_arguments(text: &str) -> (result: Result<serde_json::Value, String>)
    ensures
        parse_view(result) == parsed_arguments(text@),
{
    parse_json(text)
}

} // verus!
