//! Texts read as JSON.
//!
//! The parser is that of `serde_json`. What it makes of a text is named, not
//! restated; what the client does with the parser's answer is stated exactly.

use vstd::prelude::*;
use serde_json::Value;
use crate::error::{result_view, HttpError, HttpErrorView};

verus! {

/// A JSON value of `serde_json`.
#[verifier::external_type_specification]
#[verifier::external_body]
pub struct ExValue(Value);

/// What `serde_json::from_str` makes of `text` when it is asked for a
/// `Value`: the value that the whole text denotes, or else what the parser's
/// error prints when it is formatted with `{:?}`, its message with the line
/// and the column of the fault.
pub uninterp spec fn json_parse(text: Seq<char>) -> Result<Value, Seq<char>>;

/// The value of a parser's answer: the description of the fault as a
/// sequence of characters.
pub open spec fn parsed_view(parsed: Result<Value, String>) -> Result<Value, Seq<char>> {
    match parsed {
        Ok(value) => Ok(value),
        Err(diagnostic) => Err(diagnostic@),
    }
}

/// Parses `text`. Calls `serde_json::from_str` for a `Value` and formats an
/// error with `{:?}`; the claim is only that the answer is the one named
/// `json_parse`, the same for the same text.
#[verifier::external_body]
fn parse_value(text: &str) -> (parsed: Result<Value, String>)
    ensures
        parsed_view(parsed) == json_parse(text@),
{
    serde_json::from_str::<Value>(text).map_err(|error| format!("{:?}", error))
}

/// The result of reading as JSON a text from `url` for which the parser
/// answered `parsed`: the parser's value, or a failure that names the address
/// and carries the parser's description.
pub open spec fn parsed_result(url: Seq<char>, parsed: Result<Value, Seq<char>>) -> Result<
    Value,
    HttpErrorView,
> {
    match parsed {
        Ok(value) => Ok(value),
        Err(diagnostic) => Err(HttpErrorView::Json { url, diagnostic }),
    }
}

/// The result of reading as JSON what a text fetch from `url` gave: the
/// fetch's own failure where it failed, else what the parser makes of the
/// text.
pub open spec fn json_result(url: Seq<char>, fetched: Result<Seq<char>, HttpErrorView>) -> Result<
    Value,
    HttpErrorView,
> {
    match fetched {
        Ok(text) => parsed_result(url, json_parse(text)),
        Err(error) => Err(error),
    }
}

/// Gives the result for a parser's answer on a text from `url`. A parser's
/// fault is never swallowed, and no value is returned beside one.
pub fn read_parsed(url: &str, parsed: Result<Value, String>) -> (r: Result<Value, HttpError>)
    ensures
        result_view(r) == parsed_result(url@, parsed_view(parsed)),
{
    match parsed {
        Ok(value) => Ok(value),
        Err(diagnostic) => Err(HttpError::Json { url: String::from_str(url), diagnostic }),
    }
}

/// Reads as JSON what a text fetch from `url` gave.
pub fn read_json(url: &str, fetched: Result<String, HttpError>) -> (r: Result<Value, HttpError>)
    ensures
        result_view(r) == json_result(url@, crate::error::text_result_view(fetched)),
{
    match fetched {
        Ok(text) => read_parsed(url, parse_value(text.as_str())),
        Err(error) => Err(error),
    }
}

/// A text that the parser refuses gives a failure that names the address,
/// and never a value.
pub proof fn lemma_malformed_json_fails(url: Seq<char>, text: Seq<char>)
    requires
        json_parse(text) is Err,
    ensures
        json_result(url, Ok(text)) matches Err(error) && error is Json && error.url() == Some(url),
{
}

} // verus!
