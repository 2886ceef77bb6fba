//! Lenient readings of JSON values, for the quirks of the X API v2:
//! - IDs that are strings or numbers;
//! - booleans that are strings or actual booleans;
//! - empty strings where null is meant;
//! - arrays that are null or missing.
//!
//! The functions read a [`FlexValue`], which holds of a JSON value what they
//! need: its kind, and of a number its text and its value as a 64-bit
//! integer where it has one. A value that cannot be read gives the message
//! that says why.

use crate::util::number::{parse_u64, parsed_u64, ParsedNumber};
use crate::util::text::{concat2, concat3, is_blank, is_blank_text, same_text};
use vstd::prelude::*;
use vstd::string::*;

verus! {

/// A JSON number: how it is written, and what it is as a 64-bit integer.
#[derive(Debug, Clone)]
pub struct FlexNumber {
    /// The number as JSON writes it.
    pub text: String,
    /// The number as a signed 64-bit integer, if it is one.
    pub as_i64: Option<i64>,
    /// The number as an unsigned 64-bit integer, if it is one.
    pub as_u64: Option<u64>,
}

/// A JSON value, as far as the lenient readings look at it.
#[derive(Debug, Clone)]
pub enum FlexValue {
    /// `null`.
    Null,
    /// `true` or `false`.
    Bool(bool),
    /// A number.
    Number(FlexNumber),
    /// A string.
    Text(String),
    /// An array or an object; all that is kept is how it is shown in
    /// messages.
    Other(String),
}

/// The message for a text that is no number.
pub open spec fn parse_failure_message(outcome: ParsedNumber) -> Seq<char> {
    "failed to parse number: "@ + match outcome {
        ParsedNumber::Empty => "cannot parse integer from empty string"@,
        ParsedNumber::InvalidDigit => "invalid digit found in string"@,
        _ => "number too large to fit in target type"@,
    }
}

/// The boolean that a text stands for, if it stands for one.
pub open spec fn text_as_bool(text: Seq<char>) -> Option<bool> {
    if text == "true"@ || text == "True"@ || text == "TRUE"@ || text == "1"@ {
        Some(true)
    } else if text == "false"@ || text == "False"@ || text == "FALSE"@ || text == "0"@ || text
        == ""@ {
        Some(false)
    } else {
        None
    }
}

impl FlexValue {
    /// How the value is shown in messages.
    pub open spec fn spec_shown(&self) -> Seq<char> {
        match self {
            FlexValue::Null => "Null"@,
            FlexValue::Bool(b) => if *b {
                "Bool(true)"@
            } else {
                "Bool(false)"@
            },
            FlexValue::Number(n) => "Number("@ + n.text@ + ")"@,
            FlexValue::Text(s) => "String(\""@ + s@ + "\")"@,
            FlexValue::Other(shown) => shown@,
        }
    }

    /// How the value is shown in messages.
    pub fn shown(&self) -> (text: String)
        ensures
            text@ == self.spec_shown(),
    {
        match self {
            FlexValue::Null => "Null".to_owned(),
            FlexValue::Bool(b) => if *b {
                "Bool(true)".to_owned()
            } else {
                "Bool(false)".to_owned()
            },
            FlexValue::Number(n) => concat3("Number(", n.text.as_str(), ")"),
            FlexValue::Text(s) => concat3("String(\"", s.as_str(), "\")"),
            FlexValue::Other(shown) => shown.clone(),
        }
    }
}

/// How the optional value is shown in messages.
pub open spec fn shown_optional(value: Option<FlexValue>) -> Seq<char> {
    match value {
        Some(v) => "Some("@ + v.spec_shown() + ")"@,
        None => "None"@,
    }
}

fn parse_failure(outcome: ParsedNumber) -> (message: String)
    requires
        !(outcome is Value),
    ensures
        message@ == parse_failure_message(outcome),
{
    match outcome {
        ParsedNumber::Empty => concat2(
            "failed to parse number: ",
            "cannot parse integer from empty string",
        ),
        ParsedNumber::InvalidDigit => concat2(
            "failed to parse number: ",
            "invalid digit found in string",
        ),
        _ => concat2("failed to parse number: ", "number too large to fit in target type"),
    }
}

/// The boolean that `text` stands for, if it stands for one: `true`,
/// `True`, `TRUE` and `1` for true; `false`, `False`, `FALSE`, `0` and the
/// empty text for false.
pub fn bool_from_text(text: &str) -> (value: Option<bool>)
    ensures
        value == text_as_bool(text@),
{
    if same_text(text, "true") || same_text(text, "True") || same_text(text, "TRUE") || same_text(
        text,
        "1",
    ) {
        Some(true)
    } else if same_text(text, "false") || same_text(text, "False") || same_text(text, "FALSE")
        || same_text(text, "0") || same_text(text, "") {
        Some(false)
    } else {
        None
    }
}

/// Reads an ID that is a string or a number: the string itself, or the
/// number as it is written.
pub fn deserialize_flexible_id(value: FlexValue) -> (result: Result<String, String>)
    ensures
        match value {
            FlexValue::Text(s) => result == Ok::<String, String>(s),
            FlexValue::Number(n) => result == Ok::<String, String>(n.text),
            other => result matches Err(m) && m@ == "expected string or number for ID, got "@
                + other.spec_shown(),
        },
{
    match value {
        FlexValue::Text(s) => Ok(s),
        FlexValue::Number(n) => Ok(n.text),
        other => {
            let shown = other.shown();
            Err(concat2("expected string or number for ID, got ", shown.as_str()))
        },
    }
}

/// Reads an ID that is a string, a number, null or missing.
pub fn deserialize_optional_flexible_id(value: Option<FlexValue>) -> (result: Result<
    Option<String>,
    String,
>)
    ensures
        match value {
            Some(FlexValue::Text(s)) => result == Ok::<Option<String>, String>(Some(s)),
            Some(FlexValue::Number(n)) => result == Ok::<Option<String>, String>(Some(n.text)),
            Some(FlexValue::Null) | None => result == Ok::<Option<String>, String>(None),
            other => result matches Err(m) && m@ == "expected string, number, or null for ID, got "@
                + shown_optional(other),
        },
{
    match value {
        Some(FlexValue::Text(s)) => Ok(Some(s)),
        Some(FlexValue::Number(n)) => Ok(Some(n.text)),
        Some(FlexValue::Null) | None => Ok(None),
        Some(other) => {
            let shown = other.shown();
            let wrapped = concat3("Some(", shown.as_str(), ")");
            Err(concat2("expected string, number, or null for ID, got ", wrapped.as_str()))
        },
    }
}

/// What a value is as a boolean: a boolean itself; a string that stands for
/// one; a number, which is true unless it is zero or no signed 64-bit
/// integer.
pub open spec fn value_as_bool(value: FlexValue) -> Option<bool> {
    match value {
        FlexValue::Bool(b) => Some(b),
        FlexValue::Text(s) => text_as_bool(s@),
        FlexValue::Number(n) => Some(
            match n.as_i64 {
                Some(i) => i != 0,
                None => false,
            },
        ),
        _ => None,
    }
}

/// Reads a boolean that is a boolean, a string or a number.
pub fn deserialize_flexible_bool(value: FlexValue) -> (result: Result<bool, String>)
    ensures
        match value_as_bool(value) {
            Some(b) => result == Ok::<bool, String>(b),
            None => result matches Err(m) && m@ == (match value {
                FlexValue::Text(s) => "invalid boolean string: "@ + s@,
                other => "expected boolean or string, got "@ + other.spec_shown(),
            }),
        },
{
    match value {
        FlexValue::Bool(b) => Ok(b),
        FlexValue::Text(s) => match bool_from_text(s.as_str()) {
            Some(b) => Ok(b),
            None => Err(concat2("invalid boolean string: ", s.as_str())),
        },
        FlexValue::Number(n) => Ok(
            match n.as_i64 {
                Some(i) => i != 0,
                None => false,
            },
        ),
        other => {
            let shown = other.shown();
            Err(concat2("expected boolean or string, got ", shown.as_str()))
        },
    }
}

/// Reads a boolean that is a boolean, a string, a number, null or missing.
pub fn deserialize_optional_flexible_bool(value: Option<FlexValue>) -> (result: Result<
    Option<bool>,
    String,
>)
    ensures
        match value {
            Some(FlexValue::Null) | None => result == Ok::<Option<bool>, String>(None),
            Some(v) => match value_as_bool(v) {
                Some(b) => result == Ok::<Option<bool>, String>(Some(b)),
                None => result matches Err(m) && m@ == (match v {
                    FlexValue::Text(s) => "invalid boolean string: "@ + s@,
                    other => "expected boolean, string, or null, got "@ + shown_optional(value),
                }),
            },
        },
{
    match value {
        Some(FlexValue::Bool(b)) => Ok(Some(b)),
        Some(FlexValue::Text(s)) => match bool_from_text(s.as_str()) {
            Some(b) => Ok(Some(b)),
            None => Err(concat2("invalid boolean string: ", s.as_str())),
        },
        Some(FlexValue::Number(n)) => Ok(
            Some(
                match n.as_i64 {
                    Some(i) => i != 0,
                    None => false,
                },
            ),
        ),
        Some(FlexValue::Null) | None => Ok(None),
        Some(other) => {
            let shown = other.shown();
            let wrapped = concat3("Some(", shown.as_str(), ")");
            Err(concat2("expected boolean, string, or null, got ", wrapped.as_str()))
        },
    }
}

/// Reads an optional string, taking an empty or blank one for none.
pub fn deserialize_optional_string(value: Option<String>) -> (result: Option<String>)
    ensures
        match value {
            Some(s) => result == if is_blank_text(s@) {
                None
            } else {
                Some(s)
            },
            None => result is None,
        },
{
    match value {
        Some(s) => if is_blank(s.as_str()) {
            None
        } else {
            Some(s)
        },
        None => None,
    }
}

/// Reads a number that is a number or a string of digits.
pub fn deserialize_flexible_number(value: FlexValue) -> (result: Result<u64, String>)
    ensures
        match value {
            FlexValue::Number(n) => match n.as_u64 {
                Some(v) => result == Ok::<u64, String>(v),
                None => result matches Err(m) && m@ == "number out of u64 range"@,
            },
            FlexValue::Text(s) => match parsed_u64(s@) {
                ParsedNumber::Value(v) => result == Ok::<u64, String>(v),
                failure => result matches Err(m) && m@ == parse_failure_message(failure),
            },
            other => result matches Err(m) && m@ == "expected number or string, got "@
                + other.spec_shown(),
        },
{
    match value {
        FlexValue::Number(n) => match n.as_u64 {
            Some(v) => Ok(v),
            None => Err("number out of u64 range".to_owned()),
        },
        FlexValue::Text(s) => match parse_u64(s.as_str()) {
            ParsedNumber::Value(v) => Ok(v),
            failure => Err(parse_failure(failure)),
        },
        other => {
            let shown = other.shown();
            Err(concat2("expected number or string, got ", shown.as_str()))
        },
    }
}

/// Reads a number that is a number, a string of digits, null or missing. A
/// number that is no unsigned 64-bit integer, and a blank string, give none.
pub fn deserialize_optional_flexible_number(value: Option<FlexValue>) -> (result: Result<
    Option<u64>,
    String,
>)
    ensures
        match value {
            Some(FlexValue::Number(n)) => result == Ok::<Option<u64>, String>(n.as_u64),
            Some(FlexValue::Text(s)) => if is_blank_text(s@) {
                result == Ok::<Option<u64>, String>(None)
            } else {
                match parsed_u64(s@) {
                    ParsedNumber::Value(v) => result == Ok::<Option<u64>, String>(Some(v)),
                    failure => result matches Err(m) && m@ == parse_failure_message(failure),
                }
            },
            Some(FlexValue::Null) | None => result == Ok::<Option<u64>, String>(None),
            other => result matches Err(m) && m@ == "expected number, string, or null, got "@
                + shown_optional(other),
        },
{
    match value {
        Some(FlexValue::Number(n)) => Ok(n.as_u64),
        Some(FlexValue::Text(s)) => {
            if is_blank(s.as_str()) {
                Ok(None)
            } else {
                match parse_u64(s.as_str()) {
                    ParsedNumber::Value(v) => Ok(Some(v)),
                    failure => Err(parse_failure(failure)),
                }
            }
        },
        Some(FlexValue::Null) | None => Ok(None),
        Some(other) => {
            let shown = other.shown();
            let wrapped = concat3("Some(", shown.as_str(), ")");
            Err(concat2("expected number, string, or null, got ", wrapped.as_str()))
        },
    }
}

/// Reads a list, taking null and missing for the empty list.
pub fn deserialize_null_as_empty_vec<T>(value: Option<Vec<T>>) -> (result: Vec<T>)
    ensures
        match value {
            Some(list) => result == list,
            None => result@ == Seq::<T>::empty(),
        },
{
    match value {
        Some(list) => list,
        None => Vec::new(),
    }
}

} // verus!
