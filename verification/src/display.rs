//! Texts that the server's own crates write.
//!
//! The extractor and the validation crate each render their errors
//! themselves. The functions here ask them to, so that a response carries
//! their words and not a copy. Verus takes the contracts in this file on
//! trust: each says which outside function it calls and what it claims of it.

use axum::extract::path::ErrorKind;
use axum::extract::rejection::MissingPathParams;
use std::borrow::Cow;
use validator::ValidationError;
use validator::ValidationErrors;
use vstd::prelude::*;

use crate::rejection::ParamError;
use crate::rejection::ParamErrorView;
use crate::text::decimal;
use crate::validation::ValidationViolation;
use crate::validation::ViolationView;

verus! {

/// The sentence that the extractor writes for a decoding failure.
pub open spec fn param_error_text(error: ParamErrorView) -> Seq<char> {
    match error {
        ParamErrorView::WrongNumberOfParameters { got, expected } => {
            "Wrong number of path arguments for `Path`. Expected "@ + decimal(expected)
                + " but got "@ + decimal(got) + if expected == 1 {
                ". Note that multiple parameters must be extracted with a tuple `Path<(_, _)>` or a struct `Path<YourParams>`"@
            } else {
                Seq::<char>::empty()
            }
        },
        ParamErrorView::ParseErrorAtKey { key, value, expected_type } => {
            "Cannot parse `"@ + key + "` with value `"@ + value + "` to a `"@ + expected_type
                + "`"@
        },
        ParamErrorView::ParseErrorAtIndex { index, value, expected_type } => {
            "Cannot parse value at index "@ + decimal(index) + " with value `"@ + value
                + "` to a `"@ + expected_type + "`"@
        },
        ParamErrorView::ParseError { value, expected_type } => {
            "Cannot parse `"@ + value + "` to a `"@ + expected_type + "`"@
        },
        ParamErrorView::InvalidUtf8InPathParam { key } => "Invalid UTF-8 in `"@ + key + "`"@,
        ParamErrorView::UnsupportedType { name } => "Unsupported type `"@ + name + "`"@,
        ParamErrorView::DeserializeError { key, value, message } => {
            "Cannot parse `"@ + key + "` with value `"@ + value + "`: "@ + message
        },
        ParamErrorView::Message(text) => text,
    }
}

/// Calls `Display` of axum's `extract::path::ErrorKind`, through `to_string`,
/// on the kind that has the variant and the fields of `error`.
///
/// Trusted: the text is the one that `param_error_text` spells out, which is
/// that `Display` impl arm by arm, with numbers in decimal.
#[verifier::external_body]
pub(crate) fn param_error_to_string(error: &ParamError) -> (text: String)
    ensures
        text@ == param_error_text(error@),
{
    let kind = match error.clone() {
        ParamError::WrongNumberOfParameters { got, expected } => ErrorKind::WrongNumberOfParameters { got, expected },
        ParamError::ParseErrorAtKey { key, value, expected_type } => ErrorKind::ParseErrorAtKey { key, value, expected_type },
        ParamError::ParseErrorAtIndex { index, value, expected_type } => ErrorKind::ParseErrorAtIndex { index, value, expected_type },
        ParamError::ParseError { value, expected_type } => ErrorKind::ParseError { value, expected_type },
        ParamError::InvalidUtf8InPathParam { key } => ErrorKind::InvalidUtf8InPathParam { key },
        ParamError::UnsupportedType { name } => ErrorKind::UnsupportedType { name },
        ParamError::DeserializeError { key, value, message } => ErrorKind::DeserializeError { key, value, message },
        ParamError::Message(text) => ErrorKind::Message(text),
    };
    kind.to_string()
}

/// The sentence that the extractor writes when a request carries no record
/// of path parameters at all.
pub open spec fn missing_path_params_text() -> Seq<char> {
    "No paths parameters found for matched route"@
}

/// Calls `Display` of axum's `extract::rejection::MissingPathParams`, through
/// `to_string`.
///
/// Trusted: the text is the fixed body that axum declares for that rejection.
#[verifier::external_body]
pub(crate) fn missing_path_params_to_string() -> (text: String)
    ensures
        text@ == missing_path_params_text(),
{
    MissingPathParams::default().to_string()
}

/// The line that the validation crate writes for one field with one violation.
pub open spec fn violation_text(violation: ViolationView) -> Seq<char> {
    violation.field + ": "@ + violation.message
}

/// Calls `Display` of validator's `ValidationErrors`, through `to_string`, on
/// a set that holds the one violation given, added with `ValidationErrors::add`
/// as a `ValidationError` with that code and, through `with_message`, that
/// message.
///
/// Trusted: for a single field with a single error that has a message, the
/// text is the field's name, a colon, a space and the message.
#[verifier::external_body]
pub(crate) fn violation_to_string(violation: &ValidationViolation) -> (text: String)
    ensures
        text@ == violation_text(violation@),
{
    let mut errors = ValidationErrors::new();
    let error = ValidationError::new(violation.code);
    errors.add(violation.field, error.with_message(Cow::Borrowed(violation.message)));
    errors.to_string()
}

} // verus!
