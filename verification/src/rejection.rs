//! The ways in which path parameters can fail to decode.
//!
//! The server's extractor reports a failure as a value of its own types. These
//! enums hold the same facts as plain values, so that the rules which turn a
//! failure into a response can be stated and proved.

use vstd::prelude::*;

use crate::text::chars_of;

verus! {

/// Why the captured segments could not be read into the target record.
#[derive(Clone, Debug, PartialEq, Eq)]
pub enum ParamError {
    /// The route captured `got` segments where the target, a tuple, takes
    /// `expected`. For a record with named fields the extractor does not
    /// count: a field without a segment comes as a `Message`.
    WrongNumberOfParameters { got: usize, expected: usize },
    /// The value under `key` is no `expected_type`.
    ParseErrorAtKey { key: String, value: String, expected_type: &'static str },
    /// The value at position `index`, counted from zero, is no `expected_type`.
    ParseErrorAtIndex { index: usize, value: String, expected_type: &'static str },
    /// The single value is no `expected_type`.
    ParseError { value: String, expected_type: &'static str },
    /// The segment under `key` is not valid UTF-8 once percent-decoded.
    InvalidUtf8InPathParam { key: String },
    /// The target type cannot be read from path segments at all.
    UnsupportedType { name: &'static str },
    /// The target's own reader refused the value under `key`.
    DeserializeError { key: String, value: String, message: String },
    /// Any other failure, with its text. A field of the target record for
    /// which the route captured no segment comes in here, as the text that
    /// `missing_field_text` spells out.
    Message(String),
}

/// A [`ParamError`] with its strings as sequences of characters.
pub enum ParamErrorView {
    WrongNumberOfParameters { got: nat, expected: nat },
    ParseErrorAtKey { key: Seq<char>, value: Seq<char>, expected_type: Seq<char> },
    ParseErrorAtIndex { index: nat, value: Seq<char>, expected_type: Seq<char> },
    ParseError { value: Seq<char>, expected_type: Seq<char> },
    InvalidUtf8InPathParam { key: Seq<char> },
    UnsupportedType { name: Seq<char> },
    DeserializeError { key: Seq<char>, value: Seq<char>, message: Seq<char> },
    Message(Seq<char>),
}

impl View for ParamError {
    type V = ParamErrorView;

    open spec fn view(&self) -> ParamErrorView {
        match *self {
            ParamError::WrongNumberOfParameters { got, expected } => {
                ParamErrorView::WrongNumberOfParameters { got: got as nat, expected: expected as nat }
            },
            ParamError::ParseErrorAtKey { key, value, expected_type } => {
                ParamErrorView::ParseErrorAtKey {
                    key: key@,
                    value: value@,
                    expected_type: expected_type@,
                }
            },
            ParamError::ParseErrorAtIndex { index, value, expected_type } => {
                ParamErrorView::ParseErrorAtIndex {
                    index: index as nat,
                    value: value@,
                    expected_type: expected_type@,
                }
            },
            ParamError::ParseError { value, expected_type } => {
                ParamErrorView::ParseError { value: value@, expected_type: expected_type@ }
            },
            ParamError::InvalidUtf8InPathParam { key } => {
                ParamErrorView::InvalidUtf8InPathParam { key: key@ }
            },
            ParamError::UnsupportedType { name } => ParamErrorView::UnsupportedType { name: name@ },
            ParamError::DeserializeError { key, value, message } => {
                ParamErrorView::DeserializeError { key: key@, value: value@, message: message@ }
            },
            ParamError::Message(text) => ParamErrorView::Message(text@),
        }
    }
}

/// The text that reports a field of the target record for which the route
/// captured no segment.
pub open spec fn missing_field_text(name: Seq<char>) -> Seq<char> {
    "missing field `"@ + name + "`"@
}

/// `text` reports a missing field, whatever the field's name.
pub open spec fn reports_missing_field(text: Seq<char>) -> bool {
    exists|name: Seq<char>| text == #[trigger] missing_field_text(name)
}

/// Whether `text` reports a field of the target record for which the route
/// captured no segment.
pub fn is_missing_field_report(text: &str) -> (yes: bool)
    ensures
        yes == reports_missing_field(text@),
{
    let chars = chars_of(text);
    let opening = chars_of("missing field `");
    proof {
        reveal_strlit("missing field `");
        reveal_strlit("`");
    }
    let n: usize = chars.len();
    let m: usize = opening.len();
    if n <= m || chars[n - 1] != '`' {
        proof {
            if reports_missing_field(text@) {
                let name = choose|name: Seq<char>| text@ == #[trigger] missing_field_text(name);
                assert(text@.last() == '`');
            }
        }
        return false;
    }
    let mut i: usize = 0;
    while i < m
        invariant
            i <= m < n,
            n == chars.len(),
            m == opening.len(),
            chars@ == text@,
            opening@ == "missing field `"@,
            forall|k: int| 0 <= k < i ==> chars@[k] == opening@[k],
        decreases m - i,
    {
        if chars[i] != opening[i] {
            proof {
                if reports_missing_field(text@) {
                    let name = choose|name: Seq<char>| text@ == #[trigger] missing_field_text(name);
                    assert(text@[i as int] == ("missing field `"@ + name)[i as int]);
                }
            }
            return false;
        }
        i = i + 1;
    }
    proof {
        let name = text@.subrange(m as int, n - 1);
        assert(text@ =~= missing_field_text(name));
    }
    true
}

/// Why the extractor produced no record.
#[derive(Clone, Debug, PartialEq, Eq)]
pub enum PathFailure {
    /// The segments were there and could not be read.
    FailedToDeserializePathParams(ParamError),
    /// The segments could not be read, for a reason that [`ParamError`] has no
    /// variant for; the text is the extractor's own.
    UnclassifiedParamError(String),
    /// The request carries no record of path parameters at all. A matched
    /// route always leaves one, if only an empty list, so this comes where
    /// the extractor runs outside a route or after the request was taken
    /// apart.
    MissingPathParams,
    /// A rejection of a kind this crate does not know; the text is the
    /// extractor's own.
    Unclassified(String),
}

/// A [`PathFailure`] with its strings as sequences of characters.
pub enum PathFailureView {
    FailedToDeserializePathParams(ParamErrorView),
    UnclassifiedParamError(Seq<char>),
    MissingPathParams,
    Unclassified(Seq<char>),
}

impl View for PathFailure {
    type V = PathFailureView;

    open spec fn view(&self) -> PathFailureView {
        match *self {
            PathFailure::FailedToDeserializePathParams(error) => {
                PathFailureView::FailedToDeserializePathParams(error@)
            },
            PathFailure::UnclassifiedParamError(text) => {
                PathFailureView::UnclassifiedParamError(text@)
            },
            PathFailure::MissingPathParams => PathFailureView::MissingPathParams,
            PathFailure::Unclassified(text) => PathFailureView::Unclassified(text@),
        }
    }
}

} // verus!
