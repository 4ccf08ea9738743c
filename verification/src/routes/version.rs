//! The version route: which game version a module needs.
//!
//! A request names a module and a game version in its path. The extractor
//! decodes the two segments; what it reports, a record or a failure, comes in
//! here, and a status code with a body goes out.

use vstd::prelude::*;
use vstd::string::*;

use crate::display::missing_path_params_text;
use crate::display::missing_path_params_to_string;
use crate::display::param_error_text;
use crate::display::param_error_to_string;
use crate::display::violation_text;
use crate::display::violation_to_string;
use crate::pattern::ends_in_version;
use crate::pattern::is_bs_version;
use crate::rejection::is_missing_field_report;
use crate::rejection::missing_field_text;
use crate::rejection::reports_missing_field;
use crate::rejection::ParamError;
use crate::rejection::ParamErrorView;
use crate::rejection::PathFailure;
use crate::rejection::PathFailureView;
use crate::status::BAD_REQUEST;
use crate::status::INTERNAL_SERVER_ERROR;
use crate::status::OK;
use crate::text::ascii_lower;
use crate::text::ascii_upper;
use crate::text::decimal;
use crate::text::decimal_string;
use crate::text::eq_ignore_ascii_case;
use crate::text::same_ignoring_ascii_case;
use crate::validation::violation_views;
use crate::validation::ValidationViolation;
use crate::validation::ViolationView;

verus! {

/// The one module name on the allow-list, in lower case.
pub open spec fn allowed_mod() -> Seq<char> {
    "dumbrequestmanager"@
}

/// `name` is on the allow-list: it is the allowed name, in any mix of upper
/// and lower case.
pub open spec fn is_allowed_mod(name: Seq<char>) -> bool {
    same_ignoring_ascii_case(name, allowed_mod())
}

/// Two characters fold to the same lower-case letter exactly where the one
/// is the other in lower or in upper case.
proof fn lemma_fold_to_lower_case_letter(c: char, letter: char)
    requires
        'a' <= letter && letter <= 'z',
    ensures
        ascii_lower(c) == ascii_lower(letter) <==> (c == letter || c == ascii_upper(letter)),
{
}

/// The allow-list takes a name exactly where the name is as long as the
/// allowed name and each of its characters is the allowed name's character
/// at that place, in lower or in upper case. The empty name is not taken.
pub proof fn lemma_allowed_mod_in_any_case(name: Seq<char>)
    ensures
        is_allowed_mod(name) <==> {
            &&& name.len() == allowed_mod().len()
            &&& forall|i: int|
                0 <= i < name.len() ==> #[trigger] name[i] == allowed_mod()[i] || name[i]
                    == ascii_upper(allowed_mod()[i])
        },
        !is_allowed_mod(Seq::<char>::empty()),
{
    reveal_strlit("dumbrequestmanager");
    let allowed = allowed_mod();
    assert(allowed.len() == 18);
    assert forall|i: int| 0 <= i < 18 implies 'a' <= #[trigger] allowed[i] && allowed[i] <= 'z' by {
        assert(allowed =~= seq![
            'd', 'u', 'm', 'b', 'r', 'e', 'q', 'u', 'e', 's', 't', 'm', 'a', 'n', 'a', 'g', 'e', 'r',
        ]);
    }
    if name.len() == 18 {
        assert forall|i: int| 0 <= i < 18 implies (ascii_lower(#[trigger] name[i]) == ascii_lower(
            allowed[i],
        ) <==> (name[i] == allowed[i] || name[i] == ascii_upper(allowed[i]))) by {
            lemma_fold_to_lower_case_letter(name[i], allowed[i]);
        }
    }
}

/// What is held against a module name that is not on the allow-list.
pub open spec fn mod_name_violation() -> ViolationView {
    ViolationView {
        field: "mod_name"@,
        code: "Invalid mod name"@,
        message: "Must be valid mod name"@,
    }
}

/// What is held against a text that does not end in a game version.
pub open spec fn bs_version_violation() -> ViolationView {
    ViolationView {
        field: "bs_version"@,
        code: "regex"@,
        message: "Must be valid Beat Saber version"@,
    }
}

/// The version that every allowed module needs, whatever the game version.
pub open spec fn required_version() -> Seq<char> {
    "0.6.7.0"@
}

/// The two path parameters of the version route.
#[derive(Clone, Debug, PartialEq, Eq)]
pub struct ModParams {
    /// The name of the module that asks.
    pub mod_name: String,
    /// The game version that it asks about.
    pub bs_version: String,
}

/// A [`ModParams`] with its strings as sequences of characters.
pub struct ModParamsView {
    pub mod_name: Seq<char>,
    pub bs_version: Seq<char>,
}

impl View for ModParams {
    type V = ModParamsView;

    open spec fn view(&self) -> ModParamsView {
        ModParamsView { mod_name: self.mod_name@, bs_version: self.bs_version@ }
    }
}

/// The rules that `params` breaks, in the order of its fields. Each field
/// is judged on its own: a bad name does not hide a bad version.
pub open spec fn violations(params: ModParamsView) -> Seq<ViolationView> {
    let of_name = if is_allowed_mod(params.mod_name) {
        Seq::<ViolationView>::empty()
    } else {
        seq![mod_name_violation()]
    };
    let of_version = if ends_in_version(params.bs_version) {
        Seq::<ViolationView>::empty()
    } else {
        seq![bs_version_violation()]
    };
    of_name + of_version
}

/// Holds a module name against the allow-list.
pub fn validate_mod(mod_name: &str) -> (res: Result<(), ValidationViolation>)
    ensures
        res is Ok <==> is_allowed_mod(mod_name@),
        res matches Err(violation) ==> violation@ == mod_name_violation(),
{
    if eq_ignore_ascii_case(mod_name, "dumbrequestmanager") {
        Ok(())
    } else {
        Err(
            ValidationViolation {
                field: "mod_name",
                code: "Invalid mod name",
                message: "Must be valid mod name",
            },
        )
    }
}

/// Holds a text against the grammar of a game version.
pub fn validate_bs_version(bs_version: &str) -> (res: Result<(), ValidationViolation>)
    ensures
        res is Ok <==> ends_in_version(bs_version@),
        res matches Err(violation) ==> violation@ == bs_version_violation(),
{
    if is_bs_version(bs_version) {
        Ok(())
    } else {
        Err(
            ValidationViolation {
                field: "bs_version",
                code: "regex",
                message: "Must be valid Beat Saber version",
            },
        )
    }
}

impl ModParams {
    /// Holds both fields against their rules.
    ///
    /// `Ok` exactly where no rule is broken. Otherwise the broken rules, the
    /// name's before the version's.
    pub fn validate(&self) -> (res: Result<(), Vec<ValidationViolation>>)
        ensures
            match res {
                Ok(_) => violations(self@).len() == 0,
                Err(found) => found.len() > 0 && violation_views(found@) == violations(self@),
            },
    {
        let mut found: Vec<ValidationViolation> = Vec::new();
        match validate_mod(self.mod_name.as_str()) {
            Ok(_) => {},
            Err(violation) => {
                found.push(violation);
            },
        }
        match validate_bs_version(self.bs_version.as_str()) {
            Ok(_) => {},
            Err(violation) => {
                found.push(violation);
            },
        }
        assert(violation_views(found@) =~= violations(self@));
        if found.len() == 0 {
            Ok(())
        } else {
            Err(found)
        }
    }
}

/// The answer to a request whose parameters broke a rule.
#[derive(Clone, Debug, PartialEq, Eq)]
pub struct VersionError(pub Vec<ValidationViolation>);

impl View for VersionError {
    type V = Seq<ViolationView>;

    open spec fn view(&self) -> Seq<ViolationView> {
        violation_views(self.0@)
    }
}

/// One line for each violation, in their order, with a line feed between
/// one line and the next and none at the end.
pub open spec fn violation_lines(found: Seq<ViolationView>) -> Seq<char>
    decreases found.len(),
{
    if found.len() == 0 {
        Seq::<char>::empty()
    } else if found.len() == 1 {
        violation_text(found[0])
    } else {
        violation_lines(found.drop_last()) + seq!['\n'] + violation_text(found.last())
    }
}

impl VersionError {
    /// The status code and the text to send: always a client error, with
    /// one line for each violation.
    pub fn into_response(self) -> (res: (u16, String))
        ensures
            res.0 == BAD_REQUEST,
            res.1@ == violation_lines(self@),
    {
        let mut text = String::new();
        let mut i: usize = 0;
        while i < self.0.len()
            invariant
                i <= self.0.len(),
                text@ == violation_lines(self@.take(i as int)),
            decreases self.0.len() - i,
        {
            proof {
                let before = self@.take(i as int);
                let after = self@.take(i + 1);
                assert(after.drop_last() =~= before);
                assert(after.last() == self.0@[i as int]@);
                reveal_strlit("\n");
                assert("\n"@ =~= seq!['\n']);
            }
            if i > 0 {
                text.append("\n");
            }
            let line = violation_to_string(&self.0[i]);
            text.append(line.as_str());
            i = i + 1;
        }
        assert(self@.take(i as int) =~= self@);
        (BAD_REQUEST, text)
    }
}

/// Answers a request whose path decoded.
///
/// Where the parameters keep every rule the answer is the required version.
/// Otherwise it is the list of the rules they broke.
pub fn handler(params: Path<ModParams>) -> (res: Result<&'static str, VersionError>)
    ensures
        match res {
            Ok(answer) => violations(params.0@).len() == 0 && answer@ == required_version(),
            Err(error) => error@.len() > 0 && error@ == violations(params.0@),
        },
{
    match params.0.validate() {
        Ok(_) => Ok("0.6.7.0"),
        Err(found) => Err(VersionError(found)),
    }
}

/// The body of a response to a request whose path could not be decoded.
#[derive(Clone, Debug, PartialEq, Eq)]
pub struct PathError {
    /// What went wrong.
    pub message: String,
    /// The key or the position of the offending segment, where there is one.
    pub location: Option<String>,
}

/// A [`PathError`] with its strings as sequences of characters.
pub struct PathErrorView {
    pub message: Seq<char>,
    pub location: Option<Seq<char>>,
}

impl View for PathError {
    type V = PathErrorView;

    open spec fn view(&self) -> PathErrorView {
        PathErrorView {
            message: self.message@,
            location: match self.location {
                Some(place) => Some(place@),
                None => None,
            },
        }
    }
}

/// The status code owed for a decoding failure.
///
/// A failure that only a wrong route or a wrong target type can cause is the
/// server's fault: too many or too few segments, a field of the record
/// without a segment, a target that cannot be read from a path, no record
/// of path parameters, a rejection of an unknown kind. A failure that the
/// caller's text caused is the caller's.
pub open spec fn failure_status(failure: PathFailureView) -> u16 {
    match failure {
        PathFailureView::FailedToDeserializePathParams(error) => match error {
            ParamErrorView::WrongNumberOfParameters { .. } => INTERNAL_SERVER_ERROR,
            ParamErrorView::UnsupportedType { .. } => INTERNAL_SERVER_ERROR,
            ParamErrorView::Message(text) => if reports_missing_field(text) {
                INTERNAL_SERVER_ERROR
            } else {
                BAD_REQUEST
            },
            _ => BAD_REQUEST,
        },
        PathFailureView::UnclassifiedParamError(_) => BAD_REQUEST,
        PathFailureView::MissingPathParams => INTERNAL_SERVER_ERROR,
        PathFailureView::Unclassified(_) => INTERNAL_SERVER_ERROR,
    }
}

/// The message owed for a decoding failure.
pub open spec fn failure_message(failure: PathFailureView) -> Seq<char> {
    match failure {
        PathFailureView::FailedToDeserializePathParams(error) => match error {
            ParamErrorView::DeserializeError { .. } => {
                "Unhandled deserialization error: "@ + param_error_text(error)
            },
            _ => param_error_text(error),
        },
        PathFailureView::UnclassifiedParamError(text) => {
            "Unhandled deserialization error: "@ + text
        },
        PathFailureView::MissingPathParams => missing_path_params_text(),
        PathFailureView::Unclassified(text) => "Unhandled path rejection: "@ + text,
    }
}

/// Where a decoding failure happened: the key of the segment, or its
/// position as a decimal numeral. `None` where no single segment is at fault.
pub open spec fn failure_location(failure: PathFailureView) -> Option<Seq<char>> {
    match failure {
        PathFailureView::FailedToDeserializePathParams(error) => match error {
            ParamErrorView::ParseErrorAtKey { key, .. } => Some(key),
            ParamErrorView::ParseErrorAtIndex { index, .. } => Some(decimal(index)),
            ParamErrorView::InvalidUtf8InPathParam { key } => Some(key),
            _ => None,
        },
        _ => None,
    }
}

/// The body owed for a decoding failure.
pub open spec fn failure_body(failure: PathFailureView) -> PathErrorView {
    PathErrorView { message: failure_message(failure), location: failure_location(failure) }
}

/// A failure names a place only where the caller's text is at fault: a
/// response that blames the server never points at a segment.
pub proof fn lemma_location_only_for_client_errors(failure: PathFailureView)
    ensures
        failure_status(failure) == BAD_REQUEST || failure_status(failure) == INTERNAL_SERVER_ERROR,
        failure_location(failure) is Some ==> failure_status(failure) == BAD_REQUEST,
        failure_body(failure).location == failure_location(failure),
{
}

/// A route that captures no segment for a field of the record is the
/// server's fault: the failure that reports the missing field is owed a
/// server error that names no place and passes the report on as it came.
pub proof fn lemma_missing_field_is_a_server_error(name: Seq<char>)
    ensures
        ({
            let failure = PathFailureView::FailedToDeserializePathParams(
                ParamErrorView::Message(missing_field_text(name)),
            );
            &&& failure_status(failure) == INTERNAL_SERVER_ERROR
            &&& failure_location(failure) is None
            &&& failure_message(failure) == missing_field_text(name)
        }),
{
    assert(reports_missing_field(missing_field_text(name)));
}

/// The record that a request's path decoded to.
#[derive(Debug)]
pub struct Path<T>(pub T);

impl<T> Path<T> {
    /// Takes what the extractor reported for one request: the decoded record,
    /// or why there is none.
    ///
    /// A record is passed on whole and untouched. A failure becomes the
    /// status code and the body that `failure_status` and `failure_body`
    /// give for it, so no request is left with a half-decoded record.
    pub fn from_request_parts(extracted: Result<T, PathFailure>) -> (res: Result<
        Path<T>,
        (u16, PathError),
    >)
        ensures
            match extracted {
                Ok(value) => res == Ok::<Path<T>, (u16, PathError)>(Path(value)),
                Err(failure) => res matches Err(rejection) && rejection.0 == failure_status(
                    failure@,
                ) && rejection.1@ == failure_body(failure@),
            },
    {
        match extracted {
            Ok(value) => Ok(Path(value)),
            Err(failure) => {
                let (status, body) = match &failure {
                    PathFailure::FailedToDeserializePathParams(kind) => {
                        let mut status: u16 = BAD_REQUEST;
                        let body = match kind {
                            ParamError::WrongNumberOfParameters { .. } => {
                                status = INTERNAL_SERVER_ERROR;
                                PathError { message: param_error_to_string(kind), location: None }
                            },
                            ParamError::ParseErrorAtKey { key, .. } => PathError {
                                message: param_error_to_string(kind),
                                location: Some(key.clone()),
                            },
                            ParamError::ParseErrorAtIndex { index, .. } => PathError {
                                message: param_error_to_string(kind),
                                location: Some(decimal_string(*index)),
                            },
                            ParamError::ParseError { .. } => PathError {
                                message: param_error_to_string(kind),
                                location: None,
                            },
                            ParamError::InvalidUtf8InPathParam { key } => PathError {
                                message: param_error_to_string(kind),
                                location: Some(key.clone()),
                            },
                            ParamError::UnsupportedType { .. } => {
                                status = INTERNAL_SERVER_ERROR;
                                PathError { message: param_error_to_string(kind), location: None }
                            },
                            ParamError::Message(text) => {
                                if is_missing_field_report(text.as_str()) {
                                    status = INTERNAL_SERVER_ERROR;
                                }
                                PathError { message: text.clone(), location: None }
                            },
                            ParamError::DeserializeError { .. } => PathError {
                                message: unhandled_deserialization(
                                    param_error_to_string(kind).as_str(),
                                ),
                                location: None,
                            },
                        };
                        (status, body)
                    },
                    PathFailure::UnclassifiedParamError(text) => (
                        BAD_REQUEST,
                        PathError {
                            message: unhandled_deserialization(text.as_str()),
                            location: None,
                        },
                    ),
                    PathFailure::MissingPathParams => (
                        INTERNAL_SERVER_ERROR,
                        PathError { message: missing_path_params_to_string(), location: None },
                    ),
                    PathFailure::Unclassified(text) => (
                        INTERNAL_SERVER_ERROR,
                        PathError {
                            message: String::from_str("Unhandled path rejection: ").concat(
                                text.as_str(),
                            ),
                            location: None,
                        },
                    ),
                };
                Err((status, body))
            },
        }
    }
}

/// What a response carries: plain text, or an object to be written as JSON.
#[derive(Clone, Debug, PartialEq, Eq)]
pub enum Body {
    Text(String),
    Json(PathError),
}

/// A [`Body`] with its strings as sequences of characters.
pub enum BodyView {
    Text(Seq<char>),
    Json(PathErrorView),
}

impl View for Body {
    type V = BodyView;

    open spec fn view(&self) -> BodyView {
        match *self {
            Body::Text(text) => BodyView::Text(text@),
            Body::Json(error) => BodyView::Json(error@),
        }
    }
}

/// The one response that a request gets: an answer or an error, never both.
#[derive(Clone, Debug, PartialEq, Eq)]
pub struct Response {
    pub status: u16,
    pub body: Body,
}

/// A [`Response`] with its strings as sequences of characters.
pub struct ResponseView {
    pub status: u16,
    pub body: BodyView,
}

impl View for Response {
    type V = ResponseView;

    open spec fn view(&self) -> ResponseView {
        ResponseView { status: self.status, body: self.body@ }
    }
}

/// What the extractor reported, with its strings as sequences of characters.
pub open spec fn extraction_view(extracted: Result<ModParams, PathFailure>) -> Result<
    ModParamsView,
    PathFailureView,
> {
    match extracted {
        Ok(params) => Ok(params@),
        Err(failure) => Err(failure@),
    }
}

/// The response owed to a request, given what the extractor reported of it.
///
/// No record: the failure's status and body. A record that keeps every
/// rule: the required version. A record that breaks a rule: a client error
/// that lists what it broke.
pub open spec fn response_to(extracted: Result<ModParamsView, PathFailureView>) -> ResponseView {
    match extracted {
        Err(failure) => ResponseView {
            status: failure_status(failure),
            body: BodyView::Json(failure_body(failure)),
        },
        Ok(params) => if violations(params).len() == 0 {
            ResponseView { status: OK, body: BodyView::Text(required_version()) }
        } else {
            ResponseView {
                status: BAD_REQUEST,
                body: BodyView::Text(violation_lines(violations(params))),
            }
        },
    }
}

/// Serves one request from start to end: takes what the extractor reported,
/// validates the record if there is one, and gives the response to send.
pub fn respond(extracted: Result<ModParams, PathFailure>) -> (response: Response)
    ensures
        response@ == response_to(extraction_view(extracted)),
{
    match Path::from_request_parts(extracted) {
        Err(rejection) => Response { status: rejection.0, body: Body::Json(rejection.1) },
        Ok(params) => match handler(params) {
            Ok(answer) => Response { status: OK, body: Body::Text(String::from_str(answer)) },
            Err(error) => {
                let (status, text) = error.into_response();
                Response { status, body: Body::Text(text) }
            },
        },
    }
}

/// The status of a response tells what became of the request.
///
/// It is one of three. It is a success exactly where a record was decoded
/// and keeps every rule. It blames the server only where no record was
/// decoded. The body is an object exactly where no record was decoded, and
/// text otherwise.
pub proof fn lemma_status_tells_the_outcome(extracted: Result<ModParamsView, PathFailureView>)
    ensures
        response_to(extracted).status == OK || response_to(extracted).status == BAD_REQUEST
            || response_to(extracted).status == INTERNAL_SERVER_ERROR,
        response_to(extracted).status == OK <==> (extracted matches Ok(params) && violations(
            params,
        ).len() == 0),
        response_to(extracted).status == INTERNAL_SERVER_ERROR ==> extracted is Err,
        response_to(extracted).body is Json <==> extracted is Err,
{
    if let Err(failure) = extracted {
        lemma_location_only_for_client_errors(failure);
    }
}

/// Serving is a function of the request alone: two requests of which the
/// extractor reported the same are owed the same status and the same body,
/// character for character, however often and in whatever order they come.
pub proof fn lemma_same_request_same_response(
    first: Result<ModParams, PathFailure>,
    second: Result<ModParams, PathFailure>,
    first_response: Response,
    second_response: Response,
)
    requires
        extraction_view(first) == extraction_view(second),
        first_response@ == response_to(extraction_view(first)),
        second_response@ == response_to(extraction_view(second)),
    ensures
        first_response@ == second_response@,
{
}

/// The message for a decoding failure of a kind that gets no treatment of
/// its own.
fn unhandled_deserialization(text: &str) -> (message: String)
    ensures
        message@ == "Unhandled deserialization error: "@ + text@,
{
    String::from_str("Unhandled deserialization error: ").concat(text)
}

} // verus!
