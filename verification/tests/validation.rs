use mod_version_api::routes::version::handler;
use mod_version_api::routes::version::validate_bs_version;
use mod_version_api::routes::version::validate_mod;
use mod_version_api::routes::version::ModParams;
use mod_version_api::routes::version::Path;
use mod_version_api::routes::version::VersionError;
use mod_version_api::validation::ValidationViolation;
use std::borrow::Cow;
use validator::ValidationError;
use validator::ValidationErrors;

fn params(mod_name: &str, bs_version: &str) -> ModParams {
    ModParams { mod_name: String::from(mod_name), bs_version: String::from(bs_version) }
}

fn bad_name() -> ValidationViolation {
    ValidationViolation {
        field: "mod_name",
        code: "Invalid mod name",
        message: "Must be valid mod name",
    }
}

fn bad_version() -> ValidationViolation {
    ValidationViolation {
        field: "bs_version",
        code: "regex",
        message: "Must be valid Beat Saber version",
    }
}

#[test]
fn the_allowed_name_is_accepted_in_any_case() {
    assert_eq!(validate_mod("dumbrequestmanager"), Ok(()));
    assert_eq!(validate_mod("DumbRequestManager"), Ok(()));
    assert_eq!(validate_mod("DUMBREQUESTMANAGER"), Ok(()));
    assert_eq!(validate_mod("dUMBrEQUESTmANAGER"), Ok(()));
}

#[test]
fn every_case_variant_of_the_allowed_name_is_accepted() {
    let name: Vec<char> = "dumbrequestmanager".chars().collect();
    let mut mask: u32 = 0;
    while mask < (1 << name.len()) {
        let mut spelling = String::new();
        for (i, c) in name.iter().enumerate() {
            if mask & (1 << i) != 0 {
                spelling.push(c.to_ascii_uppercase());
            } else {
                spelling.push(*c);
            }
        }
        assert_eq!(validate_mod(&spelling), Ok(()));
        mask += 257;
    }
}

#[test]
fn other_names_are_rejected() {
    assert_eq!(validate_mod(""), Err(bad_name()));
    assert_eq!(validate_mod("SomeOtherMod"), Err(bad_name()));
    assert_eq!(validate_mod("dumbrequestmanage"), Err(bad_name()));
    assert_eq!(validate_mod("dumbrequestmanagers"), Err(bad_name()));
    assert_eq!(validate_mod(" dumbrequestmanager"), Err(bad_name()));
    assert_eq!(validate_mod("dumb request manager"), Err(bad_name()));
    assert_eq!(validate_mod("dumbrequestmanager\n"), Err(bad_name()));
    assert_eq!(validate_mod("dumbrequestmanag\u{212A}r"), Err(bad_name()));
    assert_eq!(validate_mod("dumbrequestm@nager"), Err(bad_name()));
}

#[test]
fn a_version_is_held_against_the_grammar() {
    assert_eq!(validate_bs_version("1.2.3"), Ok(()));
    assert_eq!(validate_bs_version("1.2.3_4"), Ok(()));
    assert_eq!(validate_bs_version("garbage1.2.3"), Ok(()));
    assert_eq!(validate_bs_version("not-a-version"), Err(bad_version()));
    assert_eq!(validate_bs_version(""), Err(bad_version()));
}

#[test]
fn valid_parameters_break_no_rule() {
    assert_eq!(params("DumbRequestManager", "1.2.3").validate(), Ok(()));
    assert_eq!(params("dumbrequestmanager", "1.40.8_7379").validate(), Ok(()));
}

#[test]
fn each_field_is_judged_on_its_own() {
    assert_eq!(params("SomeOtherMod", "1.2.3").validate(), Err(vec![bad_name()]));
    assert_eq!(
        params("DumbRequestManager", "not-a-version").validate(),
        Err(vec![bad_version()])
    );
    assert_eq!(
        params("SomeOtherMod", "not-a-version").validate(),
        Err(vec![bad_name(), bad_version()])
    );
    assert_eq!(params("", "").validate(), Err(vec![bad_name(), bad_version()]));
}

#[test]
fn the_handler_answers_valid_parameters() {
    assert_eq!(handler(Path(params("DumbRequestManager", "1.2.3"))), Ok("0.6.7.0"));
    assert_eq!(handler(Path(params("DumbRequestManager", "1.2.3_4"))), Ok("0.6.7.0"));
}

#[test]
fn the_handler_lists_what_was_broken() {
    assert_eq!(
        handler(Path(params("SomeOtherMod", "1.2.3"))),
        Err(VersionError(vec![bad_name()]))
    );
    assert_eq!(
        handler(Path(params("DumbRequestManager", "x"))),
        Err(VersionError(vec![bad_version()]))
    );
    assert_eq!(
        handler(Path(params("nobody", "x"))),
        Err(VersionError(vec![bad_name(), bad_version()]))
    );
}

#[test]
fn a_version_error_is_a_client_error_with_one_line_each() {
    assert_eq!(
        VersionError(vec![bad_name()]).into_response(),
        (400, String::from("mod_name: Must be valid mod name"))
    );
    assert_eq!(
        VersionError(vec![bad_version()]).into_response(),
        (400, String::from("bs_version: Must be valid Beat Saber version"))
    );
    assert_eq!(
        VersionError(vec![bad_name(), bad_version()]).into_response(),
        (
            400,
            String::from(
                "mod_name: Must be valid mod name\nbs_version: Must be valid Beat Saber version"
            )
        )
    );
}

#[test]
fn a_version_error_without_violations_has_an_empty_body() {
    assert_eq!(VersionError(Vec::new()).into_response(), (400, String::new()));
}

#[test]
fn three_lines_have_two_line_feeds() {
    let other = ValidationViolation { field: "a", code: "b", message: "c" };
    assert_eq!(
        VersionError(vec![other, bad_name(), other]).into_response().1,
        "a: c\nmod_name: Must be valid mod name\na: c"
    );
}

#[test]
fn lines_are_the_validation_crates_own() {
    for violation in [bad_name(), bad_version()] {
        let mut errors = ValidationErrors::new();
        errors.add(
            violation.field,
            ValidationError::new(violation.code).with_message(Cow::Borrowed(violation.message)),
        );
        assert_eq!(VersionError(vec![violation]).into_response().1, errors.to_string());
    }
}

#[test]
fn two_lines_are_one_of_the_orders_of_the_validation_crate() {
    let mut errors = ValidationErrors::new();
    for violation in [bad_name(), bad_version()] {
        errors.add(
            violation.field,
            ValidationError::new(violation.code).with_message(Cow::Borrowed(violation.message)),
        );
    }
    let theirs = errors.to_string();
    let ours = VersionError(vec![bad_name(), bad_version()]).into_response().1;
    let mut our_lines: Vec<&str> = ours.split('\n').collect();
    let mut their_lines: Vec<&str> = theirs.split('\n').collect();
    assert_eq!(our_lines[0], "mod_name: Must be valid mod name");
    our_lines.sort();
    their_lines.sort();
    assert_eq!(our_lines, their_lines);
}
