use mod_version_api::pattern::is_ascii_digit;
use mod_version_api::pattern::is_bs_version;
use regex::Regex;

fn pattern() -> Regex {
    Regex::new(r"[0-9]+\.[0-9]+\.[0-9]+(?:_[0-9]+)?$").unwrap()
}

#[test]
fn plain_version_is_accepted() {
    assert!(is_bs_version("1.2.3"));
    assert!(is_bs_version("1.29.1"));
    assert!(is_bs_version("0.0.0"));
    assert!(is_bs_version("10.200.3000"));
}

#[test]
fn version_with_build_is_accepted() {
    assert!(is_bs_version("1.2.3_4"));
    assert!(is_bs_version("1.29.1_4886"));
    assert!(is_bs_version("1.40.8_7379"));
}

#[test]
fn text_that_ends_in_a_version_is_accepted() {
    assert!(is_bs_version("garbage1.2.3"));
    assert!(is_bs_version("v1.2.3"));
    assert!(is_bs_version("x 9.9.9_1"));
    assert!(is_bs_version("1.2.3.4"));
    assert!(is_bs_version("1.2.3_4.5.6"));
    assert!(is_bs_version("..1.2.3"));
    assert!(is_bs_version("_1.2.3"));
    assert!(is_bs_version("é1.2.3"));
}

#[test]
fn text_that_does_not_end_in_a_version_is_rejected() {
    assert!(!is_bs_version(""));
    assert!(!is_bs_version("not-a-version"));
    assert!(!is_bs_version("1"));
    assert!(!is_bs_version("1.2"));
    assert!(!is_bs_version("1.2."));
    assert!(!is_bs_version(".2.3"));
    assert!(!is_bs_version("1..3"));
    assert!(!is_bs_version("1.2.3 "));
    assert!(!is_bs_version("1.2.3\n"));
    assert!(!is_bs_version("1.2.3_"));
    assert!(!is_bs_version("1.2.3_x"));
    assert!(!is_bs_version("1.2_3"));
    assert!(!is_bs_version("1_2.3"));
    assert!(!is_bs_version("1.2.3-4"));
    assert!(!is_bs_version("1.2.3__4"));
    assert!(!is_bs_version("1.2.3_4_5"));
    assert!(!is_bs_version("a.b.c"));
    assert!(!is_bs_version("1,2,3"));
    assert!(!is_bs_version("1.2.x3"));
}

#[test]
fn digits_of_other_scripts_are_no_digits() {
    assert!(!is_bs_version("1.2.٣"));
    assert!(!is_bs_version("１.２.３"));
    assert!(is_bs_version("１1.2.3"));
}

#[test]
fn ascii_digits_are_told_apart() {
    for c in ['0', '1', '5', '9'] {
        assert!(is_ascii_digit(c));
    }
    for c in ['/', ':', 'a', ' ', '.', '_', '٣'] {
        assert!(!is_ascii_digit(c));
    }
}

#[test]
fn the_rule_agrees_with_the_regular_expression() {
    let re = pattern();
    let pieces = ["", "1", "23", ".", "_", "a", " ", "\n", "é", "0"];
    let mut texts: Vec<String> = vec![String::new()];
    for _ in 0..5 {
        let mut longer: Vec<String> = Vec::new();
        for text in &texts {
            for piece in pieces {
                longer.push(format!("{text}{piece}"));
            }
        }
        for text in &longer {
            assert_eq!(is_bs_version(text), re.is_match(text), "on {text:?}");
        }
        texts = longer;
    }
}

#[test]
fn the_rule_agrees_with_the_regular_expression_on_long_shapes() {
    let re = pattern();
    let heads = ["", "x", "1", ".", "1.", "_", "9_", "1.2.3_"];
    let firsts = ["", "0", "12"];
    let seconds = ["", "3", "456"];
    let thirds = ["", "7", "89"];
    let tails = ["", "_", "_0", "_12", "_1_2", ".", " ", "_a"];
    for head in heads {
        for first in firsts {
            for second in seconds {
                for third in thirds {
                    for tail in tails {
                        let text = format!("{head}{first}.{second}.{third}{tail}");
                        assert_eq!(is_bs_version(&text), re.is_match(&text), "on {text:?}");
                    }
                }
            }
        }
    }
}
