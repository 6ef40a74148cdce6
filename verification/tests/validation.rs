use fiocz_rs::validation::{validate_date_string, validate_year_string};

#[test]
fn valid_date_strings() {
    assert!(validate_date_string("2024-01-15"));
    assert!(validate_date_string("2000-12-31"));
    assert!(validate_date_string("1999-06-01"));
}

#[test]
fn invalid_date_empty() {
    assert!(!validate_date_string(""));
}

#[test]
fn invalid_date_wrong_separator() {
    assert!(!validate_date_string("2024/01/15"));
}

#[test]
fn invalid_date_too_short() {
    assert!(!validate_date_string("24-01-15"));
    assert!(!validate_date_string("2024-1-15"));
    assert!(!validate_date_string("2024-01-1"));
}

#[test]
fn invalid_date_too_long() {
    assert!(!validate_date_string("2024-01-150"));
}

#[test]
fn invalid_date_non_digits() {
    assert!(!validate_date_string("abcd-ef-gh"));
}

#[test]
fn date_format_only_validation() {
    // This validates format only, not calendar correctness
    assert!(validate_date_string("2024-13-01"));
    assert!(validate_date_string("9999-99-99"));
}

#[test]
fn valid_year_strings() {
    assert!(validate_year_string("2024"));
    assert!(validate_year_string("1999"));
    assert!(validate_year_string("2000"));
}

#[test]
fn invalid_year_empty() {
    assert!(!validate_year_string(""));
}

#[test]
fn invalid_year_too_short() {
    assert!(!validate_year_string("24"));
}

#[test]
fn invalid_year_too_long() {
    assert!(!validate_year_string("20244"));
}

#[test]
fn invalid_year_non_digits() {
    assert!(!validate_year_string("abcd"));
    assert!(!validate_year_string("20-4"));
}

#[test]
fn date_rejects_dash_in_digit_position() {
    assert!(!validate_date_string("2024--1-15"));
    assert!(!validate_date_string("-024-01-15"));
    assert!(!validate_date_string("2024-01-1-"));
}

#[test]
fn date_rejects_digit_in_dash_position() {
    assert!(!validate_date_string("2024001-15"));
    assert!(!validate_date_string("2024-01015"));
}

#[test]
fn date_rejects_non_ascii_digits() {
    // Ten characters, but the first is an Arabic-Indic digit.
    assert!(!validate_date_string("\u{0662}024-01-15"));
    // Ten bytes, but fewer characters.
    assert!(!validate_date_string("2024-01-\u{00e9}"));
}

#[test]
fn date_accepts_every_digit() {
    assert!(validate_date_string("0123-45-67"));
    assert!(validate_date_string("8901-23-45"));
    assert!(validate_date_string("0000-00-00"));
}

#[test]
fn year_accepts_every_digit() {
    assert!(validate_year_string("0123"));
    assert!(validate_year_string("4567"));
    assert!(validate_year_string("8999"));
}

#[test]
fn year_rejects_neighbours_of_the_digits() {
    // '/' precedes '0' and ':' follows '9'.
    assert!(!validate_year_string("202/"));
    assert!(!validate_year_string("202:"));
    assert!(!validate_year_string("\u{0662}024"));
}
