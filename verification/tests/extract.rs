use hcaptcha_monitor::token::{pad_base64, token_payload};
use hcaptcha_monitor::version::{extract_version, ExtractError};

#[test]
fn version_found_in_script_body() {
    let body = "var x = 1; load(\"/captcha/v1/deadbeef/static/js/api.js\");";
    assert_eq!(extract_version(body).unwrap(), "deadbeef");
}

#[test]
fn version_first_occurrence_wins() {
    let body = "/captcha/v1/0a1b/static ... /captcha/v1/ffff/static";
    assert_eq!(extract_version(body).unwrap(), "0a1b");
}

#[test]
fn version_absent_pattern_is_not_found() {
    let body = "nothing of interest here";
    assert_eq!(extract_version(body), Err(ExtractError::NotFound));
}

#[test]
fn version_empty_body_is_not_found() {
    assert_eq!(extract_version(""), Err(ExtractError::NotFound));
}

#[test]
fn version_needs_at_least_one_hex_char() {
    let body = "/captcha/v1//static";
    assert_eq!(extract_version(body), Err(ExtractError::NotFound));
}

#[test]
fn version_rejects_uppercase_hex() {
    let body = "/captcha/v1/DEADBEEF/static";
    assert_eq!(extract_version(body), Err(ExtractError::NotFound));
}

#[test]
fn version_needs_full_static_suffix() {
    let body = "/captcha/v1/deadbeef/stati";
    assert_eq!(extract_version(body), Err(ExtractError::NotFound));
}

#[test]
fn version_skips_broken_candidate_for_later_match() {
    let body = "/captcha/v1/ZZ/static then /captcha/v1/00ff/static";
    assert_eq!(extract_version(body).unwrap(), "00ff");
}

#[test]
fn payload_is_second_dot_component() {
    assert_eq!(token_payload("header.payload.signature").unwrap(), "payload");
}

#[test]
fn payload_of_two_components() {
    assert_eq!(token_payload("a.b").unwrap(), "b");
}

#[test]
fn payload_missing_without_dot() {
    assert_eq!(token_payload("nodotshere"), None);
}

#[test]
fn payload_may_be_empty() {
    assert_eq!(token_payload("a.").unwrap(), "");
    assert_eq!(token_payload("a..c").unwrap(), "");
}

#[test]
fn padding_by_remainder() {
    assert_eq!(pad_base64(""), "");
    assert_eq!(pad_base64("a"), "a");
    assert_eq!(pad_base64("ab"), "ab==");
    assert_eq!(pad_base64("abc"), "abc=");
    assert_eq!(pad_base64("abcd"), "abcd");
    assert_eq!(pad_base64("abcde"), "abcde");
    assert_eq!(pad_base64("abcdef"), "abcdef==");
}
