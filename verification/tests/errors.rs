//! The error value, the text that shows it, and the small helpers.

use wininet_client::add;
use wininet_client::error::{ReqResult, RequestError};
use wininet_client::exchange::Stage;
use wininet_client::text::{chars_of, str_eq};

#[test]
fn error_keeps_description_and_code() {
    let error = RequestError::new("InternetConnect failed", 12007);
    assert_eq!(error.description(), "InternetConnect failed");
    assert_eq!(error.error_code(), 12007);
}

#[test]
fn error_is_shown_with_description_and_decimal_code() {
    let error = RequestError::new("InternetConnect failed", 12007);
    assert_eq!(error.to_string(), "RequestError: InternetConnect failed (Code: 12007)");
}

#[test]
fn code_is_shown_without_leading_zeros() {
    assert_eq!(RequestError::new("x", 0).to_string(), "RequestError: x (Code: 0)");
    assert_eq!(RequestError::new("x", 7).to_string(), "RequestError: x (Code: 7)");
    assert_eq!(RequestError::new("x", 10).to_string(), "RequestError: x (Code: 10)");
    assert_eq!(RequestError::new("x", 100).to_string(), "RequestError: x (Code: 100)");
    assert_eq!(RequestError::new("x", 109).to_string(), "RequestError: x (Code: 109)");
    assert_eq!(
        RequestError::new("x", 1234567890).to_string(),
        "RequestError: x (Code: 1234567890)"
    );
    assert_eq!(
        RequestError::new("x", u32::MAX).to_string(),
        "RequestError: x (Code: 4294967295)"
    );
}

#[test]
fn empty_description_is_shown_as_nothing() {
    assert_eq!(RequestError::new("", 5).to_string(), "RequestError:  (Code: 5)");
}

#[test]
fn result_alias_carries_the_error() {
    let failed: ReqResult<String> = Err(RequestError::new("HttpSendRequest failed", 3));
    let error = failed.unwrap_err();
    assert_eq!(error.description(), "HttpSendRequest failed");
    assert_eq!(error.error_code(), 3);
    let fine: ReqResult<u8> = Ok(9);
    assert_eq!(fine.unwrap(), 9);
}

#[test]
fn each_stage_has_its_description() {
    assert_eq!(Stage::SessionOpen.description(), "InternetOpen failed");
    assert_eq!(Stage::UrlParse.description(), "Failed to parse url");
    assert_eq!(Stage::Connect.description(), "InternetConnect failed");
    assert_eq!(Stage::RequestOpen.description(), "HttpOpenRequest failed");
    assert_eq!(Stage::Send.description(), "HttpSendRequest failed");
    assert_eq!(Stage::Read.description(), "InternetReadFile failed");
    assert_eq!(Stage::Decode.description(), "Failed to convert result to utf8 string");
}

#[test]
fn add_adds() {
    assert_eq!(add(2, 2), 4);
    assert_eq!(add(0, 0), 0);
    assert_eq!(add(usize::MAX - 1, 1), usize::MAX);
    assert_eq!(add(0, usize::MAX), usize::MAX);
}

#[test]
fn str_eq_compares_characters() {
    assert!(str_eq("", ""));
    assert!(str_eq("GET", "GET"));
    assert!(str_eq("straße", "straße"));
    assert!(!str_eq("GET", "GET "));
    assert!(!str_eq("GET", "GE"));
    assert!(!str_eq("", "a"));
    assert!(!str_eq("a", ""));
    assert!(!str_eq("GET", "GEt"));
    assert!(!str_eq("é", "e"));
}

#[test]
fn chars_of_lists_the_characters() {
    assert_eq!(chars_of(""), Vec::<char>::new());
    assert_eq!(chars_of("a:/"), vec!['a', ':', '/']);
    assert_eq!(chars_of("ß€"), vec!['ß', '€']);
}
