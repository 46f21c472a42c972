//! Splitting URLs into host and path.

use wininet_client::request::{Client, Request};

fn parts(url: &str) -> Result<(String, String), u32> {
    let request: Request = Client::get(url);
    request.parse_url(url)
}

fn ok(host: &str, path: &str) -> Result<(String, String), u32> {
    Ok((host.to_string(), path.to_string()))
}

#[test]
fn scheme_host_and_path_are_split() {
    assert_eq!(parts("scheme://host/path"), ok("host", "/path"));
    assert_eq!(parts("https://example.com/path"), ok("example.com", "/path"));
    assert_eq!(parts("https://reqres.in/api/users/2"), ok("reqres.in", "/api/users/2"));
}

#[test]
fn url_without_path_is_rejected() {
    assert_eq!(parts("scheme://host"), Err(1));
    assert_eq!(parts("https://example.com"), Err(1));
}

#[test]
fn url_without_separator_is_rejected() {
    assert_eq!(parts("example.com/path"), Err(1));
    assert_eq!(parts("https:/example.com/path"), Err(1));
    assert_eq!(parts("https//example.com/path"), Err(1));
    assert_eq!(parts("/just/a/path"), Err(1));
}

#[test]
fn short_urls_are_rejected() {
    assert_eq!(parts(""), Err(1));
    assert_eq!(parts(":"), Err(1));
    assert_eq!(parts(":/"), Err(1));
    assert_eq!(parts("://"), Err(1));
    assert_eq!(parts("a://"), Err(1));
    assert_eq!(parts("//"), Err(1));
}

#[test]
fn root_path_alone_is_enough() {
    assert_eq!(parts("https://example.com/"), ok("example.com", "/"));
    assert_eq!(parts(":///"), ok("", "/"));
}

#[test]
fn host_may_be_empty() {
    assert_eq!(parts("file:///etc/hosts"), ok("", "/etc/hosts"));
}

#[test]
fn path_keeps_everything_after_the_host() {
    assert_eq!(parts("https://h/a//b?c=d://e#f"), ok("h", "/a//b?c=d://e#f"));
    assert_eq!(parts("https://h:8443/x"), ok("h:8443", "/x"));
    assert_eq!(parts("https://user@h/x y"), ok("user@h", "/x y"));
}

#[test]
fn first_separator_counts() {
    assert_eq!(parts("a://b://c/d"), ok("b:", "//c/d"));
    assert_eq!(parts("a:/b://c/d"), ok("c", "/d"));
    assert_eq!(parts("a:://h/p"), ok("h", "/p"));
}

#[test]
fn scheme_may_be_empty_or_odd() {
    assert_eq!(parts("://host/path"), ok("host", "/path"));
    assert_eq!(parts("/://host/path"), ok("host", "/path"));
}

#[test]
fn urls_with_wide_characters_are_split_at_the_same_places() {
    assert_eq!(parts("https://bücher.example/straße"), ok("bücher.example", "/straße"));
    assert_eq!(parts("ß://日本語/パス"), ok("日本語", "/パス"));
    assert_eq!(parts("https://日本語"), Err(1));
}

#[test]
fn splitting_does_not_depend_on_the_request() {
    let request = Client::get("https://other.example/elsewhere");
    assert_eq!(request.parse_url("https://example.com/path"), ok("example.com", "/path"));
    assert_eq!(request.parse_url("nothing"), Err(1));
}
