use floopfloop::config::{
    build_config, default_config, normalize_base_url, DEFAULT_BASE_URL, DEFAULT_TIMEOUT_SECS,
};
use floopfloop::paths::urlencoding_encode;
use floopfloop::text::{i64_text, non_empty_or, u64_text};
use floopfloop::time::{retry_after_from_http_date, retry_wait};
use std::time::UNIX_EPOCH;
use floopfloop::{FloopErrorCode, VERSION};
use std::time::Duration;

#[test]
fn url_encoding() {
    assert_eq!(urlencoding_encode("abcXYZ019-_.~"), "abcXYZ019-_.~");
    assert_eq!(urlencoding_encode("a b/c?d=e&f"), "a%20b%2Fc%3Fd%3De%26f");
    assert_eq!(urlencoding_encode("caf\u{e9}"), "caf%C3%A9");
    assert_eq!(urlencoding_encode(""), "");
}

#[test]
fn decimal_rendering() {
    assert_eq!(u64_text(0), "0");
    assert_eq!(u64_text(1234567890), "1234567890");
    assert_eq!(u64_text(u64::MAX), u64::MAX.to_string());
    assert_eq!(i64_text(-42), "-42");
    assert_eq!(i64_text(i64::MIN), i64::MIN.to_string());
    assert_eq!(non_empty_or("", "fallback"), "fallback");
    assert_eq!(non_empty_or("x", "fallback"), "x");
}

#[test]
fn base_url_and_config() {
    assert_eq!(normalize_base_url("https://staging.floopfloop.com///"), "https://staging.floopfloop.com");
    assert_eq!(normalize_base_url("http://localhost:3000"), "http://localhost:3000");
    assert_eq!(normalize_base_url("///"), "");
    assert_eq!(DEFAULT_BASE_URL, "https://www.floopfloop.com");
    let err = build_config(String::new(), DEFAULT_BASE_URL.to_string(), None).expect_err("empty");
    assert_eq!(err.code, FloopErrorCode::ValidationError);
    assert_eq!(err.message, "api_key is required");
    let c = build_config("flp_test".to_string(), "http://x".to_string(), None).unwrap();
    assert_eq!(c.user_agent, format!("floopfloop-rust-sdk/{VERSION}"));
    let c = build_config("flp_test".to_string(), "http://x".to_string(), Some("myapp/1.2".to_string()))
        .unwrap();
    assert_eq!(c.user_agent, format!("floopfloop-rust-sdk/{VERSION} myapp/1.2"));
    assert_eq!(c.base_url, "http://x");
    assert_eq!(c.api_key, "flp_test");
}

#[test]
fn retry_after_http_date() {
    // A fixed date in the past gives a zero wait.
    let past = "Wed, 21 Oct 2015 07:28:00 GMT";
    assert_eq!(retry_after_from_http_date(past), Some(Duration::ZERO));
    assert_eq!(retry_after_from_http_date("soon"), None);
    assert_eq!(retry_after_from_http_date("5"), None);
    let future = "Thu, 31 Dec 2099 23:59:59 GMT";
    assert!(retry_after_from_http_date(future).unwrap() > Duration::from_secs(3600));
}

#[test]
fn retry_wait_against_a_given_clock() {
    let now = UNIX_EPOCH + Duration::from_secs(10);
    let when = UNIX_EPOCH + Duration::from_secs(15);
    assert_eq!(retry_wait(&when, &now), Duration::from_secs(5));
    assert_eq!(retry_wait(&now, &when), Duration::ZERO);
    assert_eq!(retry_wait(&now, &now), Duration::ZERO);
}

#[test]
fn default_client_settings() {
    let c = default_config("flp_live".to_string());
    assert_eq!(c.api_key, "flp_live");
    assert_eq!(c.base_url, "https://www.floopfloop.com");
    assert_eq!(c.base_url, DEFAULT_BASE_URL);
    assert_eq!(c.user_agent, format!("floopfloop-rust-sdk/{VERSION}"));
    assert_eq!(DEFAULT_TIMEOUT_SECS, 30);
}
