use http::header::HeaderName;
use http::{HeaderMap, HeaderValue};
use vpndetection_axum::request_header;

fn some(text: &str) -> Option<String> {
    Some(text.to_owned())
}

#[test]
fn a_header_is_found_in_any_case() {
    let mut headers = HeaderMap::new();
    headers.insert("cf-connecting-ip", HeaderValue::from_static("45.83.91.9"));

    assert_eq!(request_header(&headers, "CF-Connecting-IP"), some("45.83.91.9"));
    assert_eq!(request_header(&headers, "cf-connecting-ip"), some("45.83.91.9"));
    assert_eq!(request_header(&headers, "cF-cOnNeCtInG-iP"), some("45.83.91.9"));
    assert_eq!(request_header(&headers, "x-real-ip"), None);
}

#[test]
fn the_first_of_several_values_counts() {
    let mut headers = HeaderMap::new();
    headers.append("x-forwarded-for", HeaderValue::from_static("45.83.91.1, 70.41.3.18"));
    headers.append("x-forwarded-for", HeaderValue::from_static("150.172.238.178"));

    assert_eq!(request_header(&headers, "X-Forwarded-For"), some("45.83.91.1, 70.41.3.18"));
}

#[test]
fn a_value_that_is_not_text_is_absent() {
    let mut headers = HeaderMap::new();
    headers.insert("x-real-ip", HeaderValue::from_bytes(b"45.83.91.\xb9").unwrap());
    headers.append("x-real-ip", HeaderValue::from_static("45.83.91.9"));
    headers.insert("x-tab", HeaderValue::from_bytes(b"a\t~ ").unwrap());
    headers.insert("x-empty", HeaderValue::from_static(""));

    assert_eq!(request_header(&headers, "x-real-ip"), None);
    assert_eq!(request_header(&headers, "x-tab"), some("a\t~ "));
    assert_eq!(request_header(&headers, "x-empty"), some(""));
}

#[test]
fn a_text_that_is_no_header_name_reaches_nothing() {
    let mut headers = HeaderMap::new();
    headers.insert("x-real-ip", HeaderValue::from_static("45.83.91.9"));
    headers.insert(
        HeaderName::from_lowercase(b"a\"b").unwrap(),
        HeaderValue::from_static("quoted"),
    );

    assert_eq!(request_header(&headers, ""), None);
    assert_eq!(request_header(&headers, "x real ip"), None);
    assert_eq!(request_header(&headers, "x-real-\u{130}p"), None);
    assert_eq!(request_header(&headers, "a\"b"), None);
}

#[test]
fn a_long_name_is_found_in_any_case() {
    let long = "x-".to_owned() + &"ab".repeat(50);
    let mut headers = HeaderMap::new();
    headers.insert(
        HeaderName::from_bytes(long.as_bytes()).unwrap(),
        HeaderValue::from_static("far"),
    );

    assert_eq!(request_header(&headers, &long), some("far"));
    assert_eq!(request_header(&headers, &long.to_uppercase()), some("far"));
    assert_eq!(request_header(&headers, &long[1..]), None);
}
