use axum_tws::headers::{
    contains_in, equals_in, header_contains, header_eq, lower_byte, value_contains, value_eq,
};
use http::{HeaderMap, HeaderValue};

fn map_of(pairs: &[(&'static str, &'static [u8])]) -> HeaderMap {
    let mut headers = HeaderMap::new();
    for (name, value) in pairs {
        headers.append(*name, HeaderValue::from_bytes(value).unwrap());
    }
    headers
}

#[test]
fn lower_byte_touches_capital_letters_only() {
    assert_eq!(lower_byte(b'A'), b'a');
    assert_eq!(lower_byte(b'Z'), b'z');
    assert_eq!(lower_byte(b'a'), b'a');
    assert_eq!(lower_byte(b'@'), b'@');
    assert_eq!(lower_byte(b'['), b'[');
    assert_eq!(lower_byte(0xC4), 0xC4);
}

#[test]
fn value_contains_finds_the_needle_in_a_comma_list() {
    assert!(value_contains(b"keep-alive, Upgrade", b"upgrade"));
    assert!(value_contains(b"UPGRADE", b"upgrade"));
    assert!(value_contains(b"xupgradex", b"upgrade"));
    assert!(!value_contains(b"keep-alive", b"upgrade"));
    assert!(!value_contains(b"upgrad", b"upgrade"));
}

#[test]
fn value_contains_lowers_the_value_and_not_the_needle() {
    assert!(!value_contains(b"upgrade", b"Upgrade"));
    assert!(!value_contains(b"Upgrade", b"Upgrade"));
}

#[test]
fn value_contains_takes_the_empty_needle_everywhere() {
    assert!(value_contains(b"", b""));
    assert!(value_contains(b"abc", b""));
    assert!(!value_contains(b"", b"a"));
}

#[test]
fn value_contains_searches_bytes_whatever_they_encode() {
    assert!(value_contains(b"\xffupgrade", b"upgrade"));
    assert!(value_contains(b"UPGRADE\xc3", b"upgrade"));
    assert!(value_contains("\u{e9}upgrade".as_bytes(), b"upgrade"));
    assert!(value_contains(b"\xff\xfe", b"\xfe"));
    assert!(!value_contains(b"\xffupgrad", b"upgrade"));
}

#[test]
fn value_eq_ignores_ascii_case_only() {
    assert!(value_eq(b"WebSocket", b"websocket"));
    assert!(value_eq(b"websocket", b"WEBSOCKET"));
    assert!(value_eq(b"13", b"13"));
    assert!(value_eq(b"", b""));
    assert!(!value_eq(b"websocket ", b"websocket"));
    assert!(!value_eq(b"websocke", b"websocket"));
    assert!(!value_eq(b"14", b"13"));
    assert!(!value_eq(b"\xc4", b"\xe4"));
    assert!(value_eq(b"\xff", b"\xff"));
}

#[test]
fn header_contains_needs_the_header() {
    let headers = map_of(&[("connection", b"keep-alive, Upgrade")]);
    assert!(header_contains(&headers, "connection", "upgrade"));
    assert!(!header_contains(&headers, "upgrade", "upgrade"));
    assert!(!header_contains(&HeaderMap::new(), "connection", "upgrade"));
}

#[test]
fn header_contains_reads_the_first_value() {
    let headers = map_of(&[("connection", b"keep-alive"), ("connection", b"upgrade")]);
    assert!(!header_contains(&headers, "connection", "upgrade"));
    assert!(header_contains(&headers, "connection", "keep-alive"));
}

#[test]
fn header_eq_compares_the_whole_value() {
    let headers = map_of(&[("upgrade", b"WebSocket"), ("sec-websocket-version", b"13")]);
    assert!(header_eq(&headers, "upgrade", "websocket"));
    assert!(header_eq(&headers, "sec-websocket-version", "13"));
    assert!(!header_eq(&headers, "sec-websocket-version", "1"));
    assert!(!header_eq(&headers, "sec-websocket-key", "13"));
}

#[test]
fn header_eq_would_not_pass_on_the_name_alone() {
    let headers = map_of(&[("upgrade", b"h2c")]);
    assert!(!header_eq(&headers, "upgrade", "upgrade"));
    assert!(!header_eq(&headers, "upgrade", "websocket"));
    assert!(header_eq(&headers, "upgrade", "H2C"));
}

#[test]
fn contains_in_needs_a_value() {
    assert!(contains_in(&Some(b"Keep-Alive, Upgrade".to_vec()), "upgrade"));
    assert!(!contains_in(&Some(b"close".to_vec()), "upgrade"));
    assert!(!contains_in(&None, "upgrade"));
    assert!(!contains_in(&None, ""));
    assert!(contains_in(&Some(Vec::new()), ""));
}

#[test]
fn equals_in_needs_a_value() {
    assert!(equals_in(&Some(b"WEBSOCKET".to_vec()), "websocket"));
    assert!(!equals_in(&Some(b"websocket2".to_vec()), "websocket"));
    assert!(!equals_in(&None, "websocket"));
    assert!(!equals_in(&None, ""));
    assert!(equals_in(&Some(Vec::new()), ""));
}
