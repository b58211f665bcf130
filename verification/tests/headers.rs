use http::header::{HeaderMap, HeaderName, HeaderValue};
use http::Method;
use wreq_proto::headers;
use wreq_proto::text;

fn fields(list: &[(&'static str, &[u8])]) -> HeaderMap {
    let mut map = HeaderMap::new();
    for (name, value) in list {
        map.append(
            HeaderName::from_static(name),
            HeaderValue::from_bytes(value).unwrap(),
        );
    }
    map
}

fn names(map: &HeaderMap) -> Vec<String> {
    let mut names: Vec<String> = map.keys().map(|name| name.as_str().to_string()).collect();
    names.sort();
    names
}

#[test]
fn connection_fields_are_stripped() {
    let mut map = fields(&[
        ("keep-alive", b"timeout=5"),
        ("proxy-connection", b"close"),
        ("transfer-encoding", b"chunked"),
        ("upgrade", b"websocket"),
        ("connection", b"close"),
        ("accept", b"*/*"),
    ]);
    headers::strip_connection_headers(&mut map, true);
    assert_eq!(names(&map), vec!["accept"]);
    assert_eq!(map["accept"], "*/*");
}

#[test]
fn nominated_fields_are_stripped_without_regard_to_case() {
    let mut map = fields(&[
        ("connection", b"X-One , x-two,, close"),
        ("x-one", b"1"),
        ("x-one", b"again"),
        ("x-two", b"2"),
        ("x-three", b"3"),
    ]);
    headers::strip_connection_headers(&mut map, true);
    assert_eq!(names(&map), vec!["x-three"]);
}

#[test]
fn only_the_first_connection_value_nominates() {
    let mut map = fields(&[
        ("connection", b"x-one"),
        ("connection", b"x-two"),
        ("x-one", b"1"),
        ("x-two", b"2"),
    ]);
    headers::strip_connection_headers(&mut map, true);
    assert_eq!(names(&map), vec!["x-two"]);
}

#[test]
fn connection_value_that_is_no_text_nominates_nothing() {
    let mut map = fields(&[("connection", b"x-one\xff"), ("x-one", b"1")]);
    headers::strip_connection_headers(&mut map, true);
    assert_eq!(names(&map), vec!["x-one"]);
}

#[test]
fn te_stays_in_requests_that_say_trailers() {
    let mut map = fields(&[("te", b"trailers")]);
    headers::strip_connection_headers(&mut map, true);
    assert_eq!(names(&map), vec!["te"]);
    headers::strip_connection_headers(&mut map, false);
    assert!(map.is_empty());
    let mut map = fields(&[("te", b"gzip")]);
    headers::strip_connection_headers(&mut map, true);
    assert!(map.is_empty());
    let mut map = fields(&[("te", b"Trailers")]);
    headers::strip_connection_headers(&mut map, true);
    assert!(map.is_empty());
}

#[test]
fn stripping_twice_is_stripping_once() {
    let mut map = fields(&[
        ("connection", b"x-one"),
        ("x-one", b"1"),
        ("te", b"trailers"),
        ("x-two", b"2"),
    ]);
    headers::strip_connection_headers(&mut map, true);
    let once = map.clone();
    headers::strip_connection_headers(&mut map, true);
    assert_eq!(map, once);
    assert_eq!(names(&map), vec!["te", "x-two"]);
}

#[test]
fn connection_options_are_found_in_lists() {
    let value = HeaderValue::from_static("Upgrade, \tKEEP-alive ");
    assert!(headers::connection_keep_alive(&value));
    assert!(!headers::connection_close(&value));
    let value = HeaderValue::from_static("Close");
    assert!(headers::connection_close(&value));
    assert!(!headers::connection_keep_alive(&value));
    assert!(!headers::connection_close(&HeaderValue::from_static("closed")));
    assert!(!headers::connection_has(
        &HeaderValue::from_bytes(b"close\xff").unwrap(),
        "close"
    ));
}

#[test]
fn any_connection_line_may_say_close() {
    assert!(headers::connection_any_close(&fields(&[
        ("connection", b"keep-alive"),
        ("connection", b"x, close"),
    ])));
    assert!(!headers::connection_any_close(&fields(&[("connection", b"keep-alive")])));
    assert!(!headers::connection_any_close(&HeaderMap::new()));
}

#[test]
fn agreeing_lengths_parse() {
    let parse = headers::content_length_parse_all;
    assert_eq!(parse(&HeaderMap::new()), None);
    assert_eq!(parse(&fields(&[("content-length", b"42")])), Some(42));
    assert_eq!(
        parse(&fields(&[("content-length", b"7, 7"), ("content-length", b"07")])),
        Some(7)
    );
    assert_eq!(
        parse(&fields(&[("content-length", b"7"), ("content-length", b"8")])),
        None
    );
    assert_eq!(parse(&fields(&[("content-length", b"7,")])), None);
    assert_eq!(parse(&fields(&[("content-length", b"+7")])), None);
    assert_eq!(parse(&fields(&[("content-length", b"7\xff")])), None);
    assert_eq!(
        parse(&fields(&[("content-length", b"18446744073709551615")])),
        Some(u64::MAX)
    );
    assert_eq!(parse(&fields(&[("content-length", b"18446744073709551616")])), None);
}

#[test]
fn length_values_parse_on_their_own() {
    let one = HeaderValue::from_static("12");
    let two = HeaderValue::from_static("12 ");
    assert_eq!(headers::content_length_parse_all_values(&vec![&one, &two]), Some(12));
    assert_eq!(headers::content_length_parse_all_values(&vec![]), None);
}

#[test]
fn digits_are_read_without_a_sign() {
    assert_eq!(text::from_digits(b""), None);
    assert_eq!(text::from_digits(b"0"), Some(0));
    assert_eq!(text::from_digits(b"0019"), Some(19));
    assert_eq!(text::from_digits(b"-1"), None);
    assert_eq!(text::from_digits(b"1x"), None);
    assert_eq!(text::from_digits(b"18446744073709551615"), Some(u64::MAX));
    assert_eq!(text::from_digits(b"99999999999999999999"), None);
}

#[test]
fn list_items_are_trimmed() {
    let list = b" a ,\t, b";
    let ranges = text::item_ranges(list);
    let items: Vec<&[u8]> = ranges.iter().map(|(from, to)| &list[*from..*to]).collect();
    assert_eq!(items, vec![&b"a"[..], &b""[..], &b"b"[..]]);
}

#[test]
fn methods_with_payload_semantics() {
    for method in [
        Method::GET,
        Method::HEAD,
        Method::DELETE,
        Method::CONNECT,
        Method::OPTIONS,
    ] {
        assert!(!headers::method_has_defined_payload_semantics(&method));
    }
    for method in [
        Method::POST,
        Method::PUT,
        Method::PATCH,
        Method::TRACE,
        Method::from_bytes(b"get").unwrap(),
    ] {
        assert!(headers::method_has_defined_payload_semantics(&method));
    }
}

#[test]
fn added_length_is_the_declared_length() {
    let mut map = fields(&[("accept", b"*/*")]);
    assert!(headers::set_content_length_if_missing(&mut map, 1024).is_ok());
    assert_eq!(map["content-length"], "1024");
    assert_eq!(headers::content_length_parse_all(&map), Some(1024));
    assert!(headers::set_content_length_if_missing(&mut map, 7).is_ok());
    assert_eq!(map["content-length"], "1024");
    assert_eq!(map.len(), 2);
}

#[test]
fn full_field_table_takes_no_length() {
    let mut map = HeaderMap::new();
    let mut n: u32 = 0;
    while map.try_insert(
        HeaderName::from_bytes(format!("x-{n}").as_bytes()).unwrap(),
        HeaderValue::from_static("1"),
    )
    .is_ok()
    {
        n += 1;
    }
    let before = map.keys_len();
    assert!(before > 6553);
    assert!(headers::set_content_length_if_missing(&mut map, 5).is_err());
    assert_eq!(map.keys_len(), before);
    assert!(map.get("content-length").is_none());
}

#[test]
fn chunked_must_be_the_last_encoding() {
    assert!(headers::transfer_encoding_is_chunked(&fields(&[(
        "transfer-encoding",
        b"gzip, Chunked"
    )])));
    assert!(!headers::transfer_encoding_is_chunked(&fields(&[(
        "transfer-encoding",
        b"chunked, gzip"
    )])));
    assert!(!headers::transfer_encoding_is_chunked(&fields(&[
        ("transfer-encoding", b"chunked"),
        ("transfer-encoding", b"gzip"),
    ])));
    assert!(!headers::transfer_encoding_is_chunked(&HeaderMap::new()));
    assert!(!headers::is_chunked(&vec![]));
    assert!(headers::is_chunked(&vec![&HeaderValue::from_static("chunked")]));
}

#[test]
fn added_chunked_is_chunked() {
    let mut map = fields(&[
        ("transfer-encoding", b"gzip"),
        ("transfer-encoding", b"deflate"),
    ]);
    assert!(!headers::transfer_encoding_is_chunked(&map));
    assert!(headers::add_chunked(&mut map).is_ok());
    let values: Vec<&HeaderValue> = map.get_all("transfer-encoding").iter().collect();
    assert_eq!(values, vec!["gzip", "deflate, chunked"]);
    assert!(headers::transfer_encoding_is_chunked(&map));
}

#[test]
fn chunked_is_added_only_to_an_encoding() {
    let mut map = fields(&[("accept", b"*/*")]);
    assert!(headers::try_add_chunked(&mut map).is_none());
    assert_eq!(map.len(), 1);
    map.insert("transfer-encoding", HeaderValue::from_static("gzip"));
    assert!(matches!(headers::try_add_chunked(&mut map), Some(Ok(()))));
    assert_eq!(map["transfer-encoding"], "gzip, chunked");
}

#[test]
fn text_compares() {
    assert!(text::equal_text("CONNECT", "CONNECT"));
    assert!(!text::equal_text("CONNECT", "connect"));
    assert!(text::equal_ignoring_case(b"TraiLERS", b"trailers"));
    assert!(!text::equal_ignoring_case(b"trailer", b"trailers"));
    assert!(!text::equal_bytes(b"a", b"b"));
    assert!(text::are_digits(b"0123456789"));
    assert!(!text::are_digits(b"12a"));
}
