use http::HeaderMap;
use zkevm_bench::error::WGError;
use zkevm_bench::headers::RpcFlatHeaderKeyValues;

fn flat(lines: &[&str]) -> RpcFlatHeaderKeyValues {
    RpcFlatHeaderKeyValues::new(lines.iter().map(|s| s.to_string()).collect())
}

#[test]
fn headers_are_parsed_with_or_without_space() {
    let map: HeaderMap = flat(&["Authorization: Bearer abc", "x-api-key:secret"])
        .into_header_map()
        .expect("valid headers");
    assert_eq!(map.len(), 2);
    assert_eq!(map.get("authorization").unwrap(), "Bearer abc");
    assert_eq!(map.get("X-API-KEY").unwrap(), "secret");
}

#[test]
fn value_keeps_later_colons_and_inner_spaces() {
    let map = flat(&["x-url: http://host:8545/a b "]).into_header_map().unwrap();
    assert_eq!(map.get("x-url").unwrap(), "http://host:8545/a b");
}

#[test]
fn later_header_with_same_name_wins() {
    let map = flat(&["X-Key: one", "x-key: two"]).into_header_map().unwrap();
    assert_eq!(map.len(), 1);
    assert_eq!(map.get("x-key").unwrap(), "two");
}

#[test]
fn no_headers_give_an_empty_map() {
    let map = flat(&[]).into_header_map().unwrap();
    assert!(map.is_empty());
}

#[test]
fn header_without_colon_is_refused() {
    match flat(&["ok: 1", "novalue"]).into_header_map() {
        Err(WGError::InvalidHeaderFormat { header }) => assert_eq!(header, "novalue"),
        other => panic!("unexpected {other:?}"),
    }
}

#[test]
fn invalid_header_name_is_refused_with_untrimmed_name() {
    match flat(&["bad name : v"]).into_header_map() {
        Err(WGError::InvalidHeaderName { name, .. }) => assert_eq!(name, "bad name "),
        other => panic!("unexpected {other:?}"),
    }
    assert!(matches!(flat(&[": v"]).into_header_map(), Err(WGError::InvalidHeaderName { .. })));
}

#[test]
fn invalid_header_value_is_refused_with_untrimmed_value() {
    match flat(&["k: a\u{7f}b"]).into_header_map() {
        Err(WGError::InvalidHeaderValue { value, .. }) => assert_eq!(value, " a\u{7f}b"),
        other => panic!("unexpected {other:?}"),
    }
}

#[test]
fn first_bad_header_decides_the_error() {
    match flat(&["a:1", "b c:2", "nocolon"]).into_header_map() {
        Err(WGError::InvalidHeaderName { name, .. }) => assert_eq!(name, "b c"),
        other => panic!("unexpected {other:?}"),
    }
}
