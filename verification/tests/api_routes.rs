use hardclaw::api::{
    address_from_digits, html_response, is_whitespace, json_response, not_found, parse_number,
    recent_heights, route, route_of, same_text, trim_leading, ApiRoute,
};
use hardclaw::crypto::hash::hash_data;
use hardclaw::types::address::Address;

#[test]
fn requests_are_routed_by_their_first_line() {
    assert_eq!(route_of("GET / HTTP/1.1\r\nHost: x\r\n\r\n"), ApiRoute::Explorer);
    assert_eq!(route_of("GET /index.html HTTP/1.1\r\n\r\n"), ApiRoute::Explorer);
    assert_eq!(route_of("GET /api/status HTTP/1.1\r\n\r\n"), ApiRoute::Status);
    assert_eq!(route_of("  GET\t/api/blocks/recent\r\n"), ApiRoute::RecentBlocks);
    assert_eq!(route_of("GET /api/genesis"), ApiRoute::Genesis);
    assert_eq!(route_of("GET /api/unknown HTTP/1.1\r\n\r\n"), ApiRoute::NotFound);
    assert_eq!(route_of("POST /api/status HTTP/1.1\r\n\r\n"), ApiRoute::NotFound);
    assert_eq!(route_of("get /api/status HTTP/1.1\r\n\r\n"), ApiRoute::NotFound);
    // a request without a method or a path asks for the explorer page
    assert_eq!(route_of(""), ApiRoute::Explorer);
    assert_eq!(route_of("GET"), ApiRoute::Explorer);
    assert_eq!(route_of("\r\nGET /api/status"), ApiRoute::Explorer);
    // only the first line counts
    assert_eq!(route_of("GET\n/api/status"), ApiRoute::Explorer);
    // white space of any kind parts the words
    assert_eq!(route_of("GET\u{a0}/api/status\u{2003}HTTP/1.1"), ApiRoute::Status);
}

#[test]
fn balances_are_asked_for_by_address() {
    let digits = "ab".repeat(20);
    let address = Address::from_bytes([0xab; 20]);
    assert_eq!(
        route("GET", &format!("/api/balance/{}", digits)),
        ApiRoute::Balance { text: digits.clone(), address: Some(address) }
    );
    assert_eq!(
        route("GET", &format!("/api/balance/0x{}", digits)),
        ApiRoute::Balance { text: format!("0x{}", digits), address: Some(address) }
    );
    // repetitions of a prefix are taken off
    assert_eq!(
        route("GET", &format!("/api/balance//api/balance/0x0x{}", digits)),
        ApiRoute::Balance { text: format!("0x0x{}", digits), address: Some(address) }
    );
    assert_eq!(
        route("GET", "/api/balance/xyz"),
        ApiRoute::Balance { text: "xyz".to_string(), address: None }
    );
    assert_eq!(
        route("GET", "/api/balance/"),
        ApiRoute::Balance { text: String::new(), address: None }
    );
    assert_eq!(
        route("GET", &format!("/api/balance/{}", "ab".repeat(19))),
        ApiRoute::Balance { text: "ab".repeat(19), address: None }
    );
}

#[test]
fn blocks_are_asked_for_by_hash_or_height() {
    let hash = hash_data(b"block");
    assert_eq!(
        route("GET", &format!("/api/block/{}", hash.to_hex())),
        ApiRoute::Block { hash: Some(hash), height: None }
    );
    assert_eq!(route("GET", "/api/block/17"), ApiRoute::Block { hash: None, height: Some(17) });
    assert_eq!(route("GET", "/api/block/+17"), ApiRoute::Block { hash: None, height: Some(17) });
    assert_eq!(route("GET", "/api/block/x"), ApiRoute::Block { hash: None, height: None });
    assert_eq!(route("GET", "/api/block/"), ApiRoute::Block { hash: None, height: None });
    // sixty-four digits are a hash and too large for a height
    let digits = "1".repeat(64);
    assert!(matches!(
        route("GET", &format!("/api/block/{}", digits)),
        ApiRoute::Block { hash: Some(_), height: None }
    ));
    assert_eq!(
        route("GET", &format!("/api/job/{}", hash.to_hex())),
        ApiRoute::Job { hash: Some(hash) }
    );
    assert_eq!(route("GET", "/api/job/nothing"), ApiRoute::Job { hash: None });
}

#[test]
fn numbers_are_parsed_as_decimal() {
    assert_eq!(parse_number("0"), Some(0));
    assert_eq!(parse_number("007"), Some(7));
    assert_eq!(parse_number("+5"), Some(5));
    assert_eq!(parse_number("18446744073709551615"), Some(u64::MAX));
    assert_eq!(parse_number("18446744073709551616"), None);
    assert_eq!(parse_number("99999999999999999999999"), None);
    assert_eq!(parse_number(""), None);
    assert_eq!(parse_number("+"), None);
    assert_eq!(parse_number("-1"), None);
    assert_eq!(parse_number("++1"), None);
    assert_eq!(parse_number("1 "), None);
    assert_eq!(parse_number("12a"), None);
    assert_eq!(parse_number("١٢"), None);
    for text in ["0", "5", "+5", "12a", "", "+", "18446744073709551616", "0018"] {
        assert_eq!(parse_number(text), text.parse::<u64>().ok());
    }
}

#[test]
fn text_helpers_agree_with_the_standard_library() {
    for c in ['\t', '\n', '\u{b}', '\u{c}', '\r', ' ', '\u{85}', '\u{a0}', '\u{1680}', '\u{2000}',
        '\u{200a}', '\u{2028}', '\u{2029}', '\u{202f}', '\u{205f}', '\u{3000}', 'a', '0',
        '\u{200b}', '\u{8}', '\u{e}', '\u{feff}']
    {
        assert_eq!(is_whitespace(c), c.is_whitespace());
    }
    assert!(same_text("api", "api"));
    assert!(!same_text("api", "apis"));
    assert!(!same_text("api", "apj"));
    assert!(same_text("", ""));
    for (text, prefix) in [("ababc", "ab"), ("abc", "x"), ("aaa", "a"), ("abc", ""), ("", "ab"),
        ("ééx", "é"), ("0x0x12", "0x")]
    {
        assert_eq!(trim_leading(text, prefix), text.trim_start_matches(prefix));
    }
    assert_eq!(address_from_digits(&"0f".repeat(20)), Some(Address::from_bytes([0x0f; 20])));
    assert_eq!(address_from_digits(&"0f".repeat(21)), None);
    assert_eq!(address_from_digits("0x"), None);
}

#[test]
fn recent_blocks_are_the_last_ten() {
    assert!(recent_heights(0).is_empty());
    assert_eq!(recent_heights(1), vec![0]);
    assert_eq!(recent_heights(3), vec![2, 1, 0]);
    assert_eq!(recent_heights(10), vec![9, 8, 7, 6, 5, 4, 3, 2, 1, 0]);
    assert_eq!(recent_heights(25), vec![24, 23, 22, 21, 20, 19, 18, 17, 16, 15]);
    assert_eq!(recent_heights(u64::MAX).len(), 10);
    assert_eq!(recent_heights(u64::MAX)[0], u64::MAX - 1);
}

#[test]
fn responses_are_framed_with_their_length() {
    assert_eq!(
        html_response("<p>hi</p>"),
        "HTTP/1.1 200 OK\r\nContent-Length: 9\r\nContent-Type: text/html\r\nConnection: close\r\n\r\n<p>hi</p>"
    );
    assert_eq!(
        json_response("{\"é\":1}"),
        "HTTP/1.1 200 OK\r\nContent-Length: 8\r\nContent-Type: application/json\r\nAccess-Control-Allow-Origin: *\r\nConnection: close\r\n\r\n{\"é\":1}"
    );
    assert_eq!(
        not_found(),
        "HTTP/1.1 404 Not Found\r\nContent-Length: 0\r\nConnection: close\r\n\r\n"
    );
}
