use rapp_core::text::build_loopback_url;
use rapp_core::text::dec_str_u16;
use rapp_core::text::join_commas;
use rapp_core::text::json_escape;
use rapp_core::text::json_quote;

#[test]
fn decimal_rendering_is_exact() {
    assert_eq!(dec_str_u16(0), "0");
    assert_eq!(dec_str_u16(7), "7");
    assert_eq!(dec_str_u16(7071), "7071");
    assert_eq!(dec_str_u16(65535), "65535");
    assert_eq!(dec_str_u16(1000), "1000");
}

#[test]
fn loopback_urls_carry_port_and_path() {
    assert_eq!(build_loopback_url(7071, "/health"), "http://127.0.0.1:7071/health");
    assert_eq!(build_loopback_url(1, ""), "http://127.0.0.1:1");
}

#[test]
fn escaping_handles_quotes_backslashes_and_controls() {
    assert_eq!(json_escape("plain"), "plain");
    assert_eq!(json_escape("a\"b"), "a\\\"b");
    assert_eq!(json_escape("a\\b"), "a\\\\b");
    assert_eq!(json_escape("a\nb\rc\td"), "a\\nb\\rc\\td");
    assert_eq!(json_escape("\u{0001}"), "\\u0001");
    assert_eq!(json_escape("\u{001f}"), "\\u001f");
    assert_eq!(json_escape(""), "");
    // Characters above the control range stand for themselves.
    assert_eq!(json_escape("héllo ☃"), "héllo ☃");
}

#[test]
fn quoting_wraps_the_escaped_text() {
    assert_eq!(json_quote("hi"), "\"hi\"");
    assert_eq!(json_quote("say \"hi\""), "\"say \\\"hi\\\"\"");
    // The quoted text is a valid JSON string literal for a real parser.
    let v: serde_json::Value = serde_json::from_str(&json_quote("a\"b\\c\nd\u{0002}")).unwrap();
    assert_eq!(v.as_str().unwrap(), "a\"b\\c\nd\u{0002}");
}

#[test]
fn comma_join_has_no_leading_or_trailing_comma() {
    assert_eq!(join_commas(&vec![]), "");
    assert_eq!(join_commas(&vec!["a".to_string()]), "a");
    assert_eq!(join_commas(&vec!["a".to_string(), "b".to_string(), "c".to_string()]), "a,b,c");
}
