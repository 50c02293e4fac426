use imagehub::errors::Error;
use imagehub::json::obj_get;
use imagehub::json::obj_get_int_text;
use imagehub::json::JsonValue;
use imagehub::text::find_bytes;
use imagehub::text::hex_lowercase;
use imagehub::text::i64_to_decimal;
use imagehub::text::prefix_before_char;
use imagehub::text::same_text;
use imagehub::text::starts_with;
use imagehub::text::u128_to_decimal;

#[test]
fn decimal_renderings_match_to_string() {
    for n in [0u128, 7, 10, 99, 1234567890123, u128::MAX] {
        assert_eq!(u128_to_decimal(n), n.to_string());
    }
    for i in [0i64, -1, 42, -42, i64::MAX, i64::MIN] {
        assert_eq!(i64_to_decimal(i), i.to_string());
    }
}

#[test]
fn hex_is_two_lowercase_digits_per_byte() {
    assert_eq!(hex_lowercase(&[0x00, 0xab, 0x0f, 0xff]), "00ab0fff");
    assert_eq!(hex_lowercase(&[]), "");
}

#[test]
fn prefix_and_cut_helpers() {
    assert!(starts_with("KEEP_LOGIN=1", "KEEP_LOGIN="));
    assert!(!starts_with("KEEP", "KEEP_LOGIN="));
    assert!(same_text("png", "png"));
    assert!(!same_text("png", "pn"));
    assert_eq!(prefix_before_char("a=b; c=d", ';'), "a=b");
    assert_eq!(prefix_before_char("a=b", ';'), "a=b");
    assert_eq!(prefix_before_char("名=值;x", ';'), "名=值");
}

#[test]
fn byte_search_finds_first_occurrence() {
    assert_eq!(find_bytes(b"abcabc", b"bc", 0), Some(1));
    assert_eq!(find_bytes(b"abcabc", b"bc", 2), Some(4));
    assert_eq!(find_bytes(b"abc", b"abcd", 0), None);
    assert_eq!(find_bytes(b"abc", b"x", 0), None);
}

#[test]
fn json_members_are_read_by_name() {
    let doc = JsonValue::Object(vec![
        ("a".to_string(), JsonValue::Str("1".to_string())),
        ("n".to_string(), JsonValue::Number(Some(5))),
        ("a".to_string(), JsonValue::Str("2".to_string())),
    ]);
    assert_eq!(obj_get(&doc, "a"), "1");
    assert_eq!(obj_get(&doc, "n"), "");
    assert_eq!(obj_get(&doc, "missing"), "");
    assert_eq!(obj_get_int_text(&doc, "n"), "5");
    assert_eq!(obj_get_int_text(&doc, "a"), "");
    assert_eq!(obj_get(&JsonValue::Null, "a"), "");
    assert!(doc.get("n").unwrap().as_i64() == Some(5));
    assert!(JsonValue::Bool(true).as_str().is_none());
}

#[test]
fn error_messages() {
    assert_eq!(Error::NotLoggedIn.message(), "未登录，请先设置账号密码");
    assert_eq!(Error::HttpError("boom".to_string()).message(), "HTTP 错误: boom");
    let io = std::io::Error::new(std::io::ErrorKind::Other, "disk gone");
    let e: Error = Error::from(io);
    assert!(matches!(e, Error::IoError(_)));
    assert_eq!(e.message(), "IO 错误: disk gone");
}
