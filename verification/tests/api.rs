use std::io::Write;

use imagehub::api::begin_login;
use imagehub::api::delete_outcome;
use imagehub::api::extract_set_cookie_value;
use imagehub::api::file_checksum;
use imagehub::api::find_auth_token;
use imagehub::api::finish_login;
use imagehub::api::listing_request;
use imagehub::api::login_form_body;
use imagehub::api::login_page_request;
use imagehub::api::login_post_request;
use imagehub::api::mime_type_for;
use imagehub::api::response_body;
use imagehub::api::upload_outcome;
use imagehub::api::upload_request;
use imagehub::json::JsonValue;
use imagehub::request::Method;
use imagehub::request::Payload;
use imagehub::Error;

fn s(x: &str) -> String {
    x.to_string()
}

fn gzip(data: &[u8]) -> Vec<u8> {
    let mut enc = flate2::write::GzEncoder::new(Vec::new(), flate2::Compression::default());
    enc.write_all(data).unwrap();
    enc.finish().unwrap()
}

fn obj(members: Vec<(&str, JsonValue)>) -> JsonValue {
    JsonValue::Object(members.into_iter().map(|(k, v)| (s(k), v)).collect())
}

fn text(x: &str) -> JsonValue {
    JsonValue::Str(s(x))
}

fn http_message(e: Error) -> String {
    match e {
        Error::HttpError(m) => m,
        other => panic!("unexpected {:?}", other),
    }
}

#[test]
fn plain_body_is_read_as_text() {
    let body = response_body("", Ok("你好 world".as_bytes().to_vec())).unwrap();
    assert_eq!(body, "你好 world");
}

#[test]
fn body_named_gzip_is_decompressed() {
    let body = response_body("gzip", Ok(gzip(b"<html>ok</html>"))).unwrap();
    assert_eq!(body, "<html>ok</html>");
}

#[test]
fn body_with_gzip_magic_is_decompressed() {
    let body = response_body("identity", Ok(gzip("页面".as_bytes()))).unwrap();
    assert_eq!(body, "页面");
}

#[test]
fn broken_gzip_body_fails() {
    let m = http_message(response_body("x-gzip", Ok(vec![1, 2, 3])).unwrap_err());
    assert!(m.starts_with("gzip 解压失败: "));
}

#[test]
fn non_utf8_body_fails() {
    let m = http_message(response_body("", Ok(vec![0x66, 0xff, 0x66])).unwrap_err());
    assert!(m.starts_with("UTF-8 解码失败: "));
}

#[test]
fn unread_body_fails_with_reading_error() {
    let m = http_message(response_body("", Err(s("connection reset"))).unwrap_err());
    assert_eq!(m, "读取响应失败: connection reset");
}

#[test]
fn set_cookie_pair_is_cut_at_semicolon() {
    let values = vec![
        Some(s("other=1; Path=/")),
        Some(s("PHPSESSID=abc123; path=/; HttpOnly")),
        Some(s("PHPSESSID=second")),
    ];
    assert_eq!(extract_set_cookie_value(&values, "PHPSESSID"), Some(s("PHPSESSID=abc123")));
    assert_eq!(extract_set_cookie_value(&values, "KEEP_LOGIN"), None);
}

#[test]
fn cookie_name_must_be_followed_by_equals() {
    let values = vec![Some(s("PHPSESSIDX=1")), Some(s("PHPSESSID=2"))];
    assert_eq!(extract_set_cookie_value(&values, "PHPSESSID"), Some(s("PHPSESSID=2")));
}

#[test]
fn unreadable_set_cookie_value_ends_search() {
    let values = vec![Some(s("a=1")), None, Some(s("KEEP_LOGIN=x"))];
    assert_eq!(extract_set_cookie_value(&values, "KEEP_LOGIN"), None);
}

#[test]
fn auth_token_is_taken_from_login_page() {
    let page = "<script>PF.obj.config.auth_token = \"f00dcafe\";\nPF.obj.config.auth_token = \"second\";</script>";
    assert_eq!(find_auth_token(page).unwrap(), "f00dcafe");
}

#[test]
fn empty_or_missing_auth_token_fails() {
    let m = http_message(find_auth_token("PF.obj.config.auth_token = \"\";").unwrap_err());
    assert_eq!(m, "无法从页面提取 auth_token");
    assert!(find_auth_token("nothing here").is_err());
    assert!(find_auth_token("PF.obj.config.auth_token = \"unterminated").is_err());
}

#[test]
fn auth_token_skips_an_unusable_earlier_lead() {
    let page = "PF.obj.config.auth_token = \"\" PF.obj.config.auth_token = \"tok2\"";
    assert_eq!(find_auth_token(page).unwrap(), "tok2");
}

#[test]
fn login_page_request_is_a_get() {
    let req = login_page_request();
    assert_eq!(req.method, Method::Get);
    assert_eq!(req.url, "https://www.imagehub.cc/login");
    assert_eq!(req.headers.len(), 1);
    assert_eq!(req.headers[0].0, "User-Agent");
}

#[test]
fn login_form_joins_fields() {
    assert_eq!(login_form_body("u", "p w", "t"), "login-subject=u&password=p w&auth_token=t");
}

#[test]
fn login_post_declares_byte_length() {
    let form = login_form_body("用户", "pw", "tok");
    let bytes = form.len();
    let req = login_post_request(form, "PHPSESSID=1");
    assert_eq!(req.method, Method::Post);
    assert_eq!(req.headers.len(), 21);
    assert_eq!(req.headers[2], (s("Content-Length"), bytes.to_string()));
    assert_eq!(req.headers[18], (s("Referer"), s("https://www.imagehub.cc/login")));
    assert_eq!(req.headers[20], (s("Cookie"), s("PHPSESSID=1")));
    match req.payload {
        Payload::Text(b) => assert_eq!(b, "login-subject=用户&password=pw&auth_token=tok"),
        other => panic!("unexpected {:?}", other),
    }
}

#[test]
fn begin_and_finish_login() {
    let page = "<p>PF.obj.config.auth_token = \"abc\"</p>";
    let cookies = vec![Some(s("PHPSESSID=s1; path=/"))];
    let pending = begin_login("bob", "pw", &cookies, "gzip", Ok(gzip(page.as_bytes()))).unwrap();
    assert_eq!(pending.phpsessid, "PHPSESSID=s1");
    assert_eq!(pending.auth_token, "abc");
    match &pending.request.payload {
        Payload::Text(b) => assert_eq!(b, "login-subject=bob&password=pw&auth_token=abc"),
        other => panic!("unexpected {:?}", other),
    }
    let (cookie, token) = finish_login(
        &pending.phpsessid,
        pending.auth_token,
        &vec![Some(s("KEEP_LOGIN=k9; expires=x"))],
    )
    .unwrap();
    assert_eq!(cookie, "PHPSESSID=s1; KEEP_LOGIN=k9");
    assert_eq!(token, "abc");
}

#[test]
fn login_without_session_cookie_fails_first() {
    let m = http_message(begin_login("bob", "pw", &vec![], "", Err(s("unread"))).unwrap_err());
    assert_eq!(m, "未收到 PHPSESSID");
}

#[test]
fn login_page_reading_error_comes_after_cookie() {
    let cookies = vec![Some(s("PHPSESSID=s1"))];
    let m = http_message(begin_login("bob", "pw", &cookies, "", Err(s("eof"))).unwrap_err());
    assert_eq!(m, "读取响应失败: eof");
}

#[test]
fn refused_login_fails() {
    let page = "PF.obj.config.auth_token = \"abc\"";
    let cookies = vec![Some(s("PHPSESSID=s1"))];
    let pending = begin_login("bob", "pw", &cookies, "", Ok(page.as_bytes().to_vec())).unwrap();
    let m = http_message(finish_login(&pending.phpsessid, pending.auth_token, &vec![Some(s("PHPSESSID=s2"))]).unwrap_err());
    assert_eq!(m, "登录失败，未收到 KEEP_LOGIN");
}

#[test]
fn listing_request_builds_url() {
    let req = listing_request("ck", "alice").unwrap();
    assert_eq!(req.url, "https://www.imagehub.cc/alice/?list=images&sort=date_desc&page=1");
    assert_eq!(http_message(listing_request("ck", "").unwrap_err()), "用户名未设置");
}

#[test]
fn mime_types_by_extension() {
    assert_eq!(mime_type_for("png"), "image/png");
    assert_eq!(mime_type_for("jpg"), "image/jpeg");
    assert_eq!(mime_type_for("jpeg"), "image/jpeg");
    assert_eq!(mime_type_for("gif"), "image/gif");
    assert_eq!(mime_type_for("webp"), "image/webp");
    assert_eq!(mime_type_for("bmp"), "image/bmp");
    assert_eq!(mime_type_for("tiff"), "application/octet-stream");
    assert_eq!(mime_type_for(""), "application/octet-stream");
}

#[test]
fn upload_request_lowercases_extension_and_defaults_name() {
    let req = upload_request("ck", "tk", None, Some(s("JPEG")), b"abc", 0);
    match req.payload {
        Payload::Multipart(part, fields) => {
            assert_eq!(part.file_name, "file");
            assert_eq!(part.mime, "image/jpeg");
            assert_eq!(fields[2], (s("timestamp"), s("0")));
            assert_eq!(fields[6], (s("checksum"), s("900150983cd24fb0d6963f7d28e17f72")));
        }
        other => panic!("unexpected {:?}", other),
    }
    assert_eq!(req.headers, vec![(s("Cookie"), s("ck"))]);
}

#[test]
fn checksum_is_lowercase_md5_hex() {
    let c = file_checksum(b"The quick brown fox jumps over the lazy dog");
    assert_eq!(c, "9e107d9d372bb6826bd81d3542a419d6");
}

#[test]
fn upload_reply_with_image_gives_info() {
    let img = obj(vec![
        ("id_encoded", text("Xy1")),
        ("title", text("cat")),
        ("url", text("https://i/x.png")),
        ("mime", text("image/png")),
        ("extension", text("png")),
        ("name", text("x")),
        ("filename", text("x.png")),
        ("size", JsonValue::Number(Some(2048))),
        ("width", JsonValue::Number(Some(-3))),
        ("height", JsonValue::Number(None)),
    ]);
    let reply = obj(vec![("success", obj(vec![])), ("image", img)]);
    let info = upload_outcome(Ok(reply), "body").unwrap();
    assert_eq!(info.id, "Xy1");
    assert_eq!(info.title, "cat");
    assert_eq!(info.filename, "x.png");
    assert_eq!(info.size, "2048");
    assert_eq!(info.width, "-3");
    assert_eq!(info.height, "");
}

#[test]
fn upload_reply_without_image_fails() {
    let reply = obj(vec![("success", JsonValue::Bool(true))]);
    assert_eq!(http_message(upload_outcome(Ok(reply), "b").unwrap_err()), "响应缺少 image 字段");
}

#[test]
fn upload_reply_error_is_reported() {
    let reply = obj(vec![(
        "error",
        obj(vec![("message", text("Duplicated upload")), ("code", JsonValue::Number(Some(101)))]),
    )]);
    assert_eq!(http_message(upload_outcome(Ok(reply), "b").unwrap_err()), "上传失败 [101]: Duplicated upload");
    let reply = obj(vec![("error", JsonValue::Null)]);
    assert_eq!(http_message(upload_outcome(Ok(reply), "b").unwrap_err()), "上传失败 [0]: 未知错误");
}

#[test]
fn upload_reply_without_verdict_repeats_body() {
    let reply = obj(vec![("status", text("?"))]);
    assert_eq!(http_message(upload_outcome(Ok(reply), "{\"status\":\"?\"}").unwrap_err()), "上传失败: {\"status\":\"?\"}");
    assert_eq!(http_message(upload_outcome(Err(s("EOF")), "").unwrap_err()), "JSON 解析失败: EOF");
}

#[test]
fn delete_replies() {
    assert!(delete_outcome(Ok(obj(vec![("success", JsonValue::Null)])), "").is_ok());
    let reply = obj(vec![("error", obj(vec![("code", JsonValue::Number(Some(-7)))]))]);
    assert_eq!(http_message(delete_outcome(Ok(reply), "").unwrap_err()), "删除失败 [-7]: 未知错误");
    assert_eq!(http_message(delete_outcome(Ok(JsonValue::Array(vec![])), "[]").unwrap_err()), "删除失败: []");
    assert_eq!(http_message(delete_outcome(Err(s("bad")), "").unwrap_err()), "JSON 解析失败: bad");
}
