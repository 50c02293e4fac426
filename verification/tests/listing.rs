use imagehub::json::JsonValue;
use imagehub::listing::images_from_listing;
use imagehub::listing::parse_image_list;
use imagehub::listing::percent_decode;
use imagehub::Error;

fn s(x: &str) -> String {
    x.to_string()
}

fn http_message(e: Error) -> String {
    match e {
        Error::HttpError(m) => m,
        other => panic!("unexpected {:?}", other),
    }
}

fn obj(members: Vec<(&str, JsonValue)>) -> JsonValue {
    JsonValue::Object(members.into_iter().map(|(k, v)| (s(k), v)).collect())
}

#[test]
fn percent_decoding_reads_escapes() {
    assert_eq!(percent_decode(b"%7B%22a%22%3A1%7D").unwrap(), "{\"a\":1}");
    assert_eq!(percent_decode(b"100%").unwrap(), "100%");
    assert_eq!(percent_decode(b"%zz%4").unwrap(), "%zz%4");
    assert_eq!(percent_decode(b"%E4%BD%A0").unwrap(), "你");
    assert_eq!(percent_decode(b"plain").unwrap(), "plain");
}

#[test]
fn percent_decoding_rejects_invalid_utf8() {
    let m = http_message(percent_decode(b"%FF").unwrap_err());
    assert!(m.starts_with("URL 解码失败: "));
}

#[test]
fn page_without_listing_fails() {
    let m = http_message(parse_image_list("<div data-object=\"%7B%7D\"></div>").err().unwrap());
    assert_eq!(m, "未找到 pad-content-listing");
}

#[test]
fn listing_values_are_read_in_order() {
    let page = "<div data-object=\"%7B%22x%22%3A0%7D\"></div>\
        <div class=\"pad-content-listing\">\
        <div data-object=\"%7B%22id%22%3A1%7D\"></div>\
        <div data-object='%7B%22id%22%3A2%7D'></div></div>";
    let frames = parse_image_list(page).ok().unwrap();
    assert_eq!(frames.objects, vec![s("{\"id\":1}"), s("{\"id\":2}")]);
    assert!(frames.stop.is_none());
}

#[test]
fn listing_with_no_entries_is_empty() {
    let frames = parse_image_list("<div class=\"pad-content-listing\"></div>").ok().unwrap();
    assert!(frames.objects.is_empty());
    assert!(frames.stop.is_none());
    let frames = parse_image_list("class=\"pad-content-listing\" data-object=").ok().unwrap();
    assert!(frames.objects.is_empty());
    assert!(frames.stop.is_none());
}

#[test]
fn badly_quoted_value_stops_listing() {
    let page = "class=\"pad-content-listing\" data-object=\"%7B%7D\" data-object=x";
    let frames = parse_image_list(page).ok().unwrap();
    assert_eq!(frames.objects, vec![s("{}")]);
    assert_eq!(http_message(frames.stop.unwrap()), "data-object 值的引号格式异常");
}

#[test]
fn unclosed_value_stops_listing() {
    let page = "class=\"pad-content-listing\" data-object='abc";
    let frames = parse_image_list(page).ok().unwrap();
    assert!(frames.objects.is_empty());
    assert_eq!(http_message(frames.stop.unwrap()), "data-object 值缺少结束引号");
}

#[test]
fn undecodable_value_stops_listing() {
    let page = "class=\"pad-content-listing\" data-object=\"%C3%28\"";
    let frames = parse_image_list(page).ok().unwrap();
    assert!(http_message(frames.stop.unwrap()).starts_with("URL 解码失败: "));
}

#[test]
fn images_are_built_from_documents() {
    let image = obj(vec![
        ("mime", JsonValue::Str(s("image/png"))),
        ("extension", JsonValue::Str(s("png"))),
        ("name", JsonValue::Str(s("cat"))),
        ("filename", JsonValue::Str(s("cat.png"))),
        ("size", JsonValue::Str(s("1234"))),
    ]);
    let doc = obj(vec![
        ("id_encoded", JsonValue::Str(s("A1"))),
        ("title", JsonValue::Str(s("Cat"))),
        ("url", JsonValue::Str(s("https://x/cat.png"))),
        ("width", JsonValue::Str(s("640"))),
        ("height", JsonValue::Number(Some(480))),
        ("image", image),
    ]);
    let bare = obj(vec![("image", JsonValue::Str(s("not an object")))]);
    let images = images_from_listing(vec![Ok(doc), Ok(bare)], None).unwrap();
    assert_eq!(images.len(), 2);
    assert_eq!(images[0].id, "A1");
    assert_eq!(images[0].title, "Cat");
    assert_eq!(images[0].url, "https://x/cat.png");
    assert_eq!(images[0].mime, "image/png");
    assert_eq!(images[0].extension, "png");
    assert_eq!(images[0].name, "cat");
    assert_eq!(images[0].filename, "cat.png");
    assert_eq!(images[0].size, "1234");
    assert_eq!(images[0].width, "640");
    assert_eq!(images[0].height, "");
    assert_eq!(images[1].id, "");
    assert_eq!(images[1].mime, "");
}

#[test]
fn first_unparsed_document_fails_the_listing() {
    let r = images_from_listing(
        vec![Ok(obj(vec![])), Err(s("expected value")), Err(s("later"))],
        Some(Error::HttpError(s("data-object 值缺少结束引号"))),
    );
    assert_eq!(http_message(r.unwrap_err()), "JSON 解析失败: expected value");
}

#[test]
fn stop_error_comes_after_parsed_documents() {
    let r = images_from_listing(vec![Ok(obj(vec![]))], Some(Error::HttpError(s("stop"))));
    assert_eq!(http_message(r.unwrap_err()), "stop");
    assert!(images_from_listing(vec![], None).unwrap().is_empty());
}
