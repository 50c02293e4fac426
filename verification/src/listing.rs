use vstd::prelude::*;
use vstd::utf8::valid_utf8;
use vstd::utf8::decode_utf8;
use vstd::string::StringSliceAdditionalSpecFns;

use crate::errors::Error;
use crate::json::JsonValue;
use crate::json::member;
use crate::json::text_member;
use crate::json::obj_get;
use crate::models::ImageInfo;
use crate::models::ImageInfoView;
use crate::text::find_from;
use crate::text::find_from_is_first;
use crate::text::find_bytes;
use crate::text::has_prefix;
use crate::text::occurs_at;

verus! {

/// The bytes of `class="pad-content-listing"`, which opens the image listing of a page.
pub open spec fn listing_marker() -> Seq<u8> {
    seq![99u8, 108, 97, 115, 115, 61, 34, 112, 97, 100, 45, 99, 111, 110, 116, 101, 110, 116,
        45, 108, 105, 115, 116, 105, 110, 103, 34]
}

/// The bytes of `data-object=`, the attribute that carries one image's description.
pub open spec fn data_object_attr() -> Seq<u8> {
    seq![100u8, 97, 116, 97, 45, 111, 98, 106, 101, 99, 116, 61]
}

/// The value of a hexadecimal digit byte (`0-9`, `a-f`, `A-F`).
pub open spec fn hex_value(b: u8) -> Option<u8> {
    if 48 <= b <= 57 {
        Some((b - 48) as u8)
    } else if 97 <= b <= 102 {
        Some((b - 87) as u8)
    } else if 65 <= b <= 70 {
        Some((b - 55) as u8)
    } else {
        None
    }
}

/// Percent-decoding of bytes: each `%` followed by two hexadecimal digits
/// stands for the byte they spell; every other byte, a `%` that is not so
/// followed included, stands for itself.
pub open spec fn percent_decoded(s: Seq<u8>) -> Seq<u8>
    decreases s.len(),
{
    if s.len() == 0 {
        seq![]
    } else if s[0] == 37 && s.len() >= 3 && hex_value(s[1]) is Some && hex_value(s[2]) is Some {
        seq![(hex_value(s[1])->0 * 16 + hex_value(s[2])->0) as u8] + percent_decoded(s.skip(3))
    } else {
        seq![s[0]] + percent_decoded(s.skip(1))
    }
}

/// Bytes without a `%` are left as they are by percent-decoding.
pub proof fn percent_decoded_without_escapes(s: Seq<u8>)
    requires
        forall|i: int| 0 <= i < s.len() ==> s[i] != 37,
    ensures
        percent_decoded(s) == s,
    decreases s.len(),
{
    if s.len() > 0 {
        percent_decoded_without_escapes(s.skip(1));
        assert(seq![s[0]] + s.skip(1) =~= s);
    }
}

/// Calls `percent_encoding::percent_decode` on `raw` and then `decode_utf8`
/// on the result. As the crate's source shows, the decoded bytes are those of
/// [`percent_decoded`], and `decode_utf8` succeeds exactly when they are valid
/// UTF-8, giving the characters they encode. The text of the error (the
/// `Display` of `Utf8Error`) is not stated.
#[verifier::external_body]
fn percent_decode_utf8(raw: &[u8]) -> (r: Result<String, String>)
    ensures
        r is Ok <==> valid_utf8(percent_decoded(raw@)),
        r matches Ok(s) ==> s@ == decode_utf8(percent_decoded(raw@)),
{
    match percent_encoding::percent_decode(raw).decode_utf8() {
        Ok(text) => Ok(text.into_owned()),
        Err(e) => Err(e.to_string()),
    }
}

/// The prefix of the message of a failed URL decoding.
pub open spec fn url_decode_failure_prefix() -> Seq<char> {
    "URL 解码失败: "@
}

/// Percent-decodes `raw` and reads the result as UTF-8 text.
pub fn percent_decode(raw: &[u8]) -> (r: Result<String, Error>)
    ensures
        valid_utf8(percent_decoded(raw@)) ==> (r matches Ok(s) && s@ == decode_utf8(percent_decoded(raw@))),
        !valid_utf8(percent_decoded(raw@)) ==> (r matches Err(Error::HttpError(m))
            && has_prefix(m@, url_decode_failure_prefix())),
{
    match percent_decode_utf8(raw) {
        Ok(s) => Ok(s),
        Err(e) => {
            let m = String::from_str("URL 解码失败: ").concat(e.as_str());
            assert(m@.subrange(0, url_decode_failure_prefix().len() as int) =~= url_decode_failure_prefix());
            Err(Error::HttpError(m))
        },
    }
}

/// Why the scan of a listing stopped before the end of the page.
pub enum ListingStop {
    /// The value of a `data-object` attribute is not quoted with `"` or `'`.
    BadQuote,
    /// The quoted value of a `data-object` attribute is never closed.
    MissingClosingQuote,
    /// The value of a `data-object` attribute does not decode to UTF-8 text.
    BadEncoding,
}

/// The scan of a page from byte `pos` on: the decoded texts of the
/// `data-object` attribute values met in order, and why the scan stopped
/// early, if it did. A value is the text between the quote that follows
/// `data-object=` and the next equal quote; the scan goes on after it.
pub open spec fn scan_listing(h: Seq<u8>, pos: int) -> (Seq<Seq<char>>, Option<ListingStop>)
    decreases h.len() + 1 - pos,
{
    if pos < 0 {
        (seq![], None)
    } else {
        match find_from(h, data_object_attr(), pos) {
            None => (seq![], None),
            Some(p) => {
                let a = p + 12;
                if a >= h.len() {
                    (seq![], None)
                } else if h[a] != 34 && h[a] != 39 {
                    (seq![], Some(ListingStop::BadQuote))
                } else {
                    match find_from(h, seq![h[a]], a + 1) {
                        None => (seq![], Some(ListingStop::MissingClosingQuote)),
                        Some(e) => {
                            let d = percent_decoded(h.subrange(a + 1, e));
                            if !valid_utf8(d) {
                                (seq![], Some(ListingStop::BadEncoding))
                            } else {
                                proof {
                                    find_from_is_first(h, data_object_attr(), pos);
                                    find_from_is_first(h, seq![h[a]], a + 1);
                                }
                                let rest = scan_listing(h, e + 1);
                                (seq![decode_utf8(d)] + rest.0, rest.1)
                            }
                        },
                    }
                }
            },
        }
    }
}

/// The listing of a page: `None` when the page has no listing, else the
/// scan from where the listing begins.
pub open spec fn listing_of(h: Seq<u8>) -> Option<(Seq<Seq<char>>, Option<ListingStop>)> {
    match find_from(h, listing_marker(), 0) {
        None => None,
        Some(s) => Some(scan_listing(h, s)),
    }
}

/// The number of positions at or after `from` where `needle` occurs in `hay`.
pub open spec fn count_from(hay: Seq<u8>, needle: Seq<u8>, from: int) -> nat
    decreases hay.len() + 1 - from,
{
    if from < 0 || from > hay.len() {
        0
    } else {
        (if occurs_at(hay, needle, from) {
            1nat
        } else {
            0nat
        }) + count_from(hay, needle, from + 1)
    }
}

/// Counting from further on counts no more.
proof fn count_from_shrinks(hay: Seq<u8>, needle: Seq<u8>, from: int, to: int)
    requires
        0 <= from <= to,
    ensures
        count_from(hay, needle, to) <= count_from(hay, needle, from),
    decreases to - from,
{
    if from < to {
        count_from_shrinks(hay, needle, from + 1, to);
    }
}

/// Where the first occurrence from `from` on is at `p`, the count from `from`
/// is one more than the count after `p`.
proof fn count_from_found(hay: Seq<u8>, needle: Seq<u8>, from: int, p: int)
    requires
        0 <= from <= p,
        occurs_at(hay, needle, p),
        forall|j: int| from <= j < p ==> !occurs_at(hay, needle, j),
    ensures
        count_from(hay, needle, from) == 1 + count_from(hay, needle, p + 1),
    decreases p - from,
{
    if from < p {
        count_from_found(hay, needle, from + 1, p);
    }
}

/// A scan reads no more values than there are `data-object=` attributes
/// from where it starts.
pub proof fn scan_listing_bounded(h: Seq<u8>, pos: int)
    requires
        0 <= pos,
    ensures
        scan_listing(h, pos).0.len() <= count_from(h, data_object_attr(), pos),
    decreases h.len() + 1 - pos,
{
    find_from_is_first(h, data_object_attr(), pos);
    match find_from(h, data_object_attr(), pos) {
        None => {},
        Some(p) => {
            let a = p + 12;
            if a < h.len() && (h[a] == 34 || h[a] == 39) {
                find_from_is_first(h, seq![h[a]], a + 1);
                match find_from(h, seq![h[a]], a + 1) {
                    None => {},
                    Some(e) => {
                        if valid_utf8(percent_decoded(h.subrange(a + 1, e))) {
                            scan_listing_bounded(h, e + 1);
                            count_from_found(h, data_object_attr(), pos, p);
                            count_from_shrinks(h, data_object_attr(), p + 1, e + 1);
                        }
                    },
                }
            }
        },
    }
}

/// A listing page yields at most one image description per `data-object=`
/// attribute after the place where its listing begins.
pub proof fn listing_bounded_by_attributes(h: Seq<u8>)
    ensures
        listing_of(h) matches Some(l) ==> l.0.len() <= count_from(
            h,
            data_object_attr(),
            find_from(h, listing_marker(), 0)->Some_0,
        ),
{
    find_from_is_first(h, listing_marker(), 0);
    if let Some(s) = find_from(h, listing_marker(), 0) {
        scan_listing_bounded(h, s);
    }
}

/// The texts of `data-object` values read from a listing page, and the error
/// that stopped the reading early, if one did.
pub struct ListingFrames {
    pub objects: Vec<String>,
    pub stop: Option<Error>,
}

/// The message of a listing page that has no listing.
pub open spec fn no_listing_text() -> Seq<char> {
    "未找到 pad-content-listing"@
}

/// The message of a `data-object` value that is not properly quoted.
pub open spec fn bad_quote_text() -> Seq<char> {
    "data-object 值的引号格式异常"@
}

/// The message of a `data-object` value whose quote is never closed.
pub open spec fn missing_quote_text() -> Seq<char> {
    "data-object 值缺少结束引号"@
}

/// Whether `e` is the error reported for the stop reason `s`.
pub open spec fn describes_stop(e: Option<Error>, s: Option<ListingStop>) -> bool {
    match s {
        None => e is None,
        Some(ListingStop::BadQuote) => e matches Some(Error::HttpError(m)) && m@ == bad_quote_text(),
        Some(ListingStop::MissingClosingQuote) => e matches Some(Error::HttpError(m)) && m@
            == missing_quote_text(),
        Some(ListingStop::BadEncoding) => e matches Some(Error::HttpError(m)) && has_prefix(
            m@,
            url_decode_failure_prefix(),
        ),
    }
}

/// The texts of a sequence of strings.
pub open spec fn texts(v: Seq<String>) -> Seq<Seq<char>> {
    v.map_values(|s: String| s@)
}

/// Reads the image descriptions of a listing page: finds where the listing
/// begins, then takes the value of each `data-object` attribute from there
/// on, percent-decoded into text.
pub fn parse_image_list(html: &str) -> (r: Result<ListingFrames, Error>)
    ensures
        listing_of(html.spec_bytes()) is None ==> (r matches Err(Error::HttpError(m)) && m@
            == no_listing_text()),
        listing_of(html.spec_bytes()) matches Some(l) ==> (r matches Ok(f) && texts(f.objects@)
            == l.0 && describes_stop(f.stop, l.1)),
{
    let h = html.as_bytes();
    let marker: [u8; 27] = [
        99, 108, 97, 115, 115, 61, 34, 112, 97, 100, 45, 99, 111, 110, 116, 101, 110, 116, 45,
        108, 105, 115, 116, 105, 110, 103, 34,
    ];
    let attr: [u8; 12] = [100, 97, 116, 97, 45, 111, 98, 106, 101, 99, 116, 61];
    assert(marker@ =~= listing_marker());
    assert(attr@ =~= data_object_attr());
    let start = match find_bytes(h, marker.as_slice(), 0) {
        Some(s) => s,
        None => {
            return Err(Error::HttpError(String::from_str("未找到 pad-content-listing")));
        },
    };
    proof {
        find_from_is_first(h@, listing_marker(), 0);
    }
    let ghost whole = scan_listing(h@, start as int);
    assert(listing_of(h@) == Some(whole));
    let mut objects: Vec<String> = Vec::new();
    let mut pos = start;
    loop
        invariant
            h@ == html.spec_bytes(),
            attr@ == data_object_attr(),
            listing_of(h@) == Some(whole),
            pos <= h@.len(),
            whole.0 == texts(objects@) + scan_listing(h@, pos as int).0,
            whole.1 == scan_listing(h@, pos as int).1,
        decreases h@.len() - pos,
    {
        let ghost here = scan_listing(h@, pos as int);
        proof {
            find_from_is_first(h@, data_object_attr(), pos as int);
        }
        let p = match find_bytes(h, attr.as_slice(), pos) {
            Some(p) => p,
            None => {
                assert(texts(objects@) + here.0 =~= texts(objects@));
                return Ok(ListingFrames { objects, stop: None });
            },
        };
        assert(p + 12 <= h@.len());
        let n = h.len();
        assert(p + 12 <= n);
        let a = p + 12;
        if a >= h.len() {
            assert(texts(objects@) + here.0 =~= texts(objects@));
            return Ok(ListingFrames { objects, stop: None });
        }
        let quote = h[a];
        if quote != 34 && quote != 39 {
            assert(texts(objects@) + here.0 =~= texts(objects@));
            return Ok(
                ListingFrames {
                    objects,
                    stop: Some(Error::HttpError(String::from_str("data-object 值的引号格式异常"))),
                },
            );
        }
        let q: [u8; 1] = [quote];
        assert(q@ =~= seq![h@[a as int]]);
        proof {
            find_from_is_first(h@, seq![h@[a as int]], a + 1);
        }
        let e = match find_bytes(h, q.as_slice(), a + 1) {
            Some(e) => e,
            None => {
                assert(texts(objects@) + here.0 =~= texts(objects@));
                return Ok(
                    ListingFrames {
                        objects,
                        stop: Some(
                            Error::HttpError(String::from_str("data-object 值缺少结束引号")),
                        ),
                    },
                );
            },
        };
        let raw = vstd::slice::slice_subrange(h, a + 1, e);
        match percent_decode(raw) {
            Ok(text) => {
                let ghost before = objects@;
                objects.push(text);
                assert(texts(objects@) =~= texts(before) + seq![text@]);
                assert(texts(before) + here.0 =~= texts(objects@) + scan_listing(h@, e + 1).0);
                pos = e + 1;
            },
            Err(err) => {
                assert(texts(objects@) + here.0 =~= texts(objects@));
                return Ok(ListingFrames { objects, stop: Some(err) });
            },
        }
    }
}

/// The description of a listed image: its own `id_encoded`, `title`, `url`,
/// `width` and `height`, and the `mime`, `extension`, `name`, `filename` and
/// `size` of its `image` member, each the empty text where it is not a string.
pub open spec fn listed_image(obj: JsonValue) -> ImageInfoView {
    ImageInfoView {
        id: text_member(obj, "id_encoded"@),
        title: text_member(obj, "title"@),
        url: text_member(obj, "url"@),
        mime: inner_text(obj, "image"@, "mime"@),
        extension: inner_text(obj, "image"@, "extension"@),
        name: inner_text(obj, "image"@, "name"@),
        filename: inner_text(obj, "image"@, "filename"@),
        size: inner_text(obj, "image"@, "size"@),
        width: text_member(obj, "width"@),
        height: text_member(obj, "height"@),
    }
}

/// Each field of a listed image's description is taken from the member of
/// the same name: `id` from `id_encoded`, `title`, `url`, `width` and
/// `height` from the document itself, and `mime`, `extension`, `name`,
/// `filename` and `size` from its `image` object; each is that member's text
/// where it is a string, and the empty text otherwise.
pub proof fn listed_fields_come_from_same_named_members(obj: JsonValue)
    ensures
        listed_image(obj).id == (match member(obj, "id_encoded"@) { Some(JsonValue::Str(s)) => s@, _ => Seq::<char>::empty() }),
        listed_image(obj).title == (match member(obj, "title"@) { Some(JsonValue::Str(s)) => s@, _ => Seq::<char>::empty() }),
        listed_image(obj).url == (match member(obj, "url"@) { Some(JsonValue::Str(s)) => s@, _ => Seq::<char>::empty() }),
        listed_image(obj).width == (match member(obj, "width"@) { Some(JsonValue::Str(s)) => s@, _ => Seq::<char>::empty() }),
        listed_image(obj).height == (match member(obj, "height"@) { Some(JsonValue::Str(s)) => s@, _ => Seq::<char>::empty() }),
        listed_image(obj).mime == (match member(obj, "image"@) { Some(JsonValue::Object(m)) => (match member(JsonValue::Object(m), "mime"@) { Some(JsonValue::Str(s)) => s@, _ => Seq::<char>::empty() }), _ => Seq::<char>::empty() }),
        listed_image(obj).extension == (match member(obj, "image"@) { Some(JsonValue::Object(m)) => (match member(JsonValue::Object(m), "extension"@) { Some(JsonValue::Str(s)) => s@, _ => Seq::<char>::empty() }), _ => Seq::<char>::empty() }),
        listed_image(obj).name == (match member(obj, "image"@) { Some(JsonValue::Object(m)) => (match member(JsonValue::Object(m), "name"@) { Some(JsonValue::Str(s)) => s@, _ => Seq::<char>::empty() }), _ => Seq::<char>::empty() }),
        listed_image(obj).filename == (match member(obj, "image"@) { Some(JsonValue::Object(m)) => (match member(JsonValue::Object(m), "filename"@) { Some(JsonValue::Str(s)) => s@, _ => Seq::<char>::empty() }), _ => Seq::<char>::empty() }),
        listed_image(obj).size == (match member(obj, "image"@) { Some(JsonValue::Object(m)) => (match member(JsonValue::Object(m), "size"@) { Some(JsonValue::Str(s)) => s@, _ => Seq::<char>::empty() }), _ => Seq::<char>::empty() }),
{
}

/// The text of member `key` of the object that is member `outer` of `obj`,
/// or the empty text.
pub open spec fn inner_text(obj: JsonValue, outer: Seq<char>, key: Seq<char>) -> Seq<char> {
    match member(obj, outer) {
        Some(JsonValue::Object(m)) => text_member(JsonValue::Object(m), key),
        _ => Seq::empty(),
    }
}

/// The text of member `key` of the object that is member `outer` of `obj`.
fn inner_get(obj: &JsonValue, outer: &str, key: &str) -> (s: String)
    ensures
        s@ == inner_text(*obj, outer@, key@),
{
    match obj.get(outer) {
        Some(inner) => match inner {
            JsonValue::Object(_) => obj_get(inner, key),
            _ => String::new(),
        },
        None => String::new(),
    }
}

/// Builds the description of a listed image from its `data-object` document.
pub fn listed_image_info(obj: &JsonValue) -> (info: ImageInfo)
    ensures
        info@ == listed_image(*obj),
{
    ImageInfo {
        id: obj_get(obj, "id_encoded"),
        title: obj_get(obj, "title"),
        url: obj_get(obj, "url"),
        mime: inner_get(obj, "image", "mime"),
        extension: inner_get(obj, "image", "extension"),
        name: inner_get(obj, "image", "name"),
        filename: inner_get(obj, "image", "filename"),
        size: inner_get(obj, "image", "size"),
        width: obj_get(obj, "width"),
        height: obj_get(obj, "height"),
    }
}


/// The position of the first document among `parsed[from..]` that failed to parse.
pub open spec fn first_failure_from(parsed: Seq<Result<JsonValue, String>>, from: int) -> Option<int>
    decreases parsed.len() - from,
{
    if from < 0 || from >= parsed.len() {
        None
    } else if parsed[from] is Err {
        Some(from)
    } else {
        first_failure_from(parsed, from + 1)
    }
}

/// The prefix of the message of a document that failed to parse.
pub open spec fn json_failure_prefix() -> Seq<char> {
    "JSON 解析失败: "@
}

/// Builds the image descriptions of a listing from its parsed `data-object`
/// documents, in page order, each the outcome of parsing one text of
/// [`ListingFrames::objects`] (the parser's message on failure). The first
/// failed document gives the error; else `stop`, the error that ended the
/// reading of the page, if any; else every document gives one image.
pub fn images_from_listing(parsed: Vec<Result<JsonValue, String>>, stop: Option<Error>) -> (r: Result<Vec<ImageInfo>, Error>)
    ensures
        first_failure_from(parsed@, 0) matches Some(i) ==> (r matches Err(Error::HttpError(m)) && m@
            == json_failure_prefix() + parsed@[i]->Err_0@),
        first_failure_from(parsed@, 0) is None && stop is Some ==> r == Err::<Vec<ImageInfo>, Error>(stop->Some_0),
        first_failure_from(parsed@, 0) is None && stop is None ==> (r matches Ok(v) && v@.len()
            == parsed@.len() && forall|i: int| 0 <= i < v@.len() ==> #[trigger] v@[i]@
            == listed_image(parsed@[i]->Ok_0)),
{
    let n = parsed.len();
    let mut images: Vec<ImageInfo> = Vec::new();
    let mut i: usize = 0;
    while i < n
        invariant
            n == parsed@.len(),
            i <= n,
            images@.len() == i,
            first_failure_from(parsed@, 0) == first_failure_from(parsed@, i as int),
            forall|j: int| 0 <= j < i ==> parsed@[j] is Ok,
            forall|j: int| 0 <= j < i ==> #[trigger] images@[j]@ == listed_image(parsed@[j]->Ok_0),
        decreases n - i,
    {
        match &parsed[i] {
            Err(msg) => {
                return Err(Error::HttpError(String::from_str("JSON 解析失败: ").concat(msg.as_str())));
            },
            Ok(obj) => {
                images.push(listed_image_info(obj));
            },
        }
        i = i + 1;
    }
    match stop {
        Some(e) => Err(e),
        None => Ok(images),
    }
}

} // verus!
