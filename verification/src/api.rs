use vstd::prelude::*;
use vstd::utf8::valid_utf8;
use vstd::utf8::decode_utf8;
use vstd::utf8::encode_utf8;

use crate::errors::Error;
use crate::json::JsonValue;
use crate::json::int_member;
use crate::json::int_text_member;
use crate::json::member;
use crate::json::obj_get;
use crate::json::obj_get_int_text;
use crate::json::text_member;
use crate::models::ImageInfo;
use crate::models::ImageInfoView;
use crate::listing::json_failure_prefix;
use crate::text::hex_lower;
use crate::text::hex_lowercase;
use crate::text::i64_to_decimal;
use crate::text::same_text;
use crate::text::signed_decimal;
use crate::request::FilePart;
use crate::request::HttpRequest;
use crate::request::Method;
use crate::request::Payload;
use crate::request::base_url;
use crate::request::pair_texts;
use crate::request::push_pair;
use crate::request::site_url;
use crate::text::before_char;
use crate::text::before_char_facts;
use crate::text::decimal_digits;
use crate::text::find_bytes;
use crate::text::find_from;
use crate::text::has_prefix;
use crate::text::prefix_before_char;
use crate::text::starts_with;
use crate::text::u128_to_decimal;
use crate::text::utf8_to_string;

verus! {

// ---------------------------------------------------------------------------
// Response bodies
// ---------------------------------------------------------------------------

/// The bytes of the word `gzip`.
pub open spec fn gzip_word() -> Seq<u8> {
    seq![103u8, 122, 105, 112]
}

/// Whether a body is taken to be gzip-compressed: its `Content-Encoding`
/// mentions `gzip`, or the body begins with the gzip magic bytes `1f 8b`.
pub open spec fn looks_gzipped(content_encoding: Seq<char>, body: Seq<u8>) -> bool {
    find_from(encode_utf8(content_encoding), gzip_word(), 0) is Some || (body.len() >= 2 && body[0]
        == 0x1f && body[1] == 0x8b)
}

/// What `flate2`'s `GzDecoder` reads out of `data`: the decompressed bytes
/// of the gzip stream it begins with, or `None` when it cannot be decompressed.
pub uninterp spec fn gunzip_output(data: Seq<u8>) -> Option<Seq<u8>>;

/// Reads `data` to its end through `flate2::read::GzDecoder`. The bytes that
/// come out are named by [`gunzip_output`]; the text of the error is not stated.
#[verifier::external_body]
fn gunzip(data: &[u8]) -> (r: Result<Vec<u8>, String>)
    ensures
        r is Ok <==> gunzip_output(data@) is Some,
        r matches Ok(v) ==> gunzip_output(data@) == Some(v@),
{
    let mut decoder = flate2::read::GzDecoder::new(data);
    let mut out = Vec::new();
    match std::io::Read::read_to_end(&mut decoder, &mut out) {
        Ok(_) => Ok(out),
        Err(e) => Err(e.to_string()),
    }
}

/// The bytes of a body once decompressed where it looks gzipped; `None` when
/// decompression fails.
pub open spec fn plain_body(content_encoding: Seq<char>, body: Seq<u8>) -> Option<Seq<u8>> {
    if looks_gzipped(content_encoding, body) {
        gunzip_output(body)
    } else {
        Some(body)
    }
}

/// The text of a body: its plain bytes read as UTF-8, when both steps succeed.
pub open spec fn body_text(content_encoding: Seq<char>, body: Seq<u8>) -> Option<Seq<char>> {
    match plain_body(content_encoding, body) {
        Some(d) => if valid_utf8(d) {
            Some(decode_utf8(d))
        } else {
            None
        },
        None => None,
    }
}

/// The prefix of the message of a failed decompression.
pub open spec fn gzip_failure_prefix() -> Seq<char> {
    "gzip 解压失败: "@
}

/// The prefix of the message of a body that is not UTF-8.
pub open spec fn utf8_failure_prefix() -> Seq<char> {
    "UTF-8 解码失败: "@
}

/// The prefix of the message of a body that could not be read.
pub open spec fn read_failure_prefix() -> Seq<char> {
    "读取响应失败: "@
}

/// The text of a response body that was read as `read`, when it can be had.
pub open spec fn read_body_text(content_encoding: Seq<char>, read: Result<Vec<u8>, String>) -> Option<Seq<char>> {
    match read {
        Ok(bytes) => body_text(content_encoding, bytes@),
        Err(_) => None,
    }
}

/// Whether `e` is the error reported for a response body, read as `read`,
/// whose text cannot be had: the reading error, else a failed decompression,
/// else text that is not UTF-8.
pub open spec fn body_error(e: Error, content_encoding: Seq<char>, read: Result<Vec<u8>, String>) -> bool {
    match read {
        Err(msg) => e matches Error::HttpError(m) && m@ == read_failure_prefix() + msg@,
        Ok(bytes) => match plain_body(content_encoding, bytes@) {
            None => e matches Error::HttpError(m) && has_prefix(m@, gzip_failure_prefix()),
            Some(_) => e matches Error::HttpError(m) && has_prefix(m@, utf8_failure_prefix()),
        },
    }
}

/// Turns a response body into its text. `read` is the outcome of reading
/// the body: its bytes, or the description of the reading error. The bytes
/// are decompressed where they look gzipped, then read as UTF-8.
pub fn response_body(content_encoding: &str, read: Result<Vec<u8>, String>) -> (r: Result<String, Error>)
    ensures
        read_body_text(content_encoding@, read) matches Some(t) ==> (r matches Ok(s) && s@ == t),
        read_body_text(content_encoding@, read) is None ==> (r matches Err(e) && body_error(
            e,
            content_encoding@,
            read,
        )),
{
    let bytes = match read {
        Ok(bytes) => bytes,
        Err(e) => {
            return Err(Error::HttpError(String::from_str("读取响应失败: ").concat(e.as_str())));
        },
    };
    let word: [u8; 4] = [103, 122, 105, 112];
    assert(word@ =~= gzip_word());
    let named = find_bytes(content_encoding.as_bytes(), word.as_slice(), 0).is_some();
    let magic = bytes.len() >= 2 && bytes[0] == 0x1f && bytes[1] == 0x8b;
    let decoded = if named || magic {
        match gunzip(bytes.as_slice()) {
            Ok(v) => v,
            Err(e) => {
                let m = String::from_str("gzip 解压失败: ").concat(e.as_str());
                assert(m@.subrange(0, gzip_failure_prefix().len() as int) =~= gzip_failure_prefix());
                return Err(Error::HttpError(m));
            },
        }
    } else {
        bytes
    };
    match utf8_to_string(decoded) {
        Ok(s) => Ok(s),
        Err(e) => {
            let m = String::from_str("UTF-8 解码失败: ").concat(e.as_str());
            assert(m@.subrange(0, utf8_failure_prefix().len() as int) =~= utf8_failure_prefix());
            Err(Error::HttpError(m))
        },
    }
}

// ---------------------------------------------------------------------------
// Cookies
// ---------------------------------------------------------------------------

/// The `name=value` pair that the `Set-Cookie` values from index `i` on give
/// for `name`: the first value that begins with `name=`, cut at its first
/// `;`. A value that is not readable text (`None`) ends the search with nothing.
pub open spec fn cookie_from(values: Seq<Option<String>>, name: Seq<char>, i: int) -> Option<Seq<char>>
    decreases values.len() - i,
{
    if i < 0 || i >= values.len() {
        None
    } else {
        match values[i] {
            None => None,
            Some(v) => if has_prefix(v@, name.push('=')) {
                Some(before_char(v@, ';'))
            } else {
                cookie_from(values, name, i + 1)
            },
        }
    }
}

/// Whether `o` is a readable header value that begins with `c`.
pub open spec fn begins_value(o: Option<String>, c: Seq<char>) -> bool {
    match o {
        Some(v) => has_prefix(v@, c),
        None => false,
    }
}

/// A pair found for cookie `name` (a name without `;`) begins with `name=`,
/// holds no `;`, and begins one of the `Set-Cookie` values it was taken from.
pub proof fn found_cookie_shape(values: Seq<Option<String>>, name: Seq<char>, i: int)
    requires
        !name.contains(';'),
        0 <= i,
    ensures
        cookie_from(values, name, i) matches Some(c) ==> {
            &&& has_prefix(c, name.push('='))
            &&& !c.contains(';')
            &&& exists|j: int| i <= j < values.len() && #[trigger] begins_value(values[j], c)
        },
    decreases values.len() - i,
{
    if i < values.len() {
        match values[i] {
            None => {},
            Some(v) => {
                if has_prefix(v@, name.push('=')) {
                    assert(!name.push('=').contains(';')) by {
                        if name.push('=').contains(';') {
                            let k = choose|k: int| 0 <= k < name.push('=').len() && name.push('=')[k] == ';';
                            assert(k < name.len());
                            assert(name[k] == ';');
                        }
                    }
                    before_char_facts(v@, ';', name.push('='));
                    assert(begins_value(values[i], before_char(v@, ';')));
                } else {
                    found_cookie_shape(values, name, i + 1);
                }
            },
        }
    }
}

/// Finds the `name=value` pair for cookie `name` among the values of the
/// `Set-Cookie` headers of a response, in order; each value is `None` where
/// the header was not readable text.
pub fn extract_set_cookie_value(values: &Vec<Option<String>>, name: &str) -> (r: Option<String>)
    ensures
        r matches Some(c) ==> cookie_from(values@, name@, 0) == Some(c@),
        r is None ==> cookie_from(values@, name@, 0) is None,
{
    proof {
        reveal_strlit("=");
    }
    let wanted = name.to_owned().concat("=");
    assert(wanted@ =~= name@.push('='));
    let n = values.len();
    let mut i: usize = 0;
    while i < n
        invariant
            n == values@.len(),
            i <= n,
            wanted@ == name@.push('='),
            cookie_from(values@, name@, 0) == cookie_from(values@, name@, i as int),
        decreases n - i,
    {
        match &values[i] {
            None => {
                return None;
            },
            Some(v) => {
                if starts_with(v.as_str(), wanted.as_str()) {
                    return Some(prefix_before_char(v.as_str(), ';'));
                }
            },
        }
        i = i + 1;
    }
    None
}

// ---------------------------------------------------------------------------
// Logging in
// ---------------------------------------------------------------------------

/// The browser identity sent with the login requests.
pub open spec fn user_agent() -> Seq<char> {
    "Mozilla/5.0 (Windows NT 10.0; Win64; x64) AppleWebKit/537.36 (KHTML, like Gecko) Chrome/150.0.0.0 Safari/537.36"@
}

/// The address of the login page.
pub open spec fn login_url() -> Seq<char> {
    base_url() + "/login"@
}

/// The request that fetches the login page.
pub fn login_page_request() -> (req: HttpRequest)
    ensures
        req.method == Method::Get,
        req.url@ == login_url(),
        pair_texts(req.headers@) == seq![("User-Agent"@, user_agent())],
        req.payload is Nothing,
{
    let mut headers: Vec<(String, String)> = Vec::new();
    push_pair(
        &mut headers,
        "User-Agent",
        "Mozilla/5.0 (Windows NT 10.0; Win64; x64) AppleWebKit/537.36 (KHTML, like Gecko) Chrome/150.0.0.0 Safari/537.36",
    );
    HttpRequest { method: Method::Get, url: site_url("/login"), headers, payload: Payload::Nothing }
}

/// The regular expression that finds the auth token in the login page.
pub open spec fn auth_token_pattern() -> Seq<char> {
    "PF\\.obj\\.config\\.auth_token = \"([^\"]+)\""@
}

/// The literal text that the auth-token pattern matches before the token.
pub open spec fn auth_token_lead() -> Seq<char> {
    "PF.obj.config.auth_token = \""@
}

/// The token that a match of the auth-token pattern starting at `p` captures:
/// the characters after the lead up to the next `"`, when there is at least
/// one of them and the quote exists.
pub open spec fn token_at(t: Seq<char>, p: int) -> Option<Seq<char>> {
    let q = p + auth_token_lead().len();
    if 0 <= p && q <= t.len() && t.subrange(p, q) == auth_token_lead() {
        let rest = t.subrange(q, t.len() as int);
        if exists|k: int| 1 <= k < rest.len() && rest[k] == '"' && forall|j: int|
            0 <= j < k ==> rest[j] != '"' {
            let k = choose|k: int|
                1 <= k < rest.len() && rest[k] == '"' && forall|j: int| 0 <= j < k ==> rest[j] != '"';
            Some(rest.subrange(0, k))
        } else {
            None
        }
    } else {
        None
    }
}

/// The token captured by the leftmost match of the auth-token pattern that
/// starts at or after `from`.
pub open spec fn token_from(t: Seq<char>, from: int) -> Option<Seq<char>>
    decreases t.len() + 1 - from,
{
    if from < 0 || from > t.len() {
        None
    } else if token_at(t, from) is Some {
        token_at(t, from)
    } else {
        token_from(t, from + 1)
    }
}

/// The token that the auth-token pattern captures in `t`: that of its
/// leftmost match.
pub open spec fn auth_token_in(t: Seq<char>) -> Option<Seq<char>> {
    token_from(t, 0)
}

/// A token that the auth-token pattern captures is never empty.
pub proof fn auth_token_is_not_empty(t: Seq<char>, from: int)
    ensures
        token_from(t, from) matches Some(x) ==> x.len() > 0,
    decreases t.len() + 1 - from,
{
    if 0 <= from <= t.len() && token_at(t, from) is None {
        auth_token_is_not_empty(t, from + 1);
    }
}

/// Compiles `pattern` with `regex::Regex::new` and returns capture group 1 of
/// the leftmost match in `text` (`captures`, `get(1)`, `as_str`). For the
/// auth-token pattern, as the crate documents its syntax and leftmost-first
/// matching, compilation succeeds and group 1 is [`auth_token_in`]. For any
/// other pattern nothing is stated, nor the text of a compilation error.
#[verifier::external_body]
fn regex_first_group(pattern: &str, text: &str) -> (r: Result<Option<String>, String>)
    ensures
        r is Err ==> pattern@ != auth_token_pattern(),
        r matches Ok(Some(s)) ==> (pattern@ == auth_token_pattern() ==> auth_token_in(text@) == Some(s@)),
        r matches Ok(None) ==> (pattern@ == auth_token_pattern() ==> auth_token_in(text@) is None),
{
    match regex::Regex::new(pattern) {
        Ok(re) => match re.captures(text) {
            Some(caps) => match caps.get(1) {
                Some(m) => Ok(Some(m.as_str().to_string())),
                None => Ok(None),
            },
            None => Ok(None),
        },
        Err(e) => Err(e.to_string()),
    }
}

/// The message of a login page without an auth token.
pub open spec fn no_token_text() -> Seq<char> {
    "无法从页面提取 auth_token"@
}

/// Finds the auth token in the text of the login page.
pub fn find_auth_token(page: &str) -> (r: Result<String, Error>)
    ensures
        auth_token_in(page@) matches Some(t) ==> (r matches Ok(s) && s@ == t),
        auth_token_in(page@) is None ==> (r matches Err(Error::HttpError(m)) && m@ == no_token_text()),
{
    match regex_first_group("PF\\.obj\\.config\\.auth_token = \"([^\"]+)\"", page) {
        Ok(Some(token)) => Ok(token),
        Ok(None) => Err(Error::HttpError(String::from_str("无法从页面提取 auth_token"))),
        Err(e) => Err(Error::HttpError(String::from_str("正则编译失败: ").concat(e.as_str()))),
    }
}

/// The body of the login form: `login-subject`, `password` and `auth_token`,
/// joined as they are.
pub open spec fn login_form_text(username: Seq<char>, password: Seq<char>, auth_token: Seq<char>) -> Seq<char> {
    "login-subject="@ + username + "&password="@ + password + "&auth_token="@ + auth_token
}

/// Builds the body of the login form.
pub fn login_form_body(username: &str, password: &str, auth_token: &str) -> (body: String)
    ensures
        body@ == login_form_text(username@, password@, auth_token@),
{
    String::from_str("login-subject=").concat(username).concat("&password=").concat(password).concat(
        "&auth_token=",
    ).concat(auth_token)
}

/// The headers of the login form's submission, which carries a body of
/// `content_length` bytes and the session cookie `cookie`.
pub open spec fn login_post_headers(content_length: Seq<char>, cookie: Seq<char>) -> Seq<(Seq<char>, Seq<char>)> {
    seq![
        ("Host"@, "www.imagehub.cc"@),
        ("Connection"@, "keep-alive"@),
        ("Content-Length"@, content_length),
        ("Pragma"@, "no-cache"@),
        ("Cache-Control"@, "no-cache"@),
        ("sec-ch-ua"@, "\"Not;A=Brand\";v=\"8\", \"Chromium\";v=\"150\", \"Google Chrome\";v=\"150\""@),
        ("sec-ch-ua-mobile"@, "?0"@),
        ("sec-ch-ua-platform"@, "\"Windows\""@),
        ("Accept-Language"@, "zh-CN,zh;q=0.9"@),
        ("Upgrade-Insecure-Requests"@, "1"@),
        ("User-Agent"@, user_agent()),
        ("Origin"@, "https://www.imagehub.cc"@),
        ("Content-Type"@, "application/x-www-form-urlencoded"@),
        ("Accept"@, "text/html,application/xhtml+xml,application/xml;q=0.9,image/avif,image/webp,image/apng,*/*;q=0.8,application/signed-exchange;v=b3;q=0.7"@),
        ("Sec-Fetch-Site"@, "same-origin"@),
        ("Sec-Fetch-Mode"@, "navigate"@),
        ("Sec-Fetch-User"@, "?1"@),
        ("Sec-Fetch-Dest"@, "document"@),
        ("Referer"@, login_url()),
        ("Accept-Encoding"@, "gzip, deflate, br, zstd"@),
        ("Cookie"@, cookie),
    ]
}

/// The request that submits the login form `form` with the session cookie `cookie`.
pub fn login_post_request(form: String, cookie: &str) -> (req: HttpRequest)
    ensures
        req.method == Method::Post,
        req.url@ == login_url(),
        pair_texts(req.headers@) == login_post_headers(
            decimal_digits(encode_utf8(form@).len()),
            cookie@,
        ),
        req.payload matches Payload::Text(b) && b@ == form@,
{
    let form_len = form.as_str().as_bytes().len();
    assert(form_len == encode_utf8(form@).len());
    let length = u128_to_decimal(form_len as u128);
    let referer = site_url("/login");
    let mut h: Vec<(String, String)> = Vec::new();
    push_pair(&mut h, "Host", "www.imagehub.cc");
    push_pair(&mut h, "Connection", "keep-alive");
    push_pair(&mut h, "Content-Length", length.as_str());
    push_pair(&mut h, "Pragma", "no-cache");
    push_pair(&mut h, "Cache-Control", "no-cache");
    push_pair(
        &mut h,
        "sec-ch-ua",
        "\"Not;A=Brand\";v=\"8\", \"Chromium\";v=\"150\", \"Google Chrome\";v=\"150\"",
    );
    push_pair(&mut h, "sec-ch-ua-mobile", "?0");
    push_pair(&mut h, "sec-ch-ua-platform", "\"Windows\"");
    push_pair(&mut h, "Accept-Language", "zh-CN,zh;q=0.9");
    push_pair(&mut h, "Upgrade-Insecure-Requests", "1");
    push_pair(
        &mut h,
        "User-Agent",
        "Mozilla/5.0 (Windows NT 10.0; Win64; x64) AppleWebKit/537.36 (KHTML, like Gecko) Chrome/150.0.0.0 Safari/537.36",
    );
    push_pair(&mut h, "Origin", "https://www.imagehub.cc");
    push_pair(&mut h, "Content-Type", "application/x-www-form-urlencoded");
    push_pair(
        &mut h,
        "Accept",
        "text/html,application/xhtml+xml,application/xml;q=0.9,image/avif,image/webp,image/apng,*/*;q=0.8,application/signed-exchange;v=b3;q=0.7",
    );
    push_pair(&mut h, "Sec-Fetch-Site", "same-origin");
    push_pair(&mut h, "Sec-Fetch-Mode", "navigate");
    push_pair(&mut h, "Sec-Fetch-User", "?1");
    push_pair(&mut h, "Sec-Fetch-Dest", "document");
    push_pair(&mut h, "Referer", referer.as_str());
    push_pair(&mut h, "Accept-Encoding", "gzip, deflate, br, zstd");
    push_pair(&mut h, "Cookie", cookie);
    assert(pair_texts(h@) =~= login_post_headers(decimal_digits(encode_utf8(form@).len()), cookie@));
    HttpRequest { method: Method::Post, url: referer, headers: h, payload: Payload::Text(form) }
}


/// Whether `req` submits the login form `form` with the session cookie `cookie`.
pub open spec fn is_login_post(req: HttpRequest, form: Seq<char>, cookie: Seq<char>) -> bool {
    &&& req.method == Method::Post
    &&& req.url@ == login_url()
    &&& pair_texts(req.headers@) == login_post_headers(decimal_digits(encode_utf8(form).len()), cookie)
    &&& req.payload matches Payload::Text(b) && b@ == form
}

/// A login half done: the session cookie and auth token taken from the login
/// page, and the request that submits the login form.
#[derive(Debug)]
pub struct PendingLogin {
    pub phpsessid: String,
    pub auth_token: String,
    pub request: HttpRequest,
}

/// The name of the session cookie that the login page sets.
pub open spec fn session_cookie_name() -> Seq<char> {
    "PHPSESSID"@
}

/// The name of the cookie that a successful login sets.
pub open spec fn keep_login_name() -> Seq<char> {
    "KEEP_LOGIN"@
}

/// The message of a login page that sets no session cookie.
pub open spec fn no_session_cookie_text() -> Seq<char> {
    "未收到 PHPSESSID"@
}

/// The message of a login that was refused.
pub open spec fn login_refused_text() -> Seq<char> {
    "登录失败，未收到 KEEP_LOGIN"@
}

/// Reads the reply to the request for the login page and prepares the form
/// that logs in as `username`: takes the session cookie from `set_cookies`
/// (the values of its `Set-Cookie` headers), then the auth token from the
/// page, whose body was read as `read` with the given `Content-Encoding`.
pub fn begin_login(
    username: &str,
    password: &str,
    set_cookies: &Vec<Option<String>>,
    content_encoding: &str,
    read: Result<Vec<u8>, String>,
) -> (r: Result<PendingLogin, Error>)
    ensures
        cookie_from(set_cookies@, session_cookie_name(), 0) is None ==> (r matches Err(
            Error::HttpError(m),
        ) && m@ == no_session_cookie_text()),
        cookie_from(set_cookies@, session_cookie_name(), 0) matches Some(sid) ==> {
            &&& read_body_text(content_encoding@, read) is None ==> (r matches Err(e) && body_error(
                e,
                content_encoding@,
                read,
            ))
            &&& read_body_text(content_encoding@, read) matches Some(page) ==> {
                &&& auth_token_in(page) is None ==> (r matches Err(Error::HttpError(m)) && m@
                    == no_token_text())
                &&& auth_token_in(page) matches Some(token) ==> (r matches Ok(p) && p.phpsessid@
                    == sid && p.auth_token@ == token && token.len() > 0 && is_login_post(
                    p.request,
                    login_form_text(username@, password@, token),
                    sid,
                ))
            }
        },
{
    let phpsessid = match extract_set_cookie_value(set_cookies, "PHPSESSID") {
        Some(c) => c,
        None => {
            return Err(Error::HttpError(String::from_str("未收到 PHPSESSID")));
        },
    };
    let page = response_body(content_encoding, read)?;
    let auth_token = find_auth_token(page.as_str())?;
    proof {
        auth_token_is_not_empty(page@, 0);
    }
    let form = login_form_body(username, password, auth_token.as_str());
    let request = login_post_request(form, phpsessid.as_str());
    Ok(PendingLogin { phpsessid, auth_token, request })
}

/// The cookie that a completed login keeps: the session pair, `; `, then
/// the login pair.
pub open spec fn joined_cookie(phpsessid: Seq<char>, keep_login: Seq<char>) -> Seq<char> {
    phpsessid + "; "@ + keep_login
}

/// Completes a login from the `Set-Cookie` values of the reply to the login
/// form: the session is the session pair joined with the login pair, and
/// the auth token of the form.
pub fn finish_login(phpsessid: &str, auth_token: String, set_cookies: &Vec<Option<String>>) -> (r: Result<(String, String), Error>)
    ensures
        cookie_from(set_cookies@, keep_login_name(), 0) is None ==> (r matches Err(Error::HttpError(m))
            && m@ == login_refused_text()),
        cookie_from(set_cookies@, keep_login_name(), 0) matches Some(keep) ==> (r matches Ok(s)
            && s.0@ == joined_cookie(phpsessid@, keep) && s.0@.len() > 0 && s.1@ == auth_token@),
{
    let keep_login = match extract_set_cookie_value(set_cookies, "KEEP_LOGIN") {
        Some(c) => c,
        None => {
            return Err(Error::HttpError(String::from_str("登录失败，未收到 KEEP_LOGIN")));
        },
    };
    proof {
        reveal_strlit("; ");
    }
    let cookie = phpsessid.to_owned().concat("; ").concat(keep_login.as_str());
    Ok((cookie, auth_token))
}


// ---------------------------------------------------------------------------
// Listing
// ---------------------------------------------------------------------------

/// The address of the first page of `username`'s images, newest first.
pub open spec fn listing_url(username: Seq<char>) -> Seq<char> {
    base_url() + "/"@ + username + "/?list=images&sort=date_desc&page=1"@
}

/// The message of a listing asked for without a user name.
pub open spec fn no_username_text() -> Seq<char> {
    "用户名未设置"@
}

/// The request for the listing of `username`'s images, sent with `cookie`.
pub fn listing_request(cookie: &str, username: &str) -> (r: Result<HttpRequest, Error>)
    ensures
        username@.len() == 0 ==> (r matches Err(Error::HttpError(m)) && m@ == no_username_text()),
        username@.len() != 0 ==> (r matches Ok(req) && req.method == Method::Get && req.url@
            == listing_url(username@) && pair_texts(req.headers@) == seq![("Cookie"@, cookie@)]
            && req.payload is Nothing),
{
    if username.is_empty() {
        return Err(Error::HttpError(String::from_str("用户名未设置")));
    }
    let url = site_url("/").concat(username).concat("/?list=images&sort=date_desc&page=1");
    let mut headers: Vec<(String, String)> = Vec::new();
    push_pair(&mut headers, "Cookie", cookie);
    assert(pair_texts(headers@) =~= seq![("Cookie"@, cookie@)]);
    Ok(HttpRequest { method: Method::Get, url, headers, payload: Payload::Nothing })
}

// ---------------------------------------------------------------------------
// Uploading
// ---------------------------------------------------------------------------

/// The media type sent for a file whose (lowercased) extension is `ext`.
pub open spec fn mime_for(ext: Seq<char>) -> Seq<char> {
    if ext == "png"@ {
        "image/png"@
    } else if ext == "jpg"@ || ext == "jpeg"@ {
        "image/jpeg"@
    } else if ext == "gif"@ {
        "image/gif"@
    } else if ext == "webp"@ {
        "image/webp"@
    } else if ext == "bmp"@ {
        "image/bmp"@
    } else {
        "application/octet-stream"@
    }
}

/// Chooses the media type of a file by its lowercased extension.
pub fn mime_type_for(ext: &str) -> (m: String)
    ensures
        m@ == mime_for(ext@),
{
    if same_text(ext, "png") {
        String::from_str("image/png")
    } else if same_text(ext, "jpg") || same_text(ext, "jpeg") {
        String::from_str("image/jpeg")
    } else if same_text(ext, "gif") {
        String::from_str("image/gif")
    } else if same_text(ext, "webp") {
        String::from_str("image/webp")
    } else if same_text(ext, "bmp") {
        String::from_str("image/bmp")
    } else {
        String::from_str("application/octet-stream")
    }
}

/// What `str::to_lowercase` makes of a text: its Unicode lowercase mapping.
pub uninterp spec fn unicode_lowercase(s: Seq<char>) -> Seq<char>;

/// Whether every character of `s` is ASCII.
pub open spec fn is_ascii_text(s: Seq<char>) -> bool {
    forall|i: int| 0 <= i < s.len() ==> (#[trigger] s[i] as u32) < 128
}

/// `s` with the ASCII capitals `A-Z` turned into `a-z`.
pub open spec fn ascii_lower(s: Seq<char>) -> Seq<char> {
    s.map_values(|c: char| if 'A' <= c <= 'Z' { ((c as u32) + 32) as char } else { c })
}

/// Calls `str::to_lowercase`; the result is named by [`unicode_lowercase`].
/// On ASCII text, as the Unicode lowercase mapping has it, only `A-Z` change,
/// each to its small letter.
#[verifier::external_body]
fn lowercase(s: &str) -> (r: String)
    ensures
        r@ == unicode_lowercase(s@),
        is_ascii_text(s@) ==> r@ == ascii_lower(s@),
{
    s.to_lowercase()
}

/// The MD5 digest of `data`, as `md5::compute` gives it.
pub uninterp spec fn md5_of(data: Seq<u8>) -> Seq<u8>;

/// Calls `md5::compute` and takes the sixteen bytes of the digest; they are
/// named by [`md5_of`].
#[verifier::external_body]
fn md5_digest(data: &[u8]) -> (d: [u8; 16])
    ensures
        d@ == md5_of(data@),
{
    md5::compute(data).0
}

/// The checksum sent with an upload: the MD5 digest of the file in lowercase
/// hexadecimal.
pub open spec fn upload_checksum(file: Seq<u8>) -> Seq<char> {
    hex_lower(md5_of(file))
}

/// Computes the checksum sent with an upload.
pub fn file_checksum(file: &[u8]) -> (c: String)
    ensures
        c@ == upload_checksum(file@),
        c@.len() == 32,
{
    let digest = md5_digest(file);
    hex_lowercase(digest.as_slice())
}

/// The text fields of an upload form, in order.
pub open spec fn upload_fields(
    timestamp: Seq<char>,
    auth_token: Seq<char>,
    mime: Seq<char>,
    checksum: Seq<char>,
) -> Seq<(Seq<char>, Seq<char>)> {
    seq![
        ("type"@, "file"@),
        ("action"@, "upload"@),
        ("timestamp"@, timestamp),
        ("auth_token"@, auth_token),
        ("nsfw"@, "0"@),
        ("mimetype"@, mime),
        ("checksum"@, checksum),
    ]
}

/// The address that takes uploads and deletions.
pub open spec fn json_url() -> Seq<char> {
    base_url() + "/json"@
}

/// The name a file is sent under: its file name where the path has one.
pub open spec fn upload_name(file_name: Option<String>) -> Seq<char> {
    match file_name {
        Some(n) => n@,
        None => "file"@,
    }
}

/// The extension a file is chosen a media type by: the empty text where the
/// path has none.
pub open spec fn ext_text(extension: Option<String>) -> Seq<char> {
    match extension {
        Some(e) => e@,
        None => Seq::empty(),
    }
}

/// The media type a file is sent with: chosen by its lowercased extension.
pub open spec fn upload_mime(extension: Option<String>) -> Seq<char> {
    mime_for(unicode_lowercase(ext_text(extension)))
}

/// Whether `req` uploads a file of the given bytes under `name` with media type
/// `mime`, at `timestamp_ms`, for the session `(cookie, auth_token)`.
pub open spec fn is_upload(
    req: HttpRequest,
    cookie: Seq<char>,
    auth_token: Seq<char>,
    name: Seq<char>,
    mime: Seq<char>,
    file: Seq<u8>,
    timestamp_ms: nat,
) -> bool {
    &&& req.method == Method::Post
    &&& req.url@ == json_url()
    &&& pair_texts(req.headers@) == seq![("Cookie"@, cookie)]
    &&& req.payload matches Payload::Multipart(part, fields) && part.field@ == "source"@
        && part.file_name@ == name && part.mime@ == mime && part.bytes@ == file
        && pair_texts(fields@) == upload_fields(
        decimal_digits(timestamp_ms),
        auth_token,
        mime,
        upload_checksum(file),
    )
}

/// The request that uploads `file`: `file_name` and `extension` are what
/// the local path gives as its file name and extension, `timestamp_ms` the
/// time of the upload in milliseconds since the Unix epoch.
pub fn upload_request(
    cookie: &str,
    auth_token: &str,
    file_name: Option<String>,
    extension: Option<String>,
    file: &[u8],
    timestamp_ms: u128,
) -> (req: HttpRequest)
    ensures
        is_upload(
            req,
            cookie@,
            auth_token@,
            upload_name(file_name),
            upload_mime(extension),
            file@,
            timestamp_ms as nat,
        ),
        is_ascii_text(ext_text(extension)) ==> (req.payload matches Payload::Multipart(part, _)
            && part.mime@ == mime_for(ascii_lower(ext_text(extension)))),
{
    let name = match file_name {
        Some(n) => n,
        None => String::from_str("file"),
    };
    let ext = match extension {
        Some(e) => lowercase(e.as_str()),
        None => lowercase(""),
    };
    proof {
        reveal_strlit("");
    }
    assert(""@ =~= Seq::<char>::empty());
    let mime = mime_type_for(ext.as_str());
    let checksum = file_checksum(file);
    let stamp = u128_to_decimal(timestamp_ms);
    let mut fields: Vec<(String, String)> = Vec::new();
    push_pair(&mut fields, "type", "file");
    push_pair(&mut fields, "action", "upload");
    push_pair(&mut fields, "timestamp", stamp.as_str());
    push_pair(&mut fields, "auth_token", auth_token);
    push_pair(&mut fields, "nsfw", "0");
    push_pair(&mut fields, "mimetype", mime.as_str());
    push_pair(&mut fields, "checksum", checksum.as_str());
    assert(pair_texts(fields@) =~= upload_fields(stamp@, auth_token@, mime@, checksum@));
    let mut headers: Vec<(String, String)> = Vec::new();
    push_pair(&mut headers, "Cookie", cookie);
    assert(pair_texts(headers@) =~= seq![("Cookie"@, cookie@)]);
    let part = FilePart {
        field: String::from_str("source"),
        file_name: name,
        mime,
        bytes: vstd::slice::slice_to_vec(file),
    };
    HttpRequest {
        method: Method::Post,
        url: site_url("/json"),
        headers,
        payload: Payload::Multipart(part, fields),
    }
}

/// The position of the last `c` in `s` before position `end`, if any.
pub open spec fn last_index_before(s: Seq<char>, c: char, end: int) -> Option<int>
    decreases end,
{
    if end <= 0 || end > s.len() {
        None
    } else if s[end - 1] == c {
        Some(end - 1)
    } else {
        last_index_before(s, c, end - 1)
    }
}

/// The position of the last `c` in `s`, if any.
pub open spec fn last_index_of(s: Seq<char>, c: char) -> Option<int> {
    last_index_before(s, c, s.len() as int)
}

/// The text after the last `/` of a path (all of it where it has none).
pub open spec fn last_component(path: Seq<char>) -> Seq<char> {
    match last_index_of(path, '/') {
        Some(i) => path.skip(i + 1),
        None => path,
    }
}

/// Whether every platform reads `path` the same way: it holds no `\` and no
/// `:`, does not begin with `//`, and the text after its last `/` is a name
/// other than `.` and `..`.
pub open spec fn plain_path(path: Seq<char>) -> bool {
    &&& !path.contains('\\')
    &&& !path.contains(':')
    &&& !has_prefix(path, "//"@)
    &&& last_component(path).len() > 0
    &&& last_component(path) != "."@
    &&& last_component(path) != ".."@
}

/// The extension of a file name: the text after its last `.`, unless there
/// is no `.` or the only one begins the name.
pub open spec fn extension_of(name: Seq<char>) -> Option<Seq<char>> {
    match last_index_of(name, '.') {
        Some(i) => if i == 0 {
            None
        } else {
            Some(name.skip(i + 1))
        },
        None => None,
    }
}

/// The extension that a media type is chosen by for the file at `path`.
pub open spec fn path_ext_text(path: Seq<char>) -> Seq<char> {
    match extension_of(last_component(path)) {
        Some(e) => e,
        None => Seq::empty(),
    }
}

/// Whether `c` separates path components on some platform (`/` everywhere,
/// `\` on Windows).
pub open spec fn is_separator(c: char) -> bool {
    c == '/' || c == '\\'
}

/// The position of the last separator of `s` before position `end`, if any.
pub open spec fn last_separator_before(s: Seq<char>, end: int) -> Option<int>
    decreases end,
{
    if end <= 0 || end > s.len() {
        None
    } else if is_separator(s[end - 1]) {
        Some(end - 1)
    } else {
        last_separator_before(s, end - 1)
    }
}

/// The text after the last `/` or `\` of a path (all of it where it has none).
pub open spec fn final_component(path: Seq<char>) -> Seq<char> {
    match last_separator_before(path, path.len() as int) {
        Some(i) => path.skip(i + 1),
        None => path,
    }
}

/// Whether `suffix` ends `s`.
pub open spec fn has_suffix(s: Seq<char>, suffix: Seq<char>) -> bool {
    suffix.len() <= s.len() && s.skip(s.len() - suffix.len()) == suffix
}

/// Whether a path names a file the same way on Unix and on Windows up to
/// the directories before it: it does not begin with two separators (no
/// network or device prefix), and the text after its last `/` or `\` is a
/// name other than `.` and `..` without a `:` (no drive prefix).
pub open spec fn portable_path(path: Seq<char>) -> bool {
    &&& !(path.len() >= 2 && is_separator(path[0]) && is_separator(path[1]))
    &&& final_component(path).len() > 0
    &&& final_component(path) != "."@
    &&& final_component(path) != ".."@
    &&& !final_component(path).contains(':')
}

/// Whether `req` uploads `file` read from `path`, whatever the platform: it
/// is an upload of the file's bytes for the session at `timestamp_ms`; for a
/// [`portable_path`] the name it is sent under ends with the path's final
/// component and lies within the text after its last `/`, and where that
/// component has an extension, the media type (the part's and the
/// `mimetype` field's) is the one chosen by that extension lowercased.
pub open spec fn uploads_from_path(
    req: HttpRequest,
    cookie: Seq<char>,
    auth_token: Seq<char>,
    path: Seq<char>,
    file: Seq<u8>,
    timestamp_ms: nat,
) -> bool {
    &&& exists|name: Option<String>, ext: Option<String>|
        is_upload(req, cookie, auth_token, upload_name(name), upload_mime(ext), file, timestamp_ms)
    &&& portable_path(path) ==> (req.payload matches Payload::Multipart(part, _) && has_suffix(
        part.file_name@,
        final_component(path),
    ) && has_suffix(last_component(path), part.file_name@))
    &&& portable_path(path) ==> match extension_of(final_component(path)) {
        Some(e) => req.payload matches Payload::Multipart(part, _) && part.mime@ == mime_for(
            unicode_lowercase(e),
        ) && (is_ascii_text(e) ==> part.mime@ == mime_for(ascii_lower(e))),
        None => true,
    }
}

/// Calls `std::path::Path::file_name` on `path` and reads it back as text
/// (`OsStr::to_str`). How a path splits into components depends on the
/// platform; for a [`plain_path`], as the documentation of `file_name`
/// describes it ("the final component"), it is the text after the last `/`.
/// Nothing is stated of other paths.
#[verifier::external_body]
fn path_file_name(path: &str) -> (r: Option<String>)
    ensures
        r is None ==> !plain_path(path@),
        r matches Some(n) ==> (plain_path(path@) ==> n@ == last_component(path@)),
        r is None ==> !portable_path(path@),
        r matches Some(n) ==> (portable_path(path@) ==> has_suffix(n@, final_component(path@))
            && has_suffix(last_component(path@), n@)),
{
    match std::path::Path::new(path).file_name() {
        Some(name) => match name.to_str() {
            Some(s) => Some(s.to_string()),
            None => None,
        },
        None => None,
    }
}

/// Calls `std::path::Path::extension` on `path` and reads it back as text
/// (`OsStr::to_str`). For a [`plain_path`], as the documentation of
/// `extension` describes it, it is [`extension_of`] the text after the last
/// `/`. Nothing is stated of other paths.
#[verifier::external_body]
fn path_extension(path: &str) -> (r: Option<String>)
    ensures
        r is None ==> !(plain_path(path@) && extension_of(last_component(path@)) is Some),
        r matches Some(x) ==> (plain_path(path@) ==> extension_of(last_component(path@)) == Some(x@)),
        r is None ==> !(portable_path(path@) && extension_of(final_component(path@)) is Some),
        r matches Some(x) ==> (portable_path(path@) && extension_of(final_component(path@)) is Some
            ==> extension_of(final_component(path@)) == Some(x@)),
{
    match std::path::Path::new(path).extension() {
        Some(ext) => match ext.to_str() {
            Some(s) => Some(s.to_string()),
            None => None,
        },
        None => None,
    }
}

/// The request that uploads `file`, read from the local `file_path`, at
/// `timestamp_ms`, for the session `(cookie, auth_token)`. The file is sent
/// under the name and with the media type that the path's file name and
/// extension give, as `std::path::Path` reads them; for a [`plain_path`]
/// these are its last component and that component's extension.
pub fn upload_request_for_path(cookie: &str, auth_token: &str, file_path: &str, file: &[u8], timestamp_ms: u128) -> (req: HttpRequest)
    ensures
        exists|name: Option<String>, ext: Option<String>|
            is_upload(req, cookie@, auth_token@, upload_name(name), upload_mime(ext), file@, timestamp_ms as nat),
        plain_path(file_path@) ==> is_upload(
            req,
            cookie@,
            auth_token@,
            last_component(file_path@),
            mime_for(unicode_lowercase(path_ext_text(file_path@))),
            file@,
            timestamp_ms as nat,
        ),
        plain_path(file_path@) && is_ascii_text(path_ext_text(file_path@)) ==> (req.payload matches Payload::Multipart(part, _)
            && part.mime@ == mime_for(ascii_lower(path_ext_text(file_path@)))),
        uploads_from_path(req, cookie@, auth_token@, file_path@, file@, timestamp_ms as nat),
{
    let name = path_file_name(file_path);
    let ext = path_extension(file_path);
    let ghost (n, e) = (name, ext);
    let req = upload_request(cookie, auth_token, name, ext, file, timestamp_ms);
    assert(is_upload(req, cookie@, auth_token@, upload_name(n), upload_mime(e), file@, timestamp_ms as nat));
    proof {
        if plain_path(file_path@) {
            assert(ext_text(e) == path_ext_text(file_path@));
        }
        if portable_path(file_path@) {
            if let Some(x) = extension_of(final_component(file_path@)) {
                assert(ext_text(e) == x);
            }
        }
    }
    req
}

/// Where a file is uploaded from a path whose final component (after its
/// last `/` or `\`) has an extension, such as a Windows path
/// `C:\Users\me\Pictures\cat.png`, the media type of the file part and
/// of the `mimetype` field is the one chosen by that extension lowercased,
/// and the file is sent under a name that ends with that final component.
pub proof fn upload_media_type_follows_extension(
    req: HttpRequest,
    cookie: Seq<char>,
    auth_token: Seq<char>,
    path: Seq<char>,
    file: Seq<u8>,
    timestamp_ms: nat,
    ext: Seq<char>,
)
    requires
        uploads_from_path(req, cookie, auth_token, path, file, timestamp_ms),
        portable_path(path),
        extension_of(final_component(path)) == Some(ext),
    ensures
        req.payload matches Payload::Multipart(part, fields) && part.mime@ == mime_for(unicode_lowercase(ext))
            && pair_texts(fields@)[5] == ("mimetype"@, mime_for(unicode_lowercase(ext)))
            && part.bytes@ == file && has_suffix(part.file_name@, final_component(path)),
        is_ascii_text(ext) ==> (req.payload matches Payload::Multipart(part, _) && part.mime@ == mime_for(
            ascii_lower(ext),
        )),
{
    let (n, e) = choose|name: Option<String>, ext: Option<String>|
        is_upload(req, cookie, auth_token, upload_name(name), upload_mime(ext), file, timestamp_ms);
    assert(is_upload(req, cookie, auth_token, upload_name(n), upload_mime(e), file, timestamp_ms));
}

/// Each field of an uploaded image's description is the member of the same
/// name of the reply's `image` object: its text where it is a string (for
/// `size`, `width` and `height`: its decimal where it is an integer), and the
/// empty text otherwise.
pub proof fn uploaded_fields_come_from_same_named_members(img: JsonValue)
    ensures
        uploaded_image(img).id == (match member(img, "id_encoded"@) { Some(JsonValue::Str(s)) => s@, _ => Seq::<char>::empty() }),
        uploaded_image(img).title == (match member(img, "title"@) { Some(JsonValue::Str(s)) => s@, _ => Seq::<char>::empty() }),
        uploaded_image(img).url == (match member(img, "url"@) { Some(JsonValue::Str(s)) => s@, _ => Seq::<char>::empty() }),
        uploaded_image(img).mime == (match member(img, "mime"@) { Some(JsonValue::Str(s)) => s@, _ => Seq::<char>::empty() }),
        uploaded_image(img).extension == (match member(img, "extension"@) { Some(JsonValue::Str(s)) => s@, _ => Seq::<char>::empty() }),
        uploaded_image(img).name == (match member(img, "name"@) { Some(JsonValue::Str(s)) => s@, _ => Seq::<char>::empty() }),
        uploaded_image(img).filename == (match member(img, "filename"@) { Some(JsonValue::Str(s)) => s@, _ => Seq::<char>::empty() }),
        uploaded_image(img).size == (match member(img, "size"@) { Some(JsonValue::Number(Some(i))) => signed_decimal(i as int), _ => Seq::<char>::empty() }),
        uploaded_image(img).width == (match member(img, "width"@) { Some(JsonValue::Number(Some(i))) => signed_decimal(i as int), _ => Seq::<char>::empty() }),
        uploaded_image(img).height == (match member(img, "height"@) { Some(JsonValue::Number(Some(i))) => signed_decimal(i as int), _ => Seq::<char>::empty() }),
{
}

/// The request that submits the login form declares its body as URL-encoded
/// form data and declares no other content type; it also carries the body's
/// byte length, the session cookie and the form itself.
pub proof fn login_form_is_sent_urlencoded(req: HttpRequest, form: Seq<char>, cookie: Seq<char>)
    requires
        is_login_post(req, form, cookie),
    ensures
        pair_texts(req.headers@).contains(("Content-Type"@, "application/x-www-form-urlencoded"@)),
        forall|i: int|
            0 <= i < req.headers@.len() && (#[trigger] req.headers@[i]).0@ == "Content-Type"@ ==> req.headers@[i].1@
                == "application/x-www-form-urlencoded"@,
        pair_texts(req.headers@).contains(("Content-Length"@, decimal_digits(encode_utf8(form).len()))),
        pair_texts(req.headers@).contains(("Cookie"@, cookie)),
        req.payload matches Payload::Text(b) && b@ == form,
{
    reveal_strlit("Host");
    reveal_strlit("Connection");
    reveal_strlit("Content-Length");
    reveal_strlit("Pragma");
    reveal_strlit("Cache-Control");
    reveal_strlit("sec-ch-ua");
    reveal_strlit("sec-ch-ua-mobile");
    reveal_strlit("sec-ch-ua-platform");
    reveal_strlit("Accept-Language");
    reveal_strlit("Upgrade-Insecure-Requests");
    reveal_strlit("User-Agent");
    reveal_strlit("Origin");
    reveal_strlit("Content-Type");
    reveal_strlit("Accept");
    reveal_strlit("Sec-Fetch-Site");
    reveal_strlit("Sec-Fetch-Mode");
    reveal_strlit("Sec-Fetch-User");
    reveal_strlit("Sec-Fetch-Dest");
    reveal_strlit("Referer");
    reveal_strlit("Accept-Encoding");
    reveal_strlit("Cookie");
    let h = pair_texts(req.headers@);
    let l = decimal_digits(encode_utf8(form).len());
    assert(h == login_post_headers(l, cookie));
    assert(h[12] == ("Content-Type"@, "application/x-www-form-urlencoded"@));
    assert(h[2] == ("Content-Length"@, l));
    assert(h[20] == ("Cookie"@, cookie));
    assert forall|i: int|
        0 <= i < req.headers@.len() && (#[trigger] req.headers@[i]).0@ == "Content-Type"@ implies req.headers@[i].1@
            == "application/x-www-form-urlencoded"@ by {
        assert(h[i] == (req.headers@[i].0@, req.headers@[i].1@));
        assert(h[i].0.len() == 12);
        if i != 12 {
            assert(h[i].0.len() != 12);
        }
    }
}

/// The description of an uploaded image, from the `image` member of the
/// reply: its texts, and its `size`, `width` and `height` in decimal where
/// they are integers (the empty text otherwise).
pub open spec fn uploaded_image(img: JsonValue) -> ImageInfoView {
    ImageInfoView {
        id: text_member(img, "id_encoded"@),
        title: text_member(img, "title"@),
        url: text_member(img, "url"@),
        mime: text_member(img, "mime"@),
        extension: text_member(img, "extension"@),
        name: text_member(img, "name"@),
        filename: text_member(img, "filename"@),
        size: int_text_member(img, "size"@),
        width: int_text_member(img, "width"@),
        height: int_text_member(img, "height"@),
    }
}

/// Builds the description of an uploaded image from the `image` member of the reply.
pub fn uploaded_image_info(img: &JsonValue) -> (info: ImageInfo)
    ensures
        info@ == uploaded_image(*img),
{
    ImageInfo {
        id: obj_get(img, "id_encoded"),
        title: obj_get(img, "title"),
        url: obj_get(img, "url"),
        mime: obj_get(img, "mime"),
        extension: obj_get(img, "extension"),
        name: obj_get(img, "name"),
        filename: obj_get(img, "filename"),
        size: obj_get_int_text(img, "size"),
        width: obj_get_int_text(img, "width"),
        height: obj_get_int_text(img, "height"),
    }
}

/// The message of a reply's `error` member: `what`, the error's `code` in
/// brackets (0 where it is not an integer), then its `message` (`未知错误`
/// where it is not a string).
pub open spec fn reply_failure_text(err: JsonValue, what: Seq<char>) -> Seq<char> {
    let message = match member(err, "message"@) {
        Some(JsonValue::Str(s)) => s@,
        _ => "未知错误"@,
    };
    let code: int = match int_member(err, "code"@) {
        Some(c) => c as int,
        None => 0,
    };
    what + " ["@ + signed_decimal(code) + "]: "@ + message
}

/// Builds the message of a reply's `error` member.
fn reply_failure(err: &JsonValue, what: &str) -> (m: String)
    ensures
        m@ == reply_failure_text(*err, what@),
{
    let message: String = match err.get("message") {
        Some(v) => match v.as_str() {
            Some(s) => s.clone(),
            None => String::from_str("未知错误"),
        },
        None => String::from_str("未知错误"),
    };
    let code: i64 = match err.get("code") {
        Some(v) => match v.as_i64() {
            Some(c) => c,
            None => 0,
        },
        None => 0,
    };
    let m = what.to_owned().concat(" [").concat(i64_to_decimal(code).as_str()).concat("]: ").concat(
        message.as_str(),
    );
    m
}

/// The message of an upload reply that carries no image.
pub open spec fn no_image_text() -> Seq<char> {
    "响应缺少 image 字段"@
}

/// Reads the reply to an upload: `parsed` is the outcome of parsing its
/// `body` as JSON (the parser's message on failure).
pub fn upload_outcome(parsed: Result<JsonValue, String>, body: &str) -> (r: Result<ImageInfo, Error>)
    ensures
        parsed matches Err(msg) ==> (r matches Err(Error::HttpError(m)) && m@ == json_failure_prefix()
            + msg@),
        parsed matches Ok(json) ==> {
            &&& member(json, "success"@) is Some ==> {
                &&& member(json, "image"@) matches Some(img) ==> (r matches Ok(info) && info@
                    == uploaded_image(img))
                &&& member(json, "image"@) is None ==> (r matches Err(Error::HttpError(m)) && m@
                    == no_image_text())
            }
            &&& member(json, "success"@) is None ==> {
                &&& member(json, "error"@) matches Some(err) ==> (r matches Err(Error::HttpError(m))
                    && m@ == reply_failure_text(err, "上传失败"@))
                &&& member(json, "error"@) is None ==> (r matches Err(Error::HttpError(m)) && m@
                    == "上传失败: "@ + body@)
            }
        },
{
    let json = match parsed {
        Ok(j) => j,
        Err(msg) => {
            return Err(Error::HttpError(String::from_str("JSON 解析失败: ").concat(msg.as_str())));
        },
    };
    if json.get("success").is_some() {
        match json.get("image") {
            Some(img) => Ok(uploaded_image_info(img)),
            None => Err(Error::HttpError(String::from_str("响应缺少 image 字段"))),
        }
    } else if let Some(err) = json.get("error") {
        Err(Error::HttpError(reply_failure(err, "上传失败")))
    } else {
        Err(Error::HttpError(String::from_str("上传失败: ").concat(body)))
    }
}

// ---------------------------------------------------------------------------
// Deleting
// ---------------------------------------------------------------------------

/// The fields of the form that deletes image `image_id`, in order.
pub open spec fn delete_fields(auth_token: Seq<char>, image_id: Seq<char>) -> Seq<(Seq<char>, Seq<char>)> {
    seq![
        ("auth_token"@, auth_token),
        ("action"@, "delete"@),
        ("single"@, "true"@),
        ("delete"@, "image"@),
        ("deleting[id]"@, image_id),
    ]
}

/// The request that deletes image `image_id` for the session `(cookie, auth_token)`.
pub fn delete_request(cookie: &str, auth_token: &str, image_id: &str) -> (req: HttpRequest)
    ensures
        req.method == Method::Post,
        req.url@ == json_url(),
        pair_texts(req.headers@) == seq![("Cookie"@, cookie@), ("X-Requested-With"@, "XMLHttpRequest"@)],
        req.payload matches Payload::Form(fields) && pair_texts(fields@) == delete_fields(
            auth_token@,
            image_id@,
        ),
{
    let mut headers: Vec<(String, String)> = Vec::new();
    push_pair(&mut headers, "Cookie", cookie);
    push_pair(&mut headers, "X-Requested-With", "XMLHttpRequest");
    assert(pair_texts(headers@) =~= seq![("Cookie"@, cookie@), ("X-Requested-With"@, "XMLHttpRequest"@)]);
    let mut fields: Vec<(String, String)> = Vec::new();
    push_pair(&mut fields, "auth_token", auth_token);
    push_pair(&mut fields, "action", "delete");
    push_pair(&mut fields, "single", "true");
    push_pair(&mut fields, "delete", "image");
    push_pair(&mut fields, "deleting[id]", image_id);
    assert(pair_texts(fields@) =~= delete_fields(auth_token@, image_id@));
    HttpRequest { method: Method::Post, url: site_url("/json"), headers, payload: Payload::Form(fields) }
}

/// Reads the reply to a deletion: `parsed` is the outcome of parsing its
/// `body` as JSON (the parser's message on failure).
pub fn delete_outcome(parsed: Result<JsonValue, String>, body: &str) -> (r: Result<(), Error>)
    ensures
        parsed matches Err(msg) ==> (r matches Err(Error::HttpError(m)) && m@ == json_failure_prefix()
            + msg@),
        parsed matches Ok(json) ==> {
            &&& member(json, "success"@) is Some ==> r is Ok
            &&& member(json, "success"@) is None ==> {
                &&& member(json, "error"@) matches Some(err) ==> (r matches Err(Error::HttpError(m))
                    && m@ == reply_failure_text(err, "删除失败"@))
                &&& member(json, "error"@) is None ==> (r matches Err(Error::HttpError(m)) && m@
                    == "删除失败: "@ + body@)
            }
        },
{
    let json = match parsed {
        Ok(j) => j,
        Err(msg) => {
            return Err(Error::HttpError(String::from_str("JSON 解析失败: ").concat(msg.as_str())));
        },
    };
    if json.get("success").is_some() {
        Ok(())
    } else if let Some(err) = json.get("error") {
        Err(Error::HttpError(reply_failure(err, "删除失败")))
    } else {
        Err(Error::HttpError(String::from_str("删除失败: ").concat(body)))
    }
}

} // verus!
