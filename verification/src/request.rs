use vstd::prelude::*;

verus! {

/// The method of a request to the image host.
#[derive(Debug, PartialEq, Eq, Structural)]
pub enum Method {
    Get,
    Post,
}

/// The file part of an upload: the form field that carries it, the name the
/// file is sent under, its media type and its bytes.
#[derive(Debug)]
pub struct FilePart {
    pub field: String,
    pub file_name: String,
    pub mime: String,
    pub bytes: Vec<u8>,
}

/// What a request carries after its headers.
#[derive(Debug)]
pub enum Payload {
    /// No body.
    Nothing,
    /// A body sent as it is.
    Text(String),
    /// Fields sent URL-encoded, in order.
    Form(Vec<(String, String)>),
    /// A multipart form: the file part, then the text fields in order.
    Multipart(FilePart, Vec<(String, String)>),
}

/// A request to the image host, fully decided; sending it is left to the caller.
#[derive(Debug)]
pub struct HttpRequest {
    pub method: Method,
    pub url: String,
    pub headers: Vec<(String, String)>,
    pub payload: Payload,
}

/// The texts of a sequence of name-value pairs.
pub open spec fn pair_texts(v: Seq<(String, String)>) -> Seq<(Seq<char>, Seq<char>)> {
    v.map_values(|p: (String, String)| (p.0@, p.1@))
}

/// The address of the image host.
pub open spec fn base_url() -> Seq<char> {
    "https://www.imagehub.cc"@
}

/// The address of a page of the image host: the base address followed by `path`.
pub fn site_url(path: &str) -> (url: String)
    ensures
        url@ == base_url() + path@,
{
    String::from_str("https://www.imagehub.cc").concat(path)
}

/// Appends the pair `(name, value)`.
pub fn push_pair(v: &mut Vec<(String, String)>, name: &str, value: &str)
    ensures
        pair_texts(final(v)@) == pair_texts(old(v)@).push((name@, value@)),
{
    let ghost before = v@;
    v.push((name.to_owned(), value.to_owned()));
    assert(pair_texts(v@) =~= pair_texts(before).push((name@, value@)));
}

} // verus!
