use vstd::prelude::*;

verus! {

/// The outside error type of `std::io`, carried opaquely by [`Error::IoError`].
#[verifier::external_type_specification]
#[verifier::external_body]
pub struct ExIoError(std::io::Error);

/// Everything that can go wrong while talking to the image host.
#[derive(Debug)]
pub enum Error {
    /// No session and no stored credentials to open one.
    NotLoggedIn,
    /// A failed request, or a reply that could not be understood.
    HttpError(String),
    /// A local file could not be read.
    IoError(std::io::Error),
}

/// The fixed text shown for [`Error::NotLoggedIn`].
pub open spec fn not_logged_in_text() -> Seq<char> {
    "未登录，请先设置账号密码"@
}

/// The prefix shown before the message of an [`Error::HttpError`].
pub open spec fn http_error_prefix() -> Seq<char> {
    "HTTP 错误: "@
}

/// The prefix shown before the description of an [`Error::IoError`].
pub open spec fn io_error_prefix() -> Seq<char> {
    "IO 错误: "@
}

/// Describes an `std::io::Error` by its `Display` implementation.
/// Nothing is stated of the text: for errors that come from the system it is
/// the operating system's own description.
#[verifier::external_body]
fn io_error_text(e: &std::io::Error) -> String {
    format!("{}", e)
}

impl Error {
    /// The human-readable description of the error.
    pub fn message(&self) -> (text: String)
        ensures
            self matches Error::NotLoggedIn ==> text@ == not_logged_in_text(),
            self matches Error::HttpError(m) ==> text@ == http_error_prefix() + m@,
            self matches Error::IoError(_) ==> text@.len() >= io_error_prefix().len()
                && text@.subrange(0, io_error_prefix().len() as int) == io_error_prefix(),
    {
        match self {
            Error::NotLoggedIn => String::from_str("未登录，请先设置账号密码"),
            Error::HttpError(m) => String::from_str("HTTP 错误: ").concat(m.as_str()),
            Error::IoError(e) => {
                let detail = io_error_text(e);
                let text = String::from_str("IO 错误: ").concat(detail.as_str());
                assert(text@.subrange(0, io_error_prefix().len() as int) =~= io_error_prefix());
                text
            },
        }
    }
}

impl vstd::std_specs::convert::FromSpecImpl<std::io::Error> for Error {
    open spec fn obeys_from_spec() -> bool {
        true
    }

    open spec fn from_spec(e: std::io::Error) -> Error {
        Error::IoError(e)
    }
}

impl From<std::io::Error> for Error {
    fn from(e: std::io::Error) -> (r: Error) {
        Error::IoError(e)
    }
}

} // verus!
