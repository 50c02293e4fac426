//! A client library for managing the images of an account on imagehub.cc:
//! logging in, listing, uploading and deleting images.
//!
//! The library decides every request and reads every reply; sending the
//! requests and reading the replies off the network is left to the caller,
//! who hands the outcomes back.

pub mod api;
pub mod cli;
pub mod config;
pub mod errors;
pub mod json;
pub mod listing;
pub mod models;
pub mod request;
pub mod services;
pub mod text;

pub use errors::Error;
pub use models::ImageInfo;

use vstd::prelude::*;

use crate::api::auth_token_in;
use crate::api::auth_token_is_not_empty;
use crate::api::joined_cookie;
use crate::api::is_upload;
use crate::api::uploads_from_path;
use crate::api::plain_path;
use crate::api::last_component;
use crate::api::mime_for;
use crate::api::unicode_lowercase;
use crate::api::path_ext_text;
use crate::api::is_ascii_text;
use crate::api::ascii_lower;
use crate::api::listing_request;
use crate::api::listing_url;
use crate::api::no_username_text;
use crate::api::upload_mime;
use crate::api::upload_name;
use crate::api::upload_request_for_path;
use crate::api::delete_request;
use crate::api::delete_fields;
use crate::api::json_url;
use crate::request::HttpRequest;
use crate::request::Method;
use crate::request::Payload;
use crate::request::pair_texts;

verus! {

/// The result of the library's operations.
pub type Result<T> = std::result::Result<T, Error>;

/// An open session with the image host: the cookie sent with each request
/// and the auth token that changes need.
#[derive(Debug)]
pub struct Session {
    pub cookie: String,
    pub auth_token: String,
}

/// What an operation needs before it can be carried out.
#[derive(Debug)]
pub enum SessionStep {
    /// The stored session can be used as it is.
    Ready(Session),
    /// No usable session is stored: log in with these stored credentials and
    /// hand the outcome to [`ImageHub::finish_session`].
    Login { username: String, password: String },
}

/// What a hub stores: the session cookie, the auth token, and the account's
/// user name and password.
pub struct HubView {
    pub cookie: Seq<char>,
    pub auth_token: Seq<char>,
    pub username: Seq<char>,
    pub password: Seq<char>,
}

/// The decision that precedes every operation, over what a hub stores.
pub enum SessionPlan {
    /// Use the stored cookie and auth token.
    Ready(Seq<char>, Seq<char>),
    /// Log in with the stored user name and password.
    Login(Seq<char>, Seq<char>),
    /// Neither a session nor credentials are stored.
    NotLoggedIn,
}

/// A stored session is used when both its cookie and its auth token are
/// non-empty; else stored credentials are used to log in when both the user
/// name and the password are non-empty; else the user is not logged in.
pub open spec fn session_plan(v: HubView) -> SessionPlan {
    if v.cookie.len() != 0 && v.auth_token.len() != 0 {
        SessionPlan::Ready(v.cookie, v.auth_token)
    } else if v.username.len() != 0 && v.password.len() != 0 {
        SessionPlan::Login(v.username, v.password)
    } else {
        SessionPlan::NotLoggedIn
    }
}

/// Whether `r` is what [`ImageHub::ensure_session`] answers under `plan`.
pub open spec fn answers_plan(r: Result<SessionStep>, plan: SessionPlan) -> bool {
    match plan {
        SessionPlan::Ready(c, t) => r matches Ok(SessionStep::Ready(s)) && s.cookie@ == c
            && s.auth_token@ == t,
        SessionPlan::Login(u, p) => r matches Ok(SessionStep::Login { username, password })
            && username@ == u && password@ == p,
        SessionPlan::NotLoggedIn => r matches Err(Error::NotLoggedIn),
    }
}

/// What a hub stores once `username` has logged in and got the session
/// `(cookie, auth_token)`.
pub open spec fn logged_in(
    cookie: Seq<char>,
    auth_token: Seq<char>,
    username: Seq<char>,
    password: Seq<char>,
) -> HubView {
    HubView { cookie, auth_token, username, password }
}

/// Manages the session and the credentials of one account on imagehub.cc.
///
/// A session is opened with [`login`](ImageHub::login), or restored from
/// earlier with [`set_auth`](ImageHub::set_auth).
pub struct ImageHub {
    cookie: String,
    auth_token: String,
    username: String,
    password: String,
}

impl View for ImageHub {
    type V = HubView;

    closed spec fn view(&self) -> HubView {
        HubView {
            cookie: self.cookie@,
            auth_token: self.auth_token@,
            username: self.username@,
            password: self.password@,
        }
    }
}

impl ImageHub {
    /// A hub that stores nothing yet.
    pub fn new() -> (hub: Self)
        ensures
            hub@ == logged_in(Seq::empty(), Seq::empty(), Seq::empty(), Seq::empty()),
    {
        ImageHub {
            cookie: String::new(),
            auth_token: String::new(),
            username: String::new(),
            password: String::new(),
        }
    }

    /// Stores a whole set of credentials at once, as when a session saved
    /// earlier is restored.
    pub fn set_auth(&mut self, cookie: String, auth_token: String, username: String, password: String)
        ensures
            final(self)@ == logged_in(cookie@, auth_token@, username@, password@),
    {
        self.cookie = cookie;
        self.auth_token = auth_token;
        self.username = username;
        self.password = password;
    }

    /// The stored credentials: `(cookie, auth_token, username, password)`.
    pub fn get_auth(&self) -> (r: (&str, &str, &str, &str))
        ensures
            r.0@ == self@.cookie,
            r.1@ == self@.auth_token,
            r.2@ == self@.username,
            r.3@ == self@.password,
    {
        (self.cookie.as_str(), self.auth_token.as_str(), self.username.as_str(), self.password.as_str())
    }

    /// Sets the account's user name and password, as the prompt's `config`
    /// command does. The stored session belongs to the account it was opened
    /// for, so it is dropped: the next operation logs in with the new
    /// credentials.
    pub fn set_credentials(&mut self, username: String, password: String)
        ensures
            final(self)@ == logged_in(Seq::empty(), Seq::empty(), username@, password@),
    {
        self.cookie = String::new();
        self.auth_token = String::new();
        self.username = username;
        self.password = password;
    }

    /// The stored credentials to log in with, as the prompt's `login`
    /// command without arguments uses them: both must be non-empty.
    pub fn stored_credentials(&self) -> (r: Result<(String, String)>)
        ensures
            self@.username.len() != 0 && self@.password.len() != 0 ==> (r matches Ok(c) && c.0@
                == self@.username && c.1@ == self@.password),
            !(self@.username.len() != 0 && self@.password.len() != 0) ==> r matches Err(Error::NotLoggedIn),
    {
        if !self.username.as_str().is_empty() && !self.password.as_str().is_empty() {
            Ok((self.username.clone(), self.password.clone()))
        } else {
            Err(Error::NotLoggedIn)
        }
    }

    /// Completes a login as `username`: `outcome` is the result of logging in
    /// (the session cookie and auth token, or the error). On success the
    /// session and the credentials are stored; on failure nothing changes.
    pub fn login(&mut self, username: &str, password: &str, outcome: Result<(String, String)>) -> (r: Result<()>)
        ensures
            outcome matches Ok(s) ==> r is Ok && final(self)@ == logged_in(
                s.0@,
                s.1@,
                username@,
                password@,
            ),
            outcome matches Err(e) ==> r == Err::<(), Error>(e) && final(self)@ == old(self)@,
    {
        let (cookie, auth_token) = outcome?;
        self.cookie = cookie;
        self.auth_token = auth_token;
        self.username = username.to_owned();
        self.password = password.to_owned();
        Ok(())
    }

    /// Decides how an operation gets its session: the stored one, a login
    /// with the stored credentials, or not at all.
    pub fn ensure_session(&self) -> (r: Result<SessionStep>)
        ensures
            answers_plan(r, session_plan(self@)),
    {
        if !self.cookie.as_str().is_empty() && !self.auth_token.as_str().is_empty() {
            return Ok(
                SessionStep::Ready(
                    Session { cookie: self.cookie.clone(), auth_token: self.auth_token.clone() },
                ),
            );
        }
        if !self.username.as_str().is_empty() && !self.password.as_str().is_empty() {
            return Ok(
                SessionStep::Login {
                    username: self.username.clone(),
                    password: self.password.clone(),
                },
            );
        }
        Err(Error::NotLoggedIn)
    }

    /// Completes the login that [`ensure_session`](ImageHub::ensure_session)
    /// asked for: on success the new session is stored and returned; on
    /// failure nothing changes.
    pub fn finish_session(&mut self, outcome: Result<(String, String)>) -> (r: Result<Session>)
        ensures
            outcome matches Ok(s) ==> (r matches Ok(n) && n.cookie@ == s.0@ && n.auth_token@ == s.1@
                && final(self)@ == logged_in(s.0@, s.1@, old(self)@.username, old(self)@.password)),
            outcome matches Err(e) ==> r == Err::<Session, Error>(e) && final(self)@ == old(self)@,
    {
        let (cookie, auth_token) = outcome?;
        self.cookie = cookie.clone();
        self.auth_token = auth_token.clone();
        Ok(Session { cookie, auth_token })
    }

    /// The request for the listing of the account's images, sent within `session`.
    pub fn list_images(&self, session: &Session) -> (r: Result<HttpRequest>)
        ensures
            self@.username.len() == 0 ==> (r matches Err(Error::HttpError(m)) && m@ == no_username_text()),
            self@.username.len() != 0 ==> (r matches Ok(req) && req.method == Method::Get && req.url@
                == listing_url(self@.username) && pair_texts(req.headers@) == seq![
                ("Cookie"@, session.cookie@),
            ] && req.payload is Nothing),
    {
        listing_request(session.cookie.as_str(), self.username.as_str())
    }

    /// The request that uploads `file`, read from the local `file_path`, at
    /// `timestamp_ms` (milliseconds since the Unix epoch), within `session`.
    /// The file is sent under the name and with the media type that the path's
    /// file name and extension give, as `std::path::Path` reads them.
    pub fn upload_image(&self, session: &Session, file_path: &str, file: &[u8], timestamp_ms: u128) -> (req: HttpRequest)
        ensures
            exists|name: Option<String>, ext: Option<String>|
                is_upload(
                    req,
                    session.cookie@,
                    session.auth_token@,
                    upload_name(name),
                    upload_mime(ext),
                    file@,
                    timestamp_ms as nat,
                ),
            plain_path(file_path@) ==> is_upload(
                req,
                session.cookie@,
                session.auth_token@,
                last_component(file_path@),
                mime_for(unicode_lowercase(path_ext_text(file_path@))),
                file@,
                timestamp_ms as nat,
            ),
            plain_path(file_path@) && is_ascii_text(path_ext_text(file_path@)) ==> (req.payload matches Payload::Multipart(part, _)
                && part.mime@ == mime_for(ascii_lower(path_ext_text(file_path@)))),
            uploads_from_path(req, session.cookie@, session.auth_token@, file_path@, file@, timestamp_ms as nat),
    {
        upload_request_for_path(session.cookie.as_str(), session.auth_token.as_str(), file_path, file, timestamp_ms)
    }

    /// The request that deletes image `image_id`, within `session`.
    pub fn delete_image(&self, session: &Session, image_id: &str) -> (req: HttpRequest)
        ensures
            req.method == Method::Post,
            req.url@ == json_url(),
            pair_texts(req.headers@) == seq![
                ("Cookie"@, session.cookie@),
                ("X-Requested-With"@, "XMLHttpRequest"@),
            ],
            req.payload matches Payload::Form(fields) && pair_texts(fields@) == delete_fields(
                session.auth_token@,
                image_id@,
            ),
    {
        delete_request(session.cookie.as_str(), session.auth_token.as_str(), image_id)
    }
}


/// A stored session whose cookie and auth token are both non-empty is used
/// as it is, whatever credentials are stored beside it: restoring a session
/// with `set_auth`, or a login that returned one, spares the next operation
/// a login.
pub proof fn stored_session_is_reused(
    cookie: Seq<char>,
    auth_token: Seq<char>,
    username: Seq<char>,
    password: Seq<char>,
)
    requires
        cookie.len() != 0,
        auth_token.len() != 0,
    ensures
        session_plan(logged_in(cookie, auth_token, username, password)) == SessionPlan::Ready(
            cookie,
            auth_token,
        ),
{
}

/// Without a complete session, stored credentials that are both non-empty
/// are used to log in again.
pub proof fn stored_credentials_log_in_again(
    cookie: Seq<char>,
    auth_token: Seq<char>,
    username: Seq<char>,
    password: Seq<char>,
)
    requires
        cookie.len() == 0 || auth_token.len() == 0,
        username.len() != 0,
        password.len() != 0,
    ensures
        session_plan(logged_in(cookie, auth_token, username, password)) == SessionPlan::Login(
            username,
            password,
        ),
{
}

/// A hub that stores nothing, as after `new` or after logging out with
/// empty credentials, refuses every operation as not logged in.
pub proof fn empty_hub_is_not_logged_in()
    ensures
        session_plan(logged_in(Seq::empty(), Seq::empty(), Seq::empty(), Seq::empty()))
            == SessionPlan::NotLoggedIn,
{
}

/// A session opened by logging in is complete, so it is reused: the auth
/// token that `begin_login` finds in a page is non-empty, the cookie that
/// `finish_login` joins is non-empty, and once `login` or `finish_session`
/// stores them, `ensure_session` answers with that session and asks for no
/// further login.
pub proof fn login_session_is_reused(
    page: Seq<char>,
    phpsessid: Seq<char>,
    keep_login: Seq<char>,
    username: Seq<char>,
    password: Seq<char>,
)
    requires
        auth_token_in(page) is Some,
    ensures
        auth_token_in(page)->Some_0.len() > 0,
        joined_cookie(phpsessid, keep_login).len() > 0,
        session_plan(
            logged_in(joined_cookie(phpsessid, keep_login), auth_token_in(page)->Some_0, username, password),
        ) == SessionPlan::Ready(joined_cookie(phpsessid, keep_login), auth_token_in(page)->Some_0),
{
    auth_token_is_not_empty(page, 0);
    reveal_strlit("; ");
}

} // verus!
