//! A lighter session holder that keeps only the session, each part of it
//! present or absent, and logs in with the account configured for the
//! program when it has none.

use vstd::prelude::*;

use crate::errors::Error;
use crate::Session;
use crate::api::delete_fields;
use crate::api::delete_request;
use crate::api::is_upload;
use crate::api::uploads_from_path;
use crate::api::plain_path;
use crate::api::last_component;
use crate::api::mime_for;
use crate::api::unicode_lowercase;
use crate::api::path_ext_text;
use crate::api::is_ascii_text;
use crate::api::ascii_lower;
use crate::api::json_url;
use crate::api::listing_request;
use crate::api::listing_url;
use crate::api::no_username_text;
use crate::api::upload_mime;
use crate::api::upload_name;
use crate::api::upload_request_for_path;
use crate::request::HttpRequest;
use crate::request::Method;
use crate::request::Payload;
use crate::request::pair_texts;

verus! {

/// The texts of an optional string.
pub open spec fn opt_text(o: Option<String>) -> Option<Seq<char>> {
    match o {
        Some(s) => Some(s@),
        None => None,
    }
}

/// The texts of an optional string slice.
pub open spec fn opt_str_text(o: Option<&str>) -> Option<Seq<char>> {
    match o {
        Some(s) => Some(s@),
        None => None,
    }
}

/// The session a holder stores, when both its parts are present.
pub open spec fn stored_session(v: (Option<Seq<char>>, Option<Seq<char>>)) -> Option<(Seq<char>, Seq<char>)> {
    match v {
        (Some(c), Some(t)) => Some((c, t)),
        _ => None,
    }
}

/// The texts of an optional session.
pub open spec fn session_text(s: Option<Session>) -> Option<(Seq<char>, Seq<char>)> {
    match s {
        Some(s) => Some((s.cookie@, s.auth_token@)),
        None => None,
    }
}

/// Holds the session with the image host, each part present or not.
pub struct ImageHub {
    cookie: Option<String>,
    auth_token: Option<String>,
}

impl View for ImageHub {
    /// The stored cookie and auth token.
    type V = (Option<Seq<char>>, Option<Seq<char>>);

    closed spec fn view(&self) -> (Option<Seq<char>>, Option<Seq<char>>) {
        (opt_text(self.cookie), opt_text(self.auth_token))
    }
}

impl ImageHub {
    /// A holder without a session.
    pub fn new() -> (hub: Self)
        ensures
            hub@ == (None::<Seq<char>>, None::<Seq<char>>),
    {
        ImageHub { cookie: None, auth_token: None }
    }

    /// Stores a session.
    pub fn set_session(&mut self, cookie: String, auth_token: String)
        ensures
            final(self)@ == (Some(cookie@), Some(auth_token@)),
    {
        self.cookie = Some(cookie);
        self.auth_token = Some(auth_token);
    }

    /// The stored cookie, if any.
    pub fn take_cookie(&self) -> (r: Option<&str>)
        ensures
            opt_str_text(r) == self@.0,
    {
        match &self.cookie {
            Some(c) => Some(c.as_str()),
            None => None,
        }
    }

    /// The stored auth token, if any.
    pub fn take_auth_token(&self) -> (r: Option<&str>)
        ensures
            opt_str_text(r) == self@.1,
    {
        match &self.auth_token {
            Some(t) => Some(t.as_str()),
            None => None,
        }
    }

    /// Forgets the session.
    pub fn clear_session(&mut self)
        ensures
            final(self)@ == (None::<Seq<char>>, None::<Seq<char>>),
    {
        self.cookie = None;
        self.auth_token = None;
    }

    /// The stored session when both its parts are present; `None` when the
    /// caller must log in with the configured account and hand the outcome to
    /// [`finish_session`](ImageHub::finish_session).
    pub fn ensure_session(&self) -> (r: Option<Session>)
        ensures
            session_text(r) == stored_session(self@),
    {
        match (&self.cookie, &self.auth_token) {
            (Some(c), Some(t)) => Some(Session { cookie: c.clone(), auth_token: t.clone() }),
            _ => None,
        }
    }

    /// Completes the login that [`ensure_session`](ImageHub::ensure_session)
    /// asked for: on success the new session is stored and returned; on
    /// failure nothing changes.
    pub fn finish_session(&mut self, outcome: Result<(String, String), Error>) -> (r: Result<Session, Error>)
        ensures
            outcome matches Ok(s) ==> (r matches Ok(n) && n.cookie@ == s.0@ && n.auth_token@ == s.1@
                && final(self)@ == (Some(s.0@), Some(s.1@))),
            outcome matches Err(e) ==> r == Err::<Session, Error>(e) && final(self)@ == old(self)@,
    {
        let (cookie, auth_token) = outcome?;
        self.cookie = Some(cookie.clone());
        self.auth_token = Some(auth_token.clone());
        Ok(Session { cookie, auth_token })
    }

    /// The request for the listing of `username`'s images, within `session`.
    pub fn list_images(&self, session: &Session, username: &str) -> (r: Result<HttpRequest, Error>)
        ensures
            username@.len() == 0 ==> (r matches Err(Error::HttpError(m)) && m@ == no_username_text()),
            username@.len() != 0 ==> (r matches Ok(req) && req.method == Method::Get && req.url@
                == listing_url(username@) && pair_texts(req.headers@) == seq![
                ("Cookie"@, session.cookie@),
            ] && req.payload is Nothing),
    {
        listing_request(session.cookie.as_str(), username)
    }

    /// The request that uploads `file`, read from `file_path`, at
    /// `timestamp_ms`, within `session`; as
    /// [`crate::ImageHub::upload_image`] builds it.
    pub fn upload_image(&self, session: &Session, file_path: &str, file: &[u8], timestamp_ms: u128) -> (req: HttpRequest)
        ensures
            exists|name: Option<String>, ext: Option<String>|
                is_upload(
                    req,
                    session.cookie@,
                    session.auth_token@,
                    upload_name(name),
                    upload_mime(ext),
                    file@,
                    timestamp_ms as nat,
                ),
            plain_path(file_path@) ==> is_upload(
                req,
                session.cookie@,
                session.auth_token@,
                last_component(file_path@),
                mime_for(unicode_lowercase(path_ext_text(file_path@))),
                file@,
                timestamp_ms as nat,
            ),
            plain_path(file_path@) && is_ascii_text(path_ext_text(file_path@)) ==> (req.payload matches Payload::Multipart(part, _)
                && part.mime@ == mime_for(ascii_lower(path_ext_text(file_path@)))),
            uploads_from_path(req, session.cookie@, session.auth_token@, file_path@, file@, timestamp_ms as nat),
    {
        upload_request_for_path(session.cookie.as_str(), session.auth_token.as_str(), file_path, file, timestamp_ms)
    }

    /// The request that deletes image `image_id`, within `session`.
    pub fn delete_image(&self, session: &Session, image_id: &str) -> (req: HttpRequest)
        ensures
            req.method == Method::Post,
            req.url@ == json_url(),
            pair_texts(req.headers@) == seq![
                ("Cookie"@, session.cookie@),
                ("X-Requested-With"@, "XMLHttpRequest"@),
            ],
            req.payload matches Payload::Form(fields) && pair_texts(fields@) == delete_fields(
                session.auth_token@,
                image_id@,
            ),
    {
        delete_request(session.cookie.as_str(), session.auth_token.as_str(), image_id)
    }
}

} // verus!
