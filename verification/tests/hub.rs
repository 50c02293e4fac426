use imagehub::services;
use imagehub::Error;
use imagehub::ImageHub;
use imagehub::SessionStep;
use imagehub::request::Method;
use imagehub::request::Payload;

fn s(x: &str) -> String {
    x.to_string()
}

#[test]
fn new_hub_stores_nothing() {
    let hub = ImageHub::new();
    assert_eq!(hub.get_auth(), ("", "", "", ""));
}

#[test]
fn set_auth_is_read_back_by_get_auth() {
    let mut hub = ImageHub::new();
    hub.set_auth(s("c=1"), s("tok"), s("alice"), s("pw"));
    assert_eq!(hub.get_auth(), ("c=1", "tok", "alice", "pw"));
}

#[test]
fn restored_session_is_used_without_login() {
    let mut hub = ImageHub::new();
    hub.set_auth(s("c=1"), s("tok"), s("alice"), s("pw"));
    match hub.ensure_session() {
        Ok(SessionStep::Ready(session)) => {
            assert_eq!(session.cookie, "c=1");
            assert_eq!(session.auth_token, "tok");
        }
        other => panic!("unexpected {:?}", other),
    }
}

#[test]
fn missing_token_with_credentials_asks_for_login() {
    let mut hub = ImageHub::new();
    hub.set_auth(s("c=1"), s(""), s("alice"), s("pw"));
    match hub.ensure_session() {
        Ok(SessionStep::Login { username, password }) => {
            assert_eq!(username, "alice");
            assert_eq!(password, "pw");
        }
        other => panic!("unexpected {:?}", other),
    }
}

#[test]
fn empty_hub_is_not_logged_in() {
    let hub = ImageHub::new();
    assert!(matches!(hub.ensure_session(), Err(Error::NotLoggedIn)));
    let mut hub = ImageHub::new();
    hub.set_auth(s(""), s(""), s("alice"), s(""));
    assert!(matches!(hub.ensure_session(), Err(Error::NotLoggedIn)));
}

#[test]
fn successful_login_stores_session_and_credentials() {
    let mut hub = ImageHub::new();
    let r = hub.login("bob", "secret", Ok((s("PHPSESSID=a; KEEP_LOGIN=b"), s("t1"))));
    assert!(r.is_ok());
    assert_eq!(hub.get_auth(), ("PHPSESSID=a; KEEP_LOGIN=b", "t1", "bob", "secret"));
    assert!(matches!(hub.ensure_session(), Ok(SessionStep::Ready(_))));
}

#[test]
fn failed_login_changes_nothing() {
    let mut hub = ImageHub::new();
    hub.set_auth(s("old"), s("oldtok"), s("alice"), s("pw"));
    let r = hub.login("bob", "secret", Err(Error::HttpError(s("boom"))));
    match r {
        Err(Error::HttpError(m)) => assert_eq!(m, "boom"),
        other => panic!("unexpected {:?}", other),
    }
    assert_eq!(hub.get_auth(), ("old", "oldtok", "alice", "pw"));
}

#[test]
fn finished_session_is_reused() {
    let mut hub = ImageHub::new();
    hub.set_auth(s(""), s(""), s("alice"), s("pw"));
    let session = hub.finish_session(Ok((s("ck"), s("tk")))).unwrap();
    assert_eq!(session.cookie, "ck");
    assert_eq!(hub.get_auth(), ("ck", "tk", "alice", "pw"));
    match hub.ensure_session() {
        Ok(SessionStep::Ready(again)) => assert_eq!(again.cookie, "ck"),
        other => panic!("unexpected {:?}", other),
    }
    let r = hub.finish_session(Err(Error::NotLoggedIn));
    assert!(matches!(r, Err(Error::NotLoggedIn)));
    assert_eq!(hub.get_auth(), ("ck", "tk", "alice", "pw"));
}

#[test]
fn config_command_sets_credentials_and_drops_session() {
    let mut hub = ImageHub::new();
    hub.set_auth(s("old"), s("oldtok"), s("bob"), s("x"));
    hub.set_credentials(s("alice"), s("pw"));
    assert_eq!(hub.get_auth(), ("", "", "alice", "pw"));
    match hub.ensure_session() {
        Ok(SessionStep::Login { username, password }) => {
            assert_eq!(username, "alice");
            assert_eq!(password, "pw");
        }
        other => panic!("unexpected {:?}", other),
    }
}

#[test]
fn bare_login_uses_stored_credentials() {
    let mut hub = ImageHub::new();
    assert!(matches!(hub.stored_credentials(), Err(Error::NotLoggedIn)));
    hub.set_credentials(s("alice"), s(""));
    assert!(matches!(hub.stored_credentials(), Err(Error::NotLoggedIn)));
    hub.set_credentials(s("alice"), s("pw"));
    assert_eq!(hub.stored_credentials().unwrap(), (s("alice"), s("pw")));
}

#[test]
fn hub_list_request_uses_username_and_cookie() {
    let mut hub = ImageHub::new();
    hub.set_auth(s("ck"), s("tk"), s("alice"), s("pw"));
    let session = imagehub::Session { cookie: s("ck"), auth_token: s("tk") };
    let req = hub.list_images(&session).unwrap();
    assert_eq!(req.method, Method::Get);
    assert_eq!(req.url, "https://www.imagehub.cc/alice/?list=images&sort=date_desc&page=1");
    assert_eq!(req.headers, vec![(s("Cookie"), s("ck"))]);
    assert!(matches!(req.payload, Payload::Nothing));
}

#[test]
fn hub_list_request_without_username_fails() {
    let mut hub = ImageHub::new();
    hub.set_auth(s("ck"), s("tk"), s(""), s(""));
    let session = imagehub::Session { cookie: s("ck"), auth_token: s("tk") };
    match hub.list_images(&session) {
        Err(Error::HttpError(m)) => assert_eq!(m, "用户名未设置"),
        other => panic!("unexpected {:?}", other),
    }
}

#[test]
fn hub_upload_request_names_file_by_path() {
    let hub = ImageHub::new();
    let session = imagehub::Session { cookie: s("ck"), auth_token: s("tk") };
    let req = hub.upload_image(&session, "photos/cat.PNG", b"hello", 1700000000123);
    assert_eq!(req.method, Method::Post);
    assert_eq!(req.url, "https://www.imagehub.cc/json");
    match req.payload {
        Payload::Multipart(part, fields) => {
            assert_eq!(part.field, "source");
            assert_eq!(part.file_name, "cat.PNG");
            assert_eq!(part.mime, "image/png");
            assert_eq!(part.bytes, b"hello".to_vec());
            assert_eq!(
                fields,
                vec![
                    (s("type"), s("file")),
                    (s("action"), s("upload")),
                    (s("timestamp"), s("1700000000123")),
                    (s("auth_token"), s("tk")),
                    (s("nsfw"), s("0")),
                    (s("mimetype"), s("image/png")),
                    (s("checksum"), s("5d41402abc4b2a76b9719d911017c592")),
                ]
            );
        }
        other => panic!("unexpected {:?}", other),
    }
}

#[test]
fn hub_delete_request_carries_form() {
    let hub = ImageHub::new();
    let session = imagehub::Session { cookie: s("ck"), auth_token: s("tk") };
    let req = hub.delete_image(&session, "AbC");
    assert_eq!(req.method, Method::Post);
    assert_eq!(req.url, "https://www.imagehub.cc/json");
    assert_eq!(req.headers, vec![(s("Cookie"), s("ck")), (s("X-Requested-With"), s("XMLHttpRequest"))]);
    match req.payload {
        Payload::Form(fields) => assert_eq!(
            fields,
            vec![
                (s("auth_token"), s("tk")),
                (s("action"), s("delete")),
                (s("single"), s("true")),
                (s("delete"), s("image")),
                (s("deleting[id]"), s("AbC")),
            ]
        ),
        other => panic!("unexpected {:?}", other),
    }
}

#[test]
fn service_holder_stores_and_clears_session() {
    let mut hub = services::ImageHub::new();
    assert_eq!(hub.take_cookie(), None);
    assert_eq!(hub.take_auth_token(), None);
    assert!(hub.ensure_session().is_none());
    hub.set_session(s("ck"), s("tk"));
    assert_eq!(hub.take_cookie(), Some("ck"));
    assert_eq!(hub.take_auth_token(), Some("tk"));
    let session = hub.ensure_session().unwrap();
    assert_eq!(session.cookie, "ck");
    assert_eq!(session.auth_token, "tk");
    hub.clear_session();
    assert_eq!(hub.take_cookie(), None);
    assert!(hub.ensure_session().is_none());
}

#[test]
fn service_holder_finishes_session() {
    let mut hub = services::ImageHub::new();
    let session = hub.finish_session(Ok((s("ck"), s("tk")))).unwrap();
    assert_eq!(session.auth_token, "tk");
    assert_eq!(hub.take_cookie(), Some("ck"));
    let r = hub.finish_session(Err(Error::HttpError(s("x"))));
    assert!(matches!(r, Err(Error::HttpError(_))));
    assert_eq!(hub.take_auth_token(), Some("tk"));
}

#[test]
fn service_holder_builds_requests() {
    let hub = services::ImageHub::new();
    let session = imagehub::Session { cookie: s("ck"), auth_token: s("tk") };
    let req = hub.list_images(&session, "bob").unwrap();
    assert_eq!(req.url, "https://www.imagehub.cc/bob/?list=images&sort=date_desc&page=1");
    assert!(hub.list_images(&session, "").is_err());
    let del = hub.delete_image(&session, "X1");
    assert_eq!(del.url, "https://www.imagehub.cc/json");
    let up = hub.upload_image(&session, "a/b/notes.txt", b"", 5);
    match up.payload {
        Payload::Multipart(part, fields) => {
            assert_eq!(part.file_name, "notes.txt");
            assert_eq!(part.mime, "application/octet-stream");
            assert_eq!(fields[6].1, "d41d8cd98f00b204e9800998ecf8427e");
        }
        other => panic!("unexpected {:?}", other),
    }
}

#[test]
fn upload_names_follow_the_path() {
    let hub = ImageHub::new();
    let session = imagehub::Session { cookie: s("ck"), auth_token: s("tk") };
    let cases = [
        ("a/b/photo.JPEG", "photo.JPEG", "image/jpeg"),
        ("./x.gif", "x.gif", "image/gif"),
        ("noext", "noext", "application/octet-stream"),
        (".hidden", ".hidden", "application/octet-stream"),
        ("arch.tar.webp", "arch.tar.webp", "image/webp"),
        ("pic.", "pic.", "application/octet-stream"),
    ];
    for (path, name, mime) in cases {
        match hub.upload_image(&session, path, b"x", 1).payload {
            Payload::Multipart(part, _) => {
                assert_eq!(part.file_name, name);
                assert_eq!(part.mime, mime);
                assert_eq!(part.bytes, b"x".to_vec());
            }
            other => panic!("unexpected {:?}", other),
        }
    }
}
