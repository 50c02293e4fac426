//! The text of the file that keeps the account and its session between runs.

use vstd::prelude::*;

use crate::text::first_char_from;
use crate::text::first_char_from_is_first;
use crate::text::has_prefix;
use crate::text::starts_with;

verus! {

/// What the configuration file keeps: user name, password, session cookie
/// and auth token.
pub struct ConfigView {
    pub username: Seq<char>,
    pub password: Seq<char>,
    pub cookie: Seq<char>,
    pub auth_token: Seq<char>,
}

/// The configuration that keeps nothing.
pub open spec fn empty_config() -> ConfigView {
    ConfigView { username: Seq::empty(), password: Seq::empty(), cookie: Seq::empty(), auth_token: Seq::empty() }
}

/// A line with its `\r` removed when it ended in `\r\n`.
pub open spec fn strip_cr(line: Seq<char>) -> Seq<char> {
    if line.len() > 0 && line.last() == '\r' {
        line.drop_last()
    } else {
        line
    }
}

/// What one line of the file sets: a line that begins with `username=`,
/// `password=`, `cookie=` or `authtoken=` sets that entry to the rest of the
/// line; any other line changes nothing.
pub open spec fn apply_line(c: ConfigView, line: Seq<char>) -> ConfigView {
    if has_prefix(line, "username="@) {
        ConfigView { username: line.skip(9), ..c }
    } else if has_prefix(line, "password="@) {
        ConfigView { password: line.skip(9), ..c }
    } else if has_prefix(line, "cookie="@) {
        ConfigView { cookie: line.skip(7), ..c }
    } else if has_prefix(line, "authtoken="@) {
        ConfigView { auth_token: line.skip(10), ..c }
    } else {
        c
    }
}

/// The configuration read from the lines of `s` from position `pos` on,
/// starting from `c`. Lines end at `\n`, with a `\r` just before it dropped,
/// as `str::lines` splits them; later lines override earlier ones.
pub open spec fn scan_config(s: Seq<char>, pos: int, c: ConfigView) -> ConfigView
    decreases s.len() - pos,
{
    if pos < 0 || pos >= s.len() {
        c
    } else {
        match first_char_from(s, '\n', pos) {
            None => apply_line(c, s.subrange(pos, s.len() as int)),
            Some(e) => {
                proof {
                    first_char_from_is_first(s, '\n', pos);
                }
                scan_config(s, e + 1, apply_line(c, strip_cr(s.subrange(pos, e))))
            },
        }
    }
}

/// The configuration that the text `s` of the file keeps.
pub open spec fn config_of(s: Seq<char>) -> ConfigView {
    scan_config(s, 0, empty_config())
}

/// The text written for a configuration: one `key=value` line per entry.
pub open spec fn config_text(
    username: Seq<char>,
    password: Seq<char>,
    cookie: Seq<char>,
    auth_token: Seq<char>,
) -> Seq<char> {
    "username="@ + username + "\n"@ + "password="@ + password + "\n"@ + "cookie="@ + cookie + "\n"@
        + "authtoken="@ + auth_token + "\n"@
}

/// Whether a value can be kept in the file and read back unchanged: it
/// holds no line break and does not end in `\r`.
pub open spec fn storable(v: Seq<char>) -> bool {
    !v.contains('\n') && !(v.len() > 0 && v.last() == '\r')
}

/// The first line break at or after `pos` is the one after `k` characters
/// that are not line breaks.
proof fn newline_after(s: Seq<char>, pos: int, k: int)
    requires
        0 <= pos,
        0 <= k,
        pos + k < s.len(),
        s[pos + k] == '\n',
        forall|j: int| pos <= j < pos + k ==> s[j] != '\n',
    ensures
        first_char_from(s, '\n', pos) == Some(pos + k),
    decreases k,
{
    if k > 0 {
        newline_after(s, pos + 1, k - 1);
    }
}

/// Reading a line that `s` holds at `pos`, followed by a line break.
proof fn scan_one_line(s: Seq<char>, pos: int, line: Seq<char>, c: ConfigView)
    requires
        0 <= pos,
        pos + line.len() < s.len(),
        s.subrange(pos, pos + line.len()) == line,
        s[pos + line.len()] == '\n',
        !line.contains('\n'),
    ensures
        scan_config(s, pos, c) == scan_config(s, pos + line.len() + 1, apply_line(c, strip_cr(line))),
{
    assert forall|j: int| pos <= j < pos + line.len() implies s[j] != '\n' by {
        assert(s[j] == line[j - pos]);
    }
    newline_after(s, pos, line.len() as int);
}

/// A line made of a key and a value without line breaks is read as that key
/// set to the value.
proof fn keyed_line(key: Seq<char>, v: Seq<char>)
    requires
        !v.contains('\n'),
        !key.contains('\n'),
        key.len() > 0,
        key.last() == '=',
    ensures
        !(key + v).contains('\n'),
        storable(v) ==> strip_cr(key + v) == key + v,
        has_prefix(key + v, key),
        (key + v).skip(key.len() as int) == v,
{
    let l = key + v;
    if l.contains('\n') {
        let k = choose|k: int| 0 <= k < l.len() && l[k] == '\n';
        if k < key.len() {
            assert(key[k] == '\n');
        } else {
            assert(v[k - key.len()] == '\n');
        }
    }
    assert(l.subrange(0, key.len() as int) =~= key);
    assert(l.skip(key.len() as int) =~= v);
    if v.len() > 0 {
        assert(l.last() == v.last());
    } else {
        assert(l.last() == key.last());
    }
}

/// The line `username=` + `v` sets the user name.
proof fn username_line(c: ConfigView, v: Seq<char>)
    requires
        !v.contains('\n'),
    ensures
        !("username="@ + v).contains('\n'),
        storable(v) ==> strip_cr("username="@ + v) == "username="@ + v,
        apply_line(c, "username="@ + v) == (ConfigView { username: v, ..c }),
{
    reveal_strlit("username=");
    keyed_line("username="@, v);
}

/// The line `password=` + `v` sets the password.
proof fn password_line(c: ConfigView, v: Seq<char>)
    requires
        !v.contains('\n'),
    ensures
        !("password="@ + v).contains('\n'),
        storable(v) ==> strip_cr("password="@ + v) == "password="@ + v,
        apply_line(c, "password="@ + v) == (ConfigView { password: v, ..c }),
{
    reveal_strlit("username=");
    reveal_strlit("password=");
    keyed_line("password="@, v);
    let l = "password="@ + v;
    assert(!has_prefix(l, "username="@)) by {
        assert(l[0] != "username="@[0]);
    }
}

/// The line `cookie=` + `v` sets the cookie.
proof fn cookie_line(c: ConfigView, v: Seq<char>)
    requires
        !v.contains('\n'),
    ensures
        !("cookie="@ + v).contains('\n'),
        storable(v) ==> strip_cr("cookie="@ + v) == "cookie="@ + v,
        apply_line(c, "cookie="@ + v) == (ConfigView { cookie: v, ..c }),
{
    reveal_strlit("username=");
    reveal_strlit("password=");
    reveal_strlit("cookie=");
    keyed_line("cookie="@, v);
    let l = "cookie="@ + v;
    assert(!has_prefix(l, "username="@)) by {
        assert(l[0] != "username="@[0]);
    }
    assert(!has_prefix(l, "password="@)) by {
        assert(l[0] != "password="@[0]);
    }
}

/// The line `authtoken=` + `v` sets the auth token.
proof fn auth_token_line(c: ConfigView, v: Seq<char>)
    requires
        !v.contains('\n'),
    ensures
        !("authtoken="@ + v).contains('\n'),
        storable(v) ==> strip_cr("authtoken="@ + v) == "authtoken="@ + v,
        apply_line(c, "authtoken="@ + v) == (ConfigView { auth_token: v, ..c }),
{
    reveal_strlit("username=");
    reveal_strlit("password=");
    reveal_strlit("cookie=");
    reveal_strlit("authtoken=");
    keyed_line("authtoken="@, v);
    let l = "authtoken="@ + v;
    assert(!has_prefix(l, "username="@)) by {
        assert(l[0] != "username="@[0]);
    }
    assert(!has_prefix(l, "password="@)) by {
        assert(l[0] != "password="@[0]);
    }
    assert(!has_prefix(l, "cookie="@)) by {
        assert(l[0] != "cookie="@[0]);
    }
}

/// Four lines, each followed by a line break, are read one after the other.
proof fn four_lines(l1: Seq<char>, l2: Seq<char>, l3: Seq<char>, l4: Seq<char>, c: ConfigView)
    requires
        !l1.contains('\n'),
        !l2.contains('\n'),
        !l3.contains('\n'),
        !l4.contains('\n'),
    ensures
        ({
            let nl = seq!['\n'];
            scan_config(l1 + nl + l2 + nl + l3 + nl + l4 + nl, 0, c) == apply_line(
                apply_line(apply_line(apply_line(c, strip_cr(l1)), strip_cr(l2)), strip_cr(l3)),
                strip_cr(l4),
            )
        }),
{
    let nl = seq!['\n'];
    let s = l1 + nl + l2 + nl + l3 + nl + l4 + nl;
    let p2: int = l1.len() as int + 1;
    let p3: int = p2 + l2.len() + 1;
    let p4: int = p3 + l3.len() + 1;
    assert(s.subrange(0, l1.len() as int) =~= l1);
    assert(s.subrange(p2, p2 + l2.len()) =~= l2);
    assert(s.subrange(p3, p3 + l3.len()) =~= l3);
    assert(s.subrange(p4, p4 + l4.len()) =~= l4);
    let c1 = apply_line(c, strip_cr(l1));
    let c2 = apply_line(c1, strip_cr(l2));
    let c3 = apply_line(c2, strip_cr(l3));
    scan_one_line(s, 0, l1, c);
    scan_one_line(s, p2, l2, c1);
    scan_one_line(s, p3, l3, c2);
    scan_one_line(s, p4, l4, c3);
    assert(p4 + l4.len() + 1 == s.len());
}

/// What is saved is what is read back: the text written for storable
/// values is read as those same values.
pub proof fn saved_config_is_read_back(
    username: Seq<char>,
    password: Seq<char>,
    cookie: Seq<char>,
    auth_token: Seq<char>,
)
    requires
        storable(username),
        storable(password),
        storable(cookie),
        storable(auth_token),
    ensures
        config_of(config_text(username, password, cookie, auth_token)) == (ConfigView {
            username,
            password,
            cookie,
            auth_token,
        }),
{
    reveal_strlit("\n");
    let l1 = "username="@ + username;
    let l2 = "password="@ + password;
    let l3 = "cookie="@ + cookie;
    let l4 = "authtoken="@ + auth_token;
    let c0 = empty_config();
    username_line(c0, username);
    let c1 = ConfigView { username, ..c0 };
    password_line(c1, password);
    let c2 = ConfigView { password, ..c1 };
    cookie_line(c2, cookie);
    let c3 = ConfigView { cookie, ..c2 };
    auth_token_line(c3, auth_token);
    four_lines(l1, l2, l3, l4, c0);
    assert("\n"@ =~= seq!['\n']);
    assert(config_text(username, password, cookie, auth_token) =~= l1 + seq!['\n'] + l2 + seq!['\n']
        + l3 + seq!['\n'] + l4 + seq!['\n']);
}

/// A `\r` put after a text without line breaks keeps it free of line
/// breaks, and is what a `\r\n` ending drops.
proof fn cr_ended(x: Seq<char>)
    requires
        !x.contains('\n'),
    ensures
        !(x + seq!['\r']).contains('\n'),
        strip_cr(x + seq!['\r']) == x,
{
    let l = x + seq!['\r'];
    if l.contains('\n') {
        let k = choose|k: int| 0 <= k < l.len() && l[k] == '\n';
        if k < x.len() {
            assert(x[k] == '\n');
        }
    }
    assert(l.drop_last() =~= x);
}

/// A `\r` just before a `\n` is never part of a value: the four entries
/// written with Windows line endings (`\r\n`) are read back as exactly the
/// values written, for any values without line breaks.
pub proof fn crlf_config_is_read_back(
    username: Seq<char>,
    password: Seq<char>,
    cookie: Seq<char>,
    auth_token: Seq<char>,
)
    requires
        !username.contains('\n'),
        !password.contains('\n'),
        !cookie.contains('\n'),
        !auth_token.contains('\n'),
    ensures
        config_of(
            "username="@ + username + "\r\n"@ + "password="@ + password + "\r\n"@ + "cookie="@ + cookie
                + "\r\n"@ + "authtoken="@ + auth_token + "\r\n"@,
        ) == (ConfigView { username, password, cookie, auth_token }),
{
    reveal_strlit("\r\n");
    let k1 = "username="@ + username;
    let k2 = "password="@ + password;
    let k3 = "cookie="@ + cookie;
    let k4 = "authtoken="@ + auth_token;
    let c0 = empty_config();
    username_line(c0, username);
    let c1 = ConfigView { username, ..c0 };
    password_line(c1, password);
    let c2 = ConfigView { password, ..c1 };
    cookie_line(c2, cookie);
    let c3 = ConfigView { cookie, ..c2 };
    auth_token_line(c3, auth_token);
    cr_ended(k1);
    cr_ended(k2);
    cr_ended(k3);
    cr_ended(k4);
    let cr = seq!['\r'];
    four_lines(k1 + cr, k2 + cr, k3 + cr, k4 + cr, c0);
    let nl = seq!['\n'];
    assert("\r\n"@ =~= cr + nl);
    assert("username="@ + username + "\r\n"@ + "password="@ + password + "\r\n"@ + "cookie="@ + cookie
        + "\r\n"@ + "authtoken="@ + auth_token + "\r\n"@ =~= (k1 + cr) + nl + (k2 + cr) + nl + (k3
        + cr) + nl + (k4 + cr) + nl);
}

/// Applies one line to what has been read so far.
fn read_line(line: &str, username: &mut String, password: &mut String, cookie: &mut String, auth_token: &mut String)
    ensures
        ({
            let before = ConfigView { username: old(username)@, password: old(password)@, cookie: old(cookie)@, auth_token: old(auth_token)@ };
            let after = ConfigView { username: final(username)@, password: final(password)@, cookie: final(cookie)@, auth_token: final(auth_token)@ };
            after == apply_line(before, line@)
        }),
{
    proof {
        reveal_strlit("username=");
        reveal_strlit("password=");
        reveal_strlit("cookie=");
        reveal_strlit("authtoken=");
    }
    let n = line.unicode_len();
    if starts_with(line, "username=") {
        *username = line.substring_char(9, n).to_owned();
    } else if starts_with(line, "password=") {
        *password = line.substring_char(9, n).to_owned();
    } else if starts_with(line, "cookie=") {
        *cookie = line.substring_char(7, n).to_owned();
    } else if starts_with(line, "authtoken=") {
        *auth_token = line.substring_char(10, n).to_owned();
    }
}

/// Reads the configuration file's text: `(username, password, cookie,
/// auth_token)`, each empty where no line sets it.
pub fn parse_config(content: &str) -> (r: (String, String, String, String))
    ensures
        ({
            let c = config_of(content@);
            r.0@ == c.username && r.1@ == c.password && r.2@ == c.cookie && r.3@ == c.auth_token
        }),
{
    let mut username = String::new();
    let mut password = String::new();
    let mut cookie = String::new();
    let mut auth_token = String::new();
    let n = content.unicode_len();
    let mut pos: usize = 0;
    while pos < n
        invariant
            n == content@.len(),
            pos <= n,
            config_of(content@) == scan_config(
                content@,
                pos as int,
                ConfigView { username: username@, password: password@, cookie: cookie@, auth_token: auth_token@ },
            ),
        decreases n - pos,
    {
        let mut e = pos;
        while e < n && content.get_char(e) != '\n'
            invariant
                n == content@.len(),
                pos <= e <= n,
                first_char_from(content@, '\n', pos as int) == first_char_from(content@, '\n', e as int),
            decreases n - e,
        {
            e = e + 1;
        }
        if e == n {
            assert(first_char_from(content@, '\n', e as int) is None);
            let line = content.substring_char(pos, n);
            read_line(line, &mut username, &mut password, &mut cookie, &mut auth_token);
            pos = n;
        } else {
            assert(first_char_from(content@, '\n', e as int) == Some(e as int));
            let line = if e > pos && content.get_char(e - 1) == '\r' {
                content.substring_char(pos, e - 1)
            } else {
                content.substring_char(pos, e)
            };
            assert(line@ == strip_cr(content@.subrange(pos as int, e as int)));
            read_line(line, &mut username, &mut password, &mut cookie, &mut auth_token);
            pos = e + 1;
        }
    }
    (username, password, cookie, auth_token)
}

/// Writes the text of the configuration file.
pub fn render_config(username: &str, password: &str, cookie: &str, auth_token: &str) -> (s: String)
    ensures
        s@ == config_text(username@, password@, cookie@, auth_token@),
{
    String::from_str("username=").concat(username).concat("\n").concat("password=").concat(password)
        .concat("\n").concat("cookie=").concat(cookie).concat("\n").concat("authtoken=").concat(
        auth_token,
    ).concat("\n")
}

} // verus!
