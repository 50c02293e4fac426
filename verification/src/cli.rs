//! What the command line and the interactive prompt ask for.

use vstd::prelude::*;

use crate::text::same_text;

verus! {

/// Whether `c` has the Unicode `White_Space` property, as `char::is_whitespace` tests.
pub open spec fn is_space(c: char) -> bool {
    let u = c as u32;
    (0x09 <= u <= 0x0d) || u == 0x20 || u == 0x85 || u == 0xa0 || u == 0x1680 || (0x2000 <= u
        <= 0x200a) || u == 0x2028 || u == 0x2029 || u == 0x202f || u == 0x205f || u == 0x3000
}

/// Tests whether `c` has the Unicode `White_Space` property.
pub fn is_space_char(c: char) -> (b: bool)
    ensures
        b == is_space(c),
{
    let u = c as u32;
    (0x09 <= u && u <= 0x0d) || u == 0x20 || u == 0x85 || u == 0xa0 || u == 0x1680 || (0x2000 <= u
        && u <= 0x200a) || u == 0x2028 || u == 0x2029 || u == 0x202f || u == 0x205f || u == 0x3000
}

/// The first position at or after `i` that does not hold white space (or the end).
pub open spec fn skip_spaces(s: Seq<char>, i: int) -> int
    decreases s.len() - i,
{
    if i < 0 || i >= s.len() || !is_space(s[i]) {
        i
    } else {
        skip_spaces(s, i + 1)
    }
}

/// The first position at or after `i` that holds white space (or the end).
pub open spec fn word_end(s: Seq<char>, i: int) -> int
    decreases s.len() - i,
{
    if i < 0 || i >= s.len() || is_space(s[i]) {
        i
    } else {
        word_end(s, i + 1)
    }
}

/// Skipping white space moves forward, and not past the end.
pub proof fn skip_spaces_bounds(s: Seq<char>, i: int)
    requires
        0 <= i,
    ensures
        i <= skip_spaces(s, i),
        i <= s.len() ==> skip_spaces(s, i) <= s.len(),
        skip_spaces(s, i) < s.len() ==> !is_space(s[skip_spaces(s, i)]),
    decreases s.len() - i,
{
    if i < s.len() && is_space(s[i]) {
        skip_spaces_bounds(s, i + 1);
    }
}

/// The end of a word lies at or after its start, and past it where the start holds no white space.
pub proof fn word_end_bounds(s: Seq<char>, i: int)
    requires
        0 <= i,
    ensures
        i <= word_end(s, i),
        i <= s.len() ==> word_end(s, i) <= s.len(),
        0 <= i < s.len() && !is_space(s[i]) ==> i < word_end(s, i),
    decreases s.len() - i,
{
    if i < s.len() && !is_space(s[i]) {
        word_end_bounds(s, i + 1);
    }
}

/// The words of `s` from position `i` on: the maximal runs of characters
/// without white space, as `split_whitespace` gives them.
pub open spec fn words_from(s: Seq<char>, i: int) -> Seq<Seq<char>>
    decreases s.len() - i,
{
    if i < 0 || i > s.len() {
        seq![]
    } else {
        let a = skip_spaces(s, i);
        if a >= s.len() {
            seq![]
        } else {
            let b = word_end(s, a);
            proof {
                skip_spaces_bounds(s, i);
                word_end_bounds(s, a);
            }
            seq![s.subrange(a, b)] + words_from(s, b)
        }
    }
}

/// The words of `s`.
pub open spec fn words(s: Seq<char>) -> Seq<Seq<char>> {
    words_from(s, 0)
}

/// Splits `s` into its words, as `split_whitespace` does.
pub fn split_words(s: &str) -> (w: Vec<String>)
    ensures
        w@.map_values(|x: String| x@) == words(s@),
{
    let n = s.unicode_len();
    let mut out: Vec<String> = Vec::new();
    let mut i: usize = 0;
    while i < n
        invariant
            n == s@.len(),
            i <= n,
            words(s@) == out@.map_values(|x: String| x@) + words_from(s@, i as int),
        decreases n - i,
    {
        let ghost here = words_from(s@, i as int);
        let mut a = i;
        while a < n && is_space_char(s.get_char(a))
            invariant
                n == s@.len(),
                i <= a <= n,
                skip_spaces(s@, i as int) == skip_spaces(s@, a as int),
            decreases n - a,
        {
            a = a + 1;
        }
        if a == n {
            assert(words_from(s@, i as int) =~= Seq::<Seq<char>>::empty());
            i = n;
        } else {
            let mut b = a;
            while b < n && !is_space_char(s.get_char(b))
                invariant
                    n == s@.len(),
                    a <= b <= n,
                    word_end(s@, a as int) == word_end(s@, b as int),
                decreases n - b,
            {
                b = b + 1;
            }
            let ghost before = out@;
            out.push(s.substring_char(a, b).to_owned());
            assert(out@.map_values(|x: String| x@) =~= before.map_values(|x: String| x@).push(
                s@.subrange(a as int, b as int),
            ));
            assert(here =~= seq![s@.subrange(a as int, b as int)] + words_from(s@, b as int));
            assert(before.map_values(|x: String| x@) + here =~= out@.map_values(|x: String| x@)
                + words_from(s@, b as int));
            i = b;
        }
    }
    assert(words_from(s@, n as int) =~= Seq::<Seq<char>>::empty());
    assert(out@.map_values(|x: String| x@) + Seq::<Seq<char>>::empty() =~= out@.map_values(
        |x: String| x@,
    ));
    out
}

/// What a line typed at the interactive prompt asks for.
#[derive(Debug)]
pub enum ReplAction {
    /// A blank line: ask again.
    Skip,
    /// `exit` or `quit`.
    Exit,
    /// `help`.
    Help,
    /// `config <user> <password>`: set the account's credentials.
    Config { username: String, password: String },
    /// `login <user> <password>`.
    Login { username: String, password: String },
    /// `login` alone: log in with the stored credentials.
    LoginStored,
    /// `list`.
    List,
    /// `upload <path>`.
    Upload { path: String },
    /// `delete <id>`.
    Delete { image_id: String },
    /// A command given too few arguments: how to use it.
    Usage(String),
    /// A word that names no command.
    Unknown(String),
}

/// A command word without one leading `/`.
pub open spec fn command_word(w: Seq<char>) -> Seq<char> {
    if w.len() > 0 && w[0] == '/' {
        w.skip(1)
    } else {
        w
    }
}

/// A command may be typed with or without its leading `/`: both name the
/// same command.
pub proof fn leading_slash_is_optional(w: Seq<char>)
    requires
        w.len() == 0 || w[0] != '/',
    ensures
        command_word(seq!['/'] + w) == command_word(w),
{
    assert((seq!['/'] + w).skip(1) =~= w);
}

/// A command may be typed with or without its leading `/`: for every
/// command word `w` that does not begin with `/`, and whatever arguments
/// follow, the prompt answers the line `/w ...` exactly as it answers `w ...`.
pub proof fn slash_command_answers_as_bare(a: ReplAction, w: Seq<char>, args: Seq<Seq<char>>)
    requires
        w.len() == 0 || w[0] != '/',
    ensures
        repl_answer(a, seq![seq!['/'] + w] + args) == repl_answer(a, seq![w] + args),
{
    leading_slash_is_optional(w);
    let l1 = seq![seq!['/'] + w] + args;
    let l2 = seq![w] + args;
    assert(l1.len() == l2.len());
    assert(l1[0] == seq!['/'] + w);
    assert(l2[0] == w);
    assert(forall|i: int| 1 <= i < l1.len() ==> l1[i] == l2[i]);
}

/// Whether `a` is the prompt's answer to a line whose words are `w`.
pub open spec fn repl_answer(a: ReplAction, w: Seq<Seq<char>>) -> bool {
    if w.len() == 0 {
        a is Skip
    } else {
        let cmd = command_word(w[0]);
        if cmd == "exit"@ || cmd == "quit"@ {
            a is Exit
        } else if cmd == "help"@ {
            a is Help
        } else if cmd == "config"@ {
            if w.len() < 3 {
                a matches ReplAction::Usage(m) && m@ == "用法: /config <用户名> <密码>"@
            } else {
                a matches ReplAction::Config { username, password } && username@ == w[1] && password@ == w[2]
            }
        } else if cmd == "login"@ {
            if w.len() == 1 {
                a is LoginStored
            } else if w.len() < 3 {
                a matches ReplAction::Usage(m) && m@ == "用法: /login [<用户名> <密码>]"@
            } else {
                a matches ReplAction::Login { username, password } && username@ == w[1] && password@ == w[2]
            }
        } else if cmd == "list"@ {
            a is List
        } else if cmd == "upload"@ {
            if w.len() < 2 {
                a matches ReplAction::Usage(m) && m@ == "用法: /upload <文件路径>"@
            } else {
                a matches ReplAction::Upload { path } && path@ == w[1]
            }
        } else if cmd == "delete"@ {
            if w.len() < 2 {
                a matches ReplAction::Usage(m) && m@ == "用法: /delete <图片ID>"@
            } else {
                a matches ReplAction::Delete { image_id } && image_id@ == w[1]
            }
        } else {
            a matches ReplAction::Unknown(c) && c@ == cmd
        }
    }
}

/// Reads a line typed at the interactive prompt.
pub fn parse_repl_line(line: &str) -> (a: ReplAction)
    ensures
        repl_answer(a, words(line@)),
{
    let w = split_words(line);
    assert(w@.len() == words(line@).len());
    if w.len() == 0 {
        return ReplAction::Skip;
    }
    assert(w@[0]@ == words(line@)[0]);
    let first = w[0].as_str();
    let cmd: &str = if first.unicode_len() > 0 && first.get_char(0) == '/' {
        first.substring_char(1, first.unicode_len())
    } else {
        first
    };
    assert(cmd@ =~= command_word(words(line@)[0]));
    if same_text(cmd, "exit") || same_text(cmd, "quit") {
        ReplAction::Exit
    } else if same_text(cmd, "help") {
        ReplAction::Help
    } else if same_text(cmd, "config") {
        if w.len() < 3 {
            ReplAction::Usage(String::from_str("用法: /config <用户名> <密码>"))
        } else {
            assert(w@[1]@ == words(line@)[1] && w@[2]@ == words(line@)[2]);
            ReplAction::Config { username: w[1].clone(), password: w[2].clone() }
        }
    } else if same_text(cmd, "login") {
        if w.len() == 1 {
            ReplAction::LoginStored
        } else if w.len() < 3 {
            ReplAction::Usage(String::from_str("用法: /login [<用户名> <密码>]"))
        } else {
            assert(w@[1]@ == words(line@)[1] && w@[2]@ == words(line@)[2]);
            ReplAction::Login { username: w[1].clone(), password: w[2].clone() }
        }
    } else if same_text(cmd, "list") {
        ReplAction::List
    } else if same_text(cmd, "upload") {
        if w.len() < 2 {
            ReplAction::Usage(String::from_str("用法: /upload <文件路径>"))
        } else {
            assert(w@[1]@ == words(line@)[1]);
            ReplAction::Upload { path: w[1].clone() }
        }
    } else if same_text(cmd, "delete") {
        if w.len() < 2 {
            ReplAction::Usage(String::from_str("用法: /delete <图片ID>"))
        } else {
            assert(w@[1]@ == words(line@)[1]);
            ReplAction::Delete { image_id: w[1].clone() }
        }
    } else {
        ReplAction::Unknown(cmd.to_owned())
    }
}

/// What the program's command line asks for.
#[derive(Debug)]
pub enum CliAction {
    /// `-i`: the interactive prompt.
    Repl,
    /// No command, or one that is not known: the help text.
    Help,
    /// `login <user> <password>`.
    Login { username: String, password: String },
    /// `logout`.
    Logout,
    /// `list`.
    List,
    /// `upload <path>`.
    Upload { path: String },
    /// `delete <id>`.
    Delete { image_id: String },
    /// A command given too few arguments: how to use it.
    Usage(String),
}

/// Whether `a` is what the command line `args` (the program's name first)
/// asks for.
pub open spec fn cli_answer(a: CliAction, args: Seq<Seq<char>>) -> bool {
    if args.len() >= 2 && args[1] == "-i"@ {
        a is Repl
    } else if args.len() < 2 {
        a is Help
    } else if args[1] == "login"@ {
        if args.len() < 4 {
            a matches CliAction::Usage(m) && m@ == "用法: "@ + args[0] + " login <用户名> <密码>"@
        } else {
            a matches CliAction::Login { username, password } && username@ == args[2] && password@
                == args[3]
        }
    } else if args[1] == "logout"@ {
        a is Logout
    } else if args[1] == "list"@ {
        a is List
    } else if args[1] == "upload"@ {
        if args.len() < 3 {
            a matches CliAction::Usage(m) && m@ == "用法: "@ + args[0] + " upload <文件路径>"@
        } else {
            a matches CliAction::Upload { path } && path@ == args[2]
        }
    } else if args[1] == "delete"@ {
        if args.len() < 3 {
            a matches CliAction::Usage(m) && m@ == "用法: "@ + args[0] + " delete <图片ID>"@
        } else {
            a matches CliAction::Delete { image_id } && image_id@ == args[2]
        }
    } else {
        a is Help
    }
}

/// Reads the program's command line, the program's name first.
pub fn parse_cli(args: &Vec<String>) -> (a: CliAction)
    ensures
        cli_answer(a, args@.map_values(|x: String| x@)),
{
    let ghost v = args@.map_values(|x: String| x@);
    let n = args.len();
    if n >= 2 && same_text(args[1].as_str(), "-i") {
        return CliAction::Repl;
    }
    if n < 2 {
        return CliAction::Help;
    }
    assert(v[0] == args@[0]@ && v[1] == args@[1]@);
    let cmd = args[1].as_str();
    if same_text(cmd, "login") {
        if n < 4 {
            CliAction::Usage(String::from_str("用法: ").concat(args[0].as_str()).concat(" login <用户名> <密码>"))
        } else {
            assert(v[2] == args@[2]@ && v[3] == args@[3]@);
            CliAction::Login { username: args[2].clone(), password: args[3].clone() }
        }
    } else if same_text(cmd, "logout") {
        CliAction::Logout
    } else if same_text(cmd, "list") {
        CliAction::List
    } else if same_text(cmd, "upload") {
        if n < 3 {
            CliAction::Usage(String::from_str("用法: ").concat(args[0].as_str()).concat(" upload <文件路径>"))
        } else {
            assert(v[2] == args@[2]@);
            CliAction::Upload { path: args[2].clone() }
        }
    } else if same_text(cmd, "delete") {
        if n < 3 {
            CliAction::Usage(String::from_str("用法: ").concat(args[0].as_str()).concat(" delete <图片ID>"))
        } else {
            assert(v[2] == args@[2]@);
            CliAction::Delete { image_id: args[2].clone() }
        }
    } else {
        CliAction::Help
    }
}

} // verus!
