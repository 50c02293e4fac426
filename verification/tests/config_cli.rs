use imagehub::cli::is_space_char;
use imagehub::cli::parse_cli;
use imagehub::cli::parse_repl_line;
use imagehub::cli::split_words;
use imagehub::cli::CliAction;
use imagehub::cli::ReplAction;
use imagehub::config::parse_config;
use imagehub::config::render_config;

fn s(x: &str) -> String {
    x.to_string()
}

fn args(v: &[&str]) -> Vec<String> {
    v.iter().map(|a| a.to_string()).collect()
}

#[test]
fn saved_config_is_read_back() {
    let text = render_config("alice", "p=w", "PHPSESSID=a; KEEP_LOGIN=b", "tok");
    assert_eq!(text, "username=alice\npassword=p=w\ncookie=PHPSESSID=a; KEEP_LOGIN=b\nauthtoken=tok\n");
    assert_eq!(parse_config(&text), (s("alice"), s("p=w"), s("PHPSESSID=a; KEEP_LOGIN=b"), s("tok")));
    let empty = render_config("", "", "", "");
    assert_eq!(parse_config(&empty), (s(""), s(""), s(""), s("")));
}

#[test]
fn config_lines_override_and_ignore_others() {
    let text = "# note\r\nusername=a\r\nusername=b\ncookie=c\rx\nother=1\nauthtoken=t";
    assert_eq!(parse_config(text), (s("b"), s(""), s("c\rx"), s("t")));
    assert_eq!(parse_config(""), (s(""), s(""), s(""), s("")));
    assert_eq!(parse_config("password=last\r"), (s(""), s("last\r"), s(""), s("")));
}

#[test]
fn whitespace_matches_char_is_whitespace() {
    let mut c: u32 = 0;
    while c < 0x11_0000 {
        if let Some(ch) = char::from_u32(c) {
            assert_eq!(is_space_char(ch), ch.is_whitespace(), "{:x}", c);
        }
        c += 1;
    }
}

#[test]
fn words_match_split_whitespace() {
    for line in ["", "   ", "a", "  /login  bob\tpw \n", "x\u{3000}y\u{a0}z", "上传 文件"] {
        let expected: Vec<String> = line.split_whitespace().map(|w| w.to_string()).collect();
        assert_eq!(split_words(line), expected);
    }
}

#[test]
fn repl_lines() {
    assert!(matches!(parse_repl_line("  \n"), ReplAction::Skip));
    assert!(matches!(parse_repl_line("/exit\n"), ReplAction::Exit));
    assert!(matches!(parse_repl_line("quit"), ReplAction::Exit));
    assert!(matches!(parse_repl_line("/help"), ReplAction::Help));
    assert!(matches!(parse_repl_line("list"), ReplAction::List));
    match parse_repl_line("/login bob secret\n") {
        ReplAction::Login { username, password } => {
            assert_eq!(username, "bob");
            assert_eq!(password, "secret");
        }
        other => panic!("unexpected {:?}", other),
    }
    match parse_repl_line("/login bob") {
        ReplAction::Usage(m) => assert_eq!(m, "用法: /login [<用户名> <密码>]"),
        other => panic!("unexpected {:?}", other),
    }
    assert!(matches!(parse_repl_line("/login\n"), ReplAction::LoginStored));
    assert!(matches!(parse_repl_line("  login  "), ReplAction::LoginStored));
    match parse_repl_line("/config alice pw\n") {
        ReplAction::Config { username, password } => {
            assert_eq!(username, "alice");
            assert_eq!(password, "pw");
        }
        other => panic!("unexpected {:?}", other),
    }
    match parse_repl_line("/config alice") {
        ReplAction::Usage(m) => assert_eq!(m, "用法: /config <用户名> <密码>"),
        other => panic!("unexpected {:?}", other),
    }
    match parse_repl_line("/upload ./a.png") {
        ReplAction::Upload { path } => assert_eq!(path, "./a.png"),
        other => panic!("unexpected {:?}", other),
    }
    match parse_repl_line("/upload") {
        ReplAction::Usage(m) => assert_eq!(m, "用法: /upload <文件路径>"),
        other => panic!("unexpected {:?}", other),
    }
    match parse_repl_line("/delete X9") {
        ReplAction::Delete { image_id } => assert_eq!(image_id, "X9"),
        other => panic!("unexpected {:?}", other),
    }
    match parse_repl_line("/delete") {
        ReplAction::Usage(m) => assert_eq!(m, "用法: /delete <图片ID>"),
        other => panic!("unexpected {:?}", other),
    }
    match parse_repl_line("//list") {
        ReplAction::Unknown(c) => assert_eq!(c, "/list"),
        other => panic!("unexpected {:?}", other),
    }
}

#[test]
fn command_lines() {
    assert!(matches!(parse_cli(&args(&["imagehub"])), CliAction::Help));
    assert!(matches!(parse_cli(&args(&["imagehub", "-i", "list"])), CliAction::Repl));
    assert!(matches!(parse_cli(&args(&["imagehub", "logout"])), CliAction::Logout));
    assert!(matches!(parse_cli(&args(&["imagehub", "list"])), CliAction::List));
    assert!(matches!(parse_cli(&args(&["imagehub", "frobnicate"])), CliAction::Help));
    match parse_cli(&args(&["imagehub", "login", "bob", "pw"])) {
        CliAction::Login { username, password } => {
            assert_eq!(username, "bob");
            assert_eq!(password, "pw");
        }
        other => panic!("unexpected {:?}", other),
    }
    match parse_cli(&args(&["ih", "login", "bob"])) {
        CliAction::Usage(m) => assert_eq!(m, "用法: ih login <用户名> <密码>"),
        other => panic!("unexpected {:?}", other),
    }
    match parse_cli(&args(&["ih", "upload"])) {
        CliAction::Usage(m) => assert_eq!(m, "用法: ih upload <文件路径>"),
        other => panic!("unexpected {:?}", other),
    }
    match parse_cli(&args(&["ih", "delete", "Z"])) {
        CliAction::Delete { image_id } => assert_eq!(image_id, "Z"),
        other => panic!("unexpected {:?}", other),
    }
    match parse_cli(&args(&["ih", "delete"])) {
        CliAction::Usage(m) => assert_eq!(m, "用法: ih delete <图片ID>"),
        other => panic!("unexpected {:?}", other),
    }
    match parse_cli(&args(&["ih", "upload", "x.gif"])) {
        CliAction::Upload { path } => assert_eq!(path, "x.gif"),
        other => panic!("unexpected {:?}", other),
    }
}
