use judge_engine::lsp::{
    clangd_args, service_for, ClangdCommandBuilder, ClangdServiceBuilder, LSPRegister,
    LspCommandBuilder, PylsCommandBuilder,
};
use judge_engine::net::{DFAInterfer, Host, RemoteState, DFA};
use judge_engine::text::{
    belongs, chars_of, lines, parse_decimal_i32, scan_run, string_of, trim, white_space, CharClass,
};

#[test]
fn the_command_lines_of_the_language_servers() {
    let cmd = ClangdCommandBuilder(None).build();
    assert_eq!(cmd.get_program(), "clangd");
    assert_eq!(
        cmd.get_args(),
        vec![
            "--pch-storage=memory",
            "--clang-tidy",
            "--header-insertion=iwyu",
            "--completion-style=detailed"
        ]
    );
    assert_eq!(clangd_args().len(), 4);
    let cmd = ClangdCommandBuilder(Some("/opt/clangd".to_string())).build();
    assert_eq!(cmd.get_program(), "/opt/clangd");
    let cmd = PylsCommandBuilder(None).build();
    assert_eq!(cmd.get_program(), "pyright-langserver");
    assert_eq!(cmd.get_args(), vec!["--stdio"]);
    let cmd = PylsCommandBuilder(Some("pyls".to_string())).build();
    assert_eq!(cmd.get_program(), "pyls");
}

#[test]
fn the_table_of_language_services() {
    let register = LSPRegister::default();
    assert!(register.create_by_id("clangd").is_some());
    assert!(register.create_by_id("ClangD").is_some());
    assert!(register.create_by_id("pyright").is_none());
    assert!(register.create_by_id("").is_none());
    assert!(service_for("clangd").is_some());
    assert!(service_for("Clangd").is_none());
    let service = ClangdServiceBuilder.create();
    assert_eq!(service.availability_command().get_args(), vec!["--version"]);
    assert_eq!(service.command().get_program(), "clangd");
    assert_eq!(service.command().get_args().len(), 4);
}

#[test]
fn a_host_is_an_address_and_a_port() {
    let host = Host((127, 0, 0, 1), 8080);
    assert_eq!(host.tuple(), ((127, 0, 0, 1), 8080));
    assert!(!RemoteState::default().is_local());
}

#[derive(Debug, PartialEq)]
enum Door {
    Open,
    Closed,
    Locked,
}

impl DFA for Door {
    type Input = char;
    type Error = String;

    fn accept(&self, params: char) -> Result<Self, String> {
        match (self, params) {
            (Door::Open, 'c') => Ok(Door::Closed),
            (Door::Closed, 'o') => Ok(Door::Open),
            (Door::Closed, 'l') => Ok(Door::Locked),
            (Door::Locked, 'u') => Ok(Door::Closed),
            _ => Err(format!("cannot {}", params)),
        }
    }

    fn is_final(&self) -> bool {
        *self == Door::Locked
    }
}

#[test]
fn an_automaton_follows_its_inputs() {
    let mut door = DFAInterfer::start(Door::Open);
    assert!(!door.is_final());
    assert_eq!(door.accept('c'), Ok(()));
    assert_eq!(door.state, Door::Closed);
    assert_eq!(door.accept('x'), Err("cannot x".to_string()));
    assert_eq!(door.state, Door::Closed);
    assert_eq!(door.accept('l'), Ok(()));
    assert!(door.is_final());
}

#[test]
fn white_space_is_what_unicode_says() {
    for c in ['\u{0}', 'a', '0', '_', '%', '"', '\'', '\u{e9}', '\u{200b}', '\u{feff}', '\u{180e}', '\u{10ffff}'] {
        assert_eq!(white_space(c), c.is_whitespace(), "{:?}", c);
    }
    let mut code: u32 = 0;
    while code <= 0x3100 {
        if let Some(c) = char::from_u32(code) {
            assert_eq!(white_space(c), c.is_whitespace(), "{:x}", code);
        }
        code += 1;
    }
}

#[test]
fn the_classes_of_characters() {
    assert!(belongs(CharClass::WhiteSpace, ' '));
    assert!(belongs(CharClass::WhiteSpace, '\n'));
    assert!(belongs(CharClass::WhiteSpace, '\u{a0}'));
    assert!(!belongs(CharClass::WhiteSpace, 'a'));
    assert!(belongs(CharClass::Name, 'a'));
    assert!(belongs(CharClass::Name, 'Z'));
    assert!(belongs(CharClass::Name, '7'));
    assert!(belongs(CharClass::Name, '_'));
    assert!(!belongs(CharClass::Name, '-'));
    assert!(!belongs(CharClass::Name, '\u{e9}'));
    assert!(!belongs(CharClass::Bare, '"'));
    assert!(!belongs(CharClass::Bare, '\''));
    assert!(!belongs(CharClass::Bare, '\t'));
    assert!(belongs(CharClass::Bare, '\\'));
    assert!(belongs(CharClass::NotColon, 'x'));
    assert!(!belongs(CharClass::NotColon, ':'));
    assert!(belongs(CharClass::NotPercent, ':'));
    assert!(!belongs(CharClass::NotPercent, '%'));
    assert!(!belongs(CharClass::NotLineFeed, '\n'));
    assert!(belongs(CharClass::NotLineFeed, '\r'));
    assert!(!belongs(CharClass::NotApostrophe, '\''));
    assert!(belongs(CharClass::WhiteSpace, '\u{2003}'));
    let v = chars_of("  ab c");
    assert_eq!(scan_run(&v, 0, CharClass::WhiteSpace), 2);
    assert_eq!(scan_run(&v, 2, CharClass::Bare), 4);
    assert_eq!(scan_run(&v, 6, CharClass::Bare), 6);
    assert_eq!(string_of(&v, 2, 4), "ab");
}

#[test]
fn trimming_takes_white_space_from_both_ends() {
    for s in ["", " ", "a", "  a b \t\n", "\u{a0}x\u{3000}", "x  ", "  x", " \u{200b} "] {
        assert_eq!(trim(s), s.trim(), "{:?}", s);
    }
}

#[test]
fn decimal_numbers_within_an_i32() {
    assert_eq!(parse_decimal_i32("0"), Some(0));
    assert_eq!(parse_decimal_i32("007"), Some(7));
    assert_eq!(parse_decimal_i32("2147483647"), Some(2147483647));
    assert_eq!(parse_decimal_i32("2147483648"), None);
    assert_eq!(parse_decimal_i32("99999999999999999999"), None);
    assert_eq!(parse_decimal_i32(""), None);
    assert_eq!(parse_decimal_i32("-1"), None);
    assert_eq!(parse_decimal_i32("+1"), None);
    assert_eq!(parse_decimal_i32("1 "), None);
    assert_eq!(parse_decimal_i32("\u{663}"), None);
}

#[test]
fn lines_as_the_standard_library_cuts_them() {
    for s in ["", "a", "a\n", "a\nb", "a\r\nb\r\n", "\n\n", "a\r", "\r\n", "a\n\rb", "x\r\r\ny"] {
        let expected: Vec<&str> = s.lines().collect();
        assert_eq!(lines(s), expected, "{:?}", s);
    }
}
