use vaultarq::chars::{name_char, space_char};
use vaultarq::line::{blank, parse_chars, parse_line};

fn pair(name: &str, value: &str) -> Option<(String, String)> {
    Some((name.to_string(), value.to_string()))
}

#[test]
fn bash_line_gives_name_and_quoted_text() {
    assert_eq!(parse_line("export API_KEY=\"abc123\""), pair("API_KEY", "abc123"));
    assert_eq!(
        parse_line("export DB_URL=\"postgres://x\""),
        pair("DB_URL", "postgres://x")
    );
    assert_eq!(parse_line("export A=\"\""), pair("A", ""));
    assert_eq!(parse_line("export _9=\" spaced out \""), pair("_9", " spaced out "));
}

#[test]
fn bash_line_may_hold_more_white_space_after_export() {
    assert_eq!(parse_line("export   A=\"b\""), pair("A", "b"));
    assert_eq!(parse_line("export \t A=\"b\""), pair("A", "b"));
    assert_eq!(parse_line("export \u{a0}\u{2003}A=\"b\""), pair("A", "b"));
}

#[test]
fn bash_value_runs_from_first_to_last_quote() {
    assert_eq!(parse_line("export A=\"x\"y\""), pair("A", "x\"y"));
    assert_eq!(parse_line("export A=\"\\\"q\\\"\""), pair("A", "\\\"q\\\""));
    assert_eq!(parse_line("export A=\"\"\""), pair("A", "\""));
    assert_eq!(parse_line("export A=\"a=b\""), pair("A", "a=b"));
}

#[test]
fn export_line_that_is_not_bash_style_gives_nothing() {
    assert_eq!(parse_line("export A=b"), None);
    assert_eq!(parse_line("export A=\"b"), None);
    assert_eq!(parse_line("export A=\"b\" "), None);
    assert_eq!(parse_line("export A=\"b\" # note"), None);
    assert_eq!(parse_line("export =\"b\""), None);
    assert_eq!(parse_line("export A =\"b\""), None);
    assert_eq!(parse_line("export A-B=\"b\""), None);
    assert_eq!(parse_line("export A=\""), None);
    assert_eq!(parse_line("export "), None);
    assert_eq!(parse_line("export A"), None);
    assert_eq!(parse_line("export A=\"b\nc\""), None);
}

#[test]
fn dotenv_line_gives_name_and_text() {
    assert_eq!(parse_line("API_KEY=abc123"), pair("API_KEY", "abc123"));
    assert_eq!(parse_line("A="), pair("A", ""));
    assert_eq!(parse_line("A=b=c"), pair("A", "b=c"));
    assert_eq!(parse_line("A= b "), pair("A", " b "));
    assert_eq!(parse_line("a1_=x y"), pair("a1_", "x y"));
    assert_eq!(parse_line("export=1"), pair("export", "1"));
    assert_eq!(parse_line("exportA=\"1\""), pair("exportA", "1"));
}

#[test]
fn dotenv_value_loses_one_pair_of_quotes() {
    assert_eq!(parse_line("A=\"b\""), pair("A", "b"));
    assert_eq!(parse_line("A=\"\""), pair("A", ""));
    assert_eq!(parse_line("A=\"\"b\"\""), pair("A", "\"b\""));
    assert_eq!(parse_line("A=\"b"), pair("A", "\"b"));
    assert_eq!(parse_line("A=b\""), pair("A", "b\""));
    assert_eq!(parse_line("A='b'"), pair("A", "'b'"));
}

#[test]
fn dotenv_value_of_one_quote_stays() {
    assert_eq!(parse_line("A=\""), pair("A", "\""));
}

#[test]
fn blank_line_gives_nothing() {
    assert_eq!(parse_line(""), None);
    assert_eq!(parse_line(" "), None);
    assert_eq!(parse_line("\t \r"), None);
    assert_eq!(parse_line("\u{3000}\u{2028}"), None);
}

#[test]
fn line_in_neither_style_gives_nothing() {
    assert_eq!(parse_line("# a comment"), None);
    assert_eq!(parse_line("=value"), None);
    assert_eq!(parse_line(" A=b"), None);
    assert_eq!(parse_line("A B=c"), None);
    assert_eq!(parse_line("A-B=c"), None);
    assert_eq!(parse_line("A.B=c"), None);
    assert_eq!(parse_line("JUSTANAME"), None);
    assert_eq!(parse_line("{\"A\": \"b\"}"), None);
    assert_eq!(parse_line("\u{e9}=1"), None);
    assert_eq!(parse_line("A=b\nC=d"), None);
    assert_eq!(parse_line("Export A=\"b\""), None);
}

#[test]
fn parse_chars_reads_as_parse_line_does() {
    let chars: Vec<char> = "export K=\"v\"".chars().collect();
    assert_eq!(parse_chars(&chars), pair("K", "v"));
    let chars: Vec<char> = "K=v".chars().collect();
    assert_eq!(parse_chars(&chars), pair("K", "v"));
    let chars: Vec<char> = "K v".chars().collect();
    assert_eq!(parse_chars(&chars), None);
    assert_eq!(parse_chars(&Vec::new()), None);
}

#[test]
fn blank_tells_white_space_only() {
    assert!(blank(&Vec::new()));
    assert!(blank(&vec![' ', '\t', '\r', '\n', '\u{a0}']));
    assert!(!blank(&vec![' ', 'x', ' ']));
    assert!(!blank(&vec!['\u{200b}']));
}

#[test]
fn name_chars_are_ascii_letters_digits_and_underscore() {
    let mut code: u32 = 0;
    while code <= 0x10FFFF {
        if let Some(c) = char::from_u32(code) {
            assert_eq!(name_char(c), c.is_ascii_alphanumeric() || c == '_');
        }
        code += 1;
    }
}

#[test]
fn space_chars_are_those_of_the_standard_library() {
    let mut code: u32 = 0;
    while code <= 0x10FFFF {
        if let Some(c) = char::from_u32(code) {
            assert_eq!(space_char(c), c.is_whitespace());
        }
        code += 1;
    }
}
