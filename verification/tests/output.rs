use vaultarq::output::{parse_lines, parse_output, split_lines};

fn owned(pairs: &[(&str, &str)]) -> Vec<(String, String)> {
    pairs
        .iter()
        .map(|(name, value)| (name.to_string(), value.to_string()))
        .collect()
}

fn std_lines(text: &str) -> Vec<String> {
    text.lines().map(|line| line.to_string()).collect()
}

#[test]
fn split_lines_cuts_at_line_feeds() {
    assert_eq!(split_lines(""), Vec::<String>::new());
    assert_eq!(split_lines("a"), vec!["a"]);
    assert_eq!(split_lines("a\n"), vec!["a"]);
    assert_eq!(split_lines("a\nb"), vec!["a", "b"]);
    assert_eq!(split_lines("a\n\nb\n"), vec!["a", "", "b"]);
    assert_eq!(split_lines("\n"), vec![""]);
    assert_eq!(split_lines("\n\n"), vec!["", ""]);
}

#[test]
fn split_lines_takes_a_carriage_return_before_a_line_feed() {
    assert_eq!(split_lines("a\r\nb\r\n"), vec!["a", "b"]);
    assert_eq!(split_lines("a\r\r\nb"), vec!["a\r", "b"]);
    assert_eq!(split_lines("\r\n"), vec![""]);
    assert_eq!(split_lines("a\rb\n"), vec!["a\rb"]);
}

#[test]
fn split_lines_keeps_a_carriage_return_at_the_very_end() {
    assert_eq!(split_lines("a\nb\r"), vec!["a", "b\r"]);
    assert_eq!(split_lines("\r"), vec!["\r"]);
}

#[test]
fn split_lines_agrees_with_the_standard_library() {
    let pieces = ["", "a", "\n", "\r", "\r\n", "K=v", " ", "\u{e9}\u{2028}"];
    for a in pieces {
        for b in pieces {
            for c in pieces {
                for d in pieces {
                    let text = format!("{}{}{}{}", a, b, c, d);
                    assert_eq!(split_lines(&text), std_lines(&text), "text {:?}", text);
                }
            }
        }
    }
}

#[test]
fn bash_output_gives_its_pairs_in_order() {
    let text = "export API_KEY=\"abc123\"\nexport DB_URL=\"postgres://x\"\n";
    assert_eq!(
        parse_output(text),
        owned(&[("API_KEY", "abc123"), ("DB_URL", "postgres://x")])
    );
}

#[test]
fn dotenv_output_gives_its_pairs() {
    assert_eq!(parse_output("API_KEY=abc123\n"), owned(&[("API_KEY", "abc123")]));
    assert_eq!(
        parse_output("A=1\nB=\"two\"\nC=\""),
        owned(&[("A", "1"), ("B", "two"), ("C", "\"")])
    );
}

#[test]
fn both_styles_may_stand_in_one_output() {
    let text = "export A=\"1\"\r\nB=2\r\n\r\n   \n# note\nexport C=3\nD=\"4\"";
    assert_eq!(
        parse_output(text),
        owned(&[("A", "1"), ("B", "2"), ("D", "4")])
    );
}

#[test]
fn a_repeated_name_is_given_each_time() {
    assert_eq!(
        parse_output("A=1\nA=2\n"),
        owned(&[("A", "1"), ("A", "2")])
    );
}

#[test]
fn output_without_pairs_gives_none() {
    assert_eq!(parse_output(""), owned(&[]));
    assert_eq!(parse_output("\n\n  \n\t\n"), owned(&[]));
    assert_eq!(parse_output("{\n  \"A\": \"b\"\n}\n"), owned(&[]));
}

#[test]
fn last_line_without_line_feed_keeps_its_carriage_return() {
    assert_eq!(parse_output("A=b\r"), owned(&[("A", "b\r")]));
    assert_eq!(parse_output("A=b\r\n"), owned(&[("A", "b")]));
}

#[test]
fn parse_lines_reads_each_line() {
    let lines = vec![
        "export A=\"1\"".to_string(),
        String::new(),
        "junk".to_string(),
        "B=2".to_string(),
    ];
    assert_eq!(parse_lines(&lines), owned(&[("A", "1"), ("B", "2")]));
    assert_eq!(parse_lines(&Vec::new()), owned(&[]));
}
