use regex::Regex;
use vaultarq::line::parse_line;

/// Reads a line with the two patterns that the grammars stand for.
fn by_patterns(bash: &Regex, dotenv: &Regex, line: &str) -> Option<(String, String)> {
    if line.trim().is_empty() {
        return None;
    }
    if line.starts_with("export ") {
        let found = bash.captures(line)?;
        Some((found[1].to_string(), found[2].to_string()))
    } else {
        let found = dotenv.captures(line)?;
        let value = &found[2];
        let value = if value.len() >= 2 && value.starts_with('"') && value.ends_with('"') {
            &value[1..value.len() - 1]
        } else {
            value
        };
        Some((found[1].to_string(), value.to_string()))
    }
}

fn patterns() -> (Regex, Regex) {
    let bash = Regex::new("^export\\s+([A-Za-z0-9_]+)=\"(.*)\"$").unwrap();
    let dotenv = Regex::new("^([A-Za-z0-9_]+)=(.*)$").unwrap();
    (bash, dotenv)
}

#[test]
fn chosen_lines_are_read_as_the_patterns_read_them() {
    let (bash, dotenv) = patterns();
    let lines = [
        "export API_KEY=\"abc123\"",
        "export  TWO=\"spaces\"",
        "export\tTAB=\"x\"",
        "export \tTAB=\"x\"",
        "export \u{a0}NBSP=\"x\"",
        "export \u{200b}ZWSP=\"x\"",
        "export \nA=\"x\"",
        "export A=\"x\ny\"",
        "export A=\"x\ry\"",
        "export A=\"x\"y\"",
        "export A=\"\"",
        "export A=\"",
        "export A=x",
        "export A =\"x\"",
        "export =\"x\"",
        "export \u{e9}=\"x\"",
        "export A=\"x\" ",
        "export",
        "export ",
        "exportA=\"x\"",
        "export=\"x\"",
        "A=b",
        "A=",
        "A=\"",
        "A=\"\"",
        "A=\"b\"",
        "A=\"b",
        "A=b\"",
        "A=b\nc",
        "A=b\n",
        "A=\u{e9}\u{1f600}",
        "=b",
        " A=b",
        "A =b",
        "A",
        "",
        " ",
        "\u{2003}",
        "a_B-9=x",
        "a_B9=x",
        "0=x",
        "_=",
    ];
    for line in lines {
        assert_eq!(parse_line(line), by_patterns(&bash, &dotenv, line), "line {:?}", line);
    }
}

#[test]
fn built_lines_are_read_as_the_patterns_read_them() {
    let (bash, dotenv) = patterns();
    let pieces = [
        "", "export", " ", "\t", "A", "_1", "=", "\"", "v w", "\r", "\n", "\u{a0}", "\u{e9}", "-",
    ];
    for a in pieces {
        for b in pieces {
            for c in pieces {
                for d in pieces {
                    let tail = format!("{}{}{}{}", a, b, c, d);
                    for head in ["", "export ", "K=", "export K=\""] {
                        let line = format!("{}{}", head, tail);
                        assert_eq!(
                            parse_line(&line),
                            by_patterns(&bash, &dotenv, &line),
                            "line {:?}",
                            line
                        );
                    }
                }
            }
        }
    }
}
