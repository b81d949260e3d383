use vaultarq::probe::Launched;
use vaultarq::text::{chars_of, text_of};

#[test]
fn chars_of_gives_the_characters_in_order() {
    assert_eq!(chars_of(""), Vec::<char>::new());
    assert_eq!(chars_of("a=b"), vec!['a', '=', 'b']);
    assert_eq!(chars_of("\u{e9}\u{1f600}z"), vec!['\u{e9}', '\u{1f600}', 'z']);
}

#[test]
fn text_of_gives_the_part_between_the_positions() {
    let chars = vec!['k', '=', '\u{e9}', 'v'];
    assert_eq!(text_of(&chars, 0, 4), "k=\u{e9}v");
    assert_eq!(text_of(&chars, 2, 4), "\u{e9}v");
    assert_eq!(text_of(&chars, 1, 2), "=");
    assert_eq!(text_of(&chars, 3, 3), "");
    assert_eq!(text_of(&chars, 4, 4), "");
}

#[test]
fn exited_decodes_what_was_captured() {
    assert_eq!(
        Launched::exited(true, b"A=1\n", b""),
        Launched::Exited {
            success: true,
            stdout: "A=1\n".to_string(),
            stderr: String::new(),
        }
    );
    assert_eq!(
        Launched::exited(false, b"caf\xc3\xa9", b"\xe2\x82"),
        Launched::Exited {
            success: false,
            stdout: "caf\u{e9}".to_string(),
            stderr: "\u{fffd}".to_string(),
        }
    );
}
