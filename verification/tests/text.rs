use howyoudoin::text::{chars_of, split_lines, trimmed, whitespace};

#[test]
fn whitespace_is_the_unicode_property() {
    for code in 0u32..=0x10FFFF {
        if let Some(c) = char::from_u32(code) {
            assert_eq!(whitespace(c), c.is_whitespace(), "U+{:04X}", code);
        }
    }
}

#[test]
fn whitespace_of_some_characters() {
    assert!(whitespace(' '));
    assert!(whitespace('\n'));
    assert!(whitespace('\r'));
    assert!(whitespace('\t'));
    assert!(whitespace('\u{3000}'));
    assert!(!whitespace('s'));
    assert!(!whitespace('0'));
    assert!(!whitespace('\u{200b}'));
}

#[test]
fn chars_of_gives_every_character() {
    assert_eq!(chars_of(""), Vec::<char>::new());
    assert_eq!(chars_of("s1\né"), vec!['s', '1', '\n', 'é']);
}

#[test]
fn trimmed_cuts_white_space_at_both_ends() {
    assert_eq!(trimmed(""), "");
    assert_eq!(trimmed("   "), "");
    assert_eq!(trimmed("a"), "a");
    assert_eq!(trimmed(" a b "), "a b");
    assert_eq!(trimmed("\n\ts01e01\r\n"), "s01e01");
    assert_eq!(trimmed("\u{2003}é \u{a0}"), "é");
}

#[test]
fn trimmed_matches_trim() {
    let texts = [
        "",
        " ",
        "x",
        " x",
        "x ",
        "\n x \n y \n",
        "\u{85}x\u{1680}",
        "\u{200b}x\u{200b}",
        "  \u{2028}\u{2029}\u{202f}\u{205f}é\u{3000}",
    ];
    for text in texts {
        assert_eq!(trimmed(text), text.trim(), "{:?}", text);
    }
}

#[test]
fn split_lines_of_some_texts() {
    assert_eq!(split_lines(""), Vec::<String>::new());
    assert_eq!(split_lines("a"), vec!["a"]);
    assert_eq!(split_lines("a\n"), vec!["a"]);
    assert_eq!(split_lines("a\nb"), vec!["a", "b"]);
    assert_eq!(split_lines("\n"), vec![""]);
    assert_eq!(split_lines("a\n\n"), vec!["a", ""]);
    assert_eq!(split_lines("a\r\nb\r\n"), vec!["a", "b"]);
    assert_eq!(split_lines("a\r\r\nb"), vec!["a\r", "b"]);
    assert_eq!(split_lines("a\rb"), vec!["a\rb"]);
}

#[test]
fn split_lines_matches_lines() {
    let texts = [
        "",
        "\n",
        "\r\n",
        "\r",
        "a",
        "a\n",
        "a\r",
        "a\r\n",
        "\na",
        "a\n\nb\n",
        "a\r\n\r\nb",
        "é\nñ\r\nü",
        " a \n\tb\t\n",
    ];
    for text in texts {
        let expected: Vec<String> = text.lines().map(|s| s.to_string()).collect();
        assert_eq!(split_lines(text), expected, "{:?}", text);
    }
}
