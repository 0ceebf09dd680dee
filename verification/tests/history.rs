use howyoudoin::history::{read_db_from_file, save_db_to_file};

fn owned(entries: &[&str]) -> Vec<String> {
    entries.iter().map(|s| s.to_string()).collect()
}

#[test]
fn read_db_from_file_works_with_non_existing_file() {
    let result = read_db_from_file(None);
    assert_eq!(result, Vec::<String>::new());
}

#[test]
fn read_db_from_file_handles_empty_file() {
    let result = read_db_from_file(Some(""));
    assert_eq!(result, Vec::<String>::new());
}

#[test]
fn read_db_from_file_reads_data_from_file() {
    // The text and the line feed that ends it.
    let written = format!("{}\n", "s01e02\ns01e01\n");

    let result = read_db_from_file(Some(&written));
    assert_eq!(result, vec!("s01e01", "s01e02"));
}

#[test]
fn save_db_to_file_saves_empty_list_to_file() {
    let result = save_db_to_file(Vec::new());
    assert_eq!(result, None);
}

#[test]
fn save_db_to_file_saves_non_empty_list_to_file_in_reverse_order() {
    let seen_episodes: Vec<String> = vec!["s01e01", "s01e02"]
        .iter()
        .map(|s| s.to_string())
        .collect();

    let result = save_db_to_file(seen_episodes);
    assert_eq!(result, Some("s01e02\ns01e01\n".to_string()));
}

#[test]
fn read_reverses_the_lines() {
    assert_eq!(read_db_from_file(Some("a\nb\n")), vec!["b", "a"]);
}

#[test]
fn read_gives_the_newest_line_last() {
    assert_eq!(
        read_db_from_file(Some("s01e02\ns01e01\n")),
        vec!["s01e01", "s01e02"]
    );
}

#[test]
fn read_of_white_space_alone_is_empty() {
    for text in ["", " ", "\n", "\n\n\n", " \t\r\n \n", "\u{a0}\u{2003}\u{3000}\n"] {
        assert_eq!(read_db_from_file(Some(text)), Vec::<String>::new());
    }
}

#[test]
fn read_without_final_line_feed() {
    assert_eq!(read_db_from_file(Some("b\na")), vec!["a", "b"]);
}

#[test]
fn read_takes_carriage_return_and_line_feed_as_one_line_end() {
    assert_eq!(
        read_db_from_file(Some("s01e03\r\ns01e02\r\ns01e01\r\n")),
        vec!["s01e01", "s01e02", "s01e03"]
    );
}

#[test]
fn read_keeps_empty_lines_and_inner_white_space() {
    assert_eq!(
        read_db_from_file(Some("  c \n\n b\ta \n")),
        vec![" b\ta", "", "c "]
    );
}

#[test]
fn read_matches_trim_lines_rev() {
    let texts = [
        "",
        "x",
        "\n",
        "a\n\nb",
        "a\r\n\r\nb\r\n",
        "a\rb\n",
        "a\r\r\nb",
        " a \n b \n",
        "\u{feff}a\nb",
        "é\nñ\n\u{2028}",
        "s10e17\ns01e01\n\n\n",
    ];
    for text in texts {
        let expected: Vec<String> = text
            .trim()
            .lines()
            .rev()
            .map(|s| s.to_string())
            .collect();
        assert_eq!(read_db_from_file(Some(text)), expected, "{:?}", text);
    }
}

#[test]
fn save_writes_one_entry() {
    assert_eq!(
        save_db_to_file(owned(&["s05e12"])),
        Some("s05e12\n".to_string())
    );
}

#[test]
fn save_writes_the_last_entry_first() {
    assert_eq!(
        save_db_to_file(owned(&["a", "b", "c"])),
        Some("c\nb\na\n".to_string())
    );
}

#[test]
fn read_after_save_gives_the_history_back() {
    let histories = [
        owned(&["s01e01"]),
        owned(&["s01e01", "s01e02"]),
        owned(&["s10e17", "s03e25", "s06e01", "s09e23"]),
    ];
    for seen in histories {
        let text = save_db_to_file(seen.clone()).unwrap();
        assert_eq!(read_db_from_file(Some(&text)), seen);
    }
}

#[test]
fn read_after_save_of_the_whole_catalog() {
    let seen = owned(&howyoudoin::catalog::EPISODES);
    let text = save_db_to_file(seen.clone()).unwrap();
    assert_eq!(text.len(), 234 * 7);
    assert_eq!(read_db_from_file(Some(&text)), seen);
}
