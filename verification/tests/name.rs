use zet::name::{has_space, is_whitespace_char, name_from_line};

#[test]
fn a_typed_line_loses_its_line_end() {
    assert_eq!(name_from_line("my-note\n"), "my-note");
    assert_eq!(name_from_line("my-note\r\n"), "my-note");
}

#[test]
fn whitespace_goes_at_both_ends_only() {
    assert_eq!(name_from_line("  \t my new note \n"), "my new note");
    assert_eq!(name_from_line("a"), "a");
    assert_eq!(name_from_line(" a"), "a");
    assert_eq!(name_from_line("a "), "a");
}

#[test]
fn a_line_of_whitespace_is_the_empty_name() {
    assert_eq!(name_from_line(""), "");
    assert_eq!(name_from_line("\n"), "");
    assert_eq!(name_from_line(" \t\r\n\u{3000}"), "");
}

#[test]
fn wide_characters_are_counted_as_characters() {
    assert_eq!(name_from_line("\u{2003}z\u{e9}ttel-\u{1f4dd}\u{a0}\n"), "z\u{e9}ttel-\u{1f4dd}");
}

#[test]
fn trimming_agrees_with_the_standard_library() {
    let lines: [&str; 8] = [
        "",
        "x",
        "\u{85}x\u{85}",
        "\u{200b}x\u{200b}",
        "\u{1680}a b\u{2028}\u{2029}",
        "\u{202f}\u{205f}q\u{200a}",
        "\u{feff}x",
        "\u{b}\u{c}x\u{1c}",
    ];
    for line in lines {
        assert_eq!(name_from_line(line), line.trim());
    }
}

#[test]
fn whitespace_is_what_the_standard_library_calls_whitespace() {
    let mut code: u32 = 0;
    while code <= 0x10FFFF {
        if let Some(c) = char::from_u32(code) {
            assert_eq!(is_whitespace_char(c), c.is_whitespace(), "U+{:04X}", code);
        }
        code += 1;
    }
}

#[test]
fn only_the_space_character_counts_as_a_space() {
    assert!(has_space("my new note"));
    assert!(has_space(" "));
    assert!(has_space("trailing "));
    assert!(!has_space(""));
    assert!(!has_space("my-new-note"));
    assert!(!has_space("tab\tand\nline"));
    assert!(!has_space("no\u{a0}break"));
}
