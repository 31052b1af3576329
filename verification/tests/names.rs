use chat_relay::registration::{check_display_name, NameError, MAX_NAME_CHARS};
use chat_relay::text::{char_is_whitespace, chars_of, eq_ignore_ascii_case, fold_ascii, trim};

#[test]
fn trim_removes_surrounding_whitespace_only() {
    assert_eq!(trim("  Bob  "), "Bob");
    assert_eq!(trim("\t\r\n Bob Smith \u{3000}\u{a0}"), "Bob Smith");
    assert_eq!(trim("Bob"), "Bob");
    assert_eq!(trim(""), "");
    assert_eq!(trim("   "), "");
    assert_eq!(trim("\u{2003}é\u{2003}"), "é");
    assert_eq!(trim(" a "), "a");
}

#[test]
fn trim_agrees_with_the_standard_library() {
    let samples = [
        "",
        " ",
        "x",
        " x",
        "x ",
        "\u{85}x\u{1680}",
        "\u{200b}x\u{200b}",
        "\u{2028}\u{2029}mid dle\u{202f}\u{205f}",
        "\u{feff}x",
        "\u{1c}x\u{1f}",
        "\u{b}\u{c}x",
        "😀 ",
    ];
    for sample in samples {
        assert_eq!(trim(sample), sample.trim());
    }
}

#[test]
fn whitespace_is_the_unicode_white_space_set() {
    let mut code: u32 = 0;
    while code <= 0x10FFFF {
        if let Some(c) = char::from_u32(code) {
            assert_eq!(char_is_whitespace(c), c.is_whitespace());
        }
        code += 1;
    }
}

#[test]
fn chars_of_lists_every_character() {
    assert_eq!(chars_of("aé😀"), vec!['a', 'é', '😀']);
    assert_eq!(chars_of(""), Vec::<char>::new());
}

#[test]
fn ascii_case_is_ignored_and_nothing_else() {
    assert!(eq_ignore_ascii_case("Server", "server"));
    assert!(eq_ignore_ascii_case("SERVER", "sErVeR"));
    assert!(eq_ignore_ascii_case("", ""));
    assert!(eq_ignore_ascii_case("É", "É"));
    assert!(!eq_ignore_ascii_case("É", "é"));
    assert!(!eq_ignore_ascii_case("Server", "Servers"));
    assert!(!eq_ignore_ascii_case("Server", "Serve"));
    assert!(!eq_ignore_ascii_case("Server", "Sorver"));
    assert!(!eq_ignore_ascii_case("[", "{"));
    assert!(!eq_ignore_ascii_case("@", "`"));
    assert_eq!(fold_ascii('A'), 'a' as u32);
    assert_eq!(fold_ascii('Z'), 'z' as u32);
    assert_eq!(fold_ascii('a'), 'a' as u32);
    assert_eq!(fold_ascii('['), '[' as u32);
    assert_eq!(fold_ascii('@'), '@' as u32);
}

#[test]
fn empty_name_is_refused() {
    assert_eq!(check_display_name(""), Some(NameError::Empty));
}

#[test]
fn reserved_name_is_refused_in_any_case() {
    assert_eq!(check_display_name("Server"), Some(NameError::Reserved));
    assert_eq!(check_display_name("server"), Some(NameError::Reserved));
    assert_eq!(check_display_name("SERVER"), Some(NameError::Reserved));
    assert_eq!(check_display_name("sErVeR"), Some(NameError::Reserved));
    assert_eq!(check_display_name("Server2"), None);
    assert_eq!(check_display_name("Serve"), None);
}

#[test]
fn name_length_is_counted_in_characters() {
    assert_eq!(MAX_NAME_CHARS, 20);
    assert_eq!(check_display_name("abcdefghijklmnopqrst"), None);
    assert_eq!(check_display_name("abcdefghijklmnopqrstu"), Some(NameError::TooLong));
    assert_eq!(check_display_name("éééééééééééééééééééé"), None);
    assert_eq!(check_display_name("ééééééééééééééééééééé"), Some(NameError::TooLong));
    assert_eq!(check_display_name("Bob"), None);
    assert_eq!(check_display_name("a"), None);
}
