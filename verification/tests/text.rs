use music_tui::app_lists::shellexpand_home;
use music_tui::text::{chars_of, contains_chars, string_of, trim_chars};

#[test]
fn trimming_and_searching_characters() {
    let v = chars_of("  a b \t");
    assert_eq!(string_of(&trim_chars(&v)), "a b");
    assert_eq!(string_of(&trim_chars(&chars_of("\u{3000}x\u{a0}"))), "x");
    assert!(contains_chars(&chars_of("hello"), &chars_of("ll")));
    assert!(contains_chars(&chars_of("hello"), &chars_of("")));
    assert!(!contains_chars(&chars_of("hello"), &chars_of("lo!")));
}

#[test]
fn home_is_expanded_only_for_a_leading_tilde_slash() {
    assert_eq!(shellexpand_home("/abs/path"), "/abs/path");
    assert_eq!(shellexpand_home("~user/x"), "~user/x");
    let e = shellexpand_home("~/Music");
    assert!(e == "~/Music" || (e.ends_with("/Music") && !e.starts_with('~')));
}
