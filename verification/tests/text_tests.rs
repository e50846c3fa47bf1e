use app_core::text::{chars_of, concat2, concat3, contains, replace_char};

#[test]
fn replace_char_replaces_every_occurrence() {
    assert_eq!(replace_char("a b c", ' ', '_'), "a_b_c");
    assert_eq!(replace_char("", ' ', '_'), "");
    assert_eq!(replace_char("   ", ' ', '.'), "...");
    assert_eq!(replace_char("été ok", 'é', 'e'), "ete ok");
}

#[test]
fn contains_finds_substrings() {
    assert!(contains("[{\"code\":\"UNAUTHENTICATED\"}]", "UNAUTHENTICATED"));
    assert!(contains("abc", ""));
    assert!(contains("abc", "abc"));
    assert!(!contains("abc", "abcd"));
    assert!(!contains("UNAUTHENTICATE", "UNAUTHENTICATED"));
    assert!(contains("aab", "ab"));
    assert!(!contains("", "a"));
}

#[test]
fn concatenation_and_chars() {
    assert_eq!(concat2("ab", "cd"), "abcd");
    assert_eq!(concat3("a", "", "c"), "ac");
    assert_eq!(chars_of("héllo"), vec!['h', 'é', 'l', 'l', 'o']);
}
