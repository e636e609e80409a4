use gim::text::{count_lines, same_text, split_lines, string_of, chars_of};

#[test]
fn split_follows_line_endings() {
    assert_eq!(split_lines("a\nb\r\n\nc"), vec!["a", "b", "", "c"]);
    assert_eq!(split_lines("one\n"), vec!["one"]);
    assert_eq!(split_lines(""), Vec::<String>::new());
    assert_eq!(split_lines("x\r"), vec!["x\r"]);
}

#[test]
fn count_matches_std_lines() {
    for s in ["", "a", "a\n", "a\nb", "a\n\n", "\n", "a\r\nb\r\n", "l1\nl2\nl3"] {
        assert_eq!(count_lines(s), s.lines().count(), "{:?}", s);
    }
}

#[test]
fn text_helpers() {
    assert!(same_text("abc", "abc"));
    assert!(!same_text("abc", "abd"));
    assert!(!same_text("ab", "abc"));
    assert_eq!(string_of(&chars_of("héllo")), "héllo");
}
