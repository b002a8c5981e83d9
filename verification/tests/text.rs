use neo_api_rs::text::{
    chars_less, chars_of, split_lines, str_ends_with_char, str_eq, str_less, str_starts_with,
    string_from_chars, string_from_range,
};

#[test]
fn split_lines_like_str_lines() {
    let cases = ["", "a", "a\n", "a\nb", "a\r\nb\r\n", "\n\nx", "x\r", "line one\nline two\n\n"];
    for c in cases {
        let expected: Vec<String> = c.lines().map(|l| l.to_string()).collect();
        assert_eq!(split_lines(c), expected, "input {:?}", c);
    }
}

#[test]
fn string_pieces() {
    let cs = chars_of("héllo");
    assert_eq!(cs.len(), 5);
    assert_eq!(string_from_range(&cs, 1, 4), "éll");
    assert_eq!(string_from_chars(&cs), "héllo");
}

#[test]
fn string_comparisons() {
    assert!(str_eq("abc", "abc"));
    assert!(!str_eq("abc", "abd"));
    assert!(str_less("abc", "abd"));
    assert!(str_less("ab", "abc"));
    assert!(!str_less("abc", "abc"));
    assert!(!str_less("b", "abc"));
    assert!(chars_less(&chars_of("A"), &chars_of("a")));
    assert!(str_starts_with("/home/user/x", "/home/user"));
    assert!(!str_starts_with("/home", "/home/user"));
    assert!(str_ends_with_char("dir/", '/'));
    assert!(!str_ends_with_char("", '/'));
}
