use neo_api_rs::levenshtein::levenshtein;

#[test]
fn levenshtein_kitten_sitting() {
    assert_eq!(levenshtein("kitten", "sitting"), 3);
}

#[test]
fn levenshtein_empty_side_counts_bytes() {
    assert_eq!(levenshtein("", "abc"), 3);
    assert_eq!(levenshtein("abc", ""), 3);
    assert_eq!(levenshtein("", "é"), 2);
    assert_eq!(levenshtein("", ""), 0);
}

#[test]
fn levenshtein_equal_is_zero() {
    assert_eq!(levenshtein("neovim", "neovim"), 0);
}

#[test]
fn levenshtein_counts_chars_when_both_nonempty() {
    assert_eq!(levenshtein("é", "e"), 1);
    assert_eq!(levenshtein("naïve", "naive"), 1);
}

#[test]
fn levenshtein_is_symmetric_on_examples() {
    let pairs = [("flaw", "lawn"), ("saturday", "sunday"), ("a", "xyz"), ("src/lib.rs", "lib")];
    for (a, b) in pairs {
        assert_eq!(levenshtein(a, b), levenshtein(b, a));
    }
    assert_eq!(levenshtein("flaw", "lawn"), 2);
    assert_eq!(levenshtein("saturday", "sunday"), 3);
}

#[test]
fn levenshtein_at_most_longer_length() {
    assert!(levenshtein("abc", "defgh") <= 5);
    assert_eq!(levenshtein("abc", "defgh"), 5);
}
