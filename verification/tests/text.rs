use deployer::text::{chars_of, find_chars, matches_at};

fn find(text: &str, needle: &str) -> Option<usize> {
    find_chars(&chars_of(text), &chars_of(needle))
}

fn starts_with(text: &str, prefix: &str) -> bool {
    matches_at(&chars_of(text), &chars_of(prefix), 0)
}

#[test]
fn chars_of_lists_every_character() {
    assert_eq!(chars_of("a/b"), vec!['a', '/', 'b']);
    assert_eq!(chars_of(""), Vec::<char>::new());
    assert_eq!(chars_of("é/ü"), vec!['é', '/', 'ü']);
}

#[test]
fn matches_at_the_start_tests_the_prefix() {
    assert!(starts_with("/env/lib/x.py", "/env"));
    assert!(starts_with("/env", "/env"));
    assert!(starts_with("/env", ""));
    assert!(!starts_with("/en", "/env"));
    assert!(!starts_with("/other/env", "/env"));
    assert!(!starts_with("", "/"));
}

#[test]
fn find_gives_the_leftmost_position() {
    assert_eq!(find("abcabc", "bc"), Some(1));
    assert_eq!(find("abcabc", "abc"), Some(0));
    assert_eq!(find("abcabc", "cab"), Some(2));
    assert_eq!(find("abcabc", "abcabc"), Some(0));
    assert_eq!(find("abcabc", "abcabcd"), None);
    assert_eq!(find("abcabc", "x"), None);
    assert_eq!(find("abc", ""), Some(0));
    assert_eq!(find("aaa", "aa"), Some(0));
    assert_eq!(find("xab", "ab"), Some(1));
    assert_eq!(find("", ""), Some(0));
    assert_eq!(find("", "a"), None);
    assert_eq!(find("/a/__pycache__/b.pyc", "__pycache__"), Some(3));
    assert_eq!(find("__pycache_", "__pycache__"), None);
}

#[test]
fn find_counts_characters_not_bytes() {
    assert_eq!(find("éé/x", "/x"), Some(2));
    assert_eq!("éé/x".find("/x"), Some(4));
}

#[test]
fn find_chars_and_matches_at_agree() {
    let text = chars_of("/a/site-packages/b");
    let needle = chars_of("/site-packages/");
    assert_eq!(find_chars(&text, &needle), Some(2));
    assert!(matches_at(&text, &needle, 2));
    assert!(!matches_at(&text, &needle, 0));
    assert!(!matches_at(&text, &needle, 3));
    assert!(!matches_at(&text, &needle, 4));
    assert!(!matches_at(&text, &needle, 1000));
    assert!(!matches_at(&needle, &text, 0));
    let empty = chars_of("");
    assert!(matches_at(&text, &empty, text.len()));
    assert!(!matches_at(&text, &empty, text.len() + 1));
}
