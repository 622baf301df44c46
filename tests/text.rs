use pacbrow::text::{chars_of, contains_chars, join_lines, split_lines};

fn v(s: &str) -> Vec<char> {
    s.chars().collect()
}

fn strings(items: &[&str]) -> Vec<String> {
    items.iter().map(|s| s.to_string()).collect()
}

#[test]
fn chars_of_keeps_every_character() {
    assert_eq!(chars_of("añb"), vec!['a', 'ñ', 'b']);
    assert!(chars_of("").is_empty());
}

#[test]
fn substring_search_is_literal_and_case_sensitive() {
    assert!(contains_chars(&v("alphabet"), &v("alpha")));
    assert!(contains_chars(&v("alphabet"), &v("bet")));
    assert!(contains_chars(&v("alphabet"), &v("")));
    assert!(!contains_chars(&v("alphabet"), &v("Alpha")));
    assert!(!contains_chars(&v("beta"), &v("alpha")));
    assert!(!contains_chars(&v("ab"), &v("abc")));
    assert!(!contains_chars(&v("lib.so"), &v("l.b")));
    assert!(contains_chars(&v(""), &v("")));
}

#[test]
fn split_lines_follows_line_feeds() {
    assert_eq!(split_lines("a\nb"), strings(&["a", "b"]));
    assert_eq!(split_lines("a\nb\n"), strings(&["a", "b"]));
    assert_eq!(split_lines("a\n\nb"), strings(&["a", "", "b"]));
    assert_eq!(split_lines("a\r\nb\r\n"), strings(&["a", "b"]));
    assert_eq!(split_lines("\n"), strings(&[""]));
    assert!(split_lines("").is_empty());
}

#[test]
fn split_lines_agrees_with_std_lines() {
    for s in ["x\ny\n", "one\r\ntwo", "\n\n", "solo", "Made by\n\nTo you"] {
        let expected: Vec<String> = s.lines().map(|l| l.to_string()).collect();
        assert_eq!(split_lines(s), expected);
    }
}

#[test]
fn join_lines_puts_line_feeds_between() {
    assert_eq!(join_lines(&strings(&["a", "b", "c"])), "a\nb\nc");
    assert_eq!(join_lines(&strings(&["solo"])), "solo");
    assert_eq!(join_lines(&strings(&[""])), "");
    assert_eq!(join_lines(&Vec::new()), "");
}
