use rusty_league::text::split_at_first;

fn owned(a: &str, b: &str) -> Option<(String, String)> {
    Some((a.to_string(), b.to_string()))
}

#[test]
fn split_at_first_splits_at_the_leftmost_delimiter() {
    assert_eq!(split_at_first("name#tag", "#"), owned("name", "tag"));
    assert_eq!(split_at_first("a#b#c", "#"), owned("a", "b#c"));
    assert_eq!(split_at_first("#", "#"), owned("", ""));
    assert_eq!(split_at_first("ab--cd--ef", "--"), owned("ab", "cd--ef"));
}

#[test]
fn split_at_first_without_delimiter_is_none() {
    assert_eq!(split_at_first("name", "#"), None);
    assert_eq!(split_at_first("", "#"), None);
    assert_eq!(split_at_first("a-b", "--"), None);
}

#[test]
fn split_at_first_counts_characters_not_bytes() {
    assert_eq!(split_at_first("żółw#łódź", "#"), owned("żółw", "łódź"));
}

#[test]
fn split_at_first_with_empty_delimiter_splits_at_the_start() {
    assert_eq!(split_at_first("abc", ""), owned("", "abc"));
}
