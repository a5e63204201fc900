use sidero::text::chars_of;
use sidero::text::chain;
use sidero::text::chain3;
use sidero::text::contains_char;
use sidero::text::ends_with;
use sidero::text::join;
use sidero::text::same;
use sidero::text::split;
use sidero::text::starts_with;
use sidero::text::trim;

fn strings(v: &[&str]) -> Vec<String> {
    v.iter().map(|s| s.to_string()).collect()
}

#[test]
fn trim_removes_white_space_at_both_ends_only() {
    assert_eq!(trim("  a b \t\r\n"), "a b");
    assert_eq!(trim("a"), "a");
    assert_eq!(trim(""), "");
    assert_eq!(trim(" \n\t "), "");
    assert_eq!(trim("\u{a0}x\u{2003}"), "x");
    assert_eq!(trim("é "), "é");
}

#[test]
fn split_gives_one_more_piece_than_separators() {
    assert_eq!(split("a/b/c", '/'), strings(&["a", "b", "c"]));
    assert_eq!(split("", '/'), strings(&[""]));
    assert_eq!(split("/", '/'), strings(&["", ""]));
    assert_eq!(split("a//b/", '/'), strings(&["a", "", "b", ""]));
    assert_eq!(split("abc", '/'), strings(&["abc"]));
    assert_eq!(split("é\nü", '\n'), strings(&["é", "ü"]));
}

#[test]
fn join_puts_the_separator_between_neighbours() {
    assert_eq!(join(&strings(&["a", "b", "c"]), ", "), "a, b, c");
    assert_eq!(join(&strings(&["a"]), ", "), "a");
    assert_eq!(join(&strings(&[]), ", "), "");
    assert_eq!(join(&strings(&["", ""]), ","), ",");
}

#[test]
fn join_undoes_split() {
    for s in ["a/b/c", "", "/", "a//b/", "abc"] {
        assert_eq!(join(&split(s, '/'), "/"), s);
    }
}

#[test]
fn prefixes_and_suffixes() {
    assert!(starts_with("semgrep://rule/x", "semgrep://rule/"));
    assert!(starts_with("abc", ""));
    assert!(starts_with("abc", "abc"));
    assert!(!starts_with("ab", "abc"));
    assert!(!starts_with("xbc", "a"));
    assert!(ends_with("x/yaml", "/yaml"));
    assert!(ends_with("abc", ""));
    assert!(ends_with("abc", "abc"));
    assert!(!ends_with("bc", "abc"));
    assert!(!ends_with("abd", "c"));
}

#[test]
fn small_helpers() {
    assert_eq!(chars_of("aé"), vec!['a', 'é']);
    assert_eq!(chars_of(""), Vec::<char>::new());
    assert!(same("abc", "abc"));
    assert!(!same("abc", "abd"));
    assert!(!same("abc", "ab"));
    assert_eq!(chain("ab", "cd"), "abcd");
    assert_eq!(chain3("a", "b", "c"), "abc");
    assert!(contains_char("a/b", '/'));
    assert!(!contains_char("ab", '/'));
    assert!(!contains_char("", '/'));
}
