use lala_lib::text::{find_char, split_all, split_lines, str_contains, str_eq, trim};

#[test]
fn find_char_returns_first_hit_or_length() {
    assert_eq!(find_char("abc]def]", ']'), 3);
    assert_eq!(find_char("no bracket", ']'), 10);
    assert_eq!(find_char("", ']'), 0);
}

#[test]
fn trim_strips_both_ends() {
    assert_eq!(trim("  hello \t"), "hello");
    assert_eq!(trim("hello"), "hello");
    assert_eq!(trim(" \t\r\n "), "");
    assert_eq!(trim(""), "");
    assert_eq!(trim(" a b "), "a b");
}

#[test]
fn split_lines_drops_final_newline_piece() {
    assert_eq!(split_lines("a\nb"), vec!["a", "b"]);
    assert_eq!(split_lines("a\n"), vec!["a"]);
    assert_eq!(split_lines("\n"), vec![""]);
    assert_eq!(split_lines(""), Vec::<String>::new());
    assert_eq!(split_lines("one"), vec!["one"]);
}

#[test]
fn split_all_keeps_empty_pieces() {
    assert_eq!(split_all("a,b", ','), vec!["a", "b"]);
    assert_eq!(split_all("a,", ','), vec!["a", ""]);
    assert_eq!(split_all("", ','), vec![""]);
    assert_eq!(split_all("a=b=c", '='), vec!["a", "b", "c"]);
}

#[test]
fn str_eq_compares_characters() {
    assert!(str_eq("same", "same"));
    assert!(!str_eq("same", "Same"));
    assert!(!str_eq("short", "shorter"));
    assert!(str_eq("", ""));
}

#[test]
fn str_contains_finds_substrings() {
    assert!(str_contains("foo=warn,lala_lib=debug", "lala_lib"));
    assert!(!str_contains("foo=warn", "lala_lib"));
    assert!(str_contains("anything", ""));
    assert!(!str_contains("", "x"));
    assert!(str_contains("abc", "abc"));
}
