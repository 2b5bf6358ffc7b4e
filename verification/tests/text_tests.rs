use moss::ordering::{key_before_or_equal, sort_indices, text_before_or_equal, SortKey};
use moss::paths::{extension, file_name, file_stem, join_path, normalize, parent, with_extension};
use moss::text::{
    chars_of, contains, contains_char, decimal, ends_with, find_char, is_whitespace, join,
    last_segment, lines, lower, parse_u32, same, slice_of, split, starts_with, string_of,
    text_is, trim, trim_matches, trim_start_char, trim_start_matches,
};

fn c(s: &str) -> Vec<char> {
    s.chars().collect()
}

fn s(v: Vec<char>) -> String {
    v.into_iter().collect()
}

fn strs(v: Vec<Vec<char>>) -> Vec<String> {
    v.into_iter().map(s).collect()
}

#[test]
fn chars_and_strings() {
    assert_eq!(chars_of("h\u{e9}llo"), c("h\u{e9}llo"));
    assert_eq!(string_of(&c("h\u{e9}llo")), "h\u{e9}llo");
    assert_eq!(s(slice_of(&c("hello"), 1, 3)), "el");
    assert_eq!(s(moss::text::concat(&c("ab"), &c("cd"))), "abcd");
    assert!(same(&c("ab"), &c("ab")));
    assert!(!same(&c("ab"), &c("ac")));
    assert!(!same(&c("ab"), &c("abc")));
    assert!(text_is("x", "x"));
    assert!(!text_is("x", "X"));
}

#[test]
fn prefixes_suffixes_infixes() {
    assert!(starts_with(&c("hello"), &c("he")));
    assert!(starts_with(&c("hello"), &c("")));
    assert!(!starts_with(&c("he"), &c("hello")));
    assert!(ends_with(&c("hello"), &c("llo")));
    assert!(!ends_with(&c("hello"), &c("hel")));
    assert!(contains(&c("hello"), &c("ell")));
    assert!(contains(&c("hello"), &c("")));
    assert!(contains(&c("hello"), &c("hello")));
    assert!(!contains(&c("hello"), &c("hellos")));
    assert!(!contains(&c("hello"), &c("lle")));
    assert!(contains_char(&c("a.b"), '.'));
    assert!(!contains_char(&c("ab"), '.'));
    assert_eq!(find_char(&c("a=b=c"), '='), 1);
    assert_eq!(find_char(&c("abc"), '='), 3);
}

#[test]
fn splitting_and_joining() {
    assert_eq!(strs(split(&c("a.b.c"), '.')), vec!["a", "b", "c"]);
    assert_eq!(strs(split(&c(""), '.')), vec![""]);
    assert_eq!(strs(split(&c(".a."), '.')), vec!["", "a", ""]);
    assert_eq!(strs(lines(&c("a\nb\r\n\nc"))), vec!["a", "b", "", "c"]);
    assert_eq!(strs(lines(&c("a\n"))), vec!["a"]);
    assert_eq!(strs(lines(&c(""))), Vec::<String>::new());
    assert_eq!(strs(lines(&c("\n"))), vec![""]);
    assert_eq!(s(join(&vec![c("a"), c("b"), c("")], &c(", "))), "a, b, ");
    assert_eq!(s(join(&vec![], &c(","))), "");
    assert_eq!(s(last_segment(&c("a::b::c"), &c("::"))), "c");
    assert_eq!(s(last_segment(&c("abc"), &c("::"))), "abc");
    assert_eq!(s(last_segment(&c("a::"), &c("::"))), "");
}

#[test]
fn trimming() {
    assert_eq!(s(trim(&c("  a b \t\n"))), "a b");
    assert_eq!(s(trim(&c("\u{a0}\u{3000}x\u{2003}"))), "x");
    assert_eq!(s(trim(&c("   "))), "");
    assert!(is_whitespace('\u{85}'));
    assert!(!is_whitespace('\u{200b}'));
    assert!(!is_whitespace('a'));
    for ch in ['\t', '\n', '\u{b}', '\u{c}', '\r', ' ', '\u{1680}', '\u{2028}', '\u{2029}', '\u{202f}', '\u{205f}'] {
        assert_eq!(is_whitespace(ch), ch.is_whitespace());
    }
    assert_eq!(s(trim_matches(&c("\"\"a\"b\"\""), '"')), "a\"b");
    assert_eq!(s(trim_start_char(&c("//a/"), '/')), "a/");
    assert_eq!(s(trim_start_matches(&c("ababc"), &c("ab"))), "c");
    assert_eq!(s(trim_start_matches(&c("abc"), &c(""))), "abc");
    assert_eq!(s(trim_start_matches(&c("version: 1"), &c("version:"))), " 1");
}

#[test]
fn numbers() {
    assert_eq!(parse_u32(&c("0")), Some(0));
    assert_eq!(parse_u32(&c("007")), Some(7));
    assert_eq!(parse_u32(&c("+12")), Some(12));
    assert_eq!(parse_u32(&c("4294967295")), Some(u32::MAX));
    assert_eq!(parse_u32(&c("4294967296")), None);
    assert_eq!(parse_u32(&c("99999999999999999999999")), None);
    assert_eq!(parse_u32(&c("")), None);
    assert_eq!(parse_u32(&c("+")), None);
    assert_eq!(parse_u32(&c("-1")), None);
    assert_eq!(parse_u32(&c("1 ")), None);
    assert_eq!(parse_u32(&c("1a")), None);
    assert_eq!(s(decimal(0)), "0");
    assert_eq!(s(decimal(9)), "9");
    assert_eq!(s(decimal(10)), "10");
    assert_eq!(s(decimal(1234567890)), "1234567890");
    assert_eq!(s(decimal(u64::MAX)), u64::MAX.to_string());
}

#[test]
fn lowercase_is_the_standard_one() {
    assert_eq!(s(lower(&c("HeLLo \u{c9}T\u{c9}"))), "hello \u{e9}t\u{e9}");
    assert_eq!(s(lower(&c("\u{130}"))), "\u{130}".to_lowercase());
}

#[test]
fn paths() {
    assert_eq!(s(file_name(&c("a/b/c.py"))), "c.py");
    assert_eq!(s(file_name(&c("c.py"))), "c.py");
    assert_eq!(s(file_name(&c("a/"))), "");
    assert_eq!(s(file_stem(&c("c.py"))), "c");
    assert_eq!(s(file_stem(&c("c.tar.gz"))), "c.tar");
    assert_eq!(s(file_stem(&c(".hidden"))), ".hidden");
    assert_eq!(s(file_stem(&c("none"))), "none");
    assert_eq!(extension(&c("c.py")).map(s), Some("py".to_string()));
    assert_eq!(extension(&c(".hidden")), None);
    assert_eq!(extension(&c("none")), None);
    assert_eq!(extension(&c("dot.")).map(s), Some("".to_string()));
    assert_eq!(s(join_path(&c("a"), &c("b"))), "a/b");
    assert_eq!(s(join_path(&c("a/"), &c("b"))), "a/b");
    assert_eq!(s(join_path(&c(""), &c("b"))), "b");
    assert_eq!(s(parent(&c("a/b/c"))), "a/b");
    assert_eq!(s(parent(&c("a"))), "");
    assert_eq!(s(with_extension(&c("a/b.js"), &c("ts"))), "a/b.ts");
    assert_eq!(s(with_extension(&c("a/b"), &c("ts"))), "a/b.ts");
    assert_eq!(s(with_extension(&c("a.d/b"), &c("ts"))), "a.d/b.ts");
    assert_eq!(s(with_extension(&c("a/"), &c("ts"))), "a/");
    assert_eq!(s(normalize(&c("a/./b/../c"))), "a/c");
    assert_eq!(s(normalize(&c("../a//b/"))), "../a/b");
    assert_eq!(s(normalize(&c("/a/../../b"))), "/../b");
    assert_eq!(s(normalize(&c("a/.."))), "");
}

#[test]
fn sorting_is_stable_and_by_all_parts() {
    let key = |rank: u64, text: &str, tie: u64| SortKey { rank, text: c(text), tie };
    let keys = vec![key(1, "b", 0), key(0, "z", 5), key(1, "a", 9), key(1, "b", 0), key(0, "z", 1)];
    assert_eq!(sort_indices(&keys), vec![4, 1, 2, 0, 3]);
    assert!(sort_indices(&vec![]).is_empty());
    assert!(text_before_or_equal(&c("abc"), &c("abd")));
    assert!(text_before_or_equal(&c("ab"), &c("abc")));
    assert!(text_before_or_equal(&c(""), &c("")));
    assert!(!text_before_or_equal(&c("b"), &c("abc")));
    assert!(key_before_or_equal(&key(1, "a", 1), &key(1, "a", 1)));
    assert!(!key_before_or_equal(&key(2, "a", 1), &key(1, "z", 9)));
}
