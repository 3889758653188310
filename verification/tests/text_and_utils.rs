use kopgen::order::{less_than, sort_strings};
use kopgen::templates::filters::dashcase;
use kopgen::text::{
    contains_string, is_whitespace, join_with, lines, split_on_char, split_whitespace,
    starts_with, str_equal, substring, trim_whitespace,
};
use kopgen::utils::{
    add_tests_util_to_modfile, file_content, file_to_write, is_ignored, mod_line, path_join,
    tests_util_modfile_path, upsert_line, uppercase_first_letter,
};

fn strings(v: &[&str]) -> Vec<String> {
    v.iter().map(|s| s.to_string()).collect()
}

#[test]
fn whitespace_agrees_with_char_is_whitespace() {
    for c in [' ', '\t', '\n', '\r', '\u{0B}', '\u{0C}', '\u{85}', '\u{A0}', '\u{2003}', '\u{3000}', 'a', '-', '0', '\u{200B}'] {
        assert_eq!(is_whitespace(c), c.is_whitespace(), "{:?}", c);
    }
}

#[test]
fn split_and_join() {
    assert_eq!(split_on_char("a,b,,c", ','), vec!["a", "b", "", "c"]);
    assert_eq!(split_on_char("", ','), vec![""]);
    assert_eq!(split_whitespace("  Example \t Operator\nName "), vec!["Example", "Operator", "Name"]);
    assert!(split_whitespace("   ").is_empty());
    assert_eq!(join_with(&strings(&["a", "b", "c"]), "-"), "a-b-c");
    assert_eq!(join_with(&Vec::new(), "-"), "");
}

#[test]
fn trim_and_lines() {
    assert_eq!(trim_whitespace("  a b \n"), "a b");
    assert_eq!(trim_whitespace(" \t "), "");
    assert_eq!(lines("a\r\nb\n\nc"), vec!["a", "b", "", "c"]);
    assert_eq!(lines("a\n"), vec!["a"]);
    assert!(lines("").is_empty());
    assert_eq!(lines("a\r"), vec!["a\r"]);
    assert_eq!(lines("a\r\nb\r"), vec!["a", "b\r"]);
}

#[test]
fn prefixes_and_equality() {
    assert!(starts_with("operator/src", "operator"));
    assert!(!starts_with("op", "operator"));
    assert!(str_equal("x", "x") && !str_equal("x", "y"));
    assert!(contains_string(&strings(&["a", "b"]), &"b".to_string()));
    assert!(!contains_string(&strings(&["a", "b"]), &"c".to_string()));
    assert_eq!(substring("héllo", 1, 3), "él");
}

#[test]
fn dashcase_joins_words_with_dashes_in_lowercase() {
    assert_eq!(dashcase("Example Operator"), "example-operator");
    assert_eq!(dashcase("  My   Big\tAPI "), "my-big-api");
    assert_eq!(dashcase(""), "");
}

#[test]
fn uppercase_first_letter_cases() {
    assert_eq!(uppercase_first_letter("cat"), "Cat");
    assert_eq!(uppercase_first_letter(""), "");
    assert_eq!(uppercase_first_letter("ßa"), "SSa");
    assert_eq!(uppercase_first_letter("Dog"), "Dog");
}

#[test]
fn paths_join_like_path_join() {
    assert_eq!(path_join("base", "operator"), "base/operator");
    assert_eq!(path_join("base/", "operator"), "base/operator");
    assert_eq!(path_join("", "operator"), "operator");
    assert_eq!(path_join("base", "/abs"), "/abs");
    assert_eq!(tests_util_modfile_path("p"), "p/tests/src/utils/mod.rs");
}

#[test]
fn module_lines_and_upserts() {
    assert_eq!(mod_line("Cats"), "pub mod cats;");
    assert_eq!(upsert_line("a\n", "b"), Some("a\nb\n".to_string()));
    assert_eq!(upsert_line("a\nb\n", "b"), None);
    assert_eq!(upsert_line("", "b"), Some("b\n".to_string()));
}

#[test]
fn upserting_a_line_twice_changes_nothing_more() {
    let once = upsert_line("x\n", "pub mod client;").unwrap();
    assert_eq!(upsert_line(&once, "pub mod client;"), None);
}

#[test]
fn tests_utils_are_declared_once() {
    let content = add_tests_util_to_modfile("", "Client").unwrap();
    assert_eq!(content, "pub mod client;\n");
    assert_eq!(add_tests_util_to_modfile(&content, "client"), None);
    let more = add_tests_util_to_modfile(&content, "operator").unwrap();
    assert_eq!(more, "pub mod client;\npub mod operator;\n");
}

#[test]
fn ignored_files_are_not_written() {
    let ignored = strings(&["operator/src/main.rs"]);
    assert!(is_ignored(&ignored, &"operator/src/main.rs".to_string()));
    assert_eq!(file_to_write(&ignored, "operator/src", "main.rs", "x"), None);
    assert_eq!(
        file_to_write(&ignored, "operator/src", "lib.rs", "x"),
        Some(("operator/src/lib.rs".to_string(), "x\n".to_string()))
    );
    assert_eq!(file_content(""), "\n");
}

#[test]
fn strings_sort_by_code_point() {
    assert!(less_than("a", "b"));
    assert!(less_than("a", "ab"));
    assert!(!less_than("b", "a"));
    assert!(!less_than("a", "a"));
    assert!(less_than("Z", "a"));
    assert_eq!(sort_strings(&strings(&["dogs", "cats", "horses", "cats"])), vec!["cats", "cats", "dogs", "horses"]);
    assert!(sort_strings(&Vec::new()).is_empty());
}
