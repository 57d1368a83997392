use searcher::{search_lines, Matcher};
use std::io::Cursor;

#[test]
fn main_test_search_finds_matching_lines() {
    let input = "hello world\nrust is great\nhello rust\nfarewell";
    let cursor = Cursor::new(input);

    let matcher = Matcher::new("hello", false, false).unwrap();
    let results = search_lines(cursor, &matcher).unwrap();

    assert_eq!(results.len(), 2);
    assert_eq!(results[0].content, "hello world");
    assert_eq!(results[0].line_number, 1);
    assert_eq!(results[1].content, "hello rust");
    assert_eq!(results[1].line_number, 3);
}

#[test]
fn main_test_search_no_matches() {
    let input = "foo\nbar\nbaz";
    let cursor = Cursor::new(input);

    let matcher = Matcher::new("nonexistent", false, false).unwrap();
    let results = search_lines(cursor, &matcher).unwrap();

    assert_eq!(results.len(), 0);
}

#[test]
fn main_test_search_case_sensitive() {
    let input = "Hello World\nhello world";
    let cursor = Cursor::new(input);

    let matcher = Matcher::new("hello", false, false).unwrap();
    let results = search_lines(cursor, &matcher).unwrap();

    assert_eq!(results.len(), 1);
    assert_eq!(results[0].content, "hello world");
    assert_eq!(results[0].line_number, 2);
}

#[test]
fn main_test_search_empty_input() {
    let input = "";
    let cursor = Cursor::new(input);

    let matcher = Matcher::new("anything", false, false).unwrap();
    let results = search_lines(cursor, &matcher).unwrap();

    assert_eq!(results.len(), 0);
}

#[test]
fn main_test_search_partial_match() {
    let input = "testing\ntest\ncontest";
    let cursor = Cursor::new(input);

    let matcher = Matcher::new("test", false, false).unwrap();
    let results = search_lines(cursor, &matcher).unwrap();

    assert_eq!(results.len(), 3);
    assert_eq!(results[0].line_number, 1);
    assert_eq!(results[1].line_number, 2);
    assert_eq!(results[2].line_number, 3);
}

#[test]
fn main_test_case_insensitive_lowercase_pattern() {
    let input = "Hello World\nRUST\nrust programming";
    let cursor = Cursor::new(input);

    let matcher = Matcher::new("rust", true, false).unwrap();
    let results = search_lines(cursor, &matcher).unwrap();

    assert_eq!(results.len(), 2);
    assert_eq!(results[0].content, "RUST");
    assert_eq!(results[1].content, "rust programming");
}

#[test]
fn main_test_case_insensitive_uppercase_pattern() {
    let input = "rust is cool\nRust programming\nRUST";
    let cursor = Cursor::new(input);

    let matcher = Matcher::new("RUST", true, false).unwrap();
    let results = search_lines(cursor, &matcher).unwrap();

    assert_eq!(results.len(), 3);
}

#[test]
fn main_test_case_insensitive_mixed_case() {
    let input = "RuSt\nrust\nRUST\nrust_lang";
    let cursor = Cursor::new(input);

    let matcher = Matcher::new("RuSt", true, false).unwrap();
    let results = search_lines(cursor, &matcher).unwrap();

    assert_eq!(results.len(), 4);
}

#[test]
fn main_test_line_numbers_first_line() {
    let input = "match this\nno match\nno match";
    let cursor = Cursor::new(input);

    let matcher = Matcher::new("match this", false, false).unwrap();
    let results = search_lines(cursor, &matcher).unwrap();

    assert_eq!(results.len(), 1);
    assert_eq!(results[0].line_number, 1);
}

#[test]
fn main_test_line_numbers_multiple_matches() {
    let input = "line 1\nmatch\nline 3\nmatch\nline 5";
    let cursor = Cursor::new(input);

    let matcher = Matcher::new("match", false, false).unwrap();
    let results = search_lines(cursor, &matcher).unwrap();

    assert_eq!(results.len(), 2);
    assert_eq!(results[0].line_number, 2);
    assert_eq!(results[1].line_number, 4);
}

#[test]
fn main_test_line_numbers_correct_ordering() {
    let input = "a\nb\nc\nmatch\ne\nmatch\ng";
    let cursor = Cursor::new(input);

    let matcher = Matcher::new("match", false, false).unwrap();
    let results = search_lines(cursor, &matcher).unwrap();

    assert_eq!(results[0].line_number, 4);
    assert_eq!(results[1].line_number, 6);
}

#[test]
fn main_test_regex_dot_wildcard() {
    let input = "rust\nrest\nroast\nrat";
    let cursor = Cursor::new(input);

    let matcher = Matcher::new("r.st", false, true).unwrap();
    let results = search_lines(cursor, &matcher).unwrap();

    assert_eq!(results.len(), 2);
    assert_eq!(results[0].content, "rust");
    assert_eq!(results[1].content, "rest");
}

#[test]
fn main_test_regex_start_anchor() {
    let input = "rust is great\nI love rust\nrust";
    let cursor = Cursor::new(input);

    let matcher = Matcher::new("^rust", false, true).unwrap();
    let results = search_lines(cursor, &matcher).unwrap();

    assert_eq!(results.len(), 2);
    assert_eq!(results[0].content, "rust is great");
    assert_eq!(results[1].content, "rust");
}

#[test]
fn main_test_regex_end_anchor() {
    let input = "rust\nlove rust\nrust is";
    let cursor = Cursor::new(input);

    let matcher = Matcher::new("rust$", false, true).unwrap();
    let results = search_lines(cursor, &matcher).unwrap();

    assert_eq!(results.len(), 2);
    assert_eq!(results[0].content, "rust");
    assert_eq!(results[1].content, "love rust");
}

#[test]
fn main_test_regex_character_class() {
    let input = "rust\nRust\nrest\ntest";
    let cursor = Cursor::new(input);

    let matcher = Matcher::new("[Rr]ust", false, true).unwrap();
    let results = search_lines(cursor, &matcher).unwrap();

    assert_eq!(results.len(), 2);
    assert_eq!(results[0].content, "rust");
    assert_eq!(results[1].content, "Rust");
}

#[test]
fn main_test_regex_quantifiers() {
    let input = "bt\nbet\nbeet\nbeeet";
    let cursor = Cursor::new(input);

    let matcher = Matcher::new("be+t", false, true).unwrap();
    let results = search_lines(cursor, &matcher).unwrap();

    assert_eq!(results.len(), 3);
    assert!(!results.iter().any(|m| m.content == "bt"));
}

#[test]
fn main_test_regex_word_boundary() {
    let input = "rust\nrust_lang\ntrustworthy";
    let cursor = Cursor::new(input);

    let matcher = Matcher::new(r"\brust\b", false, true).unwrap();
    let results = search_lines(cursor, &matcher).unwrap();

    assert_eq!(results.len(), 1);
    assert_eq!(results[0].content, "rust");
}

#[test]
fn main_test_regex_case_insensitive_combined() {
    let input = "Rust\nRUST\nrust";
    let cursor = Cursor::new(input);

    let matcher = Matcher::new("rust", true, true).unwrap();
    let results = search_lines(cursor, &matcher).unwrap();

    assert_eq!(results.len(), 3);
}

#[test]
fn main_test_invalid_regex_returns_error() {
    let result = Matcher::new("[unclosed", false, true);
    assert!(result.is_err());
}

#[test]
fn main_test_all_features_combined() {
    let input = "RUST is great\nrust programming\nRust language";
    let cursor = Cursor::new(input);

    let matcher = Matcher::new("R.*T", true, true).unwrap();
    let results = search_lines(cursor, &matcher).unwrap();

    assert_eq!(results.len(), 3);
    assert_eq!(results[0].line_number, 1);
    assert_eq!(results[1].line_number, 2);
    assert_eq!(results[2].line_number, 3);
}
