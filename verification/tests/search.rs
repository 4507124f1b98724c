use novus_writer::error::AppError;
use novus_writer::search::{find_text, replace_text, try_find_text};

#[test]
fn test_find_text_simple() {
    let content = "Hello world! Hello Rust!".to_string();
    let results = find_text(content, "Hello".to_string(), false, false).unwrap();
    assert_eq!(results.len(), 2);
    assert_eq!(results[0].position, 0);
    assert_eq!(results[1].position, 13);
}

#[test]
fn test_replace_text() {
    let content = "Hello world!".to_string();
    let result = replace_text(
        content,
        "world".to_string(),
        "Rust".to_string(),
        false,
        true,
        false,
    )
    .unwrap();
    assert_eq!(result, "Hello Rust!");
}

#[test]
fn find_text_case_sensitive_and_context() {
    let content = "Hello hello HELLO".to_string();
    let results = find_text(content, "hello".to_string(), true, false).unwrap();
    assert_eq!(results.len(), 1);
    assert_eq!(results[0].position, 6);
    assert_eq!(results[0].length, 5);
    assert_eq!(results[0].context, "Hello hello HELLO");
}

#[test]
fn find_text_case_insensitive_finds_all() {
    let results = find_text("Hello hello HELLO".to_string(), "hello".to_string(), false, false).unwrap();
    let positions: Vec<usize> = results.iter().map(|r| r.position).collect();
    assert_eq!(positions, vec![0, 6, 12]);
}

#[test]
fn find_text_context_is_fifty_bytes_each_side() {
    let content = format!("{}needle{}", "a".repeat(60), "b".repeat(60));
    let results = find_text(content, "needle".to_string(), true, false).unwrap();
    assert_eq!(results.len(), 1);
    assert_eq!(results[0].position, 60);
    assert_eq!(results[0].context, format!("{}needle{}", "a".repeat(50), "b".repeat(50)));
}

#[test]
fn find_text_with_regex() {
    let results = find_text("cat bat rat".to_string(), "[cb]at".to_string(), true, true).unwrap();
    let positions: Vec<usize> = results.iter().map(|r| r.position).collect();
    assert_eq!(positions, vec![0, 4]);
    assert_eq!(results[1].length, 3);
}

#[test]
fn find_text_invalid_regex_is_an_error() {
    let r = find_text("abc".to_string(), "(".to_string(), true, true);
    match r {
        Err(AppError::InvalidOperation(m)) => assert!(m.starts_with("Invalid regex: ")),
        other => panic!("unexpected {:?}", other),
    }
}

#[test]
fn try_find_text_refuses_empty_plain_query() {
    assert!(try_find_text("abc", "", true, false).is_none());
    assert!(try_find_text("abc", "b", true, false).is_some());
}

#[test]
fn replace_text_all_and_first() {
    let all = replace_text("a-b-c".to_string(), "-".to_string(), "+".to_string(), true, true, false).unwrap();
    assert_eq!(all, "a+b+c");
    let first = replace_text("a-b-c".to_string(), "-".to_string(), "+".to_string(), false, true, false).unwrap();
    assert_eq!(first, "a+b-c");
}

#[test]
fn replace_text_case_insensitive_needs_regex() {
    let r = replace_text("abc".to_string(), "B".to_string(), "x".to_string(), true, false, false);
    assert_eq!(r, Err(AppError::InvalidOperation("Case-insensitive search requires regex".to_string())));
}

#[test]
fn replace_text_regex_case_insensitive() {
    let r = replace_text("Abc abc".to_string(), "abc".to_string(), "x".to_string(), true, false, true).unwrap();
    assert_eq!(r, "x x");
    let r = replace_text("Abc abc".to_string(), "abc".to_string(), "x".to_string(), false, false, true).unwrap();
    assert_eq!(r, "x abc");
}

#[test]
fn replace_text_with_itself_is_identity() {
    let r = replace_text("one two one".to_string(), "one".to_string(), "one".to_string(), true, true, false).unwrap();
    assert_eq!(r, "one two one");
}

#[test]
fn replace_text_invalid_regex() {
    let r = replace_text("abc".to_string(), "[".to_string(), "x".to_string(), true, true, true);
    assert!(matches!(r, Err(AppError::InvalidOperation(m)) if m.starts_with("Invalid regex: ")));
}

#[test]
fn like_pattern_wraps_query() {
    assert_eq!(novus_writer::search::like_pattern("note"), "%note%");
    assert_eq!(novus_writer::search::like_pattern(""), "%%");
}

#[test]
fn literal_matches_do_not_overlap() {
    let positions = |c: &str, q: &str| -> Vec<usize> {
        find_text(c.to_string(), q.to_string(), true, false).unwrap().iter().map(|r| r.position).collect()
    };
    assert_eq!(positions("aaa", "aa"), vec![0]);
    assert_eq!(positions("aaaa", "aa"), vec![0, 2]);
    assert_eq!(positions("abcabc", "x"), Vec::<usize>::new());
    assert_eq!(positions("héllo héllo", "llo"), vec![3, 10]);
}
