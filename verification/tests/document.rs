use novus_writer::clock::Timestamp;
use novus_writer::document::Document;

#[test]
fn test_create_document() {
    let doc = Document::new("Test Document");
    assert_eq!(doc.title, "Test Document");
    assert!(!doc.id.is_empty());
    assert_eq!(doc.version, 1);
    assert!(!doc.pinned);
}

#[test]
fn test_update_content() {
    let mut doc = Document::new("Test");
    let initial_version = doc.version;
    doc.update_content(r#"{"root": {"children": []}}"#.to_string());
    assert_eq!(doc.version, initial_version + 1);
}

#[test]
fn test_add_tag() {
    let mut doc = Document::new("Test");
    doc.add_tag("important");
    assert!(doc.tags.contains(&"important".to_string()));

    // Adding duplicate should not create duplicate
    doc.add_tag("important");
    assert_eq!(doc.tags.len(), 1);
}

#[test]
fn new_document_has_fresh_id_and_default_content() {
    let a = Document::new("A");
    let b = Document::new("B");
    assert_eq!(a.id.len(), 36);
    assert_ne!(a.id, b.id);
    assert_eq!(a.content, Document::default_content());
    assert!(a.content.contains("\"type\": \"paragraph\""));
    assert_eq!(a.created_at, a.modified_at);
    assert!(a.tags.is_empty());
}

#[test]
fn update_content_keeps_identity() {
    let mut doc = Document::new("Keep");
    let id = doc.id.clone();
    doc.update_content("new".to_string());
    assert_eq!(doc.content, "new");
    assert_eq!(doc.id, id);
    assert_eq!(doc.title, "Keep");
}

#[test]
fn update_title_keeps_version() {
    let mut doc = Document::new("Old");
    doc.update_title("New");
    assert_eq!(doc.title, "New");
    assert_eq!(doc.version, 1);
}

#[test]
fn remove_tag_after_add_restores_tags() {
    let mut doc = Document::new("Tags");
    doc.add_tag("a");
    doc.add_tag("b");
    doc.add_tag("c");
    doc.remove_tag("b");
    assert_eq!(doc.tags, vec!["a".to_string(), "c".to_string()]);
    doc.remove_tag("missing");
    assert_eq!(doc.tags, vec!["a".to_string(), "c".to_string()]);
    doc.add_tag("z");
    doc.remove_tag("z");
    assert_eq!(doc.tags, vec!["a".to_string(), "c".to_string()]);
}

#[test]
fn toggle_pinned_twice_restores() {
    let mut doc = Document::new("Pin");
    doc.toggle_pinned();
    assert!(doc.pinned);
    doc.toggle_pinned();
    assert!(!doc.pinned);
}

#[test]
fn from_row_and_mark_saved() {
    let t = Timestamp { secs: 10, nanos: 5 };
    let doc = Document::from_row(
        "id1".to_string(),
        "T".to_string(),
        "C".to_string(),
        t,
        t,
        7,
        Some(vec!["x".to_string()]),
        true,
    );
    assert_eq!((doc.id.as_str(), doc.title.as_str(), doc.content.as_str()), ("id1", "T", "C"));
    assert_eq!(doc.version, 7);
    assert_eq!(doc.tags, vec!["x".to_string()]);
    assert!(doc.pinned);
    let wrapped = Document::from_row(String::new(), String::new(), String::new(), t, t, (1i64 << 32) + 3, None, false);
    assert_eq!(wrapped.version, 3);
    assert!(wrapped.tags.is_empty());
    let mut saved = doc.clone();
    saved.mark_saved();
    assert_eq!(saved.version, 8);
    assert_eq!(saved.content, "C");
}

#[test]
fn ids_are_version_4_uuid_text() {
    let id = Document::new("Any").id;
    let c: Vec<char> = id.chars().collect();
    assert_eq!(c.len(), 36);
    for (i, ch) in c.iter().enumerate() {
        if [8, 13, 18, 23].contains(&i) {
            assert_eq!(*ch, '-');
        } else {
            assert!(ch.is_ascii_digit() || ('a'..='f').contains(ch));
        }
    }
    assert_eq!(c[14], '4');
    assert!(['8', '9', 'a', 'b'].contains(&c[19]));
}
