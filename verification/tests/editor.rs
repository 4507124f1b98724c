use novus_writer::editor::{EditorChild, EditorNode, EditorState, ElementNode, TextNode};

fn text(t: &str) -> EditorChild {
    EditorChild::Text(TextNode {
        detail: 0,
        format: 0,
        mode: "normal".to_string(),
        style: String::new(),
        text: t.to_string(),
        version: 1,
    })
}

fn element(node_type: &str, children: Vec<EditorChild>) -> EditorChild {
    EditorChild::Element(ElementNode {
        node_type: node_type.to_string(),
        children,
        direction: None,
        format: String::new(),
        indent: 0,
        version: 1,
    })
}

fn node(node_type: &str, children: Vec<EditorChild>) -> EditorChild {
    EditorChild::Node(EditorNode {
        node_type: node_type.to_string(),
        children,
        direction: None,
        format: String::new(),
        indent: 0,
        version: 1,
    })
}

fn state(children: Vec<EditorChild>) -> EditorState {
    EditorState {
        root: EditorNode {
            node_type: "root".to_string(),
            children,
            direction: None,
            format: String::new(),
            indent: 0,
            version: 1,
        },
    }
}

#[test]
fn test_empty_editor_state() {
    let state = EditorState::empty();
    assert_eq!(state.root.node_type, "root");
    assert_eq!(state.word_count(), 0);
}

#[test]
fn test_word_count() {
    // The state that the JSON of one paragraph holding "Hello world test"
    // parses to: the paragraph, which has every field of a node, is a node.
    let state = state(vec![node("paragraph", vec![text("Hello world test")])]);
    assert_eq!(state.word_count(), 3);
    assert_eq!(state.char_count(), 16);
}

#[test]
fn extract_text_ends_paragraphs_and_headings_with_line_breaks() {
    let s = state(vec![
        element("heading", vec![text("Title")]),
        element("paragraph", vec![text("one "), text("two")]),
        element("list", vec![element("listitem", vec![text("item")])]),
    ]);
    assert_eq!(s.extract_text(), "Title\none two\nitem");
    assert_eq!(s.word_count(), 4);
    assert_eq!(s.char_count(), 16);
}

#[test]
fn empty_state_has_no_text() {
    let s = EditorState::empty();
    assert_eq!(s.extract_text(), "\n");
    assert_eq!(s.char_count(), 0);
}
