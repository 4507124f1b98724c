use novus_writer::content::TextNode;

#[test]
fn new_text_node_is_plain() {
    let t = TextNode::new("Hi");
    assert_eq!(t.text, "Hi");
    assert_eq!(t.format, 0);
    assert_eq!(t.mode, "normal");
    assert_eq!(t.style, "");
    assert_eq!(t.version, 1);
    assert!(!t.is_bold() && !t.is_italic() && !t.is_underline());
}

#[test]
fn text_node_format_bits() {
    let mut t = TextNode::new("x");
    t.format = 1 | 4;
    assert!(t.is_bold());
    assert!(!t.is_italic());
    assert!(t.is_underline());
    t.format = 2;
    assert!(t.is_italic() && !t.is_bold());
}
