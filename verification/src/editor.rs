//! The Lexical editor tree as the backend reads it: plain text, word and
//! character counts.

use vstd::prelude::*;
use crate::text::{str_eq, to_chars};
use vstd::string::StrSliceExecFns;

verus! {

/// Lexical editor state.
#[derive(Debug, PartialEq, Eq)]
pub struct EditorState {
    pub root: EditorNode,
}

/// A node of the editor tree.
#[derive(Debug, PartialEq, Eq)]
pub struct EditorNode {
    pub node_type: String,
    pub children: Vec<EditorChild>,
    pub direction: Option<String>,
    pub format: String,
    pub indent: u32,
    pub version: u32,
}

/// A child of a node: a nested node, a run of text, or an element.
#[derive(Debug, PartialEq, Eq)]
pub enum EditorChild {
    Node(EditorNode),
    Text(TextNode),
    Element(ElementNode),
}

/// A run of text with its format bits.
#[derive(Debug, Clone, PartialEq, Eq)]
pub struct TextNode {
    pub detail: u32,
    pub format: u32,
    pub mode: String,
    pub style: String,
    pub text: String,
    pub version: u32,
}

/// An element node (paragraph, heading, list and so on).
#[derive(Debug, PartialEq, Eq)]
pub struct ElementNode {
    pub node_type: String,
    pub children: Vec<EditorChild>,
    pub direction: Option<String>,
    pub format: String,
    pub indent: u32,
    pub version: u32,
}

/// Block types that end with a line break in the plain text.
pub open spec fn ends_line(node_type: Seq<char>) -> bool {
    node_type == "paragraph"@ || node_type == "heading"@
}

/// The plain text of a sequence of children: text runs as they are, nested
/// nodes by their own text, with a line break after each paragraph or heading.
pub open spec fn children_text(cs: Seq<EditorChild>) -> Seq<char>
    decreases cs, 1int,
{
    if cs.len() == 0 {
        seq![]
    } else {
        children_text(cs.drop_last()) + child_text(cs.last())
    }
}

/// The plain text of one child.
pub open spec fn child_text(c: EditorChild) -> Seq<char>
    decreases c, 0int,
{
    match c {
        EditorChild::Text(t) => t.text@,
        EditorChild::Node(n) => children_text(n.children@) + if ends_line(n.node_type@) {
            seq!['\n']
        } else {
            seq![]
        },
        EditorChild::Element(e) => children_text(e.children@) + if ends_line(e.node_type@) {
            seq!['\n']
        } else {
            seq![]
        },
    }
}

/// The characters of the text runs alone, in document order, without the
/// line breaks that blocks add.
pub open spec fn children_runs(cs: Seq<EditorChild>) -> Seq<char>
    decreases cs, 1int,
{
    if cs.len() == 0 {
        seq![]
    } else {
        children_runs(cs.drop_last()) + child_runs(cs.last())
    }
}

/// The characters of the text runs within one child.
pub open spec fn child_runs(c: EditorChild) -> Seq<char>
    decreases c, 0int,
{
    match c {
        EditorChild::Text(t) => t.text@,
        EditorChild::Node(n) => children_runs(n.children@),
        EditorChild::Element(e) => children_runs(e.children@),
    }
}

/// White space as `char::is_whitespace` defines it: the characters with the
/// Unicode `White_Space` property.
pub open spec fn is_white_space(c: char) -> bool {
    let u = c as u32;
    (0x09 <= u <= 0x0d) || u == 0x20 || u == 0x85 || u == 0xa0 || u == 0x1680 || (0x2000 <= u
        <= 0x200a) || u == 0x2028 || u == 0x2029 || u == 0x202f || u == 0x205f || u == 0x3000
}

/// The number of words of a text: maximal runs of characters that are not
/// white space (what `split_whitespace` yields).
pub open spec fn word_count_spec(s: Seq<char>) -> nat
    decreases s.len(),
{
    if s.len() == 0 {
        0
    } else {
        let starts_word = !is_white_space(s.last()) && (s.len() == 1 || is_white_space(
            s[s.len() - 2],
        ));
        word_count_spec(s.drop_last()) + if starts_word {
            1nat
        } else {
            0nat
        }
    }
}

/// Whether a character is white space.
pub fn is_white_space_exec(c: char) -> (r: bool)
    ensures
        r == is_white_space(c),
{
    let u = c as u32;
    (0x09 <= u && u <= 0x0d) || u == 0x20 || u == 0x85 || u == 0xa0 || u == 0x1680 || (0x2000 <= u
        && u <= 0x200a) || u == 0x2028 || u == 0x2029 || u == 0x202f || u == 0x205f || u == 0x3000
}

/// The number of words of a text.
pub fn count_words(s: &str) -> (n: usize)
    ensures
        n == word_count_spec(s@),
{
    let v = to_chars(s);
    let mut n: usize = 0;
    let mut i: usize = 0;
    while i < v.len()
        invariant
            i <= v@.len(),
            n == word_count_spec(v@.take(i as int)),
            n <= i,
        decreases v.len() - i,
    {
        let starts = !is_white_space_exec(v[i]) && (i == 0 || is_white_space_exec(v[i - 1]));
        assert(v@.take(i + 1).drop_last() =~= v@.take(i as int));
        if starts {
            n = n + 1;
        }
        i = i + 1;
    }
    assert(v@.take(i as int) =~= s@);
    n
}

/// Whether a node of this type ends with a line break.
fn ends_line_exec(node_type: &String) -> (r: bool)
    ensures
        r == ends_line(node_type@),
{
    str_eq(node_type.as_str(), "paragraph") || str_eq(node_type.as_str(), "heading")
}

impl EditorState {
    /// A new editor state: a root node holding one empty paragraph.
    pub fn empty() -> (s: EditorState)
        ensures
            s.root.node_type@ == "root"@,
            s.root.direction is None,
            s.root.format@.len() == 0,
            s.root.indent == 0,
            s.root.version == 1,
            s.root.children@.len() == 1,
            s.root.children@[0] matches EditorChild::Element(p) && p.node_type@ == "paragraph"@
                && p.children@.len() == 0 && p.direction is None && p.format@.len() == 0
                && p.indent == 0 && p.version == 1,
    {
        let paragraph = ElementNode {
            node_type: "paragraph".to_string(),
            children: Vec::new(),
            direction: None,
            format: String::new(),
            indent: 0,
            version: 1,
        };
        let mut children: Vec<EditorChild> = Vec::new();
        children.push(EditorChild::Element(paragraph));
        EditorState {
            root: EditorNode {
                node_type: "root".to_string(),
                children,
                direction: None,
                format: String::new(),
                indent: 0,
                version: 1,
            },
        }
    }

    /// The plain text of the document.
    pub fn extract_text(&self) -> (r: String)
        ensures
            r@ == children_text(self.root.children@),
    {
        self.extract_text_from_children(&self.root.children)
    }

    /// The plain text of a sequence of children.
    fn extract_text_from_children(&self, children: &Vec<EditorChild>) -> (r: String)
        ensures
            r@ == children_text(children@),
        decreases children@, 1int,
    {
        let mut text = String::new();
        let mut i: usize = 0;
        while i < children.len()
            invariant
                i <= children@.len(),
                text@ == children_text(children@.take(i as int)),
            decreases children.len() - i,
        {
            let part = self.extract_text_from_child(&children[i]);
            let ghost before = text@;
            text.append(part.as_str());
            assert(children@.take(i + 1).drop_last() =~= children@.take(i as int));
            i = i + 1;
        }
        assert(children@.take(i as int) =~= children@);
        text
    }

    /// The plain text of one child.
    fn extract_text_from_child(&self, child: &EditorChild) -> (r: String)
        ensures
            r@ == child_text(*child),
        decreases *child, 0int,
    {
        match child {
            EditorChild::Text(t) => t.text.clone(),
            EditorChild::Node(n) => {
                let mut text = self.extract_text_from_children(&n.children);
                if ends_line_exec(&n.node_type) {
                    text.push('\n');
                }
                text
            },
            EditorChild::Element(e) => {
                let mut text = self.extract_text_from_children(&e.children);
                if ends_line_exec(&e.node_type) {
                    text.push('\n');
                }
                text
            },
        }
    }

    /// The characters of the text runs of a sequence of children.
    fn runs_of_children(children: &Vec<EditorChild>) -> (r: String)
        ensures
            r@ == children_runs(children@),
        decreases children@, 1int,
    {
        let mut text = String::new();
        let mut i: usize = 0;
        while i < children.len()
            invariant
                i <= children@.len(),
                text@ == children_runs(children@.take(i as int)),
            decreases children.len() - i,
        {
            let part = Self::runs_of_child(&children[i]);
            text.append(part.as_str());
            assert(children@.take(i + 1).drop_last() =~= children@.take(i as int));
            i = i + 1;
        }
        assert(children@.take(i as int) =~= children@);
        text
    }

    /// The characters of the text runs within one child.
    fn runs_of_child(child: &EditorChild) -> (r: String)
        ensures
            r@ == child_runs(*child),
        decreases *child, 0int,
    {
        match child {
            EditorChild::Text(t) => t.text.clone(),
            EditorChild::Node(n) => Self::runs_of_children(&n.children),
            EditorChild::Element(e) => Self::runs_of_children(&e.children),
        }
    }

    /// The number of words in the document: maximal runs of non-white-space
    /// characters of its plain text.
    pub fn word_count(&self) -> (n: usize)
        ensures
            n == word_count_spec(children_text(self.root.children@)),
    {
        let text = self.extract_text();
        count_words(text.as_str())
    }

    /// The number of characters in the document: the characters of its text
    /// runs (the line breaks between blocks are not counted).
    pub fn char_count(&self) -> (n: usize)
        ensures
            n == children_runs(self.root.children@).len(),
    {
        let text = Self::runs_of_children(&self.root.children);
        text.as_str().unicode_len()
    }
}

/// The block a child is, whichever variant carries it: its type and its
/// children. A run of text is no block.
pub open spec fn block_of(c: EditorChild) -> Option<(Seq<char>, Seq<EditorChild>)> {
    match c {
        EditorChild::Node(n) => Some((n.node_type@, n.children@)),
        EditorChild::Element(e) => Some((e.node_type@, e.children@)),
        EditorChild::Text(_) => None,
    }
}

/// A paragraph or heading, carried by either variant, whose own text is one
/// word.
pub open spec fn one_word_line(c: EditorChild) -> bool {
    block_of(c) matches Some((t, cs)) && ends_line(t) && word_count_spec(children_text(cs)) == 1
}

/// A block reads the same whether it is carried as a node or as an element:
/// two children that are the same block have the same plain text and the
/// same text runs.
pub proof fn law_block_text_ignores_variant(a: EditorChild, b: EditorChild)
    requires
        block_of(a) is Some,
        block_of(a) == block_of(b),
    ensures
        child_text(a) == child_text(b),
        child_runs(a) == child_runs(b),
{
}

/// Every paragraph and heading, as node or as element, ends its plain text
/// with a line break that follows the text of its children; any other block
/// reads as its children do.
pub proof fn law_lines_end_with_break(c: EditorChild)
    requires
        block_of(c) is Some,
    ensures
        ends_line(block_of(c)->Some_0.0) ==> child_text(c).len() > 0 && child_text(c).last() == '\n'
            && child_text(c).drop_last() == children_text(block_of(c)->Some_0.1),
        !ends_line(block_of(c)->Some_0.0) ==> child_text(c) == children_text(block_of(c)->Some_0.1),
{
    let cs = block_of(c)->Some_0.1;
    assert((children_text(cs) + seq!['\n']).drop_last() =~= children_text(cs));
    assert(children_text(cs) + Seq::<char>::empty() =~= children_text(cs));
}

/// Words never run across white space: when `a` is empty or ends with white
/// space, the words of `a + b` are those of `a` and those of `b`.
pub proof fn lemma_word_count_concat(a: Seq<char>, b: Seq<char>)
    requires
        a.len() == 0 || is_white_space(a.last()),
    ensures
        word_count_spec(a + b) == word_count_spec(a) + word_count_spec(b),
    decreases b.len(),
{
    if b.len() == 0 {
        assert(a + b =~= a);
    } else {
        let s = a + b;
        lemma_word_count_concat(a, b.drop_last());
        assert(s.drop_last() =~= a + b.drop_last());
        assert(s.last() == b.last());
        if b.len() >= 2 {
            assert(s[s.len() - 2] == b[b.len() - 2]);
        } else if a.len() > 0 {
            assert(s[s.len() - 2] == a.last());
        }
    }
}

/// A line break after a text adds no word.
proof fn lemma_word_count_break(s: Seq<char>)
    ensures
        word_count_spec(s + seq!['\n']) == word_count_spec(s),
{
    assert((s + seq!['\n']).drop_last() =~= s);
    assert((s + seq!['\n']).last() == '\n');
    assert(is_white_space('\n'));
}

/// Paragraphs and headings keep their words apart: a run of blocks, each a
/// paragraph or heading of one word, holds as many words as blocks, and its
/// plain text is empty or ends with a line break.
pub proof fn law_one_word_lines_count(cs: Seq<EditorChild>)
    requires
        forall|i: int| 0 <= i < cs.len() ==> one_word_line(#[trigger] cs[i]),
    ensures
        word_count_spec(children_text(cs)) == cs.len(),
        children_text(cs).len() == 0 || children_text(cs).last() == '\n',
    decreases cs.len(),
{
    if cs.len() > 0 {
        let init = cs.drop_last();
        let c = cs.last();
        assert forall|i: int| 0 <= i < init.len() implies one_word_line(#[trigger] init[i]) by {
            assert(init[i] == cs[i]);
        }
        law_one_word_lines_count(init);
        assert(one_word_line(cs[cs.len() - 1]));
        let inner = children_text(block_of(c)->Some_0.1);
        law_lines_end_with_break(c);
        assert(child_text(c) == inner + seq!['\n']);
        lemma_word_count_break(inner);
        lemma_word_count_concat(children_text(init), child_text(c));
        assert(children_text(cs) == children_text(init) + child_text(c));
    }
}

} // verus!
