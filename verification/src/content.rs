//! Document content in the Lexical editor format.

use vstd::prelude::*;

verus! {

/// Lexical editor root.
#[derive(Debug, PartialEq, Eq)]
pub struct LexicalRoot {
    pub root: LexicalRootNode,
}

/// The root node holding all blocks of a document.
#[derive(Debug, PartialEq, Eq)]
pub struct LexicalRootNode {
    pub children: Vec<LexicalNode>,
    pub direction: Option<String>,
    pub format: String,
    pub indent: u32,
    pub node_type: String,
    pub version: u32,
}

/// A node of the Lexical tree.
#[derive(Debug, PartialEq, Eq)]
pub enum LexicalNode {
    Paragraph(ParagraphNode),
    Heading(HeadingNode),
    List(ListNode),
    ListItem(ListItemNode),
    Table(TableNode),
    Image(ImageNode),
    Link(LinkNode),
    Code(CodeNode),
    Quote(QuoteNode),
    HorizontalRule(HorizontalRuleNode),
    Text(TextNode),
}

/// A paragraph.
#[derive(Debug, Clone, PartialEq, Eq)]
pub struct ParagraphNode {
    pub children: Vec<TextNode>,
    pub direction: Option<String>,
    pub format: String,
    pub indent: u32,
    pub version: u32,
}

/// A heading; `tag` is `h1`, `h2` and so on.
#[derive(Debug, Clone, PartialEq, Eq)]
pub struct HeadingNode {
    pub children: Vec<TextNode>,
    pub direction: Option<String>,
    pub format: String,
    pub indent: u32,
    pub tag: String,
    pub version: u32,
}

/// A list; `list_type` is `bullet`, `number` or `check`.
#[derive(Debug, Clone, PartialEq, Eq)]
pub struct ListNode {
    pub children: Vec<ListItemNode>,
    pub direction: Option<String>,
    pub format: String,
    pub indent: u32,
    pub list_type: String,
    pub start: u32,
    pub version: u32,
}

/// A list item.
#[derive(Debug, Clone, PartialEq, Eq)]
pub struct ListItemNode {
    pub children: Vec<TextNode>,
    pub direction: Option<String>,
    pub format: String,
    pub indent: u32,
    pub checked: Option<bool>,
    pub version: u32,
}

/// A table.
#[derive(Debug, PartialEq, Eq)]
pub struct TableNode {
    pub children: Vec<TableRowNode>,
    pub version: u32,
}

/// A table row.
#[derive(Debug, PartialEq, Eq)]
pub struct TableRowNode {
    pub children: Vec<TableCellNode>,
    pub version: u32,
}

/// A table cell, which holds nodes of its own.
#[derive(Debug, PartialEq, Eq)]
pub struct TableCellNode {
    pub children: Vec<LexicalNode>,
    pub version: u32,
    pub header_scope: Option<String>,
    pub col_span: u32,
    pub row_span: u32,
}

/// An image.
#[derive(Debug, Clone, PartialEq, Eq)]
pub struct ImageNode {
    pub format: String,
    pub id: String,
    pub src: String,
    pub alt_text: String,
    pub caption: Option<String>,
    pub width: u32,
    pub height: u32,
    pub max_width: u32,
    pub show_caption: bool,
    pub version: u32,
}

/// A link around text.
#[derive(Debug, Clone, PartialEq, Eq)]
pub struct LinkNode {
    pub children: Vec<TextNode>,
    pub direction: Option<String>,
    pub format: String,
    pub indent: u32,
    pub url: String,
    pub target: Option<String>,
    pub title: Option<String>,
    pub rel: Option<String>,
    pub version: u32,
}

/// A code block.
#[derive(Debug, Clone, PartialEq, Eq)]
pub struct CodeNode {
    pub children: Vec<TextNode>,
    pub direction: Option<String>,
    pub format: String,
    pub indent: u32,
    pub language: Option<String>,
    pub version: u32,
}

/// A block quote.
#[derive(Debug, Clone, PartialEq, Eq)]
pub struct QuoteNode {
    pub children: Vec<TextNode>,
    pub direction: Option<String>,
    pub format: String,
    pub indent: u32,
    pub version: u32,
}

/// A horizontal rule.
#[derive(Debug, Clone, PartialEq, Eq)]
pub struct HorizontalRuleNode {
    pub version: u32,
}

/// A run of text; `format` is a bit mask (1 bold, 2 italic, 4 underline, ...).
#[derive(Debug, Clone, PartialEq, Eq)]
pub struct TextNode {
    pub detail: u32,
    pub format: u32,
    pub mode: String,
    pub style: String,
    pub text: String,
    pub version: u32,
}

impl TextNode {
    /// A plain run of text: no format bits, `normal` mode, empty style, version 1.
    pub fn new(text: &str) -> (t: TextNode)
        ensures
            t.text@ == text@,
            t.detail == 0,
            t.format == 0,
            t.mode@ == "normal"@,
            t.style@.len() == 0,
            t.version == 1,
    {
        TextNode {
            detail: 0,
            format: 0,
            mode: "normal".to_string(),
            style: String::new(),
            text: text.to_string(),
            version: 1,
        }
    }

    /// Whether the bold bit (1) is set.
    pub fn is_bold(&self) -> (r: bool)
        ensures
            r == (self.format & 1 != 0),
    {
        self.format & 1 != 0
    }

    /// Whether the italic bit (2) is set.
    pub fn is_italic(&self) -> (r: bool)
        ensures
            r == (self.format & 2 != 0),
    {
        self.format & 2 != 0
    }

    /// Whether the underline bit (4) is set.
    pub fn is_underline(&self) -> (r: bool)
        ensures
            r == (self.format & 4 != 0),
    {
        self.format & 4 != 0
    }
}

} // verus!
