//! Export formats and the text of each exported file.

use vstd::prelude::*;
use crate::clock::{Timestamp, local_minute_text_now, minute_text, utc_minute_text, is_minute_text};
use crate::text::{str_eq, to_chars, to_lowercase, lowercase_of, ascii_lower, is_ascii_text};
use crate::file_utils::{get_extension, plausible_extension, extension_dot_at};

verus! {

/// Export formats supported by the application.
#[derive(Debug, Clone, Copy, PartialEq, Eq, Structural)]
pub enum ExportFormat {
    Pdf,
    Docx,
    Html,
    Markdown,
    PlainText,
    Rtf,
    Odt,
}

/// The format named by a lowercase file extension.
pub open spec fn format_of_extension(ext: Seq<char>) -> Option<ExportFormat> {
    if ext == "pdf"@ {
        Some(ExportFormat::Pdf)
    } else if ext == "docx"@ {
        Some(ExportFormat::Docx)
    } else if ext == "html"@ || ext == "htm"@ {
        Some(ExportFormat::Html)
    } else if ext == "md"@ || ext == "markdown"@ {
        Some(ExportFormat::Markdown)
    } else if ext == "txt"@ {
        Some(ExportFormat::PlainText)
    } else if ext == "rtf"@ {
        Some(ExportFormat::Rtf)
    } else if ext == "odt"@ {
        Some(ExportFormat::Odt)
    } else {
        None
    }
}

/// The MIME type of a format.
pub open spec fn mime_type_of(f: ExportFormat) -> Seq<char> {
    match f {
        ExportFormat::Pdf => "application/pdf"@,
        ExportFormat::Docx => "application/vnd.openxmlformats-officedocument.wordprocessingml.document"@,
        ExportFormat::Html => "text/html"@,
        ExportFormat::Markdown => "text/markdown"@,
        ExportFormat::PlainText => "text/plain"@,
        ExportFormat::Rtf => "application/rtf"@,
        ExportFormat::Odt => "application/vnd.oasis.opendocument.text"@,
    }
}

/// The file extension written for a format.
pub open spec fn extension_of(f: ExportFormat) -> Seq<char> {
    match f {
        ExportFormat::Pdf => "pdf"@,
        ExportFormat::Docx => "docx"@,
        ExportFormat::Html => "html"@,
        ExportFormat::Markdown => "md"@,
        ExportFormat::PlainText => "txt"@,
        ExportFormat::Rtf => "rtf"@,
        ExportFormat::Odt => "odt"@,
    }
}

impl ExportFormat {
    /// The format for a file extension, in any letter case; an ASCII
    /// extension is lowered letter by letter.
    pub fn from_extension(ext: &str) -> (r: Option<ExportFormat>)
        ensures
            r == format_of_extension(lowercase_of(ext@)),
            is_ascii_text(ext@) ==> r == format_of_extension(
                ext@.map_values(|c: char| ascii_lower(c)),
            ),
    {
        let lowered = to_lowercase(ext);
        Self::from_lowercase_extension(lowered.as_str())
    }

    /// The format for an extension that is already lowercase.
    pub fn from_lowercase_extension(ext: &str) -> (r: Option<ExportFormat>)
        ensures
            r == format_of_extension(ext@),
    {
        if str_eq(ext, "pdf") {
            Some(ExportFormat::Pdf)
        } else if str_eq(ext, "docx") {
            Some(ExportFormat::Docx)
        } else if str_eq(ext, "html") || str_eq(ext, "htm") {
            Some(ExportFormat::Html)
        } else if str_eq(ext, "md") || str_eq(ext, "markdown") {
            Some(ExportFormat::Markdown)
        } else if str_eq(ext, "txt") {
            Some(ExportFormat::PlainText)
        } else if str_eq(ext, "rtf") {
            Some(ExportFormat::Rtf)
        } else if str_eq(ext, "odt") {
            Some(ExportFormat::Odt)
        } else {
            None
        }
    }

    /// The MIME type of the format.
    pub fn get_mime_type(&self) -> (r: &'static str)
        ensures
            r@ == mime_type_of(*self),
    {
        match self {
            ExportFormat::Pdf => "application/pdf",
            ExportFormat::Docx => "application/vnd.openxmlformats-officedocument.wordprocessingml.document",
            ExportFormat::Html => "text/html",
            ExportFormat::Markdown => "text/markdown",
            ExportFormat::PlainText => "text/plain",
            ExportFormat::Rtf => "application/rtf",
            ExportFormat::Odt => "application/vnd.oasis.opendocument.text",
        }
    }

    /// The file extension of the format.
    pub fn get_extension(&self) -> (r: &'static str)
        ensures
            r@ == extension_of(*self),
    {
        match self {
            ExportFormat::Pdf => "pdf",
            ExportFormat::Docx => "docx",
            ExportFormat::Html => "html",
            ExportFormat::Markdown => "md",
            ExportFormat::PlainText => "txt",
            ExportFormat::Rtf => "rtf",
            ExportFormat::Odt => "odt",
        }
    }
}

/// The format a file is exported in, given the extension of its path: the
/// format the extension names (`txt` when there is none), plain text when it
/// names none.
pub open spec fn format_or_plain(ext: Option<Seq<char>>) -> ExportFormat {
    let e = match ext {
        Some(e) => e,
        None => "txt"@,
    };
    match format_of_extension(lowercase_of(e)) {
        Some(f) => f,
        None => ExportFormat::PlainText,
    }
}

/// The export format for a file extension, as `format_or_plain` says.
pub fn format_for_extension(ext: Option<&str>) -> (f: ExportFormat)
    ensures
        f == format_or_plain(match ext {
            Some(e) => Some(e@),
            None => None,
        }),
{
    let e = match ext {
        Some(e) => e,
        None => "txt",
    };
    match ExportFormat::from_extension(e) {
        Some(f) => f,
        None => ExportFormat::PlainText,
    }
}

/// The export format for an output path, from its extension: the format is
/// `format_or_plain` of the extension found. A path without `.` gets the
/// format for no extension; a path that `extension_dot_at` describes gets the
/// format of the text after that `.`; any other path, the format of no
/// extension or of one that `get_extension` may give there.
pub fn export_format_for_path(path: &str) -> (f: ExportFormat)
    ensures
        !path@.contains('.') ==> f == format_or_plain(None),
        forall|i: int|
            #[trigger] extension_dot_at(path@, i) ==> f == format_or_plain(Some(path@.skip(i + 1))),
        exists|ext: Option<Seq<char>>|
            #![trigger format_or_plain(ext)]
            f == format_or_plain(ext) && match ext {
                Some(e) => plausible_extension(path@, e),
                None => true,
            },
{
    let ext = get_extension(path);
    let f = match &ext {
        Some(e) => format_for_extension(Some(e.as_str())),
        None => format_for_extension(None),
    };
    proof {
        let found = match ext {
            Some(e) => Some(e@),
            None => None,
        };
        assert(f == format_or_plain(found));
    }
    f
}

/// The extension written for a format is read back as that format.
pub proof fn law_extension_round_trip(f: ExportFormat)
    ensures
        format_of_extension(extension_of(f)) == Some(f),
{
    reveal_strlit("pdf");
    reveal_strlit("docx");
    reveal_strlit("html");
    reveal_strlit("htm");
    reveal_strlit("md");
    reveal_strlit("markdown");
    reveal_strlit("txt");
    reveal_strlit("rtf");
    reveal_strlit("odt");
    assert("pdf"@[0] == 'p' && "docx"@[0] == 'd' && "html"@[0] == 'h' && "htm"@[0] == 'h');
    assert("md"@[0] == 'm' && "markdown"@[0] == 'm' && "txt"@[0] == 't' && "rtf"@[0] == 'r');
    assert("odt"@[0] == 'o' && extension_of(f).len() > 0);
}

/// A character of content as HTML: `&`, `<`, `>` escaped, a line break
/// closing one paragraph and opening the next, carriage returns dropped.
pub open spec fn html_char(c: char) -> Seq<char> {
    if c == '&' {
        "&amp;"@
    } else if c == '<' {
        "&lt;"@
    } else if c == '>' {
        "&gt;"@
    } else if c == '\n' {
        "</p><p>"@
    } else if c == '\r' {
        seq![]
    } else {
        seq![c]
    }
}

/// A character of content as RTF: `\`, `{`, `}` escaped with a backslash and
/// a line break written as a paragraph mark.
pub open spec fn rtf_char(c: char) -> Seq<char> {
    if c == '\\' {
        "\\\\"@
    } else if c == '{' {
        "\\{"@
    } else if c == '}' {
        "\\}"@
    } else if c == '\n' {
        "\\par\n"@
    } else {
        seq![c]
    }
}

/// A character of a title as RTF: `\`, `{`, `}` escaped; line breaks kept.
pub open spec fn rtf_title_char(c: char) -> Seq<char> {
    if c == '\n' {
        seq![c]
    } else {
        rtf_char(c)
    }
}

/// Content as HTML.
pub open spec fn html_text(s: Seq<char>) -> Seq<char>
    decreases s.len(),
{
    if s.len() == 0 {
        seq![]
    } else {
        html_text(s.drop_last()) + html_char(s.last())
    }
}

/// Content as RTF.
pub open spec fn rtf_text(s: Seq<char>) -> Seq<char>
    decreases s.len(),
{
    if s.len() == 0 {
        seq![]
    } else {
        rtf_text(s.drop_last()) + rtf_char(s.last())
    }
}

/// A title as RTF.
pub open spec fn rtf_title_text(s: Seq<char>) -> Seq<char>
    decreases s.len(),
{
    if s.len() == 0 {
        seq![]
    } else {
        rtf_title_text(s.drop_last()) + rtf_title_char(s.last())
    }
}

/// A document as the exporters read it.
#[derive(Debug, Clone, PartialEq, Eq)]
pub struct ExportDocument {
    pub id: String,
    pub title: String,
    pub content: Option<String>,
    pub created_at: Timestamp,
    pub updated_at: Timestamp,
    pub word_count: usize,
    pub character_count: usize,
}

/// The content of a document, empty when it has none.
pub open spec fn content_text(d: ExportDocument) -> Seq<char> {
    match d.content {
        Some(c) => c@,
        None => seq![],
    }
}

/// The text of the PDF stand-in file.
pub open spec fn pdf_file(title: Seq<char>, content: Seq<char>) -> Seq<char> {
    "%PDF-1.4\n% Novus Writer PDF Export (Simulation)\nTitle: "@ + title + "\nContent: "@ + content
}

/// The text of the DOCX stand-in file.
pub open spec fn docx_file(title: Seq<char>, content: Seq<char>) -> Seq<char> {
    "[DOCX Document]\nTitle: "@ + title + "\nContent: "@ + content
}

/// The text of the ODT stand-in file.
pub open spec fn odt_file(title: Seq<char>, content: Seq<char>) -> Seq<char> {
    "[ODT Document]\nTitle: "@ + title + "\nContent: "@ + content
}

/// The HTML page of a document.
pub open spec fn html_file(title: Seq<char>, content: Seq<char>, created: Seq<char>, modified: Seq<char>) -> Seq<char> {
    "<!DOCTYPE html>\n<html lang=\"en\">\n<head>\n    <meta charset=\"UTF-8\">\n    <meta name=\"viewport\" content=\"width=device-width, initial-scale=1.0\">\n    <title>"@ + title + "</title>\n    <style>\n        body {\n            font-family: Georgia, 'Times New Roman', serif;\n            line-height: 1.6;\n            max-width: 800px;\n            margin: 0 auto;\n            padding: 40px 20px;\n            background-color: #fff;\n            color: #333;\n        }\n        h1, h2, h3, h4, h5, h6 {\n            color: #2b579a;\n            margin-top: 1.5em;\n            margin-bottom: 0.5em;\n        }\n        p {\n            margin-bottom: 1em;\n        }\n        .metadata {\n            color: #666;\n            font-size: 0.9em;\n            border-bottom: 1px solid #eee;\n            padding-bottom: 10px;\n            margin-bottom: 20px;\n        }\n    </style>\n</head>\n<body>\n    <div class=\"metadata\">\n        <p><strong>Title:</strong> "@ + title + "</p>\n        <p><strong>Created:</strong> "@ + created + "</p>\n        <p><strong>Modified:</strong> "@ + modified + "</p>\n    </div>\n    <div class=\"content\">\n        "@ + html_text(content) + "\n    </div>\n</body>\n</html>"@
}

/// The Markdown file of a document, stamped with the export time.
pub open spec fn markdown_file(title: Seq<char>, content: Seq<char>, exported: Seq<char>) -> Seq<char> {
    "# "@ + title + "\n\n"@ + content + "\n\n---\n*Exported from Novus Writer on "@ + exported + "*"@
}

/// The plain-text file of a document, stamped with the export time.
pub open spec fn plain_file(title: Seq<char>, content: Seq<char>, exported: Seq<char>) -> Seq<char> {
    title + "\n\n"@ + content + "\n\n---\nExported from Novus Writer on "@ + exported
}

/// The RTF file of a document.
pub open spec fn rtf_file(title: Seq<char>, content: Seq<char>) -> Seq<char> {
    "{\\rtf1\\ansi\\deff0\n{\\fonttbl{\\f0\\fswiss\\fprq2\\fcharset0 Arial;}}\n{\\*\\generator Novus Writer;}\n\\viewkind4\\uc1\\pard\\f0\\fs24\n\\b "@ + rtf_title_text(title) + "\\b0\\par\n\\par\n"@ + rtf_text(content) + "\\par\n}"@
}

/// Service that turns documents into the text of export files.
pub struct ExportService;

/// Appends the HTML form of one character.
fn push_html_char(out: &mut String, c: char)
    ensures
        final(out)@ == old(out)@ + html_char(c),
{
    if c == '&' {
        out.append("&amp;");
    } else if c == '<' {
        out.append("&lt;");
    } else if c == '>' {
        out.append("&gt;");
    } else if c == '\n' {
        out.append("</p><p>");
    } else if c == '\r' {
        assert(old(out)@ + html_char(c) =~= old(out)@);
    } else {
        out.push(c);
    }
}

/// Appends the RTF form of one character; `title` keeps line breaks as they are.
fn push_rtf_char(out: &mut String, c: char, title: bool)
    ensures
        final(out)@ == old(out)@ + if title {
            rtf_title_char(c)
        } else {
            rtf_char(c)
        },
{
    if c == '\\' {
        out.append("\\\\");
    } else if c == '{' {
        out.append("\\{");
    } else if c == '}' {
        out.append("\\}");
    } else if c == '\n' && !title {
        out.append("\\par\n");
    } else {
        out.push(c);
    }
}

/// Appends the RTF form of a text.
fn push_rtf(out: &mut String, s: &str, title: bool)
    ensures
        final(out)@ == old(out)@ + if title {
            rtf_title_text(s@)
        } else {
            rtf_text(s@)
        },
{
    let v = to_chars(s);
    let mut i: usize = 0;
    while i < v.len()
        invariant
            i <= v@.len(),
            out@ == old(out)@ + if title {
                rtf_title_text(v@.take(i as int))
            } else {
                rtf_text(v@.take(i as int))
            },
        decreases v.len() - i,
    {
        assert(v@.take(i + 1).drop_last() =~= v@.take(i as int));
        push_rtf_char(out, v[i], title);
        i = i + 1;
    }
    assert(v@.take(i as int) =~= s@);
}

/// Appends the HTML form of a text.
fn push_html(out: &mut String, s: &str)
    ensures
        final(out)@ == old(out)@ + html_text(s@),
{
    let v = to_chars(s);
    let mut i: usize = 0;
    while i < v.len()
        invariant
            i <= v@.len(),
            out@ == old(out)@ + html_text(v@.take(i as int)),
        decreases v.len() - i,
    {
        assert(v@.take(i + 1).drop_last() =~= v@.take(i as int));
        push_html_char(out, v[i]);
        i = i + 1;
    }
    assert(v@.take(i as int) =~= s@);
}

impl ExportService {
    /// Content as HTML: special characters escaped, each line break turned
    /// into a paragraph break, carriage returns dropped.
    pub fn content_to_html(content: &str) -> (r: String)
        ensures
            r@ == html_text(content@),
    {
        let mut out = String::new();
        push_html(&mut out, content);
        out
    }

    /// Content as RTF: `\\`, `{`, `}` escaped and line breaks made paragraph marks.
    pub fn escape_rtf(content: &str) -> (r: String)
        ensures
            r@ == rtf_text(content@),
    {
        let mut out = String::new();
        push_rtf(&mut out, content, false);
        out
    }

    /// The content of a document, empty when it has none.
    fn content_of(document: &ExportDocument) -> (r: &str)
        ensures
            r@ == content_text(*document),
    {
        match &document.content {
            Some(c) => c.as_str(),
            None => {
                proof {
                    reveal_strlit("");
                }
                ""
            },
        }
    }

    /// The PDF stand-in file of a document.
    pub fn render_pdf(document: &ExportDocument) -> (r: String)
        ensures
            r@ == pdf_file(document.title@, content_text(*document)),
    {
        let mut r = "%PDF-1.4\n% Novus Writer PDF Export (Simulation)\nTitle: ".to_string();
        r.append(document.title.as_str());
        r.append("\nContent: ");
        r.append(Self::content_of(document));
        r
    }

    /// The DOCX stand-in file of a document.
    pub fn render_docx(document: &ExportDocument) -> (r: String)
        ensures
            r@ == docx_file(document.title@, content_text(*document)),
    {
        let mut r = "[DOCX Document]\nTitle: ".to_string();
        r.append(document.title.as_str());
        r.append("\nContent: ");
        r.append(Self::content_of(document));
        r
    }

    /// The ODT stand-in file of a document.
    pub fn render_odt(document: &ExportDocument) -> (r: String)
        ensures
            r@ == odt_file(document.title@, content_text(*document)),
    {
        let mut r = "[ODT Document]\nTitle: ".to_string();
        r.append(document.title.as_str());
        r.append("\nContent: ");
        r.append(Self::content_of(document));
        r
    }

    /// The HTML page of a document, its creation and modification times
    /// written as `YYYY-MM-DD HH:MM` UTC; `None` when a time is out of the
    /// range that `chrono` can write.
    pub fn render_html(document: &ExportDocument) -> (r: Option<String>)
        ensures
            match (utc_minute_text(document.created_at.secs, document.created_at.nanos),
                utc_minute_text(document.updated_at.secs, document.updated_at.nanos)) {
                (Some(c), Some(m)) => r matches Some(s) && s@ == html_file(
                    document.title@,
                    content_text(*document),
                    c,
                    m,
                ),
                _ => r is None,
            },
    {
        let created = minute_text(document.created_at);
        let modified = minute_text(document.updated_at);
        match (created, modified) {
            (Some(c), Some(m)) => {
                let mut r = "<!DOCTYPE html>\n<html lang=\"en\">\n<head>\n    <meta charset=\"UTF-8\">\n    <meta name=\"viewport\" content=\"width=device-width, initial-scale=1.0\">\n    <title>".to_string();
                r.append(document.title.as_str());
                r.append("</title>\n    <style>\n        body {\n            font-family: Georgia, 'Times New Roman', serif;\n            line-height: 1.6;\n            max-width: 800px;\n            margin: 0 auto;\n            padding: 40px 20px;\n            background-color: #fff;\n            color: #333;\n        }\n        h1, h2, h3, h4, h5, h6 {\n            color: #2b579a;\n            margin-top: 1.5em;\n            margin-bottom: 0.5em;\n        }\n        p {\n            margin-bottom: 1em;\n        }\n        .metadata {\n            color: #666;\n            font-size: 0.9em;\n            border-bottom: 1px solid #eee;\n            padding-bottom: 10px;\n            margin-bottom: 20px;\n        }\n    </style>\n</head>\n<body>\n    <div class=\"metadata\">\n        <p><strong>Title:</strong> ");
                r.append(document.title.as_str());
                r.append("</p>\n        <p><strong>Created:</strong> ");
                r.append(c.as_str());
                r.append("</p>\n        <p><strong>Modified:</strong> ");
                r.append(m.as_str());
                r.append("</p>\n    </div>\n    <div class=\"content\">\n        ");
                push_html(&mut r, Self::content_of(document));
                r.append("\n    </div>\n</body>\n</html>");
                assert(r@ =~= html_file(document.title@, content_text(*document), c@, m@));
                Some(r)
            },
            _ => None,
        }
    }

    /// The Markdown file of a document stamped with `exported_on`.
    pub fn render_markdown(document: &ExportDocument, exported_on: &str) -> (r: String)
        ensures
            r@ == markdown_file(document.title@, content_text(*document), exported_on@),
    {
        let mut r = "# ".to_string();
        r.append(document.title.as_str());
        r.append("\n\n");
        r.append(Self::content_of(document));
        r.append("\n\n---\n*Exported from Novus Writer on ");
        r.append(exported_on);
        r.append("*");
        r
    }

    /// The plain-text file of a document stamped with `exported_on`.
    pub fn render_plain_text(document: &ExportDocument, exported_on: &str) -> (r: String)
        ensures
            r@ == plain_file(document.title@, content_text(*document), exported_on@),
    {
        let mut r = document.title.clone();
        r.append("\n\n");
        r.append(Self::content_of(document));
        r.append("\n\n---\nExported from Novus Writer on ");
        r.append(exported_on);
        r
    }

    /// The RTF file of a document.
    pub fn render_rtf(document: &ExportDocument) -> (r: String)
        ensures
            r@ == rtf_file(document.title@, content_text(*document)),
    {
        let mut r = "{\\rtf1\\ansi\\deff0\n{\\fonttbl{\\f0\\fswiss\\fprq2\\fcharset0 Arial;}}\n{\\*\\generator Novus Writer;}\n\\viewkind4\\uc1\\pard\\f0\\fs24\n\\b ".to_string();
        push_rtf(&mut r, document.title.as_str(), true);
        r.append("\\b0\\par\n\\par\n");
        push_rtf(&mut r, Self::content_of(document), false);
        r.append("\\par\n}");
        assert(r@ =~= rtf_file(document.title@, content_text(*document)));
        r
    }

    /// The text of the file a document exports to in the given format. The
    /// Markdown and plain-text files are stamped with the current local time;
    /// `None` when the HTML page cannot write a time.
    pub fn render(document: &ExportDocument, format: ExportFormat) -> (r: Option<String>)
        ensures
            match format {
                ExportFormat::Pdf => r matches Some(s) && s@ == pdf_file(document.title@, content_text(*document)),
                ExportFormat::Docx => r matches Some(s) && s@ == docx_file(document.title@, content_text(*document)),
                ExportFormat::Odt => r matches Some(s) && s@ == odt_file(document.title@, content_text(*document)),
                ExportFormat::Rtf => r matches Some(s) && s@ == rtf_file(document.title@, content_text(*document)),
                ExportFormat::Markdown => r matches Some(s) && exists|t: Seq<char>| is_minute_text(t) && s@ == markdown_file(document.title@, content_text(*document), t),
                ExportFormat::PlainText => r matches Some(s) && exists|t: Seq<char>| is_minute_text(t) && s@ == plain_file(document.title@, content_text(*document), t),
                ExportFormat::Html => match (utc_minute_text(document.created_at.secs, document.created_at.nanos),
                    utc_minute_text(document.updated_at.secs, document.updated_at.nanos)) {
                    (Some(c), Some(m)) => r matches Some(s) && s@ == html_file(document.title@, content_text(*document), c, m),
                    _ => r is None,
                },
            },
    {
        match format {
            ExportFormat::Pdf => Some(Self::render_pdf(document)),
            ExportFormat::Docx => Some(Self::render_docx(document)),
            ExportFormat::Html => Self::render_html(document),
            ExportFormat::Markdown => {
                let now = local_minute_text_now();
                Some(Self::render_markdown(document, now.as_str()))
            },
            ExportFormat::PlainText => {
                let now = local_minute_text_now();
                Some(Self::render_plain_text(document, now.as_str()))
            },
            ExportFormat::Rtf => Some(Self::render_rtf(document)),
            ExportFormat::Odt => Some(Self::render_odt(document)),
        }
    }
}

} // verus!
