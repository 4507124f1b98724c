use novus_writer::export::{export_format_for_path, format_for_extension};
use novus_writer::clock::Timestamp;
use novus_writer::export::{ExportDocument, ExportFormat, ExportService};

fn create_test_document() -> ExportDocument {
    ExportDocument {
        id: "test-1".to_string(),
        title: "Test Document".to_string(),
        content: Some("This is test content.".to_string()),
        created_at: Timestamp { secs: 1_700_000_000, nanos: 0 },
        updated_at: Timestamp { secs: 1_700_000_060, nanos: 0 },
        word_count: 4,
        character_count: 21,
    }
}

#[test]
fn test_export_format_from_extension() {
    assert_eq!(ExportFormat::from_extension("pdf"), Some(ExportFormat::Pdf));
    assert_eq!(ExportFormat::from_extension("PDF"), Some(ExportFormat::Pdf));
    assert_eq!(ExportFormat::from_extension("docx"), Some(ExportFormat::Docx));
    assert_eq!(ExportFormat::from_extension("html"), Some(ExportFormat::Html));
    assert_eq!(ExportFormat::from_extension("md"), Some(ExportFormat::Markdown));
    assert_eq!(ExportFormat::from_extension("txt"), Some(ExportFormat::PlainText));
    assert_eq!(ExportFormat::from_extension("unknown"), None);
}

#[test]
fn test_export_format_mime_types() {
    assert_eq!(ExportFormat::Pdf.get_mime_type(), "application/pdf");
    assert_eq!(ExportFormat::Html.get_mime_type(), "text/html");
    assert_eq!(ExportFormat::PlainText.get_mime_type(), "text/plain");
}

#[test]
fn test_export_to_plain_text() {
    let doc = create_test_document();
    let text = ExportService::render_plain_text(&doc, "2024-01-02 03:04");
    assert_eq!(
        text,
        "Test Document\n\nThis is test content.\n\n---\nExported from Novus Writer on 2024-01-02 03:04"
    );
}

#[test]
fn extension_round_trip_for_every_format() {
    for f in [
        ExportFormat::Pdf,
        ExportFormat::Docx,
        ExportFormat::Html,
        ExportFormat::Markdown,
        ExportFormat::PlainText,
        ExportFormat::Rtf,
        ExportFormat::Odt,
    ] {
        assert_eq!(ExportFormat::from_extension(f.get_extension()), Some(f));
    }
    assert_eq!(ExportFormat::from_extension("HTM"), Some(ExportFormat::Html));
    assert_eq!(ExportFormat::from_extension("Markdown"), Some(ExportFormat::Markdown));
    assert_eq!(ExportFormat::from_extension(""), None);
}

#[test]
fn content_to_html_escapes_and_breaks_paragraphs() {
    assert_eq!(ExportService::content_to_html("a<b>&c\r\nd"), "a&lt;b&gt;&amp;c</p><p>d");
}

#[test]
fn escape_rtf_escapes_braces_and_backslashes() {
    assert_eq!(ExportService::escape_rtf("{x}\\y\nz"), "\\{x\\}\\\\y\\par\nz");
}

#[test]
fn render_simple_formats() {
    let doc = create_test_document();
    assert_eq!(
        ExportService::render_pdf(&doc),
        "%PDF-1.4\n% Novus Writer PDF Export (Simulation)\nTitle: Test Document\nContent: This is test content."
    );
    assert_eq!(
        ExportService::render_docx(&doc),
        "[DOCX Document]\nTitle: Test Document\nContent: This is test content."
    );
    assert_eq!(
        ExportService::render_odt(&doc),
        "[ODT Document]\nTitle: Test Document\nContent: This is test content."
    );
    assert_eq!(
        ExportService::render_markdown(&doc, "2024-01-02 03:04"),
        "# Test Document\n\nThis is test content.\n\n---\n*Exported from Novus Writer on 2024-01-02 03:04*"
    );
}

#[test]
fn render_rtf_document() {
    let mut doc = create_test_document();
    doc.title = "A {b}".to_string();
    doc.content = Some("x\ny".to_string());
    let rtf = ExportService::render_rtf(&doc);
    assert!(rtf.starts_with("{\\rtf1\\ansi\\deff0\n"));
    assert!(rtf.contains("\\b A \\{b\\}\\b0\\par\n\\par\nx\\par\ny\\par\n}"));
}

#[test]
fn render_html_writes_times_and_escaped_content() {
    let mut doc = create_test_document();
    doc.content = Some("1 < 2".to_string());
    let html = ExportService::render_html(&doc).unwrap();
    assert!(html.contains("<title>Test Document</title>"));
    assert!(html.contains("<p><strong>Created:</strong> 2023-11-14 22:13</p>"));
    assert!(html.contains("<p><strong>Modified:</strong> 2023-11-14 22:14</p>"));
    assert!(html.contains("1 &lt; 2"));
}

#[test]
fn render_html_rejects_time_out_of_range() {
    let mut doc = create_test_document();
    doc.created_at = Timestamp { secs: i64::MAX, nanos: 0 };
    assert_eq!(ExportService::render_html(&doc), None);
}

#[test]
fn render_dispatches_on_format() {
    let doc = create_test_document();
    assert_eq!(ExportService::render(&doc, ExportFormat::Pdf), Some(ExportService::render_pdf(&doc)));
    assert_eq!(ExportService::render(&doc, ExportFormat::Rtf), Some(ExportService::render_rtf(&doc)));
    let md = ExportService::render(&doc, ExportFormat::Markdown).unwrap();
    assert!(md.starts_with("# Test Document\n\nThis is test content.\n\n---\n*Exported from Novus Writer on "));
    let none_content = ExportDocument { content: None, ..create_test_document() };
    assert_eq!(
        ExportService::render_docx(&none_content),
        "[DOCX Document]\nTitle: Test Document\nContent: "
    );
}

#[test]
fn format_for_paths_and_extensions() {
    assert_eq!(format_for_extension(Some("DOCX")), ExportFormat::Docx);
    assert_eq!(format_for_extension(Some("exe")), ExportFormat::PlainText);
    assert_eq!(format_for_extension(None), ExportFormat::PlainText);
    assert_eq!(export_format_for_path("/tmp/out/report.pdf"), ExportFormat::Pdf);
    assert_eq!(export_format_for_path("/tmp/out/page.HTM"), ExportFormat::Html);
    assert_eq!(export_format_for_path("/tmp/out/notes"), ExportFormat::PlainText);
    assert_eq!(export_format_for_path("/tmp/out/data.bin"), ExportFormat::PlainText);
}

#[test]
fn local_minute_text_has_date_and_minute_shape() {
    let t = novus_writer::clock::local_minute_text_now();
    let c: Vec<char> = t.chars().collect();
    let n = c.len();
    assert!(n >= 16);
    assert_eq!((c[n - 12], c[n - 9], c[n - 6], c[n - 3]), ('-', '-', ' ', ':'));
    assert!(c[..n - 12].iter().all(|d| d.is_ascii_digit()));
}

#[test]
fn render_stamps_markdown_with_a_minute() {
    let doc = create_test_document();
    let md = ExportService::render(&doc, ExportFormat::Markdown).unwrap();
    let prefix = "# Test Document\n\nThis is test content.\n\n---\n*Exported from Novus Writer on ";
    let stamp = md.strip_prefix(prefix).unwrap().strip_suffix('*').unwrap();
    let c: Vec<char> = stamp.chars().collect();
    let n = c.len();
    assert!(n >= 16);
    assert_eq!((c[n - 12], c[n - 9], c[n - 6], c[n - 3]), ('-', '-', ' ', ':'));
}
