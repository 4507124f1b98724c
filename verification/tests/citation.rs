use novus_writer::citation::{
    format_apa, format_chicago, format_citation, format_harvard, format_ieee, format_mla,
    get_citation_styles, Bibliography, CitationFields,
};

fn fields(author: Option<&str>, title: Option<&str>, year: Option<&str>) -> CitationFields {
    CitationFields {
        author: author.map(|s| s.to_string()),
        title: title.map(|s| s.to_string()),
        year: year.map(|s| s.to_string()),
    }
}

#[test]
fn test_apa_formatting() {
    let fields = fields(Some("Smith, J."), Some("The Art of Programming"), Some("2023"));
    let (in_text, biblio) = format_apa("Smith, J.", "The Art of Programming", "2023", "book", &fields);
    assert_eq!(in_text, "(Smith, J., 2023)");
    assert!(biblio.contains("Smith, J."));
    assert!(biblio.contains("2023"));
    assert!(biblio.contains("The Art of Programming"));
}

#[test]
fn test_mla_formatting() {
    let (in_text, biblio) = format_mla(
        "Johnson, M.",
        "Digital Humanities",
        "2022",
        "journal_article",
        &fields(None, None, None),
    );
    assert_eq!(in_text, "(Johnson, M. 2022)");
    assert!(biblio.contains("Johnson, M."));
    assert!(biblio.contains("Digital Humanities"));
}

#[test]
fn other_styles() {
    let f = fields(None, None, None);
    assert_eq!(
        format_apa("Smith", "T", "2020", "book", &f),
        ("(Smith, 2020)".to_string(), "Smith. (2020). <i>T</i>.".to_string())
    );
    assert_eq!(
        format_chicago("Smith", "T", "2020", "book", &f),
        ("(Smith 2020)".to_string(), "Smith. <i>T</i> (2020).".to_string())
    );
    assert_eq!(
        format_ieee("Smith", "T", "2020", "book", &f),
        ("[S] ".to_string(), "[1] Smith. \"T.\", 2020".to_string())
    );
    assert_eq!(format_ieee("", "T", "2020", "book", &f).0, "[A] ");
    assert_eq!(
        format_harvard("Smith", "T", "2020", "book", &f),
        ("(Smith, 2020)".to_string(), "Smith. (2020) <i>T</i>.".to_string())
    );
}

#[test]
fn format_citation_uses_defaults_for_missing_fields() {
    let (in_text, biblio) = format_citation("apa", "book", &fields(None, None, None));
    assert_eq!(in_text, "(Unknown Author, n.d.)");
    assert_eq!(biblio, "Unknown Author. (n.d.). <i>Untitled</i>.");
    let (in_text, biblio) = format_citation("other", "book", &fields(Some("Kay"), Some("X"), Some("1999")));
    assert_eq!(in_text, "(Kay) 1999");
    assert_eq!(biblio, "Kay. (1999)");
    let (in_text, _) = format_citation("mla", "book", &fields(Some("Kay"), Some("X"), Some("1999")));
    assert_eq!(in_text, "(Kay 1999)");
}

#[test]
fn citation_styles_on_offer() {
    let styles = get_citation_styles();
    let ids: Vec<&str> = styles.iter().map(|s| s.id.as_str()).collect();
    assert_eq!(ids, vec!["apa", "mla", "chicago", "ieee", "harvard"]);
    assert!(styles[0].is_default);
    assert!(styles[1..].iter().all(|s| !s.is_default));
    assert_eq!(styles[3].name, "IEEE Style");
    assert_eq!(styles[4].description, Some("Author-Date System".to_string()));
}

#[test]
fn bibliography_entries_are_sorted() {
    let entries = vec!["b".to_string(), "a".to_string(), "B".to_string(), "a".to_string()];
    let b = Bibliography::generate("doc", "apa", entries);
    assert_eq!(b.entries, vec!["B".to_string(), "a".to_string(), "a".to_string(), "b".to_string()]);
    assert_eq!(b.document_id, "doc");
    assert_eq!(b.style, "apa");
    assert_eq!(b.id.len(), 36);
}
