//! Citations in the common styles and sorted bibliographies.

use vstd::prelude::*;
use crate::clock::{Timestamp, now, new_id, is_uuid_v4_text};
use crate::ordering::{sort_strings, sorted_texts, texts_of};
use crate::text::{str_eq, to_chars, occurs_at};

verus! {

/// A citation style.
#[derive(Debug, Clone, PartialEq, Eq)]
pub struct CitationStyle {
    pub id: String,
    pub name: String,
    pub description: Option<String>,
    pub is_default: bool,
}

/// The fields of a citation that formatting reads: the `author`, `title`
/// and `year` entries of its JSON object, where they are strings.
#[derive(Debug, Clone, PartialEq, Eq)]
pub struct CitationFields {
    pub author: Option<String>,
    pub title: Option<String>,
    pub year: Option<String>,
}

/// A generated bibliography.
#[derive(Debug, Clone, PartialEq, Eq)]
pub struct Bibliography {
    pub id: String,
    pub document_id: String,
    pub style: String,
    pub entries: Vec<String>,
    pub generated_at: Timestamp,
}

/// A field's text, or the default when it is missing.
pub open spec fn or_default(field: Option<String>, default: Seq<char>) -> Seq<char> {
    match field {
        Some(s) => s@,
        None => default,
    }
}

/// APA: `(Author, Year)` and `Author. (Year). <i>Title</i>.`
pub open spec fn apa_spec(author: Seq<char>, title: Seq<char>, year: Seq<char>) -> (Seq<char>, Seq<char>) {
    ("("@ + author + ", "@ + year + ")"@, author + ". ("@ + year + "). <i>"@ + title + "</i>."@)
}

/// MLA: `(Author Year)` and `Author. <i>Title</i>. Year`
pub open spec fn mla_spec(author: Seq<char>, title: Seq<char>, year: Seq<char>) -> (Seq<char>, Seq<char>) {
    ("("@ + author + " "@ + year + ")"@, author + ". <i>"@ + title + "</i>. "@ + year)
}

/// Chicago (author-date): `(Author Year)` and `Author. <i>Title</i> (Year).`
pub open spec fn chicago_spec(author: Seq<char>, title: Seq<char>, year: Seq<char>) -> (Seq<char>, Seq<char>) {
    ("("@ + author + " "@ + year + ")"@, author + ". <i>"@ + title + "</i> ("@ + year + ")."@)
}

/// The first character of the author, or `A` when the author is empty.
pub open spec fn initial(author: Seq<char>) -> char {
    if author.len() > 0 {
        author[0]
    } else {
        'A'
    }
}

/// IEEE: `[X] ` with the author's initial, and `[1] Author. "Title.", Year`
pub open spec fn ieee_spec(author: Seq<char>, title: Seq<char>, year: Seq<char>) -> (Seq<char>, Seq<char>) {
    ("["@ + seq![initial(author)] + "] "@, "[1] "@ + author + ". \""@ + title + ".\", "@ + year)
}

/// Harvard: `(Author, Year)` and `Author. (Year) <i>Title</i>.`
pub open spec fn harvard_spec(author: Seq<char>, title: Seq<char>, year: Seq<char>) -> (Seq<char>, Seq<char>) {
    ("("@ + author + ", "@ + year + ")"@, author + ". ("@ + year + ") <i>"@ + title + "</i>."@)
}

/// Any other style: `(Author) Year` and `Author. (Year)`
pub open spec fn plain_spec(author: Seq<char>, year: Seq<char>) -> (Seq<char>, Seq<char>) {
    ("("@ + author + ") "@ + year, author + ". ("@ + year + ")"@)
}

/// The in-text citation and bibliography entry for a citation style, with
/// `Unknown Author`, `Untitled` and `n.d.` for missing fields.
pub open spec fn citation_spec(citation_type: Seq<char>, fields: CitationFields) -> (Seq<char>, Seq<char>) {
    let author = or_default(fields.author, "Unknown Author"@);
    let title = or_default(fields.title, "Untitled"@);
    let year = or_default(fields.year, "n.d."@);
    if citation_type == "apa"@ {
        apa_spec(author, title, year)
    } else if citation_type == "mla"@ {
        mla_spec(author, title, year)
    } else if citation_type == "chicago"@ {
        chicago_spec(author, title, year)
    } else if citation_type == "ieee"@ {
        ieee_spec(author, title, year)
    } else if citation_type == "harvard"@ {
        harvard_spec(author, title, year)
    } else {
        plain_spec(author, year)
    }
}

/// `p` appears somewhere in `s`.
pub open spec fn contains_text(s: Seq<char>, p: Seq<char>) -> bool {
    exists|i: int| occurs_at(s, i, p)
}

/// A citation names its work: the in-text citation gives the author and the
/// year, and the bibliography entry starts with the author and gives the
/// title and the year.
pub open spec fn names_work(c: (Seq<char>, Seq<char>), author: Seq<char>, title: Seq<char>, year: Seq<char>) -> bool {
    &&& contains_text(c.0, author)
    &&& contains_text(c.0, year)
    &&& occurs_at(c.1, 0, author)
    &&& contains_text(c.1, title)
    &&& contains_text(c.1, year)
}

/// `p` occurs in `a + p + b`, after `a`.
proof fn lemma_occurs_between(a: Seq<char>, p: Seq<char>, b: Seq<char>)
    ensures
        occurs_at(a + p + b, a.len() as int, p),
        contains_text(a + p + b, p),
{
    assert((a + p + b).subrange(a.len() as int, (a.len() + p.len()) as int) =~= p);
}

/// In every author-date style (APA, MLA, Chicago, Harvard) a citation names
/// its work: the in-text citation gives the author and the year, and the
/// bibliography entry starts with the author and gives the title and the
/// year. The MLA entry ends with the year.
pub proof fn law_author_date_citations_name_the_work(author: Seq<char>, title: Seq<char>, year: Seq<char>)
    ensures
        names_work(apa_spec(author, title, year), author, title, year),
        names_work(mla_spec(author, title, year), author, title, year),
        names_work(chicago_spec(author, title, year), author, title, year),
        names_work(harvard_spec(author, title, year), author, title, year),
        mla_spec(author, title, year).1.len() >= year.len(),
        mla_spec(author, title, year).1.skip(mla_spec(author, title, year).1.len() - year.len())
            == year,
{
    let e = seq![];
    // APA
    let (c, b) = apa_spec(author, title, year);
    lemma_occurs_between("("@, author, ", "@ + year + ")"@);
    lemma_occurs_between("("@ + author + ", "@, year, ")"@);
    lemma_occurs_between(e, author, ". ("@ + year + "). <i>"@ + title + "</i>."@);
    assert(b =~= e + author + (". ("@ + year + "). <i>"@ + title + "</i>."@));
    lemma_occurs_between(author + ". ("@, year, "). <i>"@ + title + "</i>."@);
    assert(b =~= (author + ". ("@) + year + ("). <i>"@ + title + "</i>."@));
    lemma_occurs_between(author + ". ("@ + year + "). <i>"@, title, "</i>."@);
    assert(c =~= "("@ + author + (", "@ + year + ")"@));
    assert(c =~= ("("@ + author + ", "@) + year + ")"@);
    // MLA
    let (c, b) = mla_spec(author, title, year);
    lemma_occurs_between("("@, author, " "@ + year + ")"@);
    assert(c =~= "("@ + author + (" "@ + year + ")"@));
    lemma_occurs_between("("@ + author + " "@, year, ")"@);
    lemma_occurs_between(e, author, ". <i>"@ + title + "</i>. "@ + year);
    assert(b =~= e + author + (". <i>"@ + title + "</i>. "@ + year));
    lemma_occurs_between(author + ". <i>"@, title, "</i>. "@ + year);
    assert(b =~= (author + ". <i>"@) + title + ("</i>. "@ + year));
    lemma_occurs_between(author + ". <i>"@ + title + "</i>. "@, year, e);
    assert(b =~= (author + ". <i>"@ + title + "</i>. "@) + year + e);
    assert(b.skip(b.len() - year.len()) =~= year);
    // Chicago
    let (c, b) = chicago_spec(author, title, year);
    lemma_occurs_between("("@, author, " "@ + year + ")"@);
    assert(c =~= "("@ + author + (" "@ + year + ")"@));
    lemma_occurs_between("("@ + author + " "@, year, ")"@);
    lemma_occurs_between(e, author, ". <i>"@ + title + "</i> ("@ + year + ")."@);
    assert(b =~= e + author + (". <i>"@ + title + "</i> ("@ + year + ")."@));
    lemma_occurs_between(author + ". <i>"@, title, "</i> ("@ + year + ")."@);
    assert(b =~= (author + ". <i>"@) + title + ("</i> ("@ + year + ")."@));
    lemma_occurs_between(author + ". <i>"@ + title + "</i> ("@, year, ")."@);
    // Harvard
    let (c, b) = harvard_spec(author, title, year);
    lemma_occurs_between("("@, author, ", "@ + year + ")"@);
    assert(c =~= "("@ + author + (", "@ + year + ")"@));
    lemma_occurs_between("("@ + author + ", "@, year, ")"@);
    lemma_occurs_between(e, author, ". ("@ + year + ") <i>"@ + title + "</i>."@);
    assert(b =~= e + author + (". ("@ + year + ") <i>"@ + title + "</i>."@));
    lemma_occurs_between(author + ". ("@, year, ") <i>"@ + title + "</i>."@);
    assert(b =~= (author + ". ("@) + year + (") <i>"@ + title + "</i>."@));
    lemma_occurs_between(author + ". ("@ + year + ") <i>"@, title, "</i>."@);
}

/// The texts of a pair of strings.
pub open spec fn pair_texts(p: (String, String)) -> (Seq<char>, Seq<char>) {
    (p.0@, p.1@)
}

/// A field's text, or the default when it is missing.
fn field_or<'a>(field: &'a Option<String>, default: &'a str) -> (r: &'a str)
    ensures
        r@ == or_default(*field, default@),
{
    match field {
        Some(s) => s.as_str(),
        None => default,
    }
}

/// The APA in-text citation and bibliography entry.
pub fn format_apa(author: &str, title: &str, year: &str, entry_type: &str, fields: &CitationFields) -> (r: (String, String))
    ensures
        pair_texts(r) == apa_spec(author@, title@, year@),
{
    let mut a = "(".to_string();
    a.append(author);
    a.append(", ");
    a.append(year);
    a.append(")");
    let mut b = author.to_string();
    b.append(". (");
    b.append(year);
    b.append("). <i>");
    b.append(title);
    b.append("</i>.");
    (a, b)
}

/// The MLA in-text citation and bibliography entry.
pub fn format_mla(author: &str, title: &str, year: &str, entry_type: &str, fields: &CitationFields) -> (r: (String, String))
    ensures
        pair_texts(r) == mla_spec(author@, title@, year@),
{
    let mut a = "(".to_string();
    a.append(author);
    a.append(" ");
    a.append(year);
    a.append(")");
    let mut b = author.to_string();
    b.append(". <i>");
    b.append(title);
    b.append("</i>. ");
    b.append(year);
    (a, b)
}

/// The Chicago (author-date) in-text citation and bibliography entry.
pub fn format_chicago(author: &str, title: &str, year: &str, entry_type: &str, fields: &CitationFields) -> (r: (String, String))
    ensures
        pair_texts(r) == chicago_spec(author@, title@, year@),
{
    let mut a = "(".to_string();
    a.append(author);
    a.append(" ");
    a.append(year);
    a.append(")");
    let mut b = author.to_string();
    b.append(". <i>");
    b.append(title);
    b.append("</i> (");
    b.append(year);
    b.append(").");
    (a, b)
}

/// The IEEE in-text citation and bibliography entry.
pub fn format_ieee(author: &str, title: &str, year: &str, entry_type: &str, fields: &CitationFields) -> (r: (String, String))
    ensures
        pair_texts(r) == ieee_spec(author@, title@, year@),
{
    let chars = to_chars(author);
    let first = if chars.len() > 0 {
        chars[0]
    } else {
        'A'
    };
    let mut a = "[".to_string();
    a.push(first);
    a.append("] ");
    let mut b = "[1] ".to_string();
    b.append(author);
    b.append(". \"");
    b.append(title);
    b.append(".\", ");
    b.append(year);
    (a, b)
}

/// The Harvard in-text citation and bibliography entry.
pub fn format_harvard(author: &str, title: &str, year: &str, entry_type: &str, fields: &CitationFields) -> (r: (String, String))
    ensures
        pair_texts(r) == harvard_spec(author@, title@, year@),
{
    let mut a = "(".to_string();
    a.append(author);
    a.append(", ");
    a.append(year);
    a.append(")");
    let mut b = author.to_string();
    b.append(". (");
    b.append(year);
    b.append(") <i>");
    b.append(title);
    b.append("</i>.");
    (a, b)
}

/// The in-text citation and bibliography entry of a citation in the given
/// style (`apa`, `mla`, `chicago`, `ieee`, `harvard`, or a plain fallback).
pub fn format_citation(citation_type: &str, entry_type: &str, fields: &CitationFields) -> (r: (String, String))
    ensures
        pair_texts(r) == citation_spec(citation_type@, *fields),
{
    let author = field_or(&fields.author, "Unknown Author");
    let title = field_or(&fields.title, "Untitled");
    let year = field_or(&fields.year, "n.d.");
    if str_eq(citation_type, "apa") {
        format_apa(author, title, year, entry_type, fields)
    } else if str_eq(citation_type, "mla") {
        format_mla(author, title, year, entry_type, fields)
    } else if str_eq(citation_type, "chicago") {
        format_chicago(author, title, year, entry_type, fields)
    } else if str_eq(citation_type, "ieee") {
        format_ieee(author, title, year, entry_type, fields)
    } else if str_eq(citation_type, "harvard") {
        format_harvard(author, title, year, entry_type, fields)
    } else {
        let mut a = "(".to_string();
        a.append(author);
        a.append(") ");
        a.append(year);
        let mut b = author.to_string();
        b.append(". (");
        b.append(year);
        b.append(")");
        (a, b)
    }
}

/// The styles offered: APA (the default), MLA, Chicago, IEEE and Harvard,
/// as `(id, name, description, is_default)`.
pub open spec fn style_table() -> Seq<(Seq<char>, Seq<char>, Seq<char>, bool)> {
    seq![
        ("apa"@, "APA 7th Edition"@, "American Psychological Association"@, true),
        ("mla"@, "MLA 9th Edition"@, "Modern Language Association"@, false),
        ("chicago"@, "Chicago Manual of Style"@, "University of Chicago Press"@, false),
        ("ieee"@, "IEEE Style"@, "Institute of Electrical and Electronics Engineers"@, false),
        ("harvard"@, "Harvard Style"@, "Author-Date System"@, false),
    ]
}

/// A style matches its row of the table.
pub open spec fn style_matches(s: CitationStyle, row: (Seq<char>, Seq<char>, Seq<char>, bool)) -> bool {
    &&& s.id@ == row.0
    &&& s.name@ == row.1
    &&& s.description matches Some(d) && d@ == row.2
    &&& s.is_default == row.3
}

/// A citation style.
fn style(id: &str, name: &str, description: &str, is_default: bool) -> (s: CitationStyle)
    ensures
        style_matches(s, (id@, name@, description@, is_default)),
{
    CitationStyle {
        id: id.to_string(),
        name: name.to_string(),
        description: Some(description.to_string()),
        is_default,
    }
}

/// The citation styles on offer, in table order.
pub fn get_citation_styles() -> (r: Vec<CitationStyle>)
    ensures
        r@.len() == style_table().len(),
        forall|i: int| 0 <= i < r@.len() ==> style_matches(#[trigger] r@[i], style_table()[i]),
{
    let mut r: Vec<CitationStyle> = Vec::new();
    r.push(style("apa", "APA 7th Edition", "American Psychological Association", true));
    r.push(style("mla", "MLA 9th Edition", "Modern Language Association", false));
    r.push(style("chicago", "Chicago Manual of Style", "University of Chicago Press", false));
    r.push(style("ieee", "IEEE Style", "Institute of Electrical and Electronics Engineers", false));
    r.push(style("harvard", "Harvard Style", "Author-Date System", false));
    r
}

impl Bibliography {
    /// A bibliography of the given entries: a fresh identifier, the entries
    /// sorted alphabetically (the same entries, each as often), stamped now.
    pub fn generate(document_id: &str, style: &str, entries: Vec<String>) -> (b: Bibliography)
        ensures
            is_uuid_v4_text(b.id@),
            b.document_id@ == document_id@,
            b.style@ == style@,
            sorted_texts(texts_of(b.entries@)),
            texts_of(b.entries@).to_multiset() == texts_of(entries@).to_multiset(),
    {
        let sorted = sort_strings(entries);
        Bibliography {
            id: new_id(),
            document_id: document_id.to_string(),
            style: style.to_string(),
            entries: sorted,
            generated_at: now(),
        }
    }
}

} // verus!
