//! Find and replace over document text.

use vstd::prelude::*;
use vstd::utf8::*;
use vstd::string::StringSliceAdditionalSpecFns;
use crate::error::AppError;
use crate::patterns::{
    compile_regex, regex_compile_error, regex_find_spans, regex_match_spans, regex_replace_all,
    regex_replace_all_text, regex_replace_first, regex_replace_first_text,
};
use crate::text::{
    lowercase_of, replace_all_spec, replace_first, replace_first_spec, to_lowercase,
    lowercase_is_ascii_lowering,
};

verus! {

broadcast use vstd::utf8::encode_utf8_valid_utf8;

/// One match of a search: its byte offset and byte length in the searched
/// text, and up to fifty bytes of text on either side of it.
#[derive(Debug, Clone, PartialEq, Eq)]
pub struct SearchResult {
    pub position: usize,
    pub length: usize,
    pub context: String,
}

/// `q` occurs in `b` starting at byte `i`.
pub open spec fn bytes_occur_at(b: Seq<u8>, i: int, q: Seq<u8>) -> bool {
    0 <= i && i + q.len() <= b.len() && b.subrange(i, i + q.len()) =~= q
}

/// The spans of the successive non-overlapping occurrences of `q` in `b`
/// found by scanning from byte `from`: each search resumes where the last
/// match ended.
pub open spec fn literal_spans(b: Seq<u8>, q: Seq<u8>, from: int) -> Seq<(int, int)>
    decreases b.len() - from,
{
    if q.len() == 0 || from < 0 || from + q.len() > b.len() {
        seq![]
    } else if bytes_occur_at(b, from, q) {
        seq![(from, from + q.len())] + literal_spans(b, q, from + q.len())
    } else {
        literal_spans(b, q, from + 1)
    }
}

/// The byte range of the context shown around a match: fifty bytes before
/// and after it, cut at the ends of the text.
pub open spec fn context_bounds(len: int, span: (int, int)) -> (int, int) {
    (
        if span.0 >= 50 {
            span.0 - 50
        } else {
            0
        },
        if span.1 + 50 <= len {
            span.1 + 50
        } else {
            len
        },
    )
}

/// The context range of a match starts and ends on character boundaries, so
/// that the text can be cut there.
pub open spec fn context_fits(b: Seq<u8>, span: (int, int)) -> bool {
    let (cs, ce) = context_bounds(b.len() as int, span);
    is_char_boundary(b, cs) && is_char_boundary(b, ce)
}

/// A search result reports the match `span` of the text whose bytes are `b`.
pub open spec fn describes_match(r: SearchResult, b: Seq<u8>, span: (int, int)) -> bool {
    let (cs, ce) = context_bounds(b.len() as int, span);
    &&& r.position == span.0
    &&& r.length == span.1 - span.0
    &&& encode_utf8(r.context@) == b.subrange(cs, ce)
}

/// Byte spans as pairs of integers.
pub open spec fn int_spans(v: Seq<(usize, usize)>) -> Seq<(int, int)> {
    v.map_values(|p: (usize, usize)| (p.0 as int, p.1 as int))
}

/// Every span lies within the text, start before end.
pub open spec fn spans_within(b: Seq<u8>, spans: Seq<(int, int)>) -> bool {
    forall|k: int| 0 <= k < spans.len() ==> 0 <= #[trigger] spans[k].0 <= spans[k].1 <= b.len()
}

/// The text searched: the content itself, or its lowercase form.
pub open spec fn folded(s: Seq<char>, case_sensitive: bool) -> Seq<char> {
    if case_sensitive {
        s
    } else {
        lowercase_of(s)
    }
}

/// The match spans of a search, or `None` when the query is a regular
/// expression that does not compile.
pub open spec fn find_spans(content: Seq<char>, query: Seq<char>, case_sensitive: bool, use_regex: bool) -> Option<Seq<(int, int)>> {
    let h = folded(content, case_sensitive);
    let n = folded(query, case_sensitive);
    if use_regex {
        if regex_compile_error(n) is Some {
            None
        } else {
            Some(regex_match_spans(n, h))
        }
    } else {
        Some(literal_spans(encode_utf8(h), encode_utf8(n), 0))
    }
}

/// The inputs on which a search completes: a plain-text query must not be
/// empty (the scan would never advance), and the context of every match must
/// fall on character boundaries of the searched text.
pub open spec fn find_text_defined(content: Seq<char>, query: Seq<char>, case_sensitive: bool, use_regex: bool) -> bool {
    &&& (!use_regex ==> query.len() > 0)
    &&& match find_spans(content, query, case_sensitive, use_regex) {
        None => true,
        Some(spans) => forall|k: int|
            0 <= k < spans.len() ==> context_fits(
                encode_utf8(folded(content, case_sensitive)),
                #[trigger] spans[k],
            ),
    }
}

/// What a completed search returns.
pub open spec fn find_text_result(
    r: Result<Vec<SearchResult>, AppError>,
    content: Seq<char>,
    query: Seq<char>,
    case_sensitive: bool,
    use_regex: bool,
) -> bool {
    let b = encode_utf8(folded(content, case_sensitive));
    match find_spans(content, query, case_sensitive, use_regex) {
        None => r matches Err(AppError::InvalidOperation(m)) && m@ == "Invalid regex: "@
            + regex_compile_error(folded(query, case_sensitive))->Some_0,
        Some(spans) => r matches Ok(v) && v@.len() == spans.len() && forall|k: int|
            0 <= k < spans.len() ==> describes_match(#[trigger] v@[k], b, spans[k]),
    }
}

proof fn lemma_encode_nonempty(s: Seq<char>)
    requires
        s.len() > 0,
    ensures
        encode_utf8(s).len() > 0,
{
}

proof fn lemma_literal_spans_within(b: Seq<u8>, q: Seq<u8>, from: int)
    ensures
        spans_within(b, literal_spans(b, q, from)),
        forall|k: int|
            0 <= k < literal_spans(b, q, from).len() ==> (#[trigger] literal_spans(b, q, from)[k]).0
                >= from,
    decreases b.len() - from,
{
    if q.len() == 0 || from < 0 || from + q.len() > b.len() {
    } else if bytes_occur_at(b, from, q) {
        lemma_literal_spans_within(b, q, from + q.len());
        let rest = literal_spans(b, q, from + q.len());
        assert(literal_spans(b, q, from) == seq![(from, from + q.len())] + rest);
        assert forall|k: int| 0 <= k < literal_spans(b, q, from).len() implies 0
            <= #[trigger] literal_spans(b, q, from)[k].0 <= literal_spans(b, q, from)[k].1 <= b.len()
            && literal_spans(b, q, from)[k].0 >= from by {
            if k > 0 {
                assert(literal_spans(b, q, from)[k] == rest[k - 1]);
            }
        }
    } else {
        lemma_literal_spans_within(b, q, from + 1);
    }
}

/// Whether `q` occurs in `b` at byte `i`.
fn bytes_occur_at_exec(b: &[u8], i: usize, q: &[u8]) -> (r: bool)
    ensures
        r == bytes_occur_at(b@, i as int, q@),
{
    if i > b.len() || q.len() > b.len() - i {
        return false;
    }
    let mut j: usize = 0;
    while j < q.len()
        invariant
            i + q@.len() <= b@.len(),
            i + q.len() <= b.len(),
            j <= q@.len(),
            forall|k: int| 0 <= k < j ==> b@[i + k] == q@[k],
        decreases q.len() - j,
    {
        if b[i + j] != q[j] {
            assert(b@.subrange(i as int, i + q@.len())[j as int] != q@[j as int]);
            return false;
        }
        j = j + 1;
    }
    assert(b@.subrange(i as int, i + q@.len()) =~= q@);
    true
}

/// The byte spans of the successive occurrences of `query` in `text`.
pub fn literal_match_spans(text: &str, query: &str) -> (r: Vec<(usize, usize)>)
    requires
        query@.len() > 0,
    ensures
        int_spans(r@) == literal_spans(encode_utf8(text@), encode_utf8(query@), 0),
{
    let b = text.as_bytes();
    let q = query.as_bytes();
    proof {
        lemma_encode_nonempty(query@);
    }
    let ghost bs = encode_utf8(text@);
    let ghost qs = encode_utf8(query@);
    let mut r: Vec<(usize, usize)> = Vec::new();
    let mut i: usize = 0;
    while i < b.len() && q.len() <= b.len() - i
        invariant
            b@ == bs,
            q@ == qs,
            qs.len() > 0,
            i <= bs.len(),
            int_spans(r@) + literal_spans(bs, qs, i as int) == literal_spans(bs, qs, 0),
        decreases b.len() - i,
    {
        let ghost before = int_spans(r@);
        if bytes_occur_at_exec(b, i, q) {
            r.push((i, i + q.len()));
            assert(int_spans(r@) =~= before + seq![(i as int, i + qs.len())]);
            assert(int_spans(r@) + literal_spans(bs, qs, i + qs.len()) =~= before + literal_spans(
                bs,
                qs,
                i as int,
            ));
            i = i + q.len();
        } else {
            i = i + 1;
        }
    }
    assert(literal_spans(bs, qs, i as int) =~= Seq::<(int, int)>::empty());
    assert(int_spans(r@) =~= int_spans(r@) + Seq::<(int, int)>::empty());
    r
}

proof fn lemma_boundary_in_prefix(b: Seq<u8>, cs: int, ce: int)
    requires
        valid_utf8(b),
        0 <= cs <= ce <= b.len(),
        is_char_boundary(b, cs),
        is_char_boundary(b, ce),
    ensures
        valid_utf8(b.subrange(0, ce)),
        is_char_boundary(b.subrange(0, ce), cs),
{
    broadcast use valid_utf8_split, is_char_boundary_start_end_of_seq,
        is_char_boundary_iff_not_is_continuation_byte;

    let h = b.subrange(0, ce);
    assert(valid_utf8(h));
    if cs == 0 {
    } else if cs == ce {
        assert(is_char_boundary(h, h.len() as int));
    } else {
        assert(h[cs] == b[cs]);
        assert(is_char_boundary(b, cs) <==> !is_continuation_byte(b[cs]));
        assert(is_char_boundary(h, cs) <==> !is_continuation_byte(h[cs]));
    }
}

/// The text between two character boundaries, given in bytes.
fn cut_text(s: &str, cs: usize, ce: usize) -> (r: String)
    requires
        cs <= ce <= encode_utf8(s@).len(),
        is_char_boundary(encode_utf8(s@), cs as int),
        is_char_boundary(encode_utf8(s@), ce as int),
    ensures
        encode_utf8(r@) == encode_utf8(s@).subrange(cs as int, ce as int),
{
    proof {
        lemma_boundary_in_prefix(encode_utf8(s@), cs as int, ce as int);
    }
    let (head, _) = s.split_at(ce);
    let (_, mid) = head.split_at(cs);
    let r = mid.to_string();
    assert(encode_utf8(s@).subrange(0, ce as int).subrange(cs as int, ce as int) =~= encode_utf8(
        s@,
    ).subrange(cs as int, ce as int));
    r
}

/// The search results for the given match spans of `search_text`, or `None`
/// when the context of some match does not start and end on character
/// boundaries.
pub fn collect_results(search_text: &str, spans: &Vec<(usize, usize)>) -> (r: Option<Vec<SearchResult>>)
    requires
        spans_within(encode_utf8(search_text@), int_spans(spans@)),
    ensures
        r is Some <==> forall|k: int|
            0 <= k < spans@.len() ==> context_fits(
                encode_utf8(search_text@),
                #[trigger] int_spans(spans@)[k],
            ),
        r matches Some(v) ==> v@.len() == spans@.len() && forall|k: int|
            0 <= k < spans@.len() ==> describes_match(
                #[trigger] v@[k],
                encode_utf8(search_text@),
                int_spans(spans@)[k],
            ),
{
    let ghost b = encode_utf8(search_text@);
    let len = search_text.as_bytes().len();
    let mut v: Vec<SearchResult> = Vec::new();
    let mut k: usize = 0;
    while k < spans.len()
        invariant
            b == encode_utf8(search_text@),
            len == b.len(),
            spans_within(b, int_spans(spans@)),
            k <= spans@.len(),
            v@.len() == k,
            forall|j: int| 0 <= j < k ==> context_fits(b, #[trigger] int_spans(spans@)[j]),
            forall|j: int| 0 <= j < k ==> describes_match(#[trigger] v@[j], b, int_spans(spans@)[j]),
        decreases spans.len() - k,
    {
        let (start, end) = spans[k];
        assert(int_spans(spans@)[k as int] == (start as int, end as int));
        let cs = if start >= 50 {
            start - 50
        } else {
            0
        };
        let ce = if len - end >= 50 {
            end + 50
        } else {
            len
        };
        let cs_ok = search_text.is_char_boundary(cs);
        let ce_ok = search_text.is_char_boundary(ce);
        if !cs_ok || !ce_ok {
            assert(!context_fits(b, int_spans(spans@)[k as int]));
            return None;
        }
        let context = cut_text(search_text, cs, ce);
        v.push(SearchResult { position: start, length: end - start, context });
        k = k + 1;
    }
    Some(v)
}

/// Finds `query` in `content`. Without `case_sensitive` both are lowercased
/// first; with `use_regex` the query is a regular expression. Positions and
/// lengths count bytes of the searched text.
pub fn find_text(content: String, query: String, case_sensitive: bool, use_regex: bool) -> (r:
    Result<Vec<SearchResult>, AppError>)
    requires
        find_text_defined(content@, query@, case_sensitive, use_regex),
    ensures
        find_text_result(r, content@, query@, case_sensitive, use_regex),
        !case_sensitive ==> lowercase_is_ascii_lowering(content@) && lowercase_is_ascii_lowering(
            query@,
        ),
{
    match try_find_text(&content, &query, case_sensitive, use_regex) {
        Some(r) => r,
        None => Ok(Vec::new()),
    }
}

/// `find_text` on any input: `None` exactly where `find_text` is not defined
/// (an empty plain-text query, or a match whose context would cut a
/// character), and the result of `find_text` everywhere else.
pub fn try_find_text(content: &str, query: &str, case_sensitive: bool, use_regex: bool) -> (r:
    Option<Result<Vec<SearchResult>, AppError>>)
    ensures
        r is Some <==> find_text_defined(content@, query@, case_sensitive, use_regex),
        r matches Some(x) ==> find_text_result(x, content@, query@, case_sensitive, use_regex),
        !case_sensitive ==> lowercase_is_ascii_lowering(content@) && lowercase_is_ascii_lowering(
            query@,
        ),
{
    let search_text = if case_sensitive {
        content.to_string()
    } else {
        to_lowercase(content)
    };
    let search_query = if case_sensitive {
        query.to_string()
    } else {
        to_lowercase(query)
    };
    let ghost b = encode_utf8(search_text@);
    let spans = if use_regex {
        match compile_regex(search_query.as_str()) {
            Ok(re) => regex_find_spans(&re, search_text.as_str()),
            Err(msg) => {
                let mut m = "Invalid regex: ".to_string();
                m.append(msg.as_str());
                return Some(Err(AppError::InvalidOperation(m)));
            },
        }
    } else {
        if query.is_empty() {
            return None;
        }
        let v = literal_match_spans(search_text.as_str(), search_query.as_str());
        proof {
            lemma_literal_spans_within(b, encode_utf8(search_query@), 0);
        }
        v
    };
    assert(spans_within(b, int_spans(spans@)));
    assert(find_spans(content@, query@, case_sensitive, use_regex) == Some(int_spans(spans@)));
    assert(b == encode_utf8(folded(content@, case_sensitive)));
    match collect_results(search_text.as_str(), &spans) {
        Some(v) => Some(Ok(v)),
        None => {
            proof {
                let k = choose|k: int|
                    0 <= k < spans@.len() && !context_fits(b, #[trigger] int_spans(spans@)[k]);
                let sp = find_spans(content@, query@, case_sensitive, use_regex)->Some_0;
                assert(sp[k] == int_spans(spans@)[k]);
            }
            None
        },
    }
}

/// A case-insensitive search is a case-sensitive search of the lowercased
/// query in the lowercased content: both kinds of search are defined on the
/// same inputs and accept exactly the same results, for plain text and for
/// regular expressions alike (so a case-insensitive search for `World`
/// compiles and runs the pattern `world`).
pub proof fn law_case_insensitive_search_is_lowercased_search(
    r: Result<Vec<SearchResult>, AppError>,
    content: Seq<char>,
    query: Seq<char>,
    use_regex: bool,
)
    ensures
        find_spans(content, query, false, use_regex) == find_spans(
            lowercase_of(content),
            lowercase_of(query),
            true,
            use_regex,
        ),
        use_regex ==> find_spans(content, query, false, true) == if regex_compile_error(
            lowercase_of(query),
        ) is Some {
            None::<Seq<(int, int)>>
        } else {
            Some(regex_match_spans(lowercase_of(query), lowercase_of(content)))
        },
        find_text_result(r, content, query, false, use_regex) <==> find_text_result(
            r,
            lowercase_of(content),
            lowercase_of(query),
            true,
            use_regex,
        ),
{
}

/// The SQL `LIKE` pattern that matches text containing `query`:
/// `%query%`.
pub fn like_pattern(query: &str) -> (r: String)
    ensures
        r@ == "%"@ + query@ + "%"@,
{
    let mut r = "%".to_string();
    r.append(query);
    r.append("%");
    r
}

/// The regular expression a replace uses: the search text, prefixed with the
/// case-insensitive flag `(?i)` unless the search is case-sensitive.
pub open spec fn replace_pattern(search: Seq<char>, case_sensitive: bool) -> Seq<char> {
    if case_sensitive {
        search
    } else {
        "(?i)"@ + search
    }
}

/// What `replace_text` returns.
pub open spec fn replace_text_result(
    r: Result<String, AppError>,
    content: Seq<char>,
    search: Seq<char>,
    replace: Seq<char>,
    replace_all: bool,
    case_sensitive: bool,
    use_regex: bool,
) -> bool {
    if use_regex {
        let pattern = replace_pattern(search, case_sensitive);
        match regex_compile_error(pattern) {
            Some(msg) => r matches Err(AppError::InvalidOperation(m)) && m@ == "Invalid regex: "@
                + msg,
            None => r matches Ok(t) && t@ == if replace_all {
                regex_replace_all_text(pattern, content, replace)
            } else {
                regex_replace_first_text(pattern, content, replace)
            },
        }
    } else if !case_sensitive {
        r matches Err(AppError::InvalidOperation(m)) && m@
            == "Case-insensitive search requires regex"@
    } else {
        r matches Ok(t) && t@ == if replace_all {
            replace_all_spec(content, search, replace)
        } else {
            replace_first_spec(content, search, replace)
        }
    }
}

/// Replaces `search` in `content` by `replace`: every match, or only the
/// first. With `use_regex` the search is a regular expression (and the
/// replacement may refer to its groups); plain-text replacement is
/// case-sensitive only.
pub fn replace_text(
    content: String,
    search: String,
    replace: String,
    replace_all: bool,
    case_sensitive: bool,
    use_regex: bool,
) -> (r: Result<String, AppError>)
    ensures
        replace_text_result(r, content@, search@, replace@, replace_all, case_sensitive, use_regex),
{
    if use_regex {
        let pattern = if case_sensitive {
            search.clone()
        } else {
            let mut p = "(?i)".to_string();
            p.append(search.as_str());
            p
        };
        match compile_regex(pattern.as_str()) {
            Ok(re) => {
                if replace_all {
                    Ok(regex_replace_all(&re, content.as_str(), replace.as_str()))
                } else {
                    Ok(regex_replace_first(&re, content.as_str(), replace.as_str()))
                }
            },
            Err(msg) => {
                let mut m = "Invalid regex: ".to_string();
                m.append(msg.as_str());
                Err(AppError::InvalidOperation(m))
            },
        }
    } else {
        if !case_sensitive {
            return Err(
                AppError::InvalidOperation("Case-insensitive search requires regex".to_string()),
            );
        }
        if replace_all {
            Ok(crate::text::replace_all(content.as_str(), search.as_str(), replace.as_str()))
        } else {
            Ok(replace_first(content.as_str(), search.as_str(), replace.as_str()))
        }
    }
}

/// A plain-text, case-sensitive replacement of a text by itself gives back
/// the content unchanged, whether every match or only the first is replaced.
pub proof fn law_replace_text_with_itself(
    r: Result<String, AppError>,
    content: Seq<char>,
    search: Seq<char>,
    replace_all: bool,
)
    requires
        replace_text_result(r, content, search, search, replace_all, true, false),
    ensures
        r matches Ok(t) && t@ == content,
{
    crate::text::law_replace_all_with_itself(content, search);
    crate::text::law_replace_first_with_itself(content, search);
}

/// Every match that a plain-text search reports is an occurrence of the
/// query, and the matches come in order without overlapping.
pub proof fn law_literal_matches_are_occurrences(b: Seq<u8>, q: Seq<u8>, from: int)
    ensures
        forall|k: int|
            0 <= k < literal_spans(b, q, from).len() ==> bytes_occur_at(
                b,
                #[trigger] literal_spans(b, q, from)[k].0,
                q,
            ) && literal_spans(b, q, from)[k].1 == literal_spans(b, q, from)[k].0 + q.len(),
        forall|k: int|
            0 <= k < literal_spans(b, q, from).len() - 1 ==> #[trigger] literal_spans(b, q, from)[k].1
                <= literal_spans(b, q, from)[k + 1].0,
    decreases b.len() - from,
{
    if q.len() == 0 || from < 0 || from + q.len() > b.len() {
        assert(literal_spans(b, q, from).len() == 0);
    } else if bytes_occur_at(b, from, q) {
        law_literal_matches_are_occurrences(b, q, from + q.len());
        lemma_literal_spans_within(b, q, from + q.len());
        let rest = literal_spans(b, q, from + q.len());
        let all = literal_spans(b, q, from);
        assert(all == seq![(from, from + q.len())] + rest);
        assert forall|k: int| 0 <= k < all.len() implies bytes_occur_at(b, #[trigger] all[k].0, q)
            && all[k].1 == all[k].0 + q.len() by {
            if k > 0 {
                assert(all[k] == rest[k - 1]);
            }
        }
        assert forall|k: int| 0 <= k < all.len() - 1 implies #[trigger] all[k].1 <= all[k + 1].0 by {
            assert(all[k + 1] == rest[k]);
            if k > 0 {
                assert(all[k] == rest[k - 1]);
            }
        }
    } else {
        law_literal_matches_are_occurrences(b, q, from + 1);
        assert(literal_spans(b, q, from) == literal_spans(b, q, from + 1));
    }
}

/// A plain-text search misses no occurrence of the query: each one is a
/// reported match or starts inside one (matches do not overlap).
pub proof fn law_literal_search_misses_nothing(b: Seq<u8>, q: Seq<u8>, from: int, i: int)
    requires
        q.len() > 0,
        0 <= from <= i,
        bytes_occur_at(b, i, q),
    ensures
        exists|k: int|
            0 <= k < literal_spans(b, q, from).len() && #[trigger] literal_spans(b, q, from)[k].0 <= i
                < literal_spans(b, q, from)[k].1,
    decreases b.len() - from,
{
    let all = literal_spans(b, q, from);
    if bytes_occur_at(b, from, q) {
        assert(all[0] == (from, from + q.len()));
        if i >= from + q.len() {
            law_literal_search_misses_nothing(b, q, from + q.len(), i);
            let rest = literal_spans(b, q, from + q.len());
            let k = choose|k: int| 0 <= k < rest.len() && #[trigger] rest[k].0 <= i < rest[k].1;
            assert(all[k + 1] == rest[k]);
        } else {
            assert(all[0].0 <= i < all[0].1);
        }
    } else {
        law_literal_search_misses_nothing(b, q, from + 1, i);
    }
}

} // verus!
