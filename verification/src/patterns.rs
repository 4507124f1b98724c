//! Regular expressions, compiled and run by the `regex` crate.

use vstd::prelude::*;
use vstd::utf8::*;

verus! {

/// `regex::Regex`, a compiled regular expression; opaque here.
#[verifier::external_type_specification]
#[verifier::external_body]
pub struct ExRegex(regex::Regex);

/// What `regex::Regex::new` reports for a pattern: `None` when the pattern
/// compiles, else the text of the error it returns.
pub uninterp spec fn regex_compile_error(pattern: Seq<char>) -> Option<Seq<char>>;

/// The byte spans `(start, end)` of the successive non-overlapping matches
/// that `Regex::find_iter` yields for `pattern` over `haystack`.
pub uninterp spec fn regex_match_spans(pattern: Seq<char>, haystack: Seq<char>) -> Seq<(int, int)>;

/// The text that `Regex::replace_all` gives for `pattern` over `haystack`
/// with the replacement template `rep`.
pub uninterp spec fn regex_replace_all_text(
    pattern: Seq<char>,
    haystack: Seq<char>,
    rep: Seq<char>,
) -> Seq<char>;

/// The text that `Regex::replace` (first match only) gives for `pattern`
/// over `haystack` with the replacement template `rep`.
pub uninterp spec fn regex_replace_first_text(
    pattern: Seq<char>,
    haystack: Seq<char>,
    rep: Seq<char>,
) -> Seq<char>;

/// For each successive match that `Regex::captures_iter` yields for `pattern`
/// over `haystack`, the text of capture group 1, or `None` where the group
/// took no part in the match.
pub uninterp spec fn regex_group1_texts(pattern: Seq<char>, haystack: Seq<char>) -> Seq<Option<Seq<char>>>;

/// A compiled regular expression together with the pattern it was compiled from.
pub struct CompiledRegex {
    re: regex::Regex,
    pattern: String,
}

impl CompiledRegex {
    /// The pattern this expression was compiled from.
    pub closed spec fn pattern(&self) -> Seq<char> {
        self.pattern@
    }
}

/// The text of an optional string.
pub open spec fn option_text(o: Option<String>) -> Option<Seq<char>> {
    match o {
        Some(s) => Some(s@),
        None => None,
    }
}

/// Compiles `pattern` with `regex::Regex::new`. The claim: it succeeds exactly
/// when `regex_compile_error` says so, and an error carries the message text
/// that the crate's `Display` gives.
#[verifier::external_body]
pub(crate) fn compile_regex(pattern: &str) -> (r: Result<CompiledRegex, String>)
    ensures
        match r {
            Ok(c) => c.pattern() == pattern@ && regex_compile_error(pattern@) is None,
            Err(msg) => regex_compile_error(pattern@) == Some(msg@),
        },
{
    match regex::Regex::new(pattern) {
        Ok(re) => Ok(CompiledRegex { re, pattern: pattern.to_string() }),
        Err(e) => Err(e.to_string()),
    }
}

/// Runs `Regex::find_iter` and returns the byte span of each match. The claim:
/// the spans are `regex_match_spans` of the pattern and haystack, and, as the
/// crate documents for `Match`, each span has `start <= end`, lies within the
/// haystack and starts and ends on character boundaries.
#[verifier::external_body]
pub(crate) fn regex_find_spans(re: &CompiledRegex, haystack: &str) -> (r: Vec<(usize, usize)>)
    ensures
        r@.map_values(|p: (usize, usize)| (p.0 as int, p.1 as int)) == regex_match_spans(
            re.pattern(),
            haystack@,
        ),
        forall|k: int|
            0 <= k < r@.len() ==> {
                let (s, e) = #[trigger] r@[k];
                &&& s <= e <= encode_utf8(haystack@).len()
                &&& is_char_boundary(encode_utf8(haystack@), s as int)
                &&& is_char_boundary(encode_utf8(haystack@), e as int)
            },
{
    re.re.find_iter(haystack).map(|m| (m.start(), m.end())).collect()
}

/// Runs `Regex::replace_all`. The claim: the result is `regex_replace_all_text`
/// of the pattern, haystack and replacement template.
#[verifier::external_body]
pub(crate) fn regex_replace_all(re: &CompiledRegex, haystack: &str, rep: &str) -> (r: String)
    ensures
        r@ == regex_replace_all_text(re.pattern(), haystack@, rep@),
{
    re.re.replace_all(haystack, rep).to_string()
}

/// Runs `Regex::replace`, which replaces the first match only. The claim: the
/// result is `regex_replace_first_text` of the pattern, haystack and template.
#[verifier::external_body]
pub(crate) fn regex_replace_first(re: &CompiledRegex, haystack: &str, rep: &str) -> (r: String)
    ensures
        r@ == regex_replace_first_text(re.pattern(), haystack@, rep@),
{
    re.re.replace(haystack, rep).to_string()
}

/// Runs `Regex::captures_iter` and returns, for each match, the text of capture
/// group 1 if the group took part. The claim: these are `regex_group1_texts`
/// of the pattern and haystack.
#[verifier::external_body]
pub(crate) fn regex_group1_captures(re: &CompiledRegex, haystack: &str) -> (r: Vec<Option<String>>)
    ensures
        r@.map_values(|o: Option<String>| option_text(o)) == regex_group1_texts(
            re.pattern(),
            haystack@,
        ),
{
    re.re.captures_iter(haystack).map(|c| c.get(1).map(|m| m.as_str().to_string())).collect()
}

} // verus!
