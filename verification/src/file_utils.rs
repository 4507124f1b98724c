//! File-name helpers.

use vstd::prelude::*;
use crate::text::occurs_at;
use crate::patterns::option_text;

verus! {

/// A character that may stand in a file name as it is: an ASCII letter or
/// digit, `.`, `-` or `_`.
pub open spec fn is_filename_safe(c: char) -> bool {
    ('a' <= c && c <= 'z') || ('A' <= c && c <= 'Z') || ('0' <= c && c <= '9') || c == '.' || c
        == '-' || c == '_'
}

/// The character that stands for `c` in a sanitized file name.
pub open spec fn safe_char(c: char) -> char {
    if is_filename_safe(c) {
        c
    } else {
        '_'
    }
}

/// The sanitized form of a name: each character replaced by `safe_char`.
pub open spec fn sanitized(name: Seq<char>) -> Seq<char> {
    name.map_values(|c: char| safe_char(c))
}

/// Generates a safe file name from a string: every character other than an
/// ASCII letter or digit, `.`, `-` or `_` becomes `_`.
pub fn sanitize_filename(name: &str) -> (r: String)
    ensures
        r@ == sanitized(name@),
{
    let mut r = String::new();
    for c in it: name.chars()
        invariant
            r@ == sanitized(it.seq().take(it.index() as int)),
    {
        let safe = if ('a' <= c && c <= 'z') || ('A' <= c && c <= 'Z') || ('0' <= c && c <= '9')
            || c == '.' || c == '-' || c == '_' {
            c
        } else {
            '_'
        };
        proof {
            assert(it.seq().take(it.index() + 1) =~= it.seq().take(it.index() as int).push(c));
        }
        r.push(safe);
        assert(r@ =~= sanitized(it.seq().take(it.index() + 1)));
    }
    r
}

/// A sanitized name has the length of the name, holds only safe
/// characters, and sanitizing it again changes nothing.
pub proof fn law_sanitize_idempotent(name: Seq<char>)
    ensures
        sanitized(name).len() == name.len(),
        forall|i: int| 0 <= i < name.len() ==> is_filename_safe(#[trigger] sanitized(name)[i]),
        sanitized(sanitized(name)) == sanitized(name),
{
    assert(sanitized(sanitized(name)) =~= sanitized(name));
}

/// `e` is what `Path::extension` may give for `path` on any platform: text
/// without `.` or `/` that follows a `.` somewhere in the path.
pub open spec fn plausible_extension(path: Seq<char>, e: Seq<char>) -> bool {
    &&& !e.contains('.')
    &&& !e.contains('/')
    &&& exists|i: int| occurs_at(path, i, seq!['.'] + e)
}

/// On every platform, `path` ends in a file name whose last `.` is at index
/// `i` and has text before it: after `i` come one or more characters other
/// than `.` and `/`, the character before `i` is no `/`, and the path holds
/// no `\\` or `:` and does not start with `//` (so that no platform reads a
/// prefix such as `C:` or `\\server\share` in it, and `/` is its only
/// separator).
pub open spec fn extension_dot_at(path: Seq<char>, i: int) -> bool {
    &&& 0 < i < path.len() - 1
    &&& path[i] == '.'
    &&& path[i - 1] != '/'
    &&& forall|j: int| i < j < path.len() ==> path[j] != '.' && path[j] != '/'
    &&& forall|j: int| 0 <= j < path.len() ==> path[j] != '\\' && path[j] != ':'
    &&& !(path[0] == '/' && path[1] == '/')
}

/// Calls `std::path::Path::extension` on the path and converts the result to
/// a `String`. The claims, from the documentation ("the portion of the file
/// name after the final `.`", the file name being the final component, `/`
/// a separator on every platform): an extension holds neither `.` nor a `/`
/// separator and follows a `.` in the path; a path without any `.` has none;
/// and a path that `extension_dot_at` describes has the text after that `.`
/// as its extension. Which extension other paths have depends on how the
/// platform splits paths into components, which is not stated.
#[verifier::external_body]
fn path_extension(path: &str) -> (r: Option<String>)
    ensures
        match r {
            Some(e) => plausible_extension(path@, e@),
            None => true,
        },
        !path@.contains('.') ==> r is None,
        forall|i: int|
            #[trigger] extension_dot_at(path@, i) ==> option_text(r) == Some(path@.skip(i + 1)),
{
    std::path::Path::new(path).extension().and_then(|e| e.to_str()).map(|e| e.to_string())
}

/// The extension of the file that `path` names, without the dot, if it has
/// one: the text after the file name's last `.` wherever the path is read
/// alike on every platform.
pub fn get_extension(path: &str) -> (r: Option<String>)
    ensures
        match r {
            Some(e) => plausible_extension(path@, e@),
            None => true,
        },
        !path@.contains('.') ==> r is None,
        forall|i: int|
            #[trigger] extension_dot_at(path@, i) ==> option_text(r) == Some(path@.skip(i + 1)),
{
    path_extension(path)
}

} // verus!
