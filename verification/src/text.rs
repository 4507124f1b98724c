//! Character-level string operations shared by search, templates and mail merge.

use vstd::prelude::*;

verus! {

/// `String::push` appends one character.
pub assume_specification[ String::push ](s: &mut String, ch: char)
    ensures
        final(s)@ == old(s)@.push(ch),
;

/// The lowercase form of a text as `str::to_lowercase` gives it (Unicode
/// lowercase mapping, each character mapped to one or more characters).
pub uninterp spec fn lowercase_of(s: Seq<char>) -> Seq<char>;

/// The lowercase form of an ASCII character: `A` to `Z` become `a` to `z`,
/// every other character stays as it is.
pub open spec fn ascii_lower(c: char) -> char {
    if 'A' <= c && c <= 'Z' {
        ((c as u32) + 32) as char
    } else {
        c
    }
}

/// Every character of the text is ASCII.
pub open spec fn is_ascii_text(s: Seq<char>) -> bool {
    forall|i: int| 0 <= i < s.len() ==> (#[trigger] s[i] as u32) < 128
}

/// `lowercase_of` lowers the text letter by letter with `ascii_lower`,
/// when the text is ASCII.
pub open spec fn lowercase_is_ascii_lowering(s: Seq<char>) -> bool {
    is_ascii_text(s) ==> lowercase_of(s) == s.map_values(|c: char| ascii_lower(c))
}

/// Calls `str::to_lowercase`. The claims: the result is `lowercase_of` the
/// input; since each character maps to one or more characters, it is empty
/// exactly when the input is; and, as the Unicode lowercase mapping of an
/// ASCII character is its ASCII lowercase, an ASCII text is lowered
/// character by character with `ascii_lower`.
#[verifier::external_body]
pub(crate) fn to_lowercase(s: &str) -> (r: String)
    ensures
        r@ == lowercase_of(s@),
        (r@.len() == 0) == (s@.len() == 0),
        is_ascii_text(s@) ==> r@ == s@.map_values(|c: char| ascii_lower(c)),
{
    s.to_lowercase()
}

/// The characters of a string slice, in order.
pub fn to_chars(s: &str) -> (v: Vec<char>)
    ensures
        v@ == s@,
{
    let mut v: Vec<char> = Vec::new();
    for c in it: s.chars()
        invariant
            v@ == it.seq().take(it.index() as int),
    {
        v.push(c);
    }
    v
}

/// The string made of the given characters.
pub fn from_chars(v: &Vec<char>) -> (s: String)
    ensures
        s@ == v@,
{
    let mut s = String::new();
    let mut i: usize = 0;
    while i < v.len()
        invariant
            i <= v.len(),
            s@ == v@.take(i as int),
        decreases v.len() - i,
    {
        s.push(v[i]);
        i = i + 1;
        assert(s@ =~= v@.take(i as int));
    }
    assert(v@.take(v.len() as int) =~= v@);
    s
}

/// `p` occurs in `s` starting at index `i`.
pub open spec fn occurs_at(s: Seq<char>, i: int, p: Seq<char>) -> bool {
    0 <= i && i + p.len() <= s.len() && s.subrange(i, i + p.len()) =~= p
}

/// What `str::replace` gives for an empty pattern: `r` before every
/// character and once more at the end.
pub open spec fn replace_empty(s: Seq<char>, r: Seq<char>) -> Seq<char>
    decreases s.len(),
{
    if s.len() == 0 {
        r
    } else {
        r + seq![s[0]] + replace_empty(s.drop_first(), r)
    }
}

/// Every non-overlapping occurrence of `p` in `s`, found from left to right,
/// replaced by `r` (the meaning of `str::replace`).
pub open spec fn replace_all_spec(s: Seq<char>, p: Seq<char>, r: Seq<char>) -> Seq<char>
    decreases s.len(),
{
    if p.len() == 0 {
        replace_empty(s, r)
    } else if s.len() < p.len() {
        s
    } else if s.take(p.len() as int) =~= p {
        r + replace_all_spec(s.skip(p.len() as int), p, r)
    } else {
        seq![s[0]] + replace_all_spec(s.drop_first(), p, r)
    }
}

/// The first index at which `p` occurs in `s` at or after `from`, if any.
pub open spec fn first_occurrence_from(s: Seq<char>, p: Seq<char>, from: int) -> Option<int>
    decreases s.len() - from,
{
    if from < 0 || from + p.len() > s.len() {
        None
    } else if occurs_at(s, from, p) {
        Some(from)
    } else {
        first_occurrence_from(s, p, from + 1)
    }
}

/// The first index at which `p` occurs in `s`, if any (the meaning of `str::find`
/// counted in characters).
pub open spec fn first_occurrence(s: Seq<char>, p: Seq<char>) -> Option<int> {
    first_occurrence_from(s, p, 0)
}

/// The first occurrence of `p` in `s` replaced by `r`; `s` itself when there is none.
pub open spec fn replace_first_spec(s: Seq<char>, p: Seq<char>, r: Seq<char>) -> Seq<char> {
    match first_occurrence(s, p) {
        Some(i) => s.take(i) + r + s.skip(i + p.len()),
        None => s,
    }
}

/// Whether `p` occurs in `s` at index `i`.
pub fn occurs_at_exec(s: &Vec<char>, i: usize, p: &Vec<char>) -> (b: bool)
    ensures
        b == occurs_at(s@, i as int, p@),
{
    if i > s.len() || p.len() > s.len() - i {
        return false;
    }
    let mut j: usize = 0;
    while j < p.len()
        invariant
            i + p.len() <= s.len(),
            j <= p.len(),
            forall|k: int| 0 <= k < j ==> s@[i + k] == p@[k],
        decreases p.len() - j,
    {
        if s[i + j] != p[j] {
            assert(s@.subrange(i as int, i + p.len())[j as int] != p@[j as int]);
            return false;
        }
        j = j + 1;
    }
    assert(s@.subrange(i as int, i + p.len()) =~= p@);
    true
}

proof fn lemma_replace_all_step(s: Seq<char>, p: Seq<char>, r: Seq<char>, i: int)
    requires
        p.len() > 0,
        0 <= i < s.len(),
    ensures
        occurs_at(s, i, p) ==> replace_all_spec(s.skip(i), p, r) == r + replace_all_spec(
            s.skip(i + p.len()),
            p,
            r,
        ),
        !occurs_at(s, i, p) ==> replace_all_spec(s.skip(i), p, r) == seq![s[i]]
            + replace_all_spec(s.skip(i + 1), p, r),
{
    let t = s.skip(i);
    if t.len() >= p.len() {
        assert(t.take(p.len() as int) =~= s.subrange(i, i + p.len()));
    }
    if i + p.len() <= s.len() {
        assert(t.skip(p.len() as int) =~= s.skip(i + p.len()));
    }
    assert(t.drop_first() =~= s.skip(i + 1));
}

proof fn lemma_replace_empty_step(s: Seq<char>, r: Seq<char>, i: int)
    requires
        0 <= i < s.len(),
    ensures
        replace_empty(s.skip(i), r) == r + seq![s[i]] + replace_empty(s.skip(i + 1), r),
{
    assert(s.skip(i).drop_first() =~= s.skip(i + 1));
}

/// `s` with every non-overlapping occurrence of `p` replaced by `r`.
pub fn replace_all_chars(s: &Vec<char>, p: &Vec<char>, r: &Vec<char>) -> (out: Vec<char>)
    ensures
        out@ == replace_all_spec(s@, p@, r@),
{
    let mut out: Vec<char> = Vec::new();
    let mut i: usize = 0;
    assert(s@.skip(0) =~= s@);
    assert(out@ + replace_all_spec(s@, p@, r@) =~= replace_all_spec(s@, p@, r@));
    assert(out@ + replace_empty(s@, r@) =~= replace_empty(s@, r@));
    if p.len() == 0 {
        while i < s.len()
            invariant
                i <= s.len(),
                p@.len() == 0,
                out@ + replace_empty(s@.skip(i as int), r@) == replace_all_spec(s@, p@, r@),
            decreases s.len() - i,
        {
            proof {
                lemma_replace_empty_step(s@, r@, i as int);
            }
            let ghost before = out@;
            append_chars(&mut out, r);
            out.push(s[i]);
            assert(out@ =~= before + r@ + seq![s@[i as int]]);
            i = i + 1;
        }
        assert(s@.skip(i as int) =~= Seq::<char>::empty());
        append_chars(&mut out, r);
        return out;
    }
    while i < s.len()
        invariant
            i <= s.len(),
            p@.len() > 0,
            out@ + replace_all_spec(s@.skip(i as int), p@, r@) == replace_all_spec(s@, p@, r@),
        decreases s.len() - i,
    {
        let ghost before = out@;
        proof {
            lemma_replace_all_step(s@, p@, r@, i as int);
        }
        if occurs_at_exec(s, i, p) {
            append_chars(&mut out, r);
            assert(out@ + replace_all_spec(s@.skip(i + p@.len()), p@, r@) =~= before + (r@
                + replace_all_spec(s@.skip(i + p@.len()), p@, r@)));
            i = i + p.len();
        } else {
            out.push(s[i]);
            assert(out@ + replace_all_spec(s@.skip(i + 1), p@, r@) =~= before + (seq![s@[i as int]]
                + replace_all_spec(s@.skip(i + 1), p@, r@)));
            i = i + 1;
        }
    }
    assert(s@.skip(i as int).len() == 0);
    assert(out@ + s@.skip(i as int) =~= out@);
    out
}

/// The first index at or after `from` where `p` occurs in `s`, if any.
pub fn first_occurrence_exec(s: &Vec<char>, p: &Vec<char>, from: usize) -> (r: Option<usize>)
    ensures
        match r {
            Some(i) => first_occurrence_from(s@, p@, from as int) == Some(i as int),
            None => first_occurrence_from(s@, p@, from as int) is None,
        },
    decreases s.len() + 1 - from,
{
    if from > s.len() || p.len() > s.len() - from {
        return None;
    }
    if occurs_at_exec(s, from, p) {
        Some(from)
    } else {
        first_occurrence_exec(s, p, from + 1)
    }
}

/// `s` with the first occurrence of `p` replaced by `r`; unchanged when there is none.
pub fn replace_first_chars(s: &Vec<char>, p: &Vec<char>, r: &Vec<char>) -> (out: Vec<char>)
    ensures
        out@ == replace_first_spec(s@, p@, r@),
{
    match first_occurrence_exec(s, p, 0) {
        Some(i) => {
            proof {
                lemma_first_occurrence_bounds(s@, p@, 0);
            }
            let mut out: Vec<char> = Vec::new();
            let mut j: usize = 0;
            while j < i
                invariant
                    j <= i,
                    i + p@.len() <= s@.len(),
                    out@ == s@.take(j as int),
                decreases i - j,
            {
                out.push(s[j]);
                j = j + 1;
                assert(out@ =~= s@.take(j as int));
            }
            append_chars(&mut out, r);
            let n = s.len();
            assert(i + p@.len() <= n);
            let mut k: usize = i + p.len();
            let ghost mid = out@;
            while k < s.len()
                invariant
                    i + p@.len() <= k <= s@.len(),
                    out@ == mid + s@.subrange(i + p@.len(), k as int),
                decreases s.len() - k,
            {
                out.push(s[k]);
                k = k + 1;
                assert(out@ =~= mid + s@.subrange(i + p@.len(), k as int));
            }
            assert(s@.subrange(i + p@.len(), s@.len() as int) =~= s@.skip(i + p@.len()));
            out
        },
        None => {
            let mut out: Vec<char> = Vec::new();
            append_chars(&mut out, s);
            assert(out@ =~= s@);
            out
        },
    }
}

/// Putting nothing before every character changes nothing.
proof fn lemma_replace_empty_nothing(s: Seq<char>)
    ensures
        replace_empty(s, Seq::empty()) == s,
    decreases s.len(),
{
    if s.len() > 0 {
        lemma_replace_empty_nothing(s.drop_first());
        assert(Seq::<char>::empty() + seq![s[0]] + s.drop_first() =~= s);
    }
}

/// Replacing every occurrence of a text by itself changes nothing.
pub proof fn law_replace_all_with_itself(s: Seq<char>, p: Seq<char>)
    ensures
        replace_all_spec(s, p, p) == s,
    decreases s.len(),
{
    if p.len() == 0 {
        assert(p =~= Seq::<char>::empty());
        lemma_replace_empty_nothing(s);
    } else if s.len() >= p.len() {
        if s.take(p.len() as int) =~= p {
            law_replace_all_with_itself(s.skip(p.len() as int), p);
            assert(s.take(p.len() as int) + s.skip(p.len() as int) =~= s);
        } else {
            law_replace_all_with_itself(s.drop_first(), p);
            assert(seq![s[0]] + s.drop_first() =~= s);
        }
    }
}

/// Replacing the first occurrence of a text by itself changes nothing.
pub proof fn law_replace_first_with_itself(s: Seq<char>, p: Seq<char>)
    ensures
        replace_first_spec(s, p, p) == s,
{
    lemma_first_occurrence_bounds(s, p, 0);
    if let Some(i) = first_occurrence(s, p) {
        assert(s.subrange(i, i + p.len()) =~= p);
        assert(s.take(i) + p + s.skip(i + p.len()) =~= s);
    }
}

/// Where a non-empty text does not occur, replacing it changes nothing.
pub proof fn law_replace_all_absent(s: Seq<char>, p: Seq<char>, r: Seq<char>)
    requires
        p.len() > 0,
        forall|i: int| !occurs_at(s, i, p),
    ensures
        replace_all_spec(s, p, r) == s,
    decreases s.len(),
{
    if s.len() >= p.len() {
        assert(!occurs_at(s, 0, p));
        assert(s.subrange(0, p.len() as int) =~= s.take(p.len() as int));
        let t = s.drop_first();
        assert forall|i: int| !occurs_at(t, i, p) by {
            if occurs_at(t, i, p) {
                assert(t.subrange(i, i + p.len()) =~= s.subrange(i + 1, i + 1 + p.len()));
                assert(occurs_at(s, i + 1, p));
            }
        }
        law_replace_all_absent(t, p, r);
        assert(seq![s[0]] + t =~= s);
    }
}

/// A text that starts with `{` does not occur in a text without `{`.
pub proof fn lemma_no_brace_no_occurrence(s: Seq<char>, p: Seq<char>)
    requires
        p.len() > 0,
        p[0] == '{',
        !s.contains('{'),
    ensures
        forall|i: int| !occurs_at(s, i, p),
{
    assert forall|i: int| !occurs_at(s, i, p) by {
        if occurs_at(s, i, p) {
            assert(s.subrange(i, i + p.len())[0] == s[i]);
            assert(s[i] == '{');
        }
    }
}

/// A first occurrence lies within the text.
pub proof fn lemma_first_occurrence_bounds(s: Seq<char>, p: Seq<char>, from: int)
    ensures
        first_occurrence_from(s, p, from) matches Some(i) ==> from <= i && i + p.len() <= s.len()
            && occurs_at(s, i, p),
    decreases s.len() - from,
{
    if from < 0 || from + p.len() > s.len() {
    } else if occurs_at(s, from, p) {
    } else {
        lemma_first_occurrence_bounds(s, p, from + 1);
    }
}

/// `s` with every non-overlapping occurrence of `p` replaced by `r`, as
/// `str::replace` does.
pub fn replace_all(s: &str, p: &str, r: &str) -> (out: String)
    ensures
        out@ == replace_all_spec(s@, p@, r@),
{
    let sv = to_chars(s);
    let pv = to_chars(p);
    let rv = to_chars(r);
    let ov = replace_all_chars(&sv, &pv, &rv);
    from_chars(&ov)
}

/// `s` with the first occurrence of `p` replaced by `r`.
pub fn replace_first(s: &str, p: &str, r: &str) -> (out: String)
    ensures
        out@ == replace_first_spec(s@, p@, r@),
{
    let sv = to_chars(s);
    let pv = to_chars(p);
    let rv = to_chars(r);
    let ov = replace_first_chars(&sv, &pv, &rv);
    from_chars(&ov)
}

/// Whether two texts are equal, character by character.
pub fn str_eq(a: &str, b: &str) -> (r: bool)
    ensures
        r == (a@ == b@),
{
    let av = to_chars(a);
    let bv = to_chars(b);
    if av.len() != bv.len() {
        return false;
    }
    let mut i: usize = 0;
    while i < av.len()
        invariant
            av@ == a@,
            bv@ == b@,
            av@.len() == bv@.len(),
            i <= av@.len(),
            forall|k: int| 0 <= k < i ==> av@[k] == bv@[k],
        decreases av.len() - i,
    {
        if av[i] != bv[i] {
            assert(av@[i as int] != bv@[i as int]);
            return false;
        }
        i = i + 1;
    }
    assert(av@ =~= bv@);
    true
}

/// Appends the characters of `r` to `out`.
pub fn append_chars(out: &mut Vec<char>, r: &Vec<char>)
    ensures
        final(out)@ == old(out)@ + r@,
{
    let mut j: usize = 0;
    while j < r.len()
        invariant
            j <= r.len(),
            out@ == old(out)@ + r@.take(j as int),
        decreases r.len() - j,
    {
        out.push(r[j]);
        j = j + 1;
        assert(out@ =~= old(out)@ + r@.take(j as int));
    }
    assert(r@.take(r.len() as int) =~= r@);
}

} // verus!
