//! The order of strings: lexicographic by character, as `String`'s `Ord`
//! orders their UTF-8 bytes.

use vstd::prelude::*;
use crate::text::to_chars;

verus! {

/// `a` comes no later than `b` in lexicographic order of characters.
pub open spec fn text_le(a: Seq<char>, b: Seq<char>) -> bool
    decreases a.len(),
{
    if a.len() == 0 {
        true
    } else if b.len() == 0 {
        false
    } else if (a[0] as u32) < (b[0] as u32) {
        true
    } else if (a[0] as u32) > (b[0] as u32) {
        false
    } else {
        text_le(a.drop_first(), b.drop_first())
    }
}

/// The texts are in ascending order.
pub open spec fn sorted_texts(s: Seq<Seq<char>>) -> bool {
    forall|i: int, j: int| 0 <= i < j < s.len() ==> text_le(s[i], s[j])
}

/// Any two texts are ordered one way or the other.
pub proof fn lemma_text_le_total(a: Seq<char>, b: Seq<char>)
    ensures
        text_le(a, b) || text_le(b, a),
    decreases a.len(),
{
    if a.len() > 0 && b.len() > 0 && a[0] as u32 == b[0] as u32 {
        lemma_text_le_total(a.drop_first(), b.drop_first());
    }
}

/// The order is transitive.
pub proof fn lemma_text_le_transitive(a: Seq<char>, b: Seq<char>, c: Seq<char>)
    requires
        text_le(a, b),
        text_le(b, c),
    ensures
        text_le(a, c),
    decreases a.len(),
{
    if a.len() > 0 && b.len() > 0 && c.len() > 0 && a[0] as u32 == b[0] as u32 && b[0] as u32
        == c[0] as u32 {
        lemma_text_le_transitive(a.drop_first(), b.drop_first(), c.drop_first());
    }
}

/// Whether `a` comes no later than `b`.
pub fn text_le_exec(a: &str, b: &str) -> (r: bool)
    ensures
        r == text_le(a@, b@),
{
    let av = to_chars(a);
    let bv = to_chars(b);
    let mut i: usize = 0;
    assert(av@.skip(0) =~= av@);
    assert(bv@.skip(0) =~= bv@);
    while i < av.len() && i < bv.len()
        invariant
            av@ == a@,
            bv@ == b@,
            i <= av@.len(),
            i <= bv@.len(),
            text_le(av@, bv@) == text_le(av@.skip(i as int), bv@.skip(i as int)),
        decreases av.len() - i,
    {
        let x = av[i];
        let y = bv[i];
        assert(av@.skip(i as int)[0] == x && bv@.skip(i as int)[0] == y);
        if (x as u32) < (y as u32) {
            return true;
        }
        if (x as u32) > (y as u32) {
            return false;
        }
        assert(av@.skip(i as int).drop_first() =~= av@.skip(i + 1));
        assert(bv@.skip(i as int).drop_first() =~= bv@.skip(i + 1));
        i = i + 1;
    }
    if i == av.len() {
        assert(av@.skip(i as int).len() == 0);
        true
    } else {
        assert(bv@.skip(i as int).len() == 0);
        false
    }
}

/// The texts of a list of strings.
pub open spec fn texts_of(v: Seq<String>) -> Seq<Seq<char>> {
    v.map_values(|s: String| s@)
}

/// The strings in ascending order (a stable insertion sort): the same
/// strings, each as often as before, sorted as `slice::sort` sorts them.
pub fn sort_strings(entries: Vec<String>) -> (out: Vec<String>)
    ensures
        sorted_texts(texts_of(out@)),
        texts_of(out@).to_multiset() == texts_of(entries@).to_multiset(),
{
    broadcast use vstd::seq_lib::to_multiset_build, vstd::seq_lib::to_multiset_insert;

    let mut out: Vec<String> = Vec::new();
    let mut i: usize = 0;
    assert(texts_of(out@) =~= texts_of(entries@.take(0)));
    while i < entries.len()
        invariant
            i <= entries@.len(),
            sorted_texts(texts_of(out@)),
            texts_of(out@).to_multiset() == texts_of(entries@.take(i as int)).to_multiset(),
        decreases entries.len() - i,
    {
        let e = entries[i].clone();
        let mut j: usize = 0;
        while j < out.len() && text_le_exec(out[j].as_str(), e.as_str())
            invariant
                j <= out@.len(),
                forall|k: int| 0 <= k < j ==> text_le(#[trigger] out@[k]@, e@),
            decreases out.len() - j,
        {
            j = j + 1;
        }
        let ghost old_texts = texts_of(out@);
        proof {
            if j < out@.len() {
                lemma_text_le_total(out@[j as int]@, e@);
            }
            assert forall|k: int| j <= k < old_texts.len() implies text_le(e@, #[trigger] old_texts[k]) by {
                if k > j {
                    lemma_text_le_transitive(e@, old_texts[j as int], old_texts[k]);
                }
            }
        }
        out.insert(j, e);
        assert(texts_of(out@) =~= old_texts.insert(j as int, e@));
        assert(texts_of(entries@.take(i + 1)) =~= texts_of(entries@.take(i as int)).push(entries@[i as int]@));
        proof {
            vstd::seq_lib::to_multiset_insert(old_texts, j as int, e@);
            vstd::seq_lib::to_multiset_build(texts_of(entries@.take(i as int)), e@);
        }
        assert(texts_of(out@).to_multiset() == old_texts.to_multiset().insert(e@));
        assert(texts_of(entries@.take(i + 1)).to_multiset() == texts_of(entries@.take(i as int)).to_multiset().insert(e@));
        proof {
            let t = texts_of(out@);
            assert forall|a: int, b: int| 0 <= a < b < t.len() implies text_le(t[a], t[b]) by {
                if a < j && b < j {
                } else if a < j && b == j {
                } else if a < j && b > j {
                    assert(t[b] == old_texts[b - 1]);
                } else if a == j {
                    assert(t[b] == old_texts[b - 1]);
                } else {
                    assert(t[a] == old_texts[a - 1]);
                    assert(t[b] == old_texts[b - 1]);
                }
            }
        }
        i = i + 1;
    }
    assert(entries@.take(i as int) =~= entries@);
    out
}

} // verus!
