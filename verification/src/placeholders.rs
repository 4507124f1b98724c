//! `{{name}}` placeholders and the values that fill them.

use vstd::prelude::*;
use crate::text::{replace_all, replace_all_spec, law_replace_all_absent, lemma_no_brace_no_occurrence};

verus! {

/// One entry of a JSON object of values as the filling logic reads it: the
/// key, and the text when the value is a JSON string (`None` otherwise).
#[derive(Debug, Clone, PartialEq, Eq)]
pub struct JsonField {
    pub key: String,
    pub text: Option<String>,
}

/// The placeholder for `name`: `{{name}}`.
pub open spec fn placeholder_spec(name: Seq<char>) -> Seq<char> {
    "{{"@ + name + "}}"@
}

/// The placeholder text for `name`.
pub fn placeholder(name: &str) -> (r: String)
    ensures
        r@ == placeholder_spec(name@),
{
    let mut r = "{{".to_string();
    r.append(name);
    r.append("}}");
    r
}

/// `content` after replacing, field by field in order, every placeholder of a
/// field that holds text by that text. Fields without text change nothing.
pub open spec fn apply_fields_spec(content: Seq<char>, fields: Seq<JsonField>) -> Seq<char>
    decreases fields.len(),
{
    if fields.len() == 0 {
        content
    } else {
        let next = match fields[0].text {
            Some(t) => replace_all_spec(content, placeholder_spec(fields[0].key@), t@),
            None => content,
        };
        apply_fields_spec(next, fields.drop_first())
    }
}

/// Fills the placeholders of `content` from `fields`, in order.
pub fn apply_fields(content: &str, fields: &Vec<JsonField>) -> (r: String)
    ensures
        r@ == apply_fields_spec(content@, fields@),
{
    let mut cur = content.to_string();
    let mut i: usize = 0;
    assert(fields@.skip(0) =~= fields@);
    while i < fields.len()
        invariant
            i <= fields@.len(),
            apply_fields_spec(cur@, fields@.skip(i as int)) == apply_fields_spec(content@, fields@),
        decreases fields.len() - i,
    {
        assert(fields@.skip(i as int).drop_first() =~= fields@.skip(i + 1));
        match &fields[i].text {
            Some(t) => {
                let ph = placeholder(fields[i].key.as_str());
                cur = replace_all(cur.as_str(), ph.as_str(), t.as_str());
            },
            None => {},
        }
        i = i + 1;
    }
    assert(fields@.skip(i as int).len() == 0);
    cur
}

/// Every placeholder starts with `{`.
pub proof fn lemma_placeholder_starts_with_brace(name: Seq<char>)
    ensures
        placeholder_spec(name).len() > 0,
        placeholder_spec(name)[0] == '{',
{
    reveal_strlit("{{");
    reveal_strlit("}}");
}

/// A text without `{` has no placeholder, and filling fields leaves it as it is.
pub proof fn law_fields_leave_plain_text(content: Seq<char>, fields: Seq<JsonField>)
    requires
        !content.contains('{'),
    ensures
        apply_fields_spec(content, fields) == content,
    decreases fields.len(),
{
    if fields.len() > 0 {
        if let Some(t) = fields[0].text {
            let ph = placeholder_spec(fields[0].key@);
            lemma_placeholder_starts_with_brace(fields[0].key@);
            lemma_no_brace_no_occurrence(content, ph);
            law_replace_all_absent(content, ph, t@);
        }
        law_fields_leave_plain_text(content, fields.drop_first());
    }
}

} // verus!
