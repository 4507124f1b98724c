//! Mail merge: filling one template per recipient.

use vstd::prelude::*;
use crate::clock::{Timestamp, now, new_id, is_uuid_v4_text};
use crate::placeholders::{JsonField, apply_fields, apply_fields_spec, law_fields_leave_plain_text};
use crate::text::{replace_all, replace_all_spec, law_replace_all_absent, lemma_no_brace_no_occurrence, occurs_at};

verus! {

/// A field that a mail-merge template may use.
#[derive(Debug, Clone, PartialEq, Eq)]
pub struct MailMergeField {
    pub id: String,
    pub name: String,
    /// `text`, `date`, `number`, `currency` or `address`.
    pub field_type: String,
    pub required: bool,
    pub default_value: Option<String>,
}

/// A recipient of a mail merge with their address and custom fields.
#[derive(Debug, Clone, PartialEq, Eq)]
pub struct MailMergeRecipient {
    pub id: String,
    pub first_name: String,
    pub last_name: String,
    pub email: Option<String>,
    pub address_line1: Option<String>,
    pub address_line2: Option<String>,
    pub city: Option<String>,
    pub state: Option<String>,
    pub postal_code: Option<String>,
    pub country: Option<String>,
    /// The entries of the recipient's JSON object of custom fields, in the
    /// object's order.
    pub custom_fields: Vec<JsonField>,
    pub created_at: Timestamp,
}

/// A mail-merge job over a template.
#[derive(Debug, Clone, PartialEq, Eq)]
pub struct MailMergeJob {
    pub id: String,
    pub document_id: String,
    pub template_content: String,
    /// `draft`, `processing`, `completed`, `failed` or `cancelled`.
    pub status: String,
    pub total_recipients: u32,
    pub processed_count: u32,
    pub created_by: String,
    pub created_at: Timestamp,
    pub completed_at: Option<Timestamp>,
}

/// The outcome of merging one recipient.
#[derive(Debug, Clone, PartialEq, Eq)]
pub struct MailMergeResult {
    pub job_id: String,
    pub recipient_id: String,
    pub output_document_id: String,
    pub status: String,
    pub error_message: Option<String>,
    pub created_at: Timestamp,
}

/// `content` with `placeholder` replaced by the value, when there is one.
pub open spec fn replace_optional(content: Seq<char>, placeholder: Seq<char>, value: Option<String>) -> Seq<char> {
    match value {
        Some(v) => replace_all_spec(content, placeholder, v@),
        None => content,
    }
}

/// The letter for one recipient: in this order, `{{first_name}}`,
/// `{{last_name}}`, then `{{email}}`, `{{address_line1}}`, `{{city}}`,
/// `{{state}}` and `{{postal_code}}` where the recipient has them, then each
/// custom field that holds text.
pub open spec fn merge_spec(template: Seq<char>, r: MailMergeRecipient) -> Seq<char> {
    let c1 = replace_all_spec(template, "{{first_name}}"@, r.first_name@);
    let c2 = replace_all_spec(c1, "{{last_name}}"@, r.last_name@);
    let c3 = replace_optional(c2, "{{email}}"@, r.email);
    let c4 = replace_optional(c3, "{{address_line1}}"@, r.address_line1);
    let c5 = replace_optional(c4, "{{city}}"@, r.city);
    let c6 = replace_optional(c5, "{{state}}"@, r.state);
    let c7 = replace_optional(c6, "{{postal_code}}"@, r.postal_code);
    apply_fields_spec(c7, r.custom_fields@)
}

/// Replaces `placeholder` by the value, when there is one.
fn replace_if_some(content: String, placeholder: &str, value: &Option<String>) -> (r: String)
    ensures
        r@ == replace_optional(content@, placeholder@, *value),
{
    match value {
        Some(v) => replace_all(content.as_str(), placeholder, v.as_str()),
        None => content,
    }
}

/// The letter for one recipient.
pub fn merge_document(template: &str, recipient: &MailMergeRecipient) -> (r: String)
    ensures
        r@ == merge_spec(template@, *recipient),
{
    let c = replace_all(template, "{{first_name}}", recipient.first_name.as_str());
    let c = replace_all(c.as_str(), "{{last_name}}", recipient.last_name.as_str());
    let c = replace_if_some(c, "{{email}}", &recipient.email);
    let c = replace_if_some(c, "{{address_line1}}", &recipient.address_line1);
    let c = replace_if_some(c, "{{city}}", &recipient.city);
    let c = replace_if_some(c, "{{state}}", &recipient.state);
    let c = replace_if_some(c, "{{postal_code}}", &recipient.postal_code);
    apply_fields(c.as_str(), &recipient.custom_fields)
}

/// The identifier of the document merged for a recipient: `merged_<job>_<recipient>`.
pub open spec fn merged_document_id(job_id: Seq<char>, recipient_id: Seq<char>) -> Seq<char> {
    "merged_"@ + job_id + "_"@ + recipient_id
}

/// The result of merging one recipient successfully.
pub open spec fn completed_result(r: MailMergeResult, job_id: Seq<char>, recipient: MailMergeRecipient) -> bool {
    &&& r.job_id@ == job_id
    &&& r.recipient_id@ == recipient.id@
    &&& r.output_document_id@ == merged_document_id(job_id, recipient.id@)
    &&& r.status@ == "completed"@
    &&& r.error_message is None
}

/// The results of processing a job: one completed result per recipient, in
/// order, and the number of recipients processed.
pub fn merge_results(job_id: &str, recipients: &Vec<MailMergeRecipient>) -> (r: (Vec<MailMergeResult>, u32))
    requires
        recipients@.len() <= u32::MAX,
    ensures
        r.0@.len() == recipients@.len(),
        r.1 == recipients@.len(),
        forall|i: int| 0 <= i < recipients@.len() ==> completed_result(#[trigger] r.0@[i], job_id@, recipients@[i]),
{
    let mut results: Vec<MailMergeResult> = Vec::new();
    let mut processed: u32 = 0;
    let mut i: usize = 0;
    while i < recipients.len()
        invariant
            recipients@.len() <= u32::MAX,
            i <= recipients@.len(),
            results@.len() == i,
            processed == i,
            forall|k: int| 0 <= k < i ==> completed_result(#[trigger] results@[k], job_id@, recipients@[k]),
        decreases recipients.len() - i,
    {
        let recipient = &recipients[i];
        let mut output_id = "merged_".to_string();
        output_id.append(job_id);
        output_id.append("_");
        output_id.append(recipient.id.as_str());
        results.push(MailMergeResult {
            job_id: job_id.to_string(),
            recipient_id: recipient.id.clone(),
            output_document_id: output_id,
            status: "completed".to_string(),
            error_message: None,
            created_at: now(),
        });
        processed = processed + 1;
        i = i + 1;
    }
    (results, processed)
}

impl MailMergeJob {
    /// A new draft job over the given recipients: a fresh identifier, status
    /// `draft`, the recipient count (as `u32`, wrapping as a cast does),
    /// nothing processed and not completed.
    pub fn draft(document_id: &str, template_content: &str, recipient_ids: &Vec<String>, created_by: &str) -> (j: MailMergeJob)
        ensures
            is_uuid_v4_text(j.id@),
            j.document_id@ == document_id@,
            j.template_content@ == template_content@,
            j.status@ == "draft"@,
            j.total_recipients == recipient_ids@.len() as u32,
            j.processed_count == 0,
            j.created_by@ == created_by@,
            j.completed_at is None,
    {
        #[verifier::truncate]
        let total = recipient_ids.len() as u32;
        MailMergeJob {
            id: new_id(),
            document_id: document_id.to_string(),
            template_content: template_content.to_string(),
            status: "draft".to_string(),
            total_recipients: total,
            processed_count: 0,
            created_by: created_by.to_string(),
            created_at: now(),
            completed_at: None,
        }
    }
}

/// Replacing a placeholder that starts with `{` leaves a text without `{`
/// as it is.
proof fn lemma_plain_text_replace(content: Seq<char>, placeholder: Seq<char>, value: Option<String>)
    requires
        !content.contains('{'),
        placeholder.len() > 0,
        placeholder[0] == '{',
    ensures
        replace_optional(content, placeholder, value) == content,
{
    lemma_no_brace_no_occurrence(content, placeholder);
    if let Some(v) = value {
        law_replace_all_absent(content, placeholder, v@);
    }
}

/// A template without any `{` holds no placeholder: every recipient's
/// letter is the template itself.
pub proof fn law_merge_leaves_plain_text(template: Seq<char>, r: MailMergeRecipient)
    requires
        !template.contains('{'),
    ensures
        merge_spec(template, r) == template,
{
    reveal_strlit("{{first_name}}");
    reveal_strlit("{{last_name}}");
    reveal_strlit("{{email}}");
    reveal_strlit("{{address_line1}}");
    reveal_strlit("{{city}}");
    reveal_strlit("{{state}}");
    reveal_strlit("{{postal_code}}");
    lemma_no_brace_no_occurrence(template, "{{first_name}}"@);
    law_replace_all_absent(template, "{{first_name}}"@, r.first_name@);
    lemma_no_brace_no_occurrence(template, "{{last_name}}"@);
    law_replace_all_absent(template, "{{last_name}}"@, r.last_name@);
    lemma_plain_text_replace(template, "{{email}}"@, r.email);
    lemma_plain_text_replace(template, "{{address_line1}}"@, r.address_line1);
    lemma_plain_text_replace(template, "{{city}}"@, r.city);
    lemma_plain_text_replace(template, "{{state}}"@, r.state);
    lemma_plain_text_replace(template, "{{postal_code}}"@, r.postal_code);
    law_fields_leave_plain_text(template, r.custom_fields@);
}

/// The text of an optional field.
pub open spec fn text_of(o: Option<String>) -> Option<Seq<char>> {
    match o {
        Some(s) => Some(s@),
        None => None,
    }
}

/// The placeholder of standard field `k`, counting in the order the merge
/// fills them: first name, last name, email, first address line, city,
/// state, postal code.
pub open spec fn standard_placeholder(k: int) -> Seq<char> {
    if k == 0 {
        "{{first_name}}"@
    } else if k == 1 {
        "{{last_name}}"@
    } else if k == 2 {
        "{{email}}"@
    } else if k == 3 {
        "{{address_line1}}"@
    } else if k == 4 {
        "{{city}}"@
    } else if k == 5 {
        "{{state}}"@
    } else {
        "{{postal_code}}"@
    }
}

/// The recipient's value for standard field `k`, if they have one.
pub open spec fn standard_value(r: MailMergeRecipient, k: int) -> Option<Seq<char>> {
    if k == 0 {
        Some(r.first_name@)
    } else if k == 1 {
        Some(r.last_name@)
    } else if k == 2 {
        text_of(r.email)
    } else if k == 3 {
        text_of(r.address_line1)
    } else if k == 4 {
        text_of(r.city)
    } else if k == 5 {
        text_of(r.state)
    } else {
        text_of(r.postal_code)
    }
}

/// `s` after the replacement for standard field `k`.
spec fn fill_standard(s: Seq<char>, r: MailMergeRecipient, k: int) -> Seq<char> {
    match standard_value(r, k) {
        Some(v) => replace_all_spec(s, standard_placeholder(k), v),
        None => s,
    }
}

/// The seven placeholders: each starts with `{{`, has no other `{`, and they
/// differ in their third character.
proof fn lemma_standard_placeholders()
    ensures
        forall|k: int|
            0 <= k < 7 ==> {
                let p = #[trigger] standard_placeholder(k);
                &&& p.len() >= 3
                &&& p[0] == '{'
                &&& p[1] == '{'
                &&& forall|i: int| 2 <= i < p.len() ==> p[i] != '{'
            },
        forall|j: int, k: int|
            0 <= j < 7 && 0 <= k < 7 && j != k ==> #[trigger] standard_placeholder(j)[2]
                != #[trigger] standard_placeholder(k)[2],
{
    reveal_strlit("{{first_name}}");
    reveal_strlit("{{last_name}}");
    reveal_strlit("{{email}}");
    reveal_strlit("{{address_line1}}");
    reveal_strlit("{{city}}");
    reveal_strlit("{{state}}");
    reveal_strlit("{{postal_code}}");
}

/// A text made of three parts has no `{` when none of the parts has.
proof fn lemma_concat_no_brace(a: Seq<char>, b: Seq<char>, c: Seq<char>)
    requires
        !a.contains('{'),
        !b.contains('{'),
        !c.contains('{'),
    ensures
        !(a + b + c).contains('{'),
{
    let s = a + b + c;
    assert forall|i: int| 0 <= i < s.len() implies s[i] != '{' by {
        if i < a.len() {
            assert(s[i] == a[i]);
        } else if i < a.len() + b.len() {
            assert(s[i] == b[i - a.len()]);
        } else {
            assert(s[i] == c[i - a.len() - b.len()]);
        }
    }
}

/// In `x ph y`, with `{` only at the start of `ph`, no other placeholder that
/// starts with `{{` and differs from `ph` in its third character occurs.
proof fn lemma_other_placeholder_absent(x: Seq<char>, ph: Seq<char>, y: Seq<char>, q: Seq<char>)
    requires
        !x.contains('{'),
        !y.contains('{'),
        ph.len() >= 3,
        ph[0] == '{',
        ph[1] == '{',
        forall|i: int| 2 <= i < ph.len() ==> ph[i] != '{',
        q.len() >= 3,
        q[0] == '{',
        q[1] == '{',
        q[2] != ph[2],
    ensures
        forall|i: int| !occurs_at(x + ph + y, i, q),
{
    let s = x + ph + y;
    let n = x.len() as int;
    assert forall|i: int| !occurs_at(s, i, q) by {
        if occurs_at(s, i, q) {
            let w = s.subrange(i, i + q.len());
            assert(w[0] == s[i] && w[1] == s[i + 1] && w[2] == s[i + 2]);
            if i < n {
                assert(s[i] == x[i]);
            } else if i >= n + ph.len() {
                assert(s[i] == y[i - n - ph.len()]);
            } else if i == n {
                assert(s[i + 2] == ph[2]);
            } else if i == n + 1 {
                assert(s[i + 1] == ph[2]);
            } else {
                assert(s[i] == ph[i - n]);
            }
        }
    }
}

/// Replacing the one occurrence of `ph` in `x ph y`, where `{` starts `ph`
/// and is in neither `x` nor `y`, gives `x v y`.
proof fn lemma_replace_single(x: Seq<char>, ph: Seq<char>, y: Seq<char>, v: Seq<char>)
    requires
        !x.contains('{'),
        !y.contains('{'),
        ph.len() > 0,
        ph[0] == '{',
    ensures
        replace_all_spec(x + ph + y, ph, v) == x + v + y,
    decreases x.len(),
{
    let s = x + ph + y;
    if x.len() == 0 {
        assert(s.take(ph.len() as int) =~= ph);
        assert(s.skip(ph.len() as int) =~= y);
        lemma_no_brace_no_occurrence(y, ph);
        law_replace_all_absent(y, ph, v);
        assert(x + v + y =~= v + y);
    } else {
        assert(s.take(ph.len() as int)[0] == x[0]);
        let t = x.drop_first();
        assert(!t.contains('{')) by {
            assert forall|i: int| 0 <= i < t.len() implies t[i] != '{' by {
                assert(t[i] == x[i + 1]);
            }
        }
        lemma_replace_single(t, ph, y, v);
        assert(s.drop_first() =~= t + ph + y);
        assert(seq![s[0]] + (t + v + y) =~= x + v + y);
    }
}

/// A template whose one placeholder is that of a standard field the
/// recipient holds gets it filled with the recipient's value: for `x`, `y`
/// and the value free of `{`, the letter for `x{{field}}y` is `x`, the
/// value, then `y`. So no standard field that the recipient has is left
/// unfilled.
pub proof fn law_merge_fills_standard_field(x: Seq<char>, y: Seq<char>, r: MailMergeRecipient, k: int)
    requires
        0 <= k < 7,
        !x.contains('{'),
        !y.contains('{'),
        standard_value(r, k) matches Some(v) && !v.contains('{'),
    ensures
        merge_spec(x + standard_placeholder(k) + y, r) == x + standard_value(r, k)->Some_0 + y,
{
    let ph = standard_placeholder(k);
    let v = standard_value(r, k)->Some_0;
    let t = x + ph + y;
    let u = x + v + y;
    lemma_standard_placeholders();
    assert(ph.len() >= 3);
    lemma_concat_no_brace(x, v, y);
    lemma_replace_single(x, ph, y, v);
    assert(fill_standard(t, r, k) == u);
    assert forall|j: int| 0 <= j < 7 && j != k implies #[trigger] fill_standard(t, r, j) == t by {
        let q = standard_placeholder(j);
        assert(q.len() >= 3);
        assert(q[2] != ph[2]);
        lemma_other_placeholder_absent(x, ph, y, q);
        if let Some(w) = standard_value(r, j) {
            law_replace_all_absent(t, q, w);
        }
    }
    assert forall|j: int| 0 <= j < 7 implies #[trigger] fill_standard(u, r, j) == u by {
        let q = standard_placeholder(j);
        assert(q.len() >= 3);
        lemma_no_brace_no_occurrence(u, q);
        if let Some(w) = standard_value(r, j) {
            law_replace_all_absent(u, q, w);
        }
    }
    law_fields_leave_plain_text(u, r.custom_fields@);
    let c1 = fill_standard(t, r, 0);
    let c2 = fill_standard(c1, r, 1);
    let c3 = fill_standard(c2, r, 2);
    let c4 = fill_standard(c3, r, 3);
    let c5 = fill_standard(c4, r, 4);
    let c6 = fill_standard(c5, r, 5);
    let c7 = fill_standard(c6, r, 6);
    assert(merge_spec(t, r) == apply_fields_spec(c7, r.custom_fields@));
    assert(c7 == u);
}

} // verus!
