//! The document entity: its metadata, content and tags.

use vstd::prelude::*;
use crate::clock::{Timestamp, now, new_id, is_uuid_v4_text};
use crate::text::str_eq;

verus! {

/// The identifier of a document.
pub type DocumentId = String;

/// A document with its metadata and its content (Lexical JSON).
#[derive(Debug, Clone, PartialEq, Eq)]
pub struct Document {
    pub id: String,
    pub title: String,
    pub content: String,
    pub created_at: Timestamp,
    pub modified_at: Timestamp,
    /// Version number for optimistic locking.
    pub version: u32,
    pub tags: Vec<String>,
    pub pinned: bool,
}

/// The content of a new document: an editor tree with one empty paragraph.
pub open spec fn default_content_spec() -> Seq<char> {
    "{\n            \"root\": {\n                \"children\": [\n                    {\n                        \"children\": [],\n                        \"direction\": null,\n                        \"format\": \"\",\n                        \"indent\": 0,\n                        \"type\": \"paragraph\",\n                        \"version\": 1\n                    }\n                ],\n                \"direction\": null,\n                \"format\": \"\",\n                \"indent\": 0,\n                \"type\": \"root\",\n                \"version\": 1\n            }\n        }"@
}

/// The texts of a list of tags.
pub open spec fn tag_texts(tags: Seq<String>) -> Seq<Seq<char>> {
    tags.map_values(|t: String| t@)
}

/// The tags after adding `tag`: unchanged if it is already there, else with
/// `tag` appended.
pub open spec fn tags_with(tags: Seq<Seq<char>>, tag: Seq<char>) -> Seq<Seq<char>> {
    if tags.contains(tag) {
        tags
    } else {
        tags.push(tag)
    }
}

/// The tags after removing `tag`: every other tag, in order.
pub open spec fn tags_without(tags: Seq<Seq<char>>, tag: Seq<char>) -> Seq<Seq<char>>
    decreases tags.len(),
{
    if tags.len() == 0 {
        tags
    } else if tags.last() == tag {
        tags_without(tags.drop_last(), tag)
    } else {
        tags_without(tags.drop_last(), tag).push(tags.last())
    }
}

/// No tag occurs twice.
pub open spec fn distinct_tags(tags: Seq<Seq<char>>) -> bool {
    forall|i: int, j: int| 0 <= i < j < tags.len() ==> tags[i] != tags[j]
}

impl Document {
    /// A new document with the given title, a fresh identifier, the default
    /// content, both timestamps set to the same current time, version 1, no
    /// tags and not pinned.
    pub fn new(title: &str) -> (d: Document)
        ensures
            d.title@ == title@,
            is_uuid_v4_text(d.id@),
            d.content@ == default_content_spec(),
            d.created_at == d.modified_at,
            d.version == 1,
            d.tags@.len() == 0,
            !d.pinned,
    {
        let t = now();
        Document {
            id: new_id(),
            title: title.to_string(),
            content: Self::default_content(),
            created_at: t,
            modified_at: t,
            version: 1,
            tags: Vec::new(),
            pinned: false,
        }
    }

    /// The content of a new document.
    pub fn default_content() -> (r: String)
        ensures
            r@ == default_content_spec(),
    {
        "{\n            \"root\": {\n                \"children\": [\n                    {\n                        \"children\": [],\n                        \"direction\": null,\n                        \"format\": \"\",\n                        \"indent\": 0,\n                        \"type\": \"paragraph\",\n                        \"version\": 1\n                    }\n                ],\n                \"direction\": null,\n                \"format\": \"\",\n                \"indent\": 0,\n                \"type\": \"root\",\n                \"version\": 1\n            }\n        }".to_string()
    }

    /// Replaces the content, stamps the modification time and bumps the version.
    pub fn update_content(&mut self, content: String)
        requires
            old(self).version < u32::MAX,
        ensures
            final(self).content == content,
            final(self).version == old(self).version + 1,
            final(self).id == old(self).id,
            final(self).title == old(self).title,
            final(self).created_at == old(self).created_at,
            final(self).tags == old(self).tags,
            final(self).pinned == old(self).pinned,
    {
        self.content = content;
        self.modified_at = now();
        self.version = self.version + 1;
    }

    /// Replaces the title and stamps the modification time; the version is kept.
    pub fn update_title(&mut self, title: &str)
        ensures
            final(self).title@ == title@,
            final(self).version == old(self).version,
            final(self).id == old(self).id,
            final(self).content == old(self).content,
            final(self).created_at == old(self).created_at,
            final(self).tags == old(self).tags,
            final(self).pinned == old(self).pinned,
    {
        self.title = title.to_string();
        self.modified_at = now();
    }

    /// Whether the document has the tag.
    fn has_tag(&self, tag: &str) -> (r: bool)
        ensures
            r == tag_texts(self.tags@).contains(tag@),
    {
        let mut i: usize = 0;
        while i < self.tags.len()
            invariant
                i <= self.tags@.len(),
                forall|k: int| 0 <= k < i ==> self.tags@[k]@ != tag@,
            decreases self.tags.len() - i,
        {
            if str_eq(self.tags[i].as_str(), tag) {
                assert(tag_texts(self.tags@)[i as int] == tag@);
                return true;
            }
            i = i + 1;
        }
        assert forall|k: int| 0 <= k < tag_texts(self.tags@).len() implies tag_texts(self.tags@)[k] != tag@ by {
            assert(tag_texts(self.tags@)[k] == self.tags@[k]@);
        }
        false
    }

    /// Adds a tag unless the document already has it.
    pub fn add_tag(&mut self, tag: &str)
        ensures
            tag_texts(final(self).tags@) == tags_with(tag_texts(old(self).tags@), tag@),
            final(self).id == old(self).id,
            final(self).created_at == old(self).created_at,
            final(self).title == old(self).title,
            final(self).content == old(self).content,
            final(self).version == old(self).version,
            final(self).modified_at == old(self).modified_at,
            final(self).pinned == old(self).pinned,
    {
        if !self.has_tag(tag) {
            self.tags.push(tag.to_string());
            assert(tag_texts(self.tags@) =~= tag_texts(old(self).tags@).push(tag@));
        }
    }

    /// Removes every occurrence of a tag.
    pub fn remove_tag(&mut self, tag: &str)
        ensures
            tag_texts(final(self).tags@) == tags_without(tag_texts(old(self).tags@), tag@),
            final(self).id == old(self).id,
            final(self).created_at == old(self).created_at,
            final(self).title == old(self).title,
            final(self).content == old(self).content,
            final(self).version == old(self).version,
            final(self).modified_at == old(self).modified_at,
            final(self).pinned == old(self).pinned,
    {
        let mut kept: Vec<String> = Vec::new();
        let mut i: usize = 0;
        while i < self.tags.len()
            invariant
                i <= self.tags@.len(),
                tag_texts(kept@) == tags_without(tag_texts(self.tags@.take(i as int)), tag@),
            decreases self.tags.len() - i,
        {
            let ghost before = kept@;
            assert(tag_texts(self.tags@.take(i + 1)).drop_last() =~= tag_texts(self.tags@.take(i as int)));
            assert(tag_texts(self.tags@.take(i + 1)).last() == self.tags@[i as int]@);
            if !str_eq(self.tags[i].as_str(), tag) {
                kept.push(self.tags[i].clone());
                assert(tag_texts(kept@) =~= tag_texts(before).push(self.tags@[i as int]@));
            }
            i = i + 1;
        }
        assert(self.tags@.take(i as int) =~= self.tags@);
        self.tags = kept;
    }

    /// The document that a stored row describes. The stored version is
    /// carried over with the wrapping cast to `u32`; tags that could not be
    /// read (`None`) become no tags.
    pub fn from_row(
        id: String,
        title: String,
        content: String,
        created_at: Timestamp,
        modified_at: Timestamp,
        version: i64,
        tags: Option<Vec<String>>,
        pinned: bool,
    ) -> (d: Document)
        ensures
            d.id == id,
            d.title == title,
            d.content == content,
            d.created_at == created_at,
            d.modified_at == modified_at,
            d.version == version as u32,
            d.tags@ == (match tags {
                Some(t) => t@,
                None => Seq::empty(),
            }),
            d.pinned == pinned,
    {
        Document {
            id,
            title,
            content,
            created_at,
            modified_at,
            version: #[verifier::truncate] (version as u32),
            tags: match tags {
                Some(t) => t,
                None => Vec::new(),
            },
            pinned,
        }
    }

    /// Records that the document was saved: the version goes up by one and
    /// the modification time is stamped; nothing else changes.
    pub fn mark_saved(&mut self)
        requires
            old(self).version < u32::MAX,
        ensures
            final(self).version == old(self).version + 1,
            final(self).id == old(self).id,
            final(self).title == old(self).title,
            final(self).content == old(self).content,
            final(self).created_at == old(self).created_at,
            final(self).tags == old(self).tags,
            final(self).pinned == old(self).pinned,
    {
        self.version = self.version + 1;
        self.modified_at = now();
    }

    /// Flips the pinned flag.
    pub fn toggle_pinned(&mut self)
        ensures
            final(self).pinned == !old(self).pinned,
            final(self).id == old(self).id,
            final(self).created_at == old(self).created_at,
            final(self).title == old(self).title,
            final(self).content == old(self).content,
            final(self).version == old(self).version,
            final(self).tags == old(self).tags,
            final(self).modified_at == old(self).modified_at,
    {
        self.pinned = !self.pinned;
    }
}


/// A tag is absent after it is removed, and every other tag stays.
proof fn lemma_tags_without_contents(tags: Seq<Seq<char>>, tag: Seq<char>)
    ensures
        forall|t: Seq<char>|
            #[trigger] tags_without(tags, tag).contains(t) <==> (tags.contains(t) && t != tag),
    decreases tags.len(),
{
    if tags.len() > 0 {
        let rest = tags.drop_last();
        let last = tags.last();
        lemma_tags_without_contents(rest, tag);
        assert forall|t: Seq<char>| tags.contains(t) <==> (rest.contains(t) || t == last) by {
            if tags.contains(t) {
                let i = choose|i: int| 0 <= i < tags.len() && tags[i] == t;
                if i < tags.len() - 1 {
                    assert(rest[i] == t);
                }
            }
            if rest.contains(t) {
                let i = choose|i: int| 0 <= i < rest.len() && rest[i] == t;
                assert(tags[i] == t);
            }
            if t == last {
                assert(tags[tags.len() - 1] == t);
            }
        }
        let w = tags_without(rest, tag);
        if last == tag {
            assert forall|t: Seq<char>| #[trigger]
                tags_without(tags, tag).contains(t) <==> (tags.contains(t) && t != tag) by {
                assert(w.contains(t) <==> (rest.contains(t) && t != tag));
            }
        } else {
            assert forall|t: Seq<char>| #[trigger]
                tags_without(tags, tag).contains(t) <==> (tags.contains(t) && t != tag) by {
                assert(w.contains(t) <==> (rest.contains(t) && t != tag));
                if w.push(last).contains(t) {
                    let i = choose|i: int| 0 <= i < w.len() + 1 && w.push(last)[i] == t;
                    if i < w.len() {
                        assert(w[i] == t);
                    }
                }
                if w.contains(t) {
                    let i = choose|i: int| 0 <= i < w.len() && w[i] == t;
                    assert(w.push(last)[i] == t);
                }
                if t == last {
                    assert(w.push(last)[w.len() as int] == t);
                }
            }
        }
    } else {
        assert forall|t: Seq<char>| #[trigger]
            tags_without(tags, tag).contains(t) <==> (tags.contains(t) && t != tag) by {
            if tags.contains(t) {
                let i = choose|i: int| 0 <= i < tags.len() && tags[i] == t;
            }
        }
    }
}

/// Without the tag, no tag is removed: the list stays as it is.
proof fn lemma_tags_without_absent(tags: Seq<Seq<char>>, tag: Seq<char>)
    requires
        !tags.contains(tag),
    ensures
        tags_without(tags, tag) == tags,
    decreases tags.len(),
{
    if tags.len() > 0 {
        let rest = tags.drop_last();
        assert(tags.last() == tags[tags.len() - 1]);
        assert(!rest.contains(tag)) by {
            if rest.contains(tag) {
                let i = choose|i: int| 0 <= i < rest.len() && rest[i] == tag;
                assert(tags[i] == tag);
            }
        }
        lemma_tags_without_absent(rest, tag);
        assert(rest.push(tags.last()) =~= tags);
    }
}

/// After adding a tag the document has it; adding it again changes nothing.
pub proof fn law_add_tag(tags: Seq<Seq<char>>, tag: Seq<char>)
    ensures
        tags_with(tags, tag).contains(tag),
        tags_with(tags_with(tags, tag), tag) == tags_with(tags, tag),
{
    if !tags.contains(tag) {
        assert(tags.push(tag)[tags.len() as int] == tag);
    }
}

/// Adding a tag keeps the tags free of repeats.
pub proof fn law_add_tag_keeps_distinct(tags: Seq<Seq<char>>, tag: Seq<char>)
    requires
        distinct_tags(tags),
    ensures
        distinct_tags(tags_with(tags, tag)),
{
    if !tags.contains(tag) {
        let t = tags.push(tag);
        assert forall|i: int, j: int| 0 <= i < j < t.len() implies t[i] != t[j] by {
            if j == tags.len() {
                assert(t[i] == tags[i]);
            }
        }
    }
}

/// After removing a tag the document no longer has it, and keeps every
/// other tag it had.
pub proof fn law_remove_tag(tags: Seq<Seq<char>>, tag: Seq<char>, other: Seq<char>)
    ensures
        !tags_without(tags, tag).contains(tag),
        tags.contains(other) && other != tag ==> tags_without(tags, tag).contains(other),
{
    lemma_tags_without_contents(tags, tag);
}

/// Removing a tag that was just added, to a document that did not have it,
/// gives back the tags it had.
pub proof fn law_remove_tag_undoes_add(tags: Seq<Seq<char>>, tag: Seq<char>)
    requires
        !tags.contains(tag),
    ensures
        tags_without(tags_with(tags, tag), tag) == tags,
{
    let t = tags.push(tag);
    assert(t.drop_last() =~= tags);
    assert(t.last() == tag);
    lemma_tags_without_absent(tags, tag);
}

} // verus!
