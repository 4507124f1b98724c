//! Records kept beside documents (autosaves, backups, bookmarks and
//! versions) and the document summary handed to the interface.

use vstd::prelude::*;
use crate::clock::{Timestamp, now};
use crate::document::Document;
use vstd::std_specs::convert::FromSpec;

verus! {

/// An autosave entry, kept for crash recovery.
#[derive(Debug, Clone)]
pub struct Autosave {
    /// Storage identifier; 0 until storage assigns one.
    pub id: i64,
    pub document_id: String,
    /// The saved content (compressed editor JSON).
    pub content: String,
    pub created_at: Timestamp,
}

impl Autosave {
    /// A new autosave entry for a document, not yet stored, stamped with the
    /// current time.
    pub fn new(document_id: String, content: String) -> (r: Autosave)
        ensures
            r.id == 0,
            r.document_id == document_id,
            r.content == content,
    {
        Autosave { id: 0, document_id, content, created_at: now() }
    }
}

/// A record of a backup file written for a document.
#[derive(Debug, Clone)]
pub struct Backup {
    /// Storage identifier; 0 until storage assigns one.
    pub id: i64,
    pub document_id: String,
    pub backup_path: String,
    pub created_at: Timestamp,
}

impl Backup {
    /// A new backup record, not yet stored, stamped with the current time.
    pub fn new(document_id: String, backup_path: String) -> (r: Backup)
        ensures
            r.id == 0,
            r.document_id == document_id,
            r.backup_path == backup_path,
    {
        Backup { id: 0, document_id, backup_path, created_at: now() }
    }
}

/// A named position in a document, for quick navigation.
#[derive(Debug, Clone)]
pub struct Bookmark {
    /// Storage identifier; 0 until storage assigns one.
    pub id: i64,
    pub document_id: String,
    pub name: String,
    /// Character offset or node reference in the document.
    pub position: i64,
    pub created_at: Timestamp,
}

impl Bookmark {
    /// A new bookmark, not yet stored, stamped with the current time.
    pub fn new(document_id: String, name: String, position: i64) -> (r: Bookmark)
        ensures
            r.id == 0,
            r.document_id == document_id,
            r.name == name,
            r.position == position,
    {
        Bookmark { id: 0, document_id, name, position, created_at: now() }
    }
}

/// A stored version of a document's content.
#[derive(Debug, Clone)]
pub struct DocumentVersion {
    /// Storage identifier; 0 until storage assigns one.
    pub id: i64,
    pub document_id: String,
    /// The content of this version (compressed editor JSON).
    pub content: String,
    pub version_number: u32,
    pub created_at: Timestamp,
    /// What changed, if the author said.
    pub change_summary: Option<String>,
}

impl DocumentVersion {
    /// A new version record, not yet stored, stamped with the current time.
    pub fn new(
        document_id: String,
        content: String,
        version_number: u32,
        change_summary: Option<String>,
    ) -> (r: DocumentVersion)
        ensures
            r.id == 0,
            r.document_id == document_id,
            r.content == content,
            r.version_number == version_number,
            r.change_summary == change_summary,
    {
        DocumentVersion {
            id: 0,
            document_id,
            content,
            version_number,
            created_at: now(),
            change_summary,
        }
    }
}

/// A document's metadata as the interface receives it: everything but the
/// content.
#[derive(Debug, Clone)]
pub struct DocumentDto {
    pub id: String,
    pub title: String,
    pub created_at: Timestamp,
    pub modified_at: Timestamp,
    pub version: u32,
    pub tags: Vec<String>,
    pub pinned: bool,
}

impl From<Document> for DocumentDto {
    fn from(doc: Document) -> (r: DocumentDto)
        ensures
            r.id == doc.id,
            r.title == doc.title,
            r.created_at == doc.created_at,
            r.modified_at == doc.modified_at,
            r.version == doc.version,
            r.tags == doc.tags,
            r.pinned == doc.pinned,
    {
        DocumentDto {
            id: doc.id,
            title: doc.title,
            created_at: doc.created_at,
            modified_at: doc.modified_at,
            version: doc.version,
            tags: doc.tags,
            pinned: doc.pinned,
        }
    }
}

impl vstd::std_specs::convert::FromSpecImpl<Document> for DocumentDto {
    open spec fn obeys_from_spec() -> bool {
        true
    }

    open spec fn from_spec(doc: Document) -> DocumentDto {
        DocumentDto {
            id: doc.id,
            title: doc.title,
            created_at: doc.created_at,
            modified_at: doc.modified_at,
            version: doc.version,
            tags: doc.tags,
            pinned: doc.pinned,
        }
    }
}

/// The summary of a document carries each of its metadata fields unchanged:
/// identifier, title, creation and modification times, version, tags and
/// pin.
pub proof fn law_summary_keeps_metadata(doc: Document)
    ensures
        <DocumentDto as FromSpec<Document>>::obeys_from_spec(),
        <DocumentDto as FromSpec<Document>>::from_spec(doc).id == doc.id,
        <DocumentDto as FromSpec<Document>>::from_spec(doc).title == doc.title,
        <DocumentDto as FromSpec<Document>>::from_spec(doc).created_at == doc.created_at,
        <DocumentDto as FromSpec<Document>>::from_spec(doc).modified_at == doc.modified_at,
        <DocumentDto as FromSpec<Document>>::from_spec(doc).version == doc.version,
        <DocumentDto as FromSpec<Document>>::from_spec(doc).tags == doc.tags,
        <DocumentDto as FromSpec<Document>>::from_spec(doc).pinned == doc.pinned,
{
}

/// Totals over all backup records.
#[derive(Debug, Clone)]
pub struct BackupStats {
    pub total_count: u32,
    pub total_size_bytes: u64,
    pub oldest_backup: Option<Timestamp>,
    pub newest_backup: Option<Timestamp>,
}

impl BackupStats {
    /// The statistics from the totals that storage reports: the count and
    /// the summed size are carried over with the wrapping casts to `u32` and
    /// `u64`.
    pub fn from_totals(
        total_count: i64,
        total_size: i64,
        oldest_backup: Option<Timestamp>,
        newest_backup: Option<Timestamp>,
    ) -> (r: BackupStats)
        ensures
            r.total_count == total_count as u32,
            r.total_size_bytes == total_size as u64,
            r.oldest_backup == oldest_backup,
            r.newest_backup == newest_backup,
    {
        BackupStats {
            total_count: #[verifier::truncate] (total_count as u32),
            total_size_bytes: #[verifier::truncate] (total_size as u64),
            oldest_backup,
            newest_backup,
        }
    }
}

} // verus!
