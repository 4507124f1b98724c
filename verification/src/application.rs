//! The use cases that the interface drives, as traits for the storage layer
//! to implement, and the editor's commands.

use vstd::prelude::*;
use crate::document::{Document, DocumentId};
use crate::error::AppError;

verus! {

/// An operation the editor can carry out on a document.
#[derive(Debug, Clone)]
pub enum EditorCommand {
    InsertText { text: String },
    DeleteText { count: usize },
    FormatText { format: String },
    InsertImage { src: String, alt: String },
    InsertTable { rows: usize, cols: usize },
    InsertLink { url: String, text: String },
    Undo,
    Redo,
}

/// Document use cases: create, read, update, delete and list.
pub trait DocumentAppService {
    fn create_document(&self, title: &str) -> Result<Document, AppError>;

    fn get_document(&self, id: &DocumentId) -> Result<Document, AppError>;

    fn update_document(&self, doc: Document) -> Result<Document, AppError>;

    fn delete_document(&self, id: &DocumentId) -> Result<(), AppError>;

    fn list_documents(&self) -> Result<Vec<Document>, AppError>;
}

/// Editor use cases: run a command, read and replace the content.
pub trait EditorAppService {
    fn execute_command(&self, doc_id: &DocumentId, command: EditorCommand) -> Result<
        String,
        AppError,
    >;

    fn get_content(&self, doc_id: &DocumentId) -> Result<String, AppError>;

    fn set_content(&self, doc_id: &DocumentId, content: String) -> Result<(), AppError>;
}

/// Storage of documents.
pub trait DocumentRepository {
    fn save(&self, doc: &Document) -> Result<(), AppError>;

    fn find_by_id(&self, id: &DocumentId) -> Result<Option<Document>, AppError>;

    fn find_all(&self) -> Result<Vec<Document>, AppError>;

    fn delete(&self, id: &DocumentId) -> Result<(), AppError>;

    fn find_recent(&self, limit: usize) -> Result<Vec<Document>, AppError>;
}

} // verus!
