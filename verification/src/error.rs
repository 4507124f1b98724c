//! Error values of the library.

use vstd::prelude::*;
use crate::formatting::{decimal_text, push_decimal_u64};

verus! {

/// What went wrong in an operation. Errors raised by storage, JSON or I/O
/// layers are carried as their message text.
#[derive(Debug, Clone, PartialEq, Eq)]
pub enum AppError {
    DocumentNotFound(String),
    Database(String),
    Serialization(String),
    Io(String),
    InvalidOperation(String),
    FileError(String),
    ExportError(String),
    ImportError(String),
}

/// The text that prefixes each kind of error in its message.
pub open spec fn error_prefix(e: AppError) -> Seq<char> {
    match e {
        AppError::DocumentNotFound(_) => "Document not found: "@,
        AppError::Database(_) => "Database error: "@,
        AppError::Serialization(_) => "Serialization error: "@,
        AppError::Io(_) => "IO error: "@,
        AppError::InvalidOperation(_) => "Invalid operation: "@,
        AppError::FileError(_) => "File error: "@,
        AppError::ExportError(_) => "Export error: "@,
        AppError::ImportError(_) => "Import error: "@,
    }
}

/// The detail text that an error carries.
pub open spec fn error_detail(e: AppError) -> Seq<char> {
    match e {
        AppError::DocumentNotFound(s) => s@,
        AppError::Database(s) => s@,
        AppError::Serialization(s) => s@,
        AppError::Io(s) => s@,
        AppError::InvalidOperation(s) => s@,
        AppError::FileError(s) => s@,
        AppError::ExportError(s) => s@,
        AppError::ImportError(s) => s@,
    }
}

impl AppError {
    /// The human-readable message of the error: its kind, a colon and its detail.
    pub fn message(&self) -> (r: String)
        ensures
            r@ == error_prefix(*self) + error_detail(*self),
    {
        let (prefix, detail) = match self {
            AppError::DocumentNotFound(s) => ("Document not found: ", s),
            AppError::Database(s) => ("Database error: ", s),
            AppError::Serialization(s) => ("Serialization error: ", s),
            AppError::Io(s) => ("IO error: ", s),
            AppError::InvalidOperation(s) => ("Invalid operation: ", s),
            AppError::FileError(s) => ("File error: ", s),
            AppError::ExportError(s) => ("Export error: ", s),
            AppError::ImportError(s) => ("Import error: ", s),
        };
        let mut r = prefix.to_string();
        r.append(detail.as_str());
        r
    }
}

/// A signed number in decimal, with `-` before a negative one.
pub open spec fn signed_decimal_text(n: int) -> Seq<char> {
    if n < 0 {
        "-"@ + decimal_text((-n) as nat)
    } else {
        decimal_text(n as nat)
    }
}

/// The error for a record that is not there: `<kind> <id> not found`.
pub fn missing_record(kind: &str, id: i64) -> (e: AppError)
    ensures
        e matches AppError::InvalidOperation(m) && m@ == kind@ + " "@ + signed_decimal_text(
            id as int,
        ) + " not found"@,
{
    let mut m = kind.to_string();
    m.append(" ");
    if id < 0 {
        m.append("-");
        let magnitude: u64 = (-(id + 1)) as u64 + 1;
        push_decimal_u64(&mut m, magnitude);
    } else {
        push_decimal_u64(&mut m, id as u64);
    }
    m.append(" not found");
    AppError::InvalidOperation(m)
}

/// A change that touched no row means the record is missing: the error of
/// `missing_record`; otherwise success.
pub fn check_record_changed(rows_affected: u64, kind: &str, id: i64) -> (r: Result<(), AppError>)
    ensures
        (rows_affected == 0) == r is Err,
        r matches Err(e) ==> (e matches AppError::InvalidOperation(m) && m@ == kind@ + " "@
            + signed_decimal_text(id as int) + " not found"@),
{
    if rows_affected == 0 {
        Err(missing_record(kind, id))
    } else {
        Ok(())
    }
}

/// A change that touched no document row means the document is missing:
/// `AppError::DocumentNotFound` with its identifier; otherwise success.
pub fn check_document_changed(rows_affected: u64, id: String) -> (r: Result<(), AppError>)
    ensures
        (rows_affected == 0) == r is Err,
        r matches Err(e) ==> e == AppError::DocumentNotFound(id),
{
    if rows_affected == 0 {
        Err(AppError::DocumentNotFound(id))
    } else {
        Ok(())
    }
}

} // verus!
