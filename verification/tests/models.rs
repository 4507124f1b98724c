use novus_writer::error::{check_document_changed, check_record_changed, missing_record};
use novus_writer::clock::Timestamp;
use novus_writer::document::Document;
use novus_writer::error::AppError;
use novus_writer::models::{Autosave, Backup, BackupStats, Bookmark, DocumentDto, DocumentVersion};

#[test]
fn new_records_are_unsaved() {
    let a = Autosave::new("d".to_string(), "c".to_string());
    assert_eq!((a.id, a.document_id.as_str(), a.content.as_str()), (0, "d", "c"));
    let b = Backup::new("d".to_string(), "/tmp/x".to_string());
    assert_eq!((b.id, b.backup_path.as_str()), (0, "/tmp/x"));
    let m = Bookmark::new("d".to_string(), "Chapter 1".to_string(), 100);
    assert_eq!((m.id, m.name.as_str(), m.position), (0, "Chapter 1", 100));
    let v = DocumentVersion::new("d".to_string(), "c".to_string(), 4, Some("fix".to_string()));
    assert_eq!((v.id, v.version_number, v.change_summary.as_deref()), (0, 4, Some("fix")));
}

#[test]
fn dto_carries_metadata() {
    let mut doc = Document::new("Title");
    doc.add_tag("x");
    let id = doc.id.clone();
    let created = doc.created_at;
    let dto = DocumentDto::from(doc);
    assert_eq!(dto.id, id);
    assert_eq!(dto.title, "Title");
    assert_eq!(dto.version, 1);
    assert_eq!(dto.tags, vec!["x".to_string()]);
    assert!(!dto.pinned);
    assert_eq!(dto.created_at, created);
}

#[test]
fn backup_stats_wrap_like_casts() {
    let t = Timestamp { secs: 5, nanos: 0 };
    let s = BackupStats::from_totals(3, 4096, Some(t), None);
    assert_eq!((s.total_count, s.total_size_bytes), (3, 4096));
    assert_eq!(s.oldest_backup, Some(t));
    let w = BackupStats::from_totals(-1, -1, None, None);
    assert_eq!((w.total_count, w.total_size_bytes), (u32::MAX, u64::MAX));
}

#[test]
fn error_messages() {
    let cases = vec![
        (AppError::DocumentNotFound("d1".to_string()), "Document not found: d1"),
        (AppError::Database("locked".to_string()), "Database error: locked"),
        (AppError::Serialization("bad".to_string()), "Serialization error: bad"),
        (AppError::Io("eof".to_string()), "IO error: eof"),
        (AppError::InvalidOperation("no".to_string()), "Invalid operation: no"),
        (AppError::FileError("gone".to_string()), "File error: gone"),
        (AppError::ExportError("pdf".to_string()), "Export error: pdf"),
        (AppError::ImportError("doc".to_string()), "Import error: doc"),
    ];
    for (e, m) in cases {
        assert_eq!(e.message(), m);
    }
}

#[test]
fn missing_record_messages() {
    assert_eq!(missing_record("Bookmark", 42), AppError::InvalidOperation("Bookmark 42 not found".to_string()));
    assert_eq!(missing_record("Version", 0), AppError::InvalidOperation("Version 0 not found".to_string()));
    assert_eq!(missing_record("Backup", -7), AppError::InvalidOperation("Backup -7 not found".to_string()));
    assert_eq!(
        missing_record("Backup", i64::MIN),
        AppError::InvalidOperation(format!("Backup {} not found", i64::MIN))
    );
    assert_eq!(
        missing_record("Backup", i64::MAX),
        AppError::InvalidOperation(format!("Backup {} not found", i64::MAX))
    );
    assert_eq!(check_record_changed(1, "Bookmark", 3), Ok(()));
    assert_eq!(
        check_record_changed(0, "Bookmark", 3),
        Err(AppError::InvalidOperation("Bookmark 3 not found".to_string()))
    );
    assert_eq!(check_document_changed(2, "d".to_string()), Ok(()));
    assert_eq!(check_document_changed(0, "d".to_string()), Err(AppError::DocumentNotFound("d".to_string())));
}
