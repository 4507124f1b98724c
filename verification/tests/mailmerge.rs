use novus_writer::clock::Timestamp;
use novus_writer::mailmerge::{merge_document, merge_results, MailMergeJob, MailMergeRecipient};
use novus_writer::placeholders::JsonField;

fn recipient(id: &str, first: &str, last: &str, email: Option<&str>, custom: Vec<JsonField>) -> MailMergeRecipient {
    MailMergeRecipient {
        id: id.to_string(),
        first_name: first.to_string(),
        last_name: last.to_string(),
        email: email.map(|e| e.to_string()),
        address_line1: None,
        address_line2: None,
        city: None,
        state: None,
        postal_code: None,
        country: None,
        custom_fields: custom,
        created_at: Timestamp { secs: 1_700_000_000, nanos: 0 },
    }
}

#[test]
fn test_merge_document() {
    let template = "Dear {{first_name}} {{last_name}},\n\nYour email {{email}} is confirmed.\n\nSincerely,\nThe Team";
    let recipient = recipient("test1", "John", "Doe", Some("john.doe@example.com"), Vec::new());
    let result = merge_document(template, &recipient);
    assert!(result.contains("Dear John Doe"));
    assert!(result.contains("john.doe@example.com"));
}

#[test]
fn test_merge_with_custom_fields() {
    let template = "Order {{order_id}} for {{product}} totaling {{amount}}";
    let custom_fields = vec![
        JsonField { key: "order_id".to_string(), text: Some("ORD-12345".to_string()) },
        JsonField { key: "product".to_string(), text: Some("Premium Widget".to_string()) },
        JsonField { key: "amount".to_string(), text: Some("$99.99".to_string()) },
    ];
    let recipient = recipient("test2", "Jane", "Smith", None, custom_fields);
    let result = merge_document(template, &recipient);
    assert!(result.contains("Order ORD-12345"));
    assert!(result.contains("Premium Widget"));
    assert!(result.contains("$99.99"));
}

#[test]
fn missing_optional_fields_stay_as_placeholders() {
    let r = recipient("r", "Ann", "Lee", None, Vec::new());
    assert_eq!(merge_document("{{first_name}} {{email}} {{city}}", &r), "Ann {{email}} {{city}}");
}

#[test]
fn template_without_braces_is_unchanged() {
    let r = recipient("r", "Ann", "Lee", Some("a@b.c"), Vec::new());
    assert_eq!(merge_document("Hello there", &r), "Hello there");
}

#[test]
fn merge_results_one_completed_per_recipient() {
    let rs = vec![
        recipient("r1", "A", "B", None, Vec::new()),
        recipient("r2", "C", "D", None, Vec::new()),
    ];
    let (results, processed) = merge_results("job9", &rs);
    assert_eq!(processed, 2);
    assert_eq!(results.len(), 2);
    assert_eq!(results[0].output_document_id, "merged_job9_r1");
    assert_eq!(results[1].output_document_id, "merged_job9_r2");
    assert_eq!(results[1].recipient_id, "r2");
    assert!(results.iter().all(|r| r.status == "completed" && r.error_message.is_none() && r.job_id == "job9"));
}

#[test]
fn draft_job_counts_recipients() {
    let ids = vec!["a".to_string(), "b".to_string(), "c".to_string()];
    let job = MailMergeJob::draft("doc1", "Hi {{first_name}}", &ids, "me");
    assert_eq!(job.status, "draft");
    assert_eq!(job.total_recipients, 3);
    assert_eq!(job.processed_count, 0);
    assert_eq!(job.document_id, "doc1");
    assert_eq!(job.created_by, "me");
    assert!(job.completed_at.is_none());
    assert_eq!(job.id.len(), 36);
}
