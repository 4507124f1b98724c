use novus_writer::placeholders::{apply_fields, placeholder, JsonField};
use novus_writer::templates::{extract_variables, Template};

fn field(key: &str, text: &str) -> JsonField {
    JsonField { key: key.to_string(), text: Some(text.to_string()) }
}

#[test]
fn test_variable_extraction() {
    let content = "Dear {{name}}, Your order {{order_id}} is ready. Date: {{date}}";
    println!("Content: {}", content);
    let vars = extract_variables(content);
    let names: Vec<&str> = vars.iter().map(|v| v.name.as_str()).collect();
    assert_eq!(names, vec!["name", "order_id", "date"]);
}

#[test]
fn test_template_rendering() {
    let content = "Hello {{name}}, welcome to {{company}}!";
    let vars = vec![field("name", "John"), field("company", "Acme Corp")];
    let content = apply_fields(content, &vars);
    assert_eq!(content, "Hello John, welcome to Acme Corp!");
}

#[test]
fn extracted_variables_are_distinct_required_text() {
    let vars = extract_variables("{{a}} {{b}} {{a}} {{ c }} {{d-e}} {{f_1}}");
    let names: Vec<&str> = vars.iter().map(|v| v.name.as_str()).collect();
    assert_eq!(names, vec!["a", "b", "f_1"]);
    for v in &vars {
        assert_eq!(v.field_type, "text");
        assert!(v.required);
        assert_eq!(v.default_value, None);
        assert_eq!(v.options, None);
        assert_eq!(v.description, None);
    }
    assert!(extract_variables("no placeholders").is_empty());
}

#[test]
fn placeholder_text() {
    assert_eq!(placeholder("name"), "{{name}}");
}

#[test]
fn fields_without_text_change_nothing() {
    let fields = vec![JsonField { key: "n".to_string(), text: None }, field("m", "M")];
    assert_eq!(apply_fields("{{n}} {{m}} {{m}}", &fields), "{{n}} M M");
    assert_eq!(apply_fields("plain text", &fields), "plain text");
}

#[test]
fn new_user_template_fields() {
    let t = Template::new_user_template("Letter", "business", "Dear {{name}}", Some("A letter"), None);
    assert_eq!(t.name, "Letter");
    assert_eq!(t.category, "business");
    assert_eq!(t.content, "Dear {{name}}");
    assert_eq!(t.description, Some("A letter".to_string()));
    assert_eq!(t.created_by, None);
    assert!(!t.is_system);
    assert_eq!(t.usage_count, 0);
    assert_eq!(t.id.len(), 36);
    assert_eq!(t.created_at, t.updated_at);
}
