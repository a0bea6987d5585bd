use gateway::error::GatewayError;
use gateway::forms::{field_read, FieldRead, UploadForm};

#[test]
fn parts_are_read_by_name() {
    assert_eq!(field_read(Some("file")), FieldRead::Bytes);
    assert_eq!(field_read(Some("context_id")), FieldRead::Text);
    assert_eq!(field_read(Some("other")), FieldRead::Skip);
    assert_eq!(field_read(None), FieldRead::Skip);
}

#[test]
fn complete_form_makes_an_upload() {
    let mut form = UploadForm::new();
    form.accept_text("context_id", "7".to_string()).unwrap();
    form.accept_text("dry_run", "true".to_string()).unwrap();
    form.accept_text("user_id", "u-1".to_string()).unwrap();
    form.accept_file(b"data".to_vec(), None, Some("text/plain".to_string()));
    let request = form.finish().expect("upload");
    assert_eq!(request.form.context_id, 7);
    assert_eq!(request.form.dry_run, Some(true));
    assert_eq!(request.form.user_id.as_deref(), Some("u-1"));
    assert_eq!(request.form.file, "uploaded file");
    let request = request.with_user(0x1);
    assert_eq!(request.form.user_id.as_deref(), Some("00000000-0000-0000-0000-000000000001"));
}

#[test]
fn bad_values_are_refused() {
    let mut form = UploadForm::new();
    assert!(matches!(form.accept_text("dry_run", "yes".to_string()), Err(GatewayError::InvalidField { field, message })
        if field == "dry_run" && message == "expected true/false"));
    assert!(matches!(form.accept_text("context_id", "x".to_string()), Err(GatewayError::InvalidField { field, message })
        if field == "context_id" && message == "expected integer"));
    assert!(matches!(form.accept_text("context_id", "0".to_string()), Err(GatewayError::InvalidField { field, message })
        if field == "context_id" && message == "must be positive"));
    assert!(form.context_id.is_none());
}

#[test]
fn incomplete_forms_are_refused() {
    assert!(matches!(UploadForm::new().finish(), Err(GatewayError::MissingFile)));
    let mut empty = UploadForm::new();
    empty.accept_file(Vec::new(), Some("a".to_string()), None);
    assert!(matches!(empty.finish(), Err(GatewayError::InvalidField { field, message })
        if field == "file" && message == "uploaded file is empty"));
    let mut no_context = UploadForm::new();
    no_context.accept_file(b"x".to_vec(), Some("a.pdf".to_string()), None);
    assert!(matches!(no_context.finish(), Err(GatewayError::InvalidField { field, message })
        if field == "context_id" && message == "field is required"));
}

#[test]
fn later_file_part_replaces_earlier() {
    let mut form = UploadForm::new();
    form.accept_file(b"one".to_vec(), Some("one.txt".to_string()), None);
    form.accept_file(b"two".to_vec(), Some("two.txt".to_string()), None);
    form.accept_text("context_id", "+3".to_string()).unwrap();
    let request = form.finish().unwrap();
    assert_eq!(request.file.bytes, b"two".to_vec());
    assert_eq!(request.form.file, "two.txt");
    assert_eq!(request.form.dry_run, Some(false));
    assert_eq!(request.form.context_id, 3);
}
