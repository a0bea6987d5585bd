use gateway::artifacts::{artifact_file_name, download_artifact, select_artifact, ArtifactKind, ArtifactRef, MirOutcome};
use gateway::documents::{
    attachment_media_type, context_file_for_download, document_location, infer_content_type,
    parse_s3_uri,
};
use gateway::error::GatewayError;
use gateway::files::{ContextFileRecord, FileRecord, FileStatus};
use gateway::uploads::FileOrigin;

#[test]
fn parses_s3_uri() {
    let (bucket, key) = parse_s3_uri("s3://mir-output/jobs/doc.md").expect("uri");
    assert_eq!(bucket, "mir-output");
    assert_eq!(key, "jobs/doc.md");
}

#[test]
fn rejects_invalid_s3_uri() {
    assert!(parse_s3_uri("http://mir-output/jobs/doc.md").is_none());
    assert!(parse_s3_uri("s3://mir-output").is_none());
    assert!(parse_s3_uri("s3://bucket/").is_none());
    assert!(parse_s3_uri("s3:///key").is_none());
    assert!(parse_s3_uri("s3://").is_none());
}

#[test]
fn infers_markdown_content_type() {
    assert_eq!(
        infer_content_type("jobs/document.md"),
        Some("text/markdown; charset=utf-8")
    );
    assert_eq!(infer_content_type("jobs/document.bin"), None);
}

#[test]
fn infers_text_and_json_content_types() {
    assert_eq!(infer_content_type("a/b.txt"), Some("text/plain; charset=utf-8"));
    assert_eq!(infer_content_type("a/b.json"), Some("application/json"));
    assert_eq!(infer_content_type("a/b.JSON"), None);
}

#[test]
fn s3_key_keeps_later_slashes() {
    let (bucket, key) = parse_s3_uri("s3://b/x/y/z").expect("uri");
    assert_eq!(bucket, "b");
    assert_eq!(key, "x/y/z");
}

fn file_with_uri(uri: Option<&str>) -> FileRecord {
    FileRecord {
        id: 5,
        sha256: vec![1, 2],
        size_bytes: 2,
        mime: Some("application/pdf".to_string()),
        storage_bucket: "in".to_string(),
        storage_key: "ingest/01/0102/a.pdf".to_string(),
        status: FileStatus::Success,
        mir_job_id: None,
        mir_artifact_uri: uri.map(|u| u.to_string()),
        mir_artifact_sha256: None,
        mir_processed_at: None,
        doc_id: None,
        created_at: 0,
        updated_at: 0,
    }
}

#[test]
fn document_location_reports_each_failure() {
    let doc = 42u128;
    assert!(matches!(document_location(doc, None), Err(GatewayError::DocumentNotFound(d)) if d == doc));
    assert!(matches!(
        document_location(doc, Some(file_with_uri(None))),
        Err(GatewayError::DocumentResultUnavailable(d)) if d == doc
    ));
    assert!(matches!(
        document_location(doc, Some(file_with_uri(Some("http://x/y")))),
        Err(GatewayError::DocumentResultUnavailable(d)) if d == doc
    ));
    let (bucket, key) = document_location(doc, Some(file_with_uri(Some("s3://out/jobs/doc.md")))).expect("location");
    assert_eq!(bucket, "out");
    assert_eq!(key, "jobs/doc.md");
}

fn attachment(context_id: i32, media_type: Option<&str>) -> ContextFileRecord {
    ContextFileRecord {
        id: 3,
        context_id,
        file_id: 5,
        pipeline_id: 0,
        origin: FileOrigin::Upload,
        original_name: "a.pdf".to_string(),
        original_path: None,
        media_type: media_type.map(|m| m.to_string()),
        attached_at: 0,
        file_sha256: vec![],
        file_status: FileStatus::Pending,
        mir_artifact_uri: None,
        doc_id: None,
    }
}

#[test]
fn context_file_download_checks_owner_context() {
    assert!(context_file_for_download(7, 3, Some(attachment(7, None))).is_ok());
    assert!(matches!(
        context_file_for_download(7, 3, Some(attachment(8, None))),
        Err(GatewayError::FileNotFound(3))
    ));
    assert!(matches!(context_file_for_download(7, 3, None), Err(GatewayError::FileNotFound(3))));
}

#[test]
fn attachment_media_type_prefers_recorded_type() {
    let file = file_with_uri(None);
    assert_eq!(attachment_media_type(&attachment(7, Some("text/plain")), &file), Some("text/plain"));
    assert_eq!(attachment_media_type(&attachment(7, None), &file), Some("application/pdf"));
}

#[test]
fn artifact_file_name_is_last_segment() {
    assert_eq!(artifact_file_name("jobs/abc/document.md"), "document.md");
    assert_eq!(artifact_file_name("plain"), "plain");
    assert_eq!(artifact_file_name("dir/"), "");
}

fn artifact(key: &str, kind: ArtifactKind) -> ArtifactRef {
    ArtifactRef { bucket: "out".to_string(), key: key.to_string(), content_type: None, kind }
}

#[test]
fn select_artifact_follows_preference() {
    let list = vec![
        artifact("other.bin", ArtifactKind::Other),
        artifact("all.zip", ArtifactKind::Archive),
        artifact("doc.md", ArtifactKind::Document),
    ];
    assert_eq!(select_artifact(&list, None), Some(2));
    assert_eq!(select_artifact(&list, Some("ARCHIVE")), Some(1));
    assert_eq!(select_artifact(&list, Some("document")), Some(2));
    let only_other = vec![artifact("x", ArtifactKind::Other)];
    assert_eq!(select_artifact(&only_other, Some("archive")), Some(0));
    assert_eq!(select_artifact(&[], None), None);
}

#[test]
fn download_artifact_errors() {
    let job = 9u128;
    assert!(matches!(download_artifact(job, None, None), Err(GatewayError::ResultUnavailable(_))));
    assert!(matches!(
        download_artifact(job, Some(&MirOutcome::Failed), None),
        Err(GatewayError::ArtifactMissing { .. })
    ));
    assert!(matches!(
        download_artifact(job, Some(&MirOutcome::Success(vec![])), None),
        Err(GatewayError::ArtifactMissing { .. })
    ));
    let ok = MirOutcome::Success(vec![artifact("a.zip", ArtifactKind::Archive)]);
    assert_eq!(download_artifact(job, Some(&ok), None).expect("artifact"), 0);
}
