use gateway::admin::{
    build_cursor, build_sha_filter, check_file_retry, next_admin_cursor, retry_attachment,
    AdminFileEntry, AdminFileRecord, ContextFileEntry, ContextPipelineRef, FileContextAttachment,
    FileDetailsResponse, RetryResponse,
};
use gateway::error::GatewayError;
use gateway::files::{ContextFileRecord, FileRecord, FileStatus};
use gateway::jobs::{JobLaunchMode, JobStatus};
use gateway::uploads::FileOrigin;

#[test]
fn sha_filter_is_a_lower_case_prefix_pattern() {
    assert_eq!(build_sha_filter(&None).unwrap(), None);
    assert_eq!(build_sha_filter(&Some(String::new())).unwrap(), None);
    assert_eq!(build_sha_filter(&Some("ABcd09".to_string())).unwrap().as_deref(), Some("abcd09%"));
    let too_long = "a".repeat(65);
    for bad in [too_long.as_str(), "xyz", "ab cd", "é"] {
        assert!(matches!(build_sha_filter(&Some(bad.to_string())), Err(GatewayError::InvalidField { field, message })
            if field == "sha256_hex" && message == "must be a hex prefix up to 64 chars"));
    }
    assert!(build_sha_filter(&Some("f".repeat(64))).is_ok());
}

#[test]
fn admin_cursor_needs_both_parts() {
    assert_eq!(build_cursor(None, None).unwrap(), None);
    assert!(build_cursor(Some(1), Some(2)).unwrap().is_some());
    assert!(matches!(build_cursor(Some(1), None), Err(GatewayError::InvalidField { message, .. })
        if message == "provide both cursor_updated_at and cursor_file_id"));
    assert!(build_cursor(Some(1), Some(0)).is_err());
}

fn admin_record(file_id: i64, updated_at: i64) -> AdminFileRecord {
    AdminFileRecord {
        file_id,
        sha256: vec![0x0f, 0xa0],
        size_bytes: 10,
        status: FileStatus::Success,
        mir_job_id: None,
        mir_artifact_uri: None,
        contexts_count: 2,
        contexts: vec![1, 2],
        created_at: 1,
        updated_at,
    }
}

#[test]
fn listing_entries_and_cursor() {
    let records = vec![admin_record(1, 10), admin_record(2, 20)];
    let cursor = next_admin_cursor(&records, 2).expect("full page");
    assert_eq!((cursor.updated_at, cursor.file_id), (20, 2));
    assert!(next_admin_cursor(&records, 3).is_none());
    let entry = AdminFileEntry::from_record(admin_record(1, 10));
    assert_eq!(entry.sha256_hex, "0fa0");
    assert_eq!(entry.contexts, vec![1, 2]);
}

fn file(mir_job_id: Option<u128>) -> FileRecord {
    FileRecord {
        id: 11,
        sha256: vec![0x01],
        size_bytes: 1,
        mime: None,
        storage_bucket: "in".to_string(),
        storage_key: "k".to_string(),
        status: FileStatus::Failure,
        mir_job_id,
        mir_artifact_uri: None,
        mir_artifact_sha256: Some(vec![0xbe, 0xef]),
        mir_processed_at: None,
        doc_id: None,
        created_at: 0,
        updated_at: 0,
    }
}

#[test]
fn file_retry_refused_while_processing() {
    assert!(matches!(
        check_file_retry(&file(Some(0x2)), Some(JobStatus::Pending)),
        Err(GatewayError::Conflict(m)) if m == "file 11 already processing via job 00000000-0000-0000-0000-000000000002"
    ));
    assert!(check_file_retry(&file(Some(0x2)), Some(JobStatus::Failure)).is_ok());
    assert!(check_file_retry(&file(None), None).is_ok());
    assert!(matches!(retry_attachment(&[]), Err(GatewayError::Conflict(m)) if m == "file is not attached to any context"));
    let first = ContextPipelineRef { context_id: 4, pipeline_id: 0x9 };
    let second = ContextPipelineRef { context_id: 5, pipeline_id: 0xa };
    assert_eq!(retry_attachment(&[first, second]).unwrap(), first);
    let response = RetryResponse::new(11, first, 0x77);
    assert_eq!((response.context_id, response.job_id, response.job_mode), (4, 0x77, JobLaunchMode::Started));
}

fn attachment() -> ContextFileRecord {
    ContextFileRecord {
        id: 3,
        context_id: 4,
        file_id: 11,
        pipeline_id: 0x9,
        origin: FileOrigin::ArchiveEntry,
        original_name: "a.txt".to_string(),
        original_path: Some("docs/a.txt".to_string()),
        media_type: None,
        attached_at: 5,
        file_sha256: vec![0xaa],
        file_status: FileStatus::Success,
        mir_artifact_uri: None,
        doc_id: None,
    }
}

#[test]
fn file_details_present_digests_as_hex() {
    let details = FileDetailsResponse::from_record(file(None), vec![FileContextAttachment::from_record(attachment())]);
    assert_eq!(details.sha256_hex, "01");
    assert_eq!(details.mir_artifact_sha256_hex.as_deref(), Some("beef"));
    assert_eq!(details.contexts[0].original_path.as_deref(), Some("docs/a.txt"));
    let entry = ContextFileEntry::from_record(attachment());
    assert_eq!(entry.sha256_hex.as_deref(), Some("aa"));
    assert_eq!(entry.file_id, 11);
}
