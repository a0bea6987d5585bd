use gateway::config::AppConfig;
use gateway::files::{FileRecord, FileStatus};
use gateway::jobs::JobLaunchMode;
use gateway::responses::{
    build_entry, BuildEntryParams, CreateEvaluateConditionsJobResponse, CreateIngestJobResponse,
    LoadContextResponse, LoadEntry, TopicInfo, UploadedLocation,
};

fn uuid(text: &str) -> u128 {
    uuid::Uuid::parse_str(text).expect("uuid").as_u128()
}

#[test]
fn from_entries_promotes_doc_id_from_primary_entry() {
    let job_id = uuid("11111111-1111-1111-1111-111111111111");
    let doc_id = uuid("22222222-2222-2222-2222-222222222222");
    let response = LoadContextResponse::from_entries(vec![LoadEntry {
        job_id,
        doc_id,
        pipeline_id: 0,
        context_id: 7,
        file_id: 11,
        sha256_hex: "abc".into(),
        deduplicated: false,
        job_mode: JobLaunchMode::Started,
        source: UploadedLocation { bucket: "bucket".into(), key: "key".into() },
        topics: TopicInfo {
            progress: "progress".into(),
            result: "result".into(),
            rdf_progress: "rdf-progress".into(),
            rdf_result: "rdf-result".into(),
        },
        pipeline_status_url: "/v1/pipelines/1".into(),
        job_status_url: Some(format!("/v1/jobs/{}", uuid::Uuid::from_u128(job_id))),
        original_path: None,
    }]);
    assert_eq!(response.job_id, job_id);
    assert_eq!(response.doc_id, doc_id);
    assert_eq!(response.status_url, "/v1/pipelines/1");
    assert_eq!(
        response.job_status_url.as_deref(),
        Some("/v1/jobs/11111111-1111-1111-1111-111111111111")
    );
    assert_eq!(response.entries.len(), 1);
}

#[test]
fn empty_upload_response_uses_placeholder() {
    let response = LoadContextResponse::from_entries(vec![]);
    assert_eq!(response.job_id, 0);
    assert_eq!(response.file_id, 0);
    assert_eq!(response.status_url, "");
    assert_eq!(
        response.job_status_url.as_deref(),
        Some("/v1/jobs/00000000-0000-0000-0000-000000000000")
    );
    assert!(response.entries.is_empty());
}

#[test]
fn entry_uses_job_id_as_document_id_until_known() {
    let config = AppConfig {
        input_bucket: "in".to_string(),
        input_prefix: String::new(),
        output_bucket: "out".to_string(),
        output_prefix: "mir".to_string(),
        progress_topic: "p".to_string(),
        result_topic: "r".to_string(),
        rdf_progress_topic: "rp".to_string(),
        rdf_result_topic: "rr".to_string(),
        files_dedup_enabled: false,
    };
    let file = FileRecord {
        id: 3,
        sha256: vec![0xab],
        size_bytes: 1,
        mime: None,
        storage_bucket: "in".to_string(),
        storage_key: "ingest/ab/ab/x".to_string(),
        status: FileStatus::Pending,
        mir_job_id: None,
        mir_artifact_uri: None,
        mir_artifact_sha256: None,
        mir_processed_at: None,
        doc_id: None,
        created_at: 0,
        updated_at: 0,
    };
    let entry = build_entry(BuildEntryParams {
        context_id: 7,
        job_id: 0x10,
        job_mode: JobLaunchMode::Linked,
        file_record: &file,
        sha_hex: "ab".to_string(),
        deduplicated: true,
        original_path: Some("dir/x".to_string()),
        config: &config,
        pipeline_id: 0x20,
    });
    assert_eq!(entry.doc_id, 0x10);
    assert_eq!(entry.source.key, "ingest/ab/ab/x");
    assert_eq!(entry.topics.rdf_result, "rr");
    assert_eq!(entry.pipeline_status_url, "/v1/pipelines/00000000-0000-0000-0000-000000000020");
    assert_eq!(entry.job_status_url.as_deref(), Some("/v1/jobs/00000000-0000-0000-0000-000000000010"));
}

#[test]
fn submission_responses_point_at_job_status() {
    let id = uuid("aaaaaaaa-bbbb-cccc-dddd-eeeeeeeeeeee");
    assert_eq!(
        CreateIngestJobResponse::new(id).job_status_url,
        "/v1/jobs/aaaaaaaa-bbbb-cccc-dddd-eeeeeeeeeeee"
    );
    assert_eq!(
        CreateEvaluateConditionsJobResponse::new(id).job_status_url,
        "/v1/jobs/aaaaaaaa-bbbb-cccc-dddd-eeeeeeeeeeee"
    );
}
