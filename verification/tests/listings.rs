use gateway::config::AppConfig;
use gateway::connections::{
    plan_connection_query, resolve_hours, resolve_limit, ConnectionEvent, ConnectionEventsQuery,
    RecentConnectionEvent, MICROS_PER_HOUR,
};
use gateway::context_jobs::{distinct_file_ids, find_file, next_job_cursor};
use gateway::error::GatewayError;
use gateway::files::{FileRecord, FileStatus};
use gateway::graph::{entity_type_filter, GraphStats};
use gateway::intake::{attach_params, create_file_params, display_name};
use gateway::jobs::{build_cursor, ContextJob, JobEngine, JobKind, JobLaunchMode, JobRecord, JobStatus};
use gateway::pagination::{page_is_full, resolve_limit as page_limit};
use gateway::uploads::{FileOrigin, UploadedFile, WorkItem};
use gateway::context_jobs::ContextJobsResponse;
use gateway::admin::{AdminFileRecord, AdminFilesResponse, ContextFilesResponse as AdminContextFiles};
use gateway::contexts::ContextFilesResponse;
use gateway::contexts::UserRole;
use gateway::files::ContextFileRecord;
use gateway::users::{UserRecord, UsersResponse};

#[test]
fn connection_limits_and_window() {
    assert_eq!(resolve_limit(None).unwrap(), 200);
    assert!(resolve_limit(Some(10001)).is_err());
    assert!(resolve_limit(Some(5000)).is_err());
    assert_eq!(resolve_limit(Some(1000)).unwrap(), 1000);
    assert_eq!(resolve_hours(None).unwrap(), 24);
    assert!(matches!(resolve_hours(Some(169)), Err(GatewayError::InvalidField { field, message })
        if field == "hours" && message == "must be between 1 and 168"));
    let now = 1_700_000_000_000_000i64;
    let plan = plan_connection_query(
        ConnectionEventsQuery { service: Some("vector".to_string()), limit: Some(5), hours: Some(2) },
        now,
    )
    .unwrap();
    assert_eq!(plan.since, now - 2 * MICROS_PER_HOUR);
    assert_eq!(plan.limit, 5);
    assert!(plan_connection_query(ConnectionEventsQuery { service: None, limit: Some(0), hours: Some(0) }, now)
        .err()
        .map(|e| matches!(e, GatewayError::InvalidField { field, .. } if field == "limit"))
        .unwrap());
    let event = ConnectionEvent {
        id: 1,
        service: "vector".to_string(),
        endpoint: "/search".to_string(),
        method: "GET".to_string(),
        status: 200,
        latency_ms: 12,
        response_bytes: Some(10),
        error: None,
        created_at: 5,
    };
    assert_eq!(RecentConnectionEvent::from_event(event).latency_ms, 12);
}

#[test]
fn page_sizes() {
    assert_eq!(page_limit(None).unwrap(), 50);
    assert_eq!(page_limit(Some(100)).unwrap(), 100);
    assert!(matches!(page_limit(Some(101)), Err(GatewayError::InvalidField { field, message })
        if field == "limit" && message == "must be between 1 and 100"));
    assert!(page_is_full(3, 3));
    assert!(!page_is_full(2, 3));
    assert!(!page_is_full(0, -1));
}

#[test]
fn entity_types_are_split_and_trimmed() {
    assert_eq!(entity_type_filter(None), None);
    assert_eq!(
        entity_type_filter(Some(" person, organization ,,place")),
        Some(vec!["person".to_string(), "organization".to_string(), String::new(), "place".to_string()])
    );
    assert_eq!(entity_type_filter(Some("")), Some(vec![String::new()]));
    assert_eq!(GraphStats::empty(), GraphStats { total_nodes: 0, total_edges: 0 });
}

fn job(file_id: Option<i64>, updated_at: i64) -> JobRecord {
    JobRecord {
        job_id: 0x1,
        context_id: 1,
        file_id,
        pipeline_id: 0x2,
        source_job_id: None,
        engine: JobEngine::Mir,
        kind: Some(JobKind::MirReused),
        status: JobStatus::Success,
        stage: None,
        progress_pct: Some(250),
        stage_progress_current: Some(-1),
        stage_progress_total: Some(7),
        stage_progress_pct: Some(-5),
        message: None,
        result_json: None,
        updated_at,
    }
}

fn stored(id: i64) -> FileRecord {
    FileRecord {
        id,
        sha256: vec![0xc0, 0xde],
        size_bytes: 2,
        mime: None,
        storage_bucket: "in".to_string(),
        storage_key: "k".to_string(),
        status: FileStatus::Success,
        mir_job_id: None,
        mir_artifact_uri: Some("s3://out/doc.md".to_string()),
        mir_artifact_sha256: None,
        mir_processed_at: None,
        doc_id: None,
        created_at: 0,
        updated_at: 0,
    }
}

#[test]
fn job_list_files_and_entries() {
    let records = vec![job(Some(4), 1), job(None, 2), job(Some(3), 3), job(Some(4), 4)];
    assert_eq!(distinct_file_ids(&records), vec![4, 3]);
    let files = vec![stored(3), stored(4)];
    assert_eq!(find_file(&files, 4).map(|f| f.id), Some(4));
    assert!(find_file(&files, 9).is_none());
    let cursor = next_job_cursor(&records, 4).expect("full page");
    assert_eq!(cursor.updated_at, 4);
    assert!(build_cursor(Some(1), None).is_err());
    let entry = ContextJob::from_record(job(Some(4), 1), find_file(&files, 4));
    assert_eq!(entry.job_mode, JobLaunchMode::Reused);
    assert_eq!(entry.progress_pct, Some(100));
    assert_eq!(entry.stage_percent, Some(0));
    assert_eq!(entry.stage_current, None);
    assert_eq!(entry.stage_total, Some(7));
    assert_eq!(entry.sha256_hex.as_deref(), Some("c0de"));
    assert_eq!(entry.artifact_uri.as_deref(), Some("s3://out/doc.md"));
}

#[test]
fn stored_file_and_attachment_records() {
    let config = AppConfig {
        input_bucket: "in".to_string(),
        input_prefix: String::new(),
        output_bucket: "out".to_string(),
        output_prefix: "mir".to_string(),
        progress_topic: "p".to_string(),
        result_topic: "r".to_string(),
        rdf_progress_topic: "rp".to_string(),
        rdf_result_topic: "rr".to_string(),
        files_dedup_enabled: true,
    };
    let file = UploadedFile { bytes: b"abc".to_vec(), name: None, content_type: Some("text/plain".to_string()) };
    assert_eq!(display_name(&file), "document.bin");
    let params = create_file_params(&config, &file, vec![1], "ingest/ab/ab/document.bin".to_string());
    assert_eq!(params.size_bytes, 3);
    assert_eq!(params.storage_bucket, "in");
    let item = WorkItem::new(file, FileOrigin::Upload, None);
    let attach = attach_params(&item, 7, 11, 0x5);
    assert_eq!(attach.original_name, "document.bin");
    assert_eq!(attach.media_type.as_deref(), Some("text/plain"));
    assert_eq!(attach.origin, FileOrigin::Upload);
}

#[test]
fn job_page_attaches_known_files() {
    let records = vec![job(Some(4), 1), job(None, 2), job(Some(9), 3)];
    let files = vec![stored(4)];
    let page = ContextJobsResponse::from_records(records, &files, 3);
    assert_eq!(page.jobs.len(), 3);
    assert_eq!(page.jobs[0].sha256_hex.as_deref(), Some("c0de"));
    assert_eq!(page.jobs[1].sha256_hex, None);
    assert_eq!(page.jobs[2].artifact_uri, None);
    assert_eq!(page.next_cursor.map(|c| c.updated_at), Some(3));
}

#[test]
fn list_pages_carry_entries_and_cursor() {
    let attachment = |id: i64| ContextFileRecord {
        id,
        context_id: 1,
        file_id: 11,
        pipeline_id: 2,
        origin: FileOrigin::Upload,
        original_name: "a.pdf".to_string(),
        original_path: None,
        media_type: None,
        attached_at: 10 * id,
        file_sha256: vec![0x12],
        file_status: FileStatus::Success,
        mir_artifact_uri: None,
        doc_id: None,
    };
    let page = ContextFilesResponse::from_records(vec![attachment(1), attachment(2)], 2);
    assert_eq!(page.files[1].sha256_hex, "12");
    assert_eq!(page.next_cursor.map(|c| (c.attached_at, c.context_file_id)), Some((20, 2)));
    let admin = AdminContextFiles::from_records(1, vec![attachment(1)]);
    assert_eq!(admin.files[0].sha256_hex.as_deref(), Some("12"));
    let files = AdminFilesResponse::from_records(
        vec![AdminFileRecord {
            file_id: 3,
            sha256: vec![0xff],
            size_bytes: 1,
            status: FileStatus::Pending,
            mir_job_id: None,
            mir_artifact_uri: None,
            contexts_count: 0,
            contexts: vec![],
            created_at: 1,
            updated_at: 2,
        }],
        50,
    );
    assert_eq!(files.files[0].sha256_hex, "ff");
    assert!(files.next_cursor.is_none());
    let users = UsersResponse::from_records(
        vec![UserRecord {
            id: 5,
            email: "a@b".to_string(),
            password_hash: "h".to_string(),
            role: UserRole::Admin,
            blocked: false,
            created_at: 7,
            updated_at: 8,
        }],
        1,
    );
    assert_eq!(users.users[0].email, "a@b");
    assert_eq!(users.next_cursor.map(|c| c.user_id), Some(5));
}
