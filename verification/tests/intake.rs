use gateway::config::AppConfig;
use gateway::files::{FileRecord, FileStatus};
use gateway::intake::{item_begin, item_step, ItemAction, ItemEvent, ItemPhase};
use gateway::jobs::JobLaunchMode;
use gateway::uploads::{FileOrigin, UploadedFile, WorkItem};

const EMPTY_SHA: &str = "e3b0c44298fc1c149afbf4c8996fb92427ae41e4649b934ca495991b7852b855";

fn config() -> AppConfig {
    AppConfig {
        input_bucket: "in".to_string(),
        input_prefix: "uploads".to_string(),
        output_bucket: "out".to_string(),
        output_prefix: "mir".to_string(),
        progress_topic: "progress".to_string(),
        result_topic: "result".to_string(),
        rdf_progress_topic: "rdf-progress".to_string(),
        rdf_result_topic: "rdf-result".to_string(),
        files_dedup_enabled: true,
    }
}

fn item() -> WorkItem {
    WorkItem {
        file: UploadedFile { bytes: vec![], name: Some("my file.txt".to_string()), content_type: Some("text/plain".to_string()) },
        origin: FileOrigin::Upload,
        original_path: None,
    }
}

fn record(id: i64, key: &str) -> FileRecord {
    FileRecord {
        id,
        sha256: vec![],
        size_bytes: 0,
        mime: None,
        storage_bucket: "in".to_string(),
        storage_key: key.to_string(),
        status: FileStatus::Success,
        mir_job_id: None,
        mir_artifact_uri: None,
        mir_artifact_sha256: None,
        mir_processed_at: None,
        doc_id: None,
        created_at: 0,
        updated_at: 0,
    }
}

#[test]
fn new_content_is_uploaded_under_its_digest_then_attached_and_answered() {
    let (c, it) = (config(), item());
    let key = format!("uploads/ingest/e3/{EMPTY_SHA}/my_file.txt");
    let (phase, action) = item_begin(&c, &it);
    match action {
        ItemAction::FindByHash(h) => assert_eq!(h.len(), 32),
        other => panic!("expected a lookup, got {:?}", other),
    }
    let (phase, action) = item_step(&c, &it, 7, 0x9, phase, ItemEvent::Found(None));
    match action {
        ItemAction::Upload { bucket, key: k } => {
            assert_eq!(bucket, "in");
            assert_eq!(k, key);
        }
        other => panic!("expected an upload, got {:?}", other),
    }
    let (phase, action) = item_step(&c, &it, 7, 0x9, phase, ItemEvent::Uploaded);
    match action {
        ItemAction::CreateFile(p) => {
            assert_eq!(p.storage_key, key);
            assert_eq!(p.size_bytes, 0);
            assert_eq!(p.mime.as_deref(), Some("text/plain"));
        }
        other => panic!("expected a file record, got {:?}", other),
    }
    let (phase, action) = item_step(&c, &it, 7, 0x9, phase, ItemEvent::Created(record(11, &key)));
    match action {
        ItemAction::Attach(p) => {
            assert_eq!((p.context_id, p.file_id, p.pipeline_id), (7, 11, 0x9));
            assert_eq!(p.original_name, "my file.txt");
        }
        other => panic!("expected an attachment, got {:?}", other),
    }
    let (phase, action) = item_step(&c, &it, 7, 0x9, phase, ItemEvent::Attached(0xa));
    let file = match action {
        ItemAction::DecideJob { file, pipeline_id } => {
            assert_eq!(pipeline_id, 0xa);
            file
        }
        other => panic!("expected the job decision, got {:?}", other),
    };
    let (phase, action) = item_step(
        &c,
        &it,
        7,
        0x9,
        phase,
        ItemEvent::Decided { job_id: 0x5, job_mode: JobLaunchMode::Started, file },
    );
    assert!(matches!(phase, ItemPhase::Done));
    match action {
        ItemAction::Answer(e) => {
            assert_eq!(e.sha256_hex, EMPTY_SHA);
            assert!(!e.deduplicated);
            assert_eq!(e.source.key, key);
            assert_eq!(e.pipeline_id, 0xa);
            assert_eq!(e.job_status_url.as_deref(), Some("/v1/jobs/00000000-0000-0000-0000-000000000005"));
        }
        other => panic!("expected the entry, got {:?}", other),
    }
}

#[test]
fn known_content_is_attached_without_upload_and_marked_deduplicated() {
    let (c, it) = (config(), item());
    let (phase, _) = item_begin(&c, &it);
    let (phase, action) = item_step(&c, &it, 7, 0x9, phase, ItemEvent::Found(Some(record(4, "old/key"))));
    assert!(matches!(action, ItemAction::Attach(ref p) if p.file_id == 4));
    let (phase, action) = item_step(&c, &it, 7, 0x9, phase, ItemEvent::Attached(0x9));
    let file = match action {
        ItemAction::DecideJob { file, .. } => file,
        other => panic!("expected the job decision, got {:?}", other),
    };
    let (_, action) = item_step(
        &c,
        &it,
        7,
        0x9,
        phase,
        ItemEvent::Decided { job_id: 0x6, job_mode: JobLaunchMode::Reused, file },
    );
    match action {
        ItemAction::Answer(e) => {
            assert!(e.deduplicated);
            assert_eq!(e.sha256_hex, EMPTY_SHA);
            assert_eq!(e.source.key, "old/key");
            assert_eq!(e.job_mode, JobLaunchMode::Reused);
        }
        other => panic!("expected the entry, got {:?}", other),
    }
}
