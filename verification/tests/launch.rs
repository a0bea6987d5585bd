use gateway::config::AppConfig;
use gateway::files::{FileRecord, FileStatus};
use gateway::jobs::{JobEngine, JobKind, JobLaunchMode, JobRecord, JobStage, JobStatus};
use gateway::artifacts::{ArtifactKind, ArtifactRef};
use gateway::launch::{
    build_request, linked_snapshot, pending_rdf_snapshot, plan_job_action, rdf_document_id,
    rdf_fanout_artifact, reuse_begin, reuse_step, reused_snapshot, settle_job_action, JobActionPlan,
    ReuseAction, ReuseEvent, ReusePhase,
};
use gateway::artifacts::MirOutcome;

fn file(processed_at: Option<i64>, doc_id: Option<u128>) -> FileRecord {
    FileRecord {
        id: 11,
        sha256: vec![],
        size_bytes: 0,
        mime: None,
        storage_bucket: "in".to_string(),
        storage_key: "k".to_string(),
        status: FileStatus::Success,
        mir_job_id: Some(0x5),
        mir_artifact_uri: None,
        mir_artifact_sha256: None,
        mir_processed_at: processed_at,
        doc_id,
        created_at: 0,
        updated_at: 0,
    }
}

#[test]
fn plans_follow_dedup_and_file_status() {
    assert_eq!(plan_job_action(true, FileStatus::Success), JobActionPlan::Reuse);
    assert_eq!(plan_job_action(true, FileStatus::Processing), JobActionPlan::Link);
    assert_eq!(plan_job_action(false, FileStatus::Success), JobActionPlan::Start);
    assert_eq!(settle_job_action(JobActionPlan::Reuse, Some(3)), Some((3, JobLaunchMode::Reused)));
    assert_eq!(settle_job_action(JobActionPlan::Link, Some(4)), Some((4, JobLaunchMode::Linked)));
    assert_eq!(settle_job_action(JobActionPlan::Reuse, None), None);
    assert_eq!(settle_job_action(JobActionPlan::Start, Some(4)), None);
}

#[test]
fn reused_snapshot_is_a_completed_success() {
    let s = reused_snapshot(0x7, 3, &file(Some(42), None), 0x8, serde_json::Value::Null, 99);
    assert_eq!(s.kind, Some(JobKind::MirReused));
    assert_eq!(s.status, JobStatus::Success);
    assert!(matches!(s.stage, Some(JobStage::Mir(ref v)) if v == "completed"));
    assert_eq!(s.progress_pct, Some(100));
    assert_eq!(s.message.as_deref(), Some("mir result reused"));
    assert_eq!(s.updated_at, 42);
    assert_eq!(reused_snapshot(0x7, 3, &file(None, None), 0x8, serde_json::Value::Null, 99).updated_at, 99);
}

#[test]
fn rdf_snapshots_and_document_id() {
    let fanout = pending_rdf_snapshot(0x9, 3, 11, 0x8, 0x7, false, 5);
    assert_eq!(fanout.kind, Some(JobKind::Fanout));
    assert_eq!(fanout.message.as_deref(), Some("rdf pending"));
    assert_eq!(fanout.engine, JobEngine::Rdf);
    let retried = pending_rdf_snapshot(0x9, 3, 11, 0x8, 0x7, true, 5);
    assert_eq!(retried.kind, Some(JobKind::Retry));
    assert_eq!(retried.message.as_deref(), Some("rdf retried"));
    assert_eq!(rdf_document_id(&file(None, Some(0x33)), 0x7), 0x33);
    assert_eq!(rdf_document_id(&file(None, None), 0x7), 0x7);
}

#[test]
fn linked_snapshot_copies_the_source_progress() {
    let template = JobRecord {
        job_id: 0x5,
        context_id: 1,
        file_id: Some(11),
        pipeline_id: 0x1,
        source_job_id: None,
        engine: JobEngine::Mir,
        kind: None,
        status: JobStatus::InProgress,
        stage: Some(JobStage::Mir("ocr".to_string())),
        progress_pct: Some(30),
        stage_progress_current: Some(3),
        stage_progress_total: Some(10),
        stage_progress_pct: Some(30),
        message: Some("reading".to_string()),
        result_json: None,
        updated_at: 77,
    };
    let s = linked_snapshot(0x6, 3, 11, 0x8, 0x5, template);
    assert_eq!(s.kind, Some(JobKind::MirLinked));
    assert_eq!(s.source_job_id, Some(0x5));
    assert_eq!(s.status, JobStatus::InProgress);
    assert_eq!(s.stage_progress_total, Some(10));
    assert_eq!(s.updated_at, 77);
}

#[test]
fn mir_request_writes_under_job_prefix() {
    let config = AppConfig {
        input_bucket: "in".to_string(),
        input_prefix: String::new(),
        output_bucket: "out".to_string(),
        output_prefix: "mir".to_string(),
        progress_topic: "p".to_string(),
        result_topic: "r".to_string(),
        rdf_progress_topic: "rp".to_string(),
        rdf_result_topic: "rr".to_string(),
        files_dedup_enabled: true,
    };
    let r = build_request(&config, 0xabc, "in".to_string(), "key".to_string(), 3, None, true, 10);
    assert_eq!(r.output_bucket, "out");
    assert_eq!(r.output_prefix, "mir/00000000-0000-0000-0000-000000000abc");
    assert_eq!(r.attempt, 1);
    assert!(r.dry_run);
}

#[test]
fn fanout_only_without_rdf_job_and_with_document() {
    let list = vec![
        ArtifactRef { bucket: "o".into(), key: "a.zip".into(), content_type: None, kind: ArtifactKind::Archive },
        ArtifactRef { bucket: "o".into(), key: "d.md".into(), content_type: None, kind: ArtifactKind::Document },
    ];
    assert_eq!(rdf_fanout_artifact(false, &list), Some(1));
    assert_eq!(rdf_fanout_artifact(true, &list), None);
    assert_eq!(rdf_fanout_artifact(false, &list[..1]), None);
}

fn source_job(result_json: Option<serde_json::Value>) -> JobRecord {
    JobRecord {
        job_id: 0x5,
        context_id: 2,
        file_id: Some(11),
        pipeline_id: 0x66,
        source_job_id: None,
        engine: JobEngine::Mir,
        kind: None,
        status: JobStatus::Success,
        stage: None,
        progress_pct: Some(100),
        stage_progress_current: None,
        stage_progress_total: None,
        stage_progress_pct: None,
        message: None,
        result_json,
        updated_at: 1,
    }
}

fn document() -> ArtifactRef {
    ArtifactRef { bucket: "o".into(), key: "doc.md".into(), content_type: None, kind: ArtifactKind::Document }
}

#[test]
fn reuse_skips_without_a_usable_earlier_result() {
    let mut no_job = file(None, None);
    no_job.mir_job_id = None;
    let (phase, action) = reuse_begin(&no_job);
    assert!(matches!(phase, ReusePhase::Done));
    assert!(matches!(action, ReuseAction::Finish(None)));

    let f = file(None, None);
    let (phase, action) = reuse_begin(&f);
    assert!(matches!(action, ReuseAction::FetchJob(0x5)));
    let (_, action) = reuse_step(&f, 3, 0x8, phase, ReuseEvent::Source(None));
    assert!(matches!(action, ReuseAction::Finish(None)));
    let (_, action) =
        reuse_step(&f, 3, 0x8, ReusePhase::LoadSource { source_job_id: 0x5 }, ReuseEvent::Source(Some(source_job(None))));
    assert!(matches!(action, ReuseAction::Finish(None)));
    let (_, action) =
        reuse_step(&f, 3, 0x8, ReusePhase::Decode { source_job_id: 0x5 }, ReuseEvent::Decoded(MirOutcome::Failed));
    assert!(matches!(action, ReuseAction::Finish(None)));
}

#[test]
fn reuse_stores_the_job_then_fans_out_rdf() {
    let f = file(Some(42), None);
    let (phase, _) = reuse_begin(&f);
    let (phase, action) =
        reuse_step(&f, 3, 0x8, phase, ReuseEvent::Source(Some(source_job(Some(serde_json::Value::Bool(true))))));
    assert!(matches!(action, ReuseAction::DecodeResult(0x5)));
    let (phase, action) =
        reuse_step(&f, 3, 0x8, phase, ReuseEvent::Decoded(MirOutcome::Success(vec![document()])));
    assert!(matches!(action, ReuseAction::RewriteResult(0x5)));
    let (phase, action) = reuse_step(
        &f,
        3,
        0x8,
        phase,
        ReuseEvent::Rewritten { new_job_id: 0x7, result_json: serde_json::Value::Null, now: 99 },
    );
    match action {
        ReuseAction::Store(u) => {
            assert_eq!(u.job_id, 0x7);
            assert_eq!(u.kind, Some(JobKind::MirReused));
            assert_eq!(u.updated_at, 42);
        }
        other => panic!("expected the reused record, got {:?}", other),
    }
    let (phase, action) = reuse_step(&f, 3, 0x8, phase, ReuseEvent::Written);
    assert!(matches!(action, ReuseAction::CheckRdf { file_id: 11, context_id: 3 }));
    let (phase, action) = reuse_step(&f, 3, 0x8, phase, ReuseEvent::RdfExists(false));
    assert!(matches!(action, ReuseAction::BuildRdfStart { artifact: 0, doc_id: 0x5 }));
    let (phase, action) = reuse_step(&f, 3, 0x8, phase, ReuseEvent::RdfStart(Some((0x9, 100))));
    match action {
        ReuseAction::Store(u) => {
            assert_eq!(u.job_id, 0x9);
            assert_eq!(u.source_job_id, Some(0x7));
            assert_eq!(u.engine, JobEngine::Rdf);
            assert_eq!(u.message.as_deref(), Some("rdf pending"));
        }
        other => panic!("expected the pending RDF record, got {:?}", other),
    }
    let (phase, action) = reuse_step(&f, 3, 0x8, phase, ReuseEvent::Written);
    assert!(matches!(action, ReuseAction::PublishRdfStart));
    let (phase, action) = reuse_step(&f, 3, 0x8, phase, ReuseEvent::Published);
    assert!(matches!(phase, ReusePhase::Done));
    assert!(matches!(action, ReuseAction::Finish(Some(0x7))));

    let (_, action) = reuse_step(
        &f,
        3,
        0x8,
        ReusePhase::CheckRdf { source_job_id: 0x5, new_job_id: 0x7, artifacts: vec![document()] },
        ReuseEvent::RdfExists(true),
    );
    assert!(matches!(action, ReuseAction::Finish(Some(0x7))));
}
