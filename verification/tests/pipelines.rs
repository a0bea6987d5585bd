use gateway::error::GatewayError;
use gateway::jobs::{JobEngine, JobKind, JobRecord, JobStatus};
use gateway::pipelines::{filter_linked_mir, is_linked_mir, pipeline_outcome, require_pipeline, summarize_pipeline};

fn uuid(text: &str) -> u128 {
    uuid::Uuid::parse_str(text).expect("uuid").as_u128()
}

fn sample_job(job_id: u128, engine: JobEngine, kind: Option<JobKind>, status: JobStatus) -> JobRecord {
    JobRecord {
        job_id,
        context_id: 7,
        file_id: Some(11),
        pipeline_id: 0,
        source_job_id: None,
        engine,
        kind,
        status,
        stage: None,
        progress_pct: None,
        stage_progress_current: None,
        stage_progress_total: None,
        stage_progress_pct: None,
        message: None,
        result_json: None,
        updated_at: 1_700_000_000_000_000,
    }
}

#[test]
fn summary_ignores_linked_mir_when_canonical_exists() {
    let records = vec![
        sample_job(uuid("44444444-4444-4444-4444-444444444444"), JobEngine::Mir, Some(JobKind::MirLinked), JobStatus::Pending),
        sample_job(uuid("55555555-5555-5555-5555-555555555555"), JobEngine::Mir, None, JobStatus::Success),
        sample_job(uuid("66666666-6666-6666-6666-666666666666"), JobEngine::Rdf, None, JobStatus::Success),
    ];
    assert_eq!(summarize_pipeline(&records), JobStatus::Success);
}

#[test]
fn summary_keeps_linked_mir_when_no_canonical_exists() {
    let records = vec![sample_job(
        uuid("77777777-7777-7777-7777-777777777777"),
        JobEngine::Mir,
        Some(JobKind::MirLinked),
        JobStatus::Pending,
    )];
    assert_eq!(summarize_pipeline(&records), JobStatus::Pending);
}

#[test]
fn summary_status_priority() {
    let fail = vec![
        sample_job(1, JobEngine::Mir, None, JobStatus::Success),
        sample_job(2, JobEngine::Rdf, None, JobStatus::Failure),
        sample_job(3, JobEngine::Rdf, None, JobStatus::Retryable),
    ];
    assert_eq!(summarize_pipeline(&fail), JobStatus::Failure);
    let retry = vec![
        sample_job(1, JobEngine::Mir, None, JobStatus::InProgress),
        sample_job(2, JobEngine::Rdf, None, JobStatus::Retryable),
    ];
    assert_eq!(summarize_pipeline(&retry), JobStatus::Retryable);
    let running = vec![
        sample_job(1, JobEngine::Mir, None, JobStatus::Success),
        sample_job(2, JobEngine::Rdf, None, JobStatus::InProgress),
    ];
    assert_eq!(summarize_pipeline(&running), JobStatus::InProgress);
}

#[test]
fn retired_jobs_are_ignored_while_others_are_active() {
    let records = vec![
        sample_job(1, JobEngine::Mir, None, JobStatus::Retired),
        sample_job(2, JobEngine::Mir, None, JobStatus::Success),
    ];
    assert_eq!(summarize_pipeline(&records), JobStatus::Success);
    let only_retired = vec![sample_job(1, JobEngine::Mir, None, JobStatus::Retired)];
    assert_eq!(summarize_pipeline(&only_retired), JobStatus::Pending);
}

#[test]
fn linked_filter_keeps_non_linked_records() {
    let linked = sample_job(1, JobEngine::Mir, Some(JobKind::MirLinked), JobStatus::Pending);
    let canonical = sample_job(2, JobEngine::Mir, None, JobStatus::Success);
    assert!(is_linked_mir(&linked));
    assert!(!is_linked_mir(&canonical));
    let kept = filter_linked_mir(vec![&linked, &canonical]);
    assert_eq!(kept.len(), 1);
    assert_eq!(kept[0].job_id, 2);
}

#[test]
fn pipeline_outcome_reports_latest_update() {
    let mut a = sample_job(1, JobEngine::Mir, None, JobStatus::Success);
    a.updated_at = 5;
    let mut b = sample_job(2, JobEngine::Rdf, None, JobStatus::InProgress);
    b.updated_at = 9;
    let mut c = sample_job(3, JobEngine::Rdf, None, JobStatus::Pending);
    c.updated_at = 7;
    let (status, latest) = pipeline_outcome(0x42, &[a, b, c]).expect("outcome");
    assert_eq!(status, JobStatus::InProgress);
    assert_eq!(latest, 9);
}

#[test]
fn pipeline_without_jobs_is_not_found() {
    assert!(matches!(
        pipeline_outcome(0x42, &[]),
        Err(GatewayError::NotFound(m)) if m == "no jobs found for pipeline 00000000-0000-0000-0000-000000000042"
    ));
    assert!(matches!(
        require_pipeline(0x42, None),
        Err(GatewayError::NotFound(m)) if m == "00000000-0000-0000-0000-000000000042"
    ));
}
