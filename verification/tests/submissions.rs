use gateway::contexts::{AuthUser, ContextMode, ContextRecord, UserRole};
use gateway::error::GatewayError;
use gateway::ingest::{idempotency_key, validate_ingest_type_spec, JsonKind};
use gateway::jobs::{JobEngine, JobRecord, JobStage, JobStatus};
use gateway::submissions::{
    check_existing_job, condition_context_mode, narrow_context_id, plan_submission,
    queued_job_snapshot, submission_begin, submission_step, validate_ingest_schema, ConditionContextMode,
    QueuedEngine, SubmissionAction, SubmissionCall, SubmissionEvent, SubmissionPhase, SubmissionPlan,
};
use serde_json::Value;

fn kind_of(value: &Value) -> JsonKind {
    match value {
        Value::Null => JsonKind::Null,
        Value::Bool(_) => JsonKind::Bool,
        Value::Number(_) => JsonKind::Number,
        Value::String(_) => JsonKind::String,
        Value::Array(_) => JsonKind::Array,
        Value::Object(_) => JsonKind::Object,
    }
}

#[test]
fn rejects_invalid_type_spec() {
    let value = Value::Array(vec![Value::String("string".to_string())]);
    let result = validate_ingest_type_spec(Some(kind_of(&value)));
    assert!(result.is_err());
}

#[test]
fn accepts_string_object_and_missing_type_spec() {
    assert!(validate_ingest_type_spec(None).is_ok());
    assert!(validate_ingest_type_spec(Some(kind_of(&Value::String("string".to_string())))).is_ok());
    assert!(validate_ingest_type_spec(Some(kind_of(&Value::Object(serde_json::Map::new())))).is_ok());
    let err = validate_ingest_type_spec(Some(kind_of(&Value::Bool(true)))).unwrap_err();
    assert!(matches!(err, GatewayError::InvalidField { field, message }
        if field == "schema.type" && message == "schema field type must be a string or object"));
}

#[test]
fn schema_validation_stops_at_first_bad_type() {
    let types = vec![None, Some(JsonKind::String), Some(kind_of(&Value::Null))];
    assert!(validate_ingest_schema(&types).is_err());
    assert!(validate_ingest_schema(&[None, Some(kind_of(&Value::Object(serde_json::Map::new())))]).is_ok());
    assert!(validate_ingest_schema(&[Some(JsonKind::Number), Some(JsonKind::Array)]).is_err());
}

#[test]
fn idempotency_key_is_trimmed() {
    assert_eq!(idempotency_key(Some("  key-1 \t")), Some("key-1"));
    assert_eq!(idempotency_key(Some("   ")), None);
    assert_eq!(idempotency_key(None), None);
}

#[test]
fn context_ids_must_fit_i32() {
    assert_eq!(narrow_context_id(7).unwrap(), 7);
    assert_eq!(narrow_context_id(-2147483648).unwrap(), i32::MIN);
    let err = narrow_context_id(2147483648).unwrap_err();
    assert!(matches!(err, GatewayError::InvalidField { field, message }
        if field == "context_id" && message == "context_id out of range"));
}

fn job(engine: JobEngine, context_id: i32) -> JobRecord {
    JobRecord {
        job_id: 1,
        context_id,
        file_id: None,
        pipeline_id: 2,
        source_job_id: None,
        engine,
        kind: None,
        status: JobStatus::Pending,
        stage: None,
        progress_pct: None,
        stage_progress_current: None,
        stage_progress_total: None,
        stage_progress_pct: None,
        message: None,
        result_json: None,
        updated_at: 0,
    }
}

#[test]
fn resubmission_returns_existing_job_or_conflicts() {
    let id = 0xabcu128;
    assert_eq!(check_existing_job(id, None, JobEngine::Ingest, 7).unwrap(), false);
    assert_eq!(check_existing_job(id, Some(&job(JobEngine::Ingest, 7)), JobEngine::Ingest, 7).unwrap(), true);
    assert!(matches!(
        check_existing_job(id, Some(&job(JobEngine::Mir, 7)), JobEngine::Ingest, 7),
        Err(GatewayError::Conflict(m)) if m == "job_id 00000000-0000-0000-0000-000000000abc already exists"
    ));
    assert!(matches!(
        check_existing_job(id, Some(&job(JobEngine::Conditions, 8)), JobEngine::Conditions, 7),
        Err(GatewayError::Conflict(m)) if m == "job_id 00000000-0000-0000-0000-000000000abc belongs to a different context"
    ));
}

#[test]
fn queued_snapshots_start_pending() {
    let s = queued_job_snapshot(1, 7, 2, QueuedEngine::Ingest, 99);
    assert_eq!(s.status, JobStatus::Pending);
    assert_eq!(s.engine, JobEngine::Ingest);
    assert!(matches!(s.stage, Some(JobStage::Ingest(ref v)) if v == "queued"));
    assert_eq!(s.pipeline_id, Some(2));
    let c = queued_job_snapshot(1, 7, 2, QueuedEngine::Conditions, 99);
    assert!(matches!(c.stage, Some(JobStage::Conditions(ref v)) if v == "queued"));
    assert_eq!(c.updated_at, 99);
}

#[test]
fn condition_mode_follows_context_mode() {
    assert_eq!(condition_context_mode(ContextMode::Emb), ConditionContextMode::Emb);
    assert_eq!(condition_context_mode(ContextMode::Lpg), ConditionContextMode::Lpg);
}

#[test]
fn second_submission_with_same_job_id_returns_the_first_job() {
    let id = 0x77u128;
    let first = plan_submission(id, None, QueuedEngine::Ingest, 7, 5, 10).unwrap();
    let stored = match first {
        SubmissionPlan::Create(u) => {
            assert_eq!(u.job_id, id);
            assert_eq!(u.status, JobStatus::Pending);
            assert_eq!(u.pipeline_id, Some(5));
            let mut j = job(u.engine, u.context_id);
            j.job_id = u.job_id;
            j
        }
        SubmissionPlan::Existing(_) => panic!("a first submission creates its job"),
    };
    match plan_submission(id, Some(&stored), QueuedEngine::Ingest, 7, 6, 11).unwrap() {
        SubmissionPlan::Existing(j) => assert_eq!(j, id),
        SubmissionPlan::Create(_) => panic!("a resubmission creates nothing"),
    }
    assert!(matches!(
        plan_submission(id, Some(&stored), QueuedEngine::Conditions, 7, 6, 11),
        Err(GatewayError::Conflict(m)) if m == "job_id 00000000-0000-0000-0000-000000000077 already exists"
    ));
    assert!(matches!(
        plan_submission(id, Some(&stored), QueuedEngine::Ingest, 8, 6, 11),
        Err(GatewayError::Conflict(m)) if m == "job_id 00000000-0000-0000-0000-000000000077 belongs to a different context"
    ));
}

fn submission(engine: QueuedEngine, schema_types: Vec<Option<JsonKind>>) -> SubmissionCall {
    SubmissionCall {
        job_id: 0x77,
        engine,
        context_id: 7,
        user: AuthUser { id: 0x42, role: UserRole::User },
        pipeline_id: 5,
        now: 10,
        schema_types,
    }
}

fn owned_context() -> ContextRecord {
    ContextRecord {
        id: 7,
        title: None,
        description: None,
        created_at: 0,
        updated_at: 0,
        owner_id: Some(0x42),
        files_count: None,
        mode: ContextMode::Rdf,
    }
}

#[test]
fn ingest_jobs_are_stored_before_their_schema_is_checked() {
    let call = submission(QueuedEngine::Ingest, vec![Some(JsonKind::String)]);
    let (phase, action) = submission_begin(&call);
    assert!(matches!(action, SubmissionAction::FetchJob(0x77)));
    let (phase, action) = submission_step(&call, phase, SubmissionEvent::Job(None));
    assert!(matches!(action, SubmissionAction::Store(ref u) if u.job_id == 0x77 && u.status == JobStatus::Pending));
    let (phase, action) = submission_step(&call, phase, SubmissionEvent::Written);
    assert!(matches!(action, SubmissionAction::Publish));
    let (phase, action) = submission_step(&call, phase, SubmissionEvent::Published);
    assert!(matches!(phase, SubmissionPhase::Done));
    assert!(matches!(action, SubmissionAction::Respond(0x77)));

    let bad = submission(QueuedEngine::Ingest, vec![None, Some(JsonKind::Array)]);
    let (phase, _) = submission_begin(&bad);
    let (phase, action) = submission_step(&bad, phase, SubmissionEvent::Job(None));
    assert!(matches!(action, SubmissionAction::Store(_)));
    let (_, action) = submission_step(&bad, phase, SubmissionEvent::Written);
    assert!(matches!(action, SubmissionAction::Fail(GatewayError::InvalidField { field, .. }) if field == "schema.type"));

    let (phase, _) = submission_begin(&call);
    let (_, action) = submission_step(&call, phase, SubmissionEvent::Job(Some(job(JobEngine::Ingest, 7))));
    assert!(matches!(action, SubmissionAction::Respond(0x77)));
}

#[test]
fn condition_jobs_are_checked_before_they_are_stored() {
    let call = submission(QueuedEngine::Conditions, vec![]);
    let (phase, action) = submission_begin(&call);
    assert!(matches!(action, SubmissionAction::FetchContext(7)));
    let (phase, action) = submission_step(&call, phase, SubmissionEvent::Context(Some(owned_context()), false));
    assert!(matches!(action, SubmissionAction::FetchJob(0x77)));
    let (phase, action) = submission_step(&call, phase, SubmissionEvent::Job(None));
    assert!(matches!(action, SubmissionAction::Validate(Some(ConditionContextMode::Rdf))));
    let (_, refused) = submission_step(
        &call,
        SubmissionPhase::Validating { snapshot: queued_job_snapshot(0x77, 7, 5, QueuedEngine::Conditions, 10) },
        SubmissionEvent::Validated(Err(GatewayError::InvalidField { field: "conditions".into(), message: "empty".into() })),
    );
    assert!(matches!(refused, SubmissionAction::Fail(_)));
    let (phase, action) = submission_step(&call, phase, SubmissionEvent::Validated(Ok(())));
    assert!(matches!(action, SubmissionAction::Store(ref u) if u.engine == JobEngine::Conditions));
    let (phase, action) = submission_step(&call, phase, SubmissionEvent::Written);
    assert!(matches!(action, SubmissionAction::Publish));
    let (_, action) = submission_step(&call, phase, SubmissionEvent::Published);
    assert!(matches!(action, SubmissionAction::Respond(0x77)));

    let stranger = SubmissionCall { user: AuthUser { id: 0x43, role: UserRole::User }, ..submission(QueuedEngine::Conditions, vec![]) };
    let (phase, _) = submission_begin(&stranger);
    let (_, action) = submission_step(&stranger, phase, SubmissionEvent::Context(Some(owned_context()), false));
    assert!(matches!(action, SubmissionAction::Fail(GatewayError::Forbidden(m))
        if m == "context does not belong to the authenticated user"));
}
