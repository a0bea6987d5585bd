//! Submitting asynchronous jobs (structured ingest, condition evaluation):
//! the context id they run under, how a resubmission with the same job id is
//! answered, and the pending record a new job starts with.
use vstd::prelude::*;
use crate::contexts::{ensure_context_owner, may_read, AuthUser, ContextMode, ContextRecord};
use crate::error::{invalid_field, is_forbidden, is_invalid_field, GatewayError};
use crate::ids::{uuid_text, uuid_to_string, Uuid};
use crate::ingest::{type_spec_ok, validate_ingest_type_spec, JsonKind};
use crate::jobs::{JobEngine, JobRecord, JobSnapshotUpsert, JobStage, JobStatus};
use crate::time::Timestamp;

verus! {

/// A context id from a request path, which must fit the store's 32-bit ids.
pub fn narrow_context_id(context_id: i64) -> (r: Result<i32, GatewayError>)
    ensures
        i32::MIN <= context_id <= i32::MAX ==> r == Ok::<i32, GatewayError>(context_id as i32),
        !(i32::MIN <= context_id <= i32::MAX) ==> (r matches Err(e) && is_invalid_field(
            e,
            "context_id"@,
            "context_id out of range"@,
        )),
{
    if i32::MIN as i64 <= context_id && context_id <= i32::MAX as i64 {
        Ok(context_id as i32)
    } else {
        Err(invalid_field("context_id", "context_id out of range"))
    }
}

/// The conflict message for a job id taken by a job of another engine.
pub open spec fn taken_message(job_id: Uuid) -> Seq<char> {
    "job_id "@ + uuid_text(job_id) + " already exists"@
}

/// The conflict message for a job id taken by a job of another context.
pub open spec fn foreign_message(job_id: Uuid) -> Seq<char> {
    "job_id "@ + uuid_text(job_id) + " belongs to a different context"@
}

fn job_id_message(job_id: Uuid, tail: &str) -> (r: String)
    ensures
        r@ == "job_id "@ + uuid_text(job_id) + tail@,
{
    let mut m = String::from_str("job_id ");
    let id_text = uuid_to_string(job_id);
    m.append(id_text.as_str());
    m.append(tail);
    m
}

/// How a submission whose job id is already taken is answered, given the job
/// the store holds under that id (`None` when there is none): `Ok(false)`
/// when the job is new; `Ok(true)` when the same submission was made before,
/// so that the existing job is returned; a conflict when the id belongs to a
/// job of another engine or another context.
pub fn check_existing_job(job_id: Uuid, existing: Option<&JobRecord>, engine: JobEngine, context_id: i32) -> (r:
    Result<bool, GatewayError>)
    ensures
        match existing {
            None => r == Ok::<bool, GatewayError>(false),
            Some(j) => if j.engine != engine {
                r matches Err(GatewayError::Conflict(m)) && m@ == taken_message(job_id)
            } else if j.context_id != context_id {
                r matches Err(GatewayError::Conflict(m)) && m@ == foreign_message(job_id)
            } else {
                r == Ok::<bool, GatewayError>(true)
            },
        },
{
    match existing {
        None => Ok(false),
        Some(j) => {
            if j.engine != engine {
                Err(GatewayError::Conflict(job_id_message(job_id, " already exists")))
            } else if j.context_id != context_id {
                Err(GatewayError::Conflict(job_id_message(job_id, " belongs to a different context")))
            } else {
                Ok(true)
            }
        },
    }
}

/// The engines whose jobs are submitted directly and start queued.
#[derive(Debug, Clone, Copy, PartialEq, Eq, Structural)]
pub enum QueuedEngine {
    Ingest,
    Conditions,
}

/// The job engine of a directly submitted job.
pub open spec fn queued_engine(e: QueuedEngine) -> JobEngine {
    match e {
        QueuedEngine::Ingest => JobEngine::Ingest,
        QueuedEngine::Conditions => JobEngine::Conditions,
    }
}

/// `stage` is the `queued` stage of the engine.
pub open spec fn queued_stage(engine: QueuedEngine, stage: JobStage) -> bool {
    match stage {
        JobStage::Ingest(s) => engine == QueuedEngine::Ingest && s@ == "queued"@,
        JobStage::Conditions(s) => engine == QueuedEngine::Conditions && s@ == "queued"@,
        _ => false,
    }
}

/// The record a newly submitted ingest or condition job starts with: pending,
/// at its engine's `queued` stage, in a pipeline of its own, with no file,
/// source, kind, progress, message or result.
pub fn queued_job_snapshot(job_id: Uuid, context_id: i32, pipeline_id: Uuid, engine: QueuedEngine, now: Timestamp) -> (r:
    JobSnapshotUpsert)
    ensures
        r.job_id == job_id,
        r.context_id == context_id,
        r.file_id is None,
        r.pipeline_id == Some(pipeline_id),
        r.source_job_id is None,
        r.engine == queued_engine(engine),
        r.kind is None,
        r.status == JobStatus::Pending,
        r.stage matches Some(s) && queued_stage(engine, s),
        r.progress_pct is None,
        r.stage_progress_current is None && r.stage_progress_total is None && r.stage_progress_pct
            is None,
        r.message is None,
        r.result_json is None,
        r.updated_at == now,
{
    let (job_engine, stage) = match engine {
        QueuedEngine::Ingest => (JobEngine::Ingest, JobStage::Ingest(String::from_str("queued"))),
        QueuedEngine::Conditions => (
            JobEngine::Conditions,
            JobStage::Conditions(String::from_str("queued")),
        ),
    };
    JobSnapshotUpsert {
        job_id,
        context_id,
        file_id: None,
        pipeline_id: Some(pipeline_id),
        source_job_id: None,
        engine: job_engine,
        kind: None,
        status: JobStatus::Pending,
        stage: Some(stage),
        progress_pct: None,
        stage_progress_current: None,
        stage_progress_total: None,
        stage_progress_pct: None,
        message: None,
        result_json: None,
        updated_at: now,
    }
}

/// `u` is the record a newly submitted job starts with, as
/// `queued_job_snapshot` makes it.
pub open spec fn is_queued_snapshot(
    u: JobSnapshotUpsert,
    job_id: Uuid,
    context_id: i32,
    pipeline_id: Uuid,
    engine: QueuedEngine,
    now: Timestamp,
) -> bool {
    &&& u.job_id == job_id
    &&& u.context_id == context_id
    &&& u.file_id is None
    &&& u.pipeline_id == Some(pipeline_id)
    &&& u.source_job_id is None
    &&& u.engine == queued_engine(engine)
    &&& u.kind is None
    &&& u.status == JobStatus::Pending
    &&& u.stage matches Some(s) && queued_stage(engine, s)
    &&& u.progress_pct is None
    &&& u.stage_progress_current is None && u.stage_progress_total is None
        && u.stage_progress_pct is None
    &&& u.message is None
    &&& u.result_json is None
    &&& u.updated_at == now
}

/// What a job submission leads to once its job id is known.
#[derive(Debug)]
pub enum SubmissionPlan {
    /// The same submission was made before: it is answered with this job, and
    /// nothing is stored or published.
    Existing(Uuid),
    /// A new job with this pending record; `submission_step` fixes the order
    /// in which it is stored, the request checked and the start published.
    Create(JobSnapshotUpsert),
}

/// What a submission with this job id leads to, given the job the store holds
/// under that id (`None` when there is none).
pub open spec fn submission_planned(
    job_id: Uuid,
    existing: Option<&JobRecord>,
    engine: QueuedEngine,
    context_id: i32,
    pipeline_id: Uuid,
    now: Timestamp,
    r: Result<SubmissionPlan, GatewayError>,
) -> bool {
    match existing {
        None => r matches Ok(SubmissionPlan::Create(u)) && is_queued_snapshot(
            u,
            job_id,
            context_id,
            pipeline_id,
            engine,
            now,
        ),
        Some(j) => if j.engine != queued_engine(engine) {
            r matches Err(GatewayError::Conflict(m)) && m@ == taken_message(job_id)
        } else if j.context_id != context_id {
            r matches Err(GatewayError::Conflict(m)) && m@ == foreign_message(job_id)
        } else {
            r matches Ok(SubmissionPlan::Existing(id)) && id == job_id
        },
    }
}

/// Decides a job submission: the existing job when the same submission was
/// made before, a conflict when the id is taken by another engine's or
/// another context's job, and otherwise the pending record of a new job in
/// pipeline `pipeline_id`.
pub fn plan_submission(
    job_id: Uuid,
    existing: Option<&JobRecord>,
    engine: QueuedEngine,
    context_id: i32,
    pipeline_id: Uuid,
    now: Timestamp,
) -> (r: Result<SubmissionPlan, GatewayError>)
    ensures
        submission_planned(job_id, existing, engine, context_id, pipeline_id, now, r),
{
    let job_engine = match engine {
        QueuedEngine::Ingest => JobEngine::Ingest,
        QueuedEngine::Conditions => JobEngine::Conditions,
    };
    match check_existing_job(job_id, existing, job_engine, context_id) {
        Err(e) => Err(e),
        Ok(true) => Ok(SubmissionPlan::Existing(job_id)),
        Ok(false) => Ok(
            SubmissionPlan::Create(queued_job_snapshot(job_id, context_id, pipeline_id, engine, now)),
        ),
    }
}

/// A second submission under the same job id, for the same engine and
/// context, after the first one created its job, is answered with that job,
/// and stores and publishes nothing, whatever pipeline id and time it comes
/// with.
pub proof fn law_resubmission_returns_existing(
    job_id: Uuid,
    engine: QueuedEngine,
    context_id: i32,
    first_pipeline: Uuid,
    first_now: Timestamp,
    first: Result<SubmissionPlan, GatewayError>,
    stored: JobRecord,
    second_pipeline: Uuid,
    second_now: Timestamp,
    second: Result<SubmissionPlan, GatewayError>,
)
    requires
        submission_planned(job_id, None, engine, context_id, first_pipeline, first_now, first),
        first matches Ok(SubmissionPlan::Create(u)) && stored.job_id == u.job_id && stored.engine
            == u.engine && stored.context_id == u.context_id,
        submission_planned(
            job_id,
            Some(&stored),
            engine,
            context_id,
            second_pipeline,
            second_now,
            second,
        ),
    ensures
        second matches Ok(SubmissionPlan::Existing(id)) && id == job_id,
{
}

/// Checks the type of every field of an ingest schema, by the kind of its
/// JSON value, in order, and stops at the first that is not a string or an
/// object. A schema whose fields give no type passes.
pub fn validate_ingest_schema(types: &[Option<JsonKind>]) -> (r: Result<(), GatewayError>)
    ensures
        (forall|i: int| 0 <= i < types@.len() ==> type_spec_ok(#[trigger] types@[i])) ==> r is Ok,
        !(forall|i: int| 0 <= i < types@.len() ==> type_spec_ok(#[trigger] types@[i])) ==> (r matches Err(
            e,
        ) && is_invalid_field(e, "schema.type"@, "schema field type must be a string or object"@)),
{
    let mut i: usize = 0;
    while i < types.len()
        invariant
            i <= types@.len(),
            forall|j: int| 0 <= j < i ==> type_spec_ok(#[trigger] types@[j]),
        decreases types@.len() - i,
    {
        match validate_ingest_type_spec(types[i]) {
            Ok(()) => {},
            Err(e) => return Err(e),
        }
        i = i + 1;
    }
    Ok(())
}

/// The mode a condition evaluation runs in: that of its context.
#[derive(Debug, Clone, Copy, PartialEq, Eq, Structural)]
pub enum ConditionContextMode {
    Emb,
    Rdf,
    Lpg,
}

/// The evaluation mode for a context of this mode: the same mode.
pub open spec fn condition_mode_of(mode: ContextMode) -> ConditionContextMode {
    match mode {
        ContextMode::Emb => ConditionContextMode::Emb,
        ContextMode::Rdf => ConditionContextMode::Rdf,
        ContextMode::Lpg => ConditionContextMode::Lpg,
    }
}

/// The evaluation mode for a context of this mode.
pub fn condition_context_mode(mode: ContextMode) -> (r: ConditionContextMode)
    ensures
        r == condition_mode_of(mode),
{
    match mode {
        ContextMode::Emb => ConditionContextMode::Emb,
        ContextMode::Rdf => ConditionContextMode::Rdf,
        ContextMode::Lpg => ConditionContextMode::Lpg,
    }
}


/// A job submission: the job id it is made under, the engine, the context,
/// its caller, the pipeline and time a new job gets, and, for an ingest job,
/// the kinds of the types its schema fields give.
#[derive(Debug)]
pub struct SubmissionCall {
    pub job_id: Uuid,
    pub engine: QueuedEngine,
    pub context_id: i32,
    pub user: AuthUser,
    pub pipeline_id: Uuid,
    pub now: Timestamp,
    pub schema_types: Vec<Option<JsonKind>>,
}

/// Where a submission stands between two answers.
#[derive(Debug)]
pub enum SubmissionPhase {
    /// Condition jobs: waiting for the context and whether it is shared with
    /// the caller.
    CheckContext,
    /// Waiting for the job the store holds under the job id; the mode of the
    /// context, for a condition job.
    Lookup { context_mode: Option<ConditionContextMode> },
    /// Condition jobs: waiting for the verdict on the request, before the job
    /// is stored.
    Validating { snapshot: JobSnapshotUpsert },
    /// Waiting for the new job's record to be written.
    Storing,
    /// Waiting for the job's start to be published.
    Publishing,
    /// The submission was answered or refused.
    Done,
}

/// An answer from the stores or the services during a submission.
#[derive(Debug)]
pub enum SubmissionEvent {
    /// The context, and whether it is shared with the caller.
    Context(Option<ContextRecord>, bool),
    /// The job the store holds under the job id, if any.
    Job(Option<JobRecord>),
    /// The verdict on a condition evaluation request.
    Validated(Result<(), GatewayError>),
    /// The record was written.
    Written,
    /// The start was published.
    Published,
}

/// What the caller of a submission does next.
#[derive(Debug)]
pub enum SubmissionAction {
    /// Look the context up.
    FetchContext(i32),
    /// Look up the job stored under this id.
    FetchJob(Uuid),
    /// Check the condition evaluation request, in this context mode.
    Validate(Option<ConditionContextMode>),
    /// Write this record.
    Store(JobSnapshotUpsert),
    /// Publish the job's start.
    Publish,
    /// Answer with this job, accepted.
    Respond(Uuid),
    /// Refuse the submission with this error.
    Fail(GatewayError),
}

/// The first step of a submission: a condition job first checks the
/// caller's access to its context; an ingest job looks its job id up.
pub fn submission_begin(call: &SubmissionCall) -> (r: (SubmissionPhase, SubmissionAction))
    ensures
        submission_phase_ok(*call, r.0),
        call.engine == QueuedEngine::Conditions ==> (r.0 is CheckContext && r.1
            == SubmissionAction::FetchContext(call.context_id)),
        call.engine == QueuedEngine::Ingest ==> (r.0 == (SubmissionPhase::Lookup {
            context_mode: None,
        }) && r.1 == SubmissionAction::FetchJob(call.job_id)),
{
    match call.engine {
        QueuedEngine::Conditions => (
            SubmissionPhase::CheckContext,
            SubmissionAction::FetchContext(call.context_id),
        ),
        QueuedEngine::Ingest => (
            SubmissionPhase::Lookup { context_mode: None },
            SubmissionAction::FetchJob(call.job_id),
        ),
    }
}

/// A submission of this engine can stand in `phase`: only condition jobs
/// check their context and have their request checked before storing, and
/// they carry their context's mode.
pub open spec fn submission_phase_ok(call: SubmissionCall, phase: SubmissionPhase) -> bool {
    match phase {
        SubmissionPhase::CheckContext => call.engine == QueuedEngine::Conditions,
        SubmissionPhase::Lookup { context_mode } => (call.engine == QueuedEngine::Conditions
            <==> context_mode is Some),
        SubmissionPhase::Validating { .. } => call.engine == QueuedEngine::Conditions,
        _ => true,
    }
}

/// `event` answers what a submission in `phase` waits for.
pub open spec fn submission_awaits(phase: SubmissionPhase, event: SubmissionEvent) -> bool {
    match (phase, event) {
        (SubmissionPhase::CheckContext, SubmissionEvent::Context(_, _)) => true,
        (SubmissionPhase::Lookup { .. }, SubmissionEvent::Job(_)) => true,
        (SubmissionPhase::Validating { .. }, SubmissionEvent::Validated(_)) => true,
        (SubmissionPhase::Storing, SubmissionEvent::Written) => true,
        (SubmissionPhase::Publishing, SubmissionEvent::Published) => true,
        _ => false,
    }
}

/// The submission ends, refused with an error `e` for which `ok` holds.
pub open spec fn submission_refused(next: SubmissionPhase, action: SubmissionAction, ok: spec_fn(GatewayError) -> bool) -> bool {
    next is Done && (action matches SubmissionAction::Fail(e) && ok(e))
}

/// One step of a submission. An ingest job is stored, then its schema
/// checked, then its start published; a condition job is checked, then
/// stored, then published.
pub open spec fn submission_transition(
    call: SubmissionCall,
    phase: SubmissionPhase,
    event: SubmissionEvent,
    next: SubmissionPhase,
    action: SubmissionAction,
) -> bool {
    match (phase, event) {
        (SubmissionPhase::CheckContext, SubmissionEvent::Context(context, shared)) => match context {
            None => submission_refused(next, action, |e: GatewayError| e == GatewayError::ContextNotFound(call.context_id)),
            Some(c) => if may_read(c.owner_id, call.user, shared) {
                next == (SubmissionPhase::Lookup { context_mode: Some(condition_mode_of(c.mode)) })
                    && action == SubmissionAction::FetchJob(call.job_id)
            } else {
                submission_refused(next, action, |e: GatewayError| is_forbidden(e, "context does not belong to the authenticated user"@))
            },
        },
        (SubmissionPhase::Lookup { context_mode }, SubmissionEvent::Job(existing)) => match existing {
            Some(j) => if j.engine != queued_engine(call.engine) {
                submission_refused(next, action, |e: GatewayError| e matches GatewayError::Conflict(m) && m@ == taken_message(call.job_id))
            } else if j.context_id != call.context_id {
                submission_refused(next, action, |e: GatewayError| e matches GatewayError::Conflict(m) && m@ == foreign_message(call.job_id))
            } else {
                next is Done && action == SubmissionAction::Respond(call.job_id)
            },
            None => if call.engine == QueuedEngine::Ingest {
                next is Storing && (action matches SubmissionAction::Store(u) && is_queued_snapshot(
                    u,
                    call.job_id,
                    call.context_id,
                    call.pipeline_id,
                    call.engine,
                    call.now,
                ))
            } else {
                (next matches SubmissionPhase::Validating { snapshot } && is_queued_snapshot(
                    snapshot,
                    call.job_id,
                    call.context_id,
                    call.pipeline_id,
                    call.engine,
                    call.now,
                )) && action == SubmissionAction::Validate(context_mode)
            },
        },
        (SubmissionPhase::Validating { snapshot }, SubmissionEvent::Validated(verdict)) => match verdict {
            Err(e) => next is Done && action == SubmissionAction::Fail(e),
            Ok(_) => next is Storing && action == SubmissionAction::Store(snapshot),
        },
        (SubmissionPhase::Storing, SubmissionEvent::Written) => if call.engine == QueuedEngine::Ingest
            && !(forall|i: int| 0 <= i < call.schema_types@.len() ==> type_spec_ok(#[trigger] call.schema_types@[i])) {
            submission_refused(next, action, |e: GatewayError| is_invalid_field(e, "schema.type"@, "schema field type must be a string or object"@))
        } else {
            next is Publishing && action is Publish
        },
        (SubmissionPhase::Publishing, SubmissionEvent::Published) => next is Done && action
            == SubmissionAction::Respond(call.job_id),
        _ => false,
    }
}

/// The step of a submission in `phase` on the answer `event`.
pub fn submission_step(call: &SubmissionCall, phase: SubmissionPhase, event: SubmissionEvent) -> (r: (
    SubmissionPhase,
    SubmissionAction,
))
    requires
        submission_awaits(phase, event),
        submission_phase_ok(*call, phase),
    ensures
        submission_transition(*call, phase, event, r.0, r.1),
        submission_phase_ok(*call, r.0),
{
    match (phase, event) {
        (SubmissionPhase::CheckContext, SubmissionEvent::Context(context, shared)) => match ensure_context_owner(
            context,
            call.context_id,
            &call.user,
            shared,
        ) {
            Err(e) => (SubmissionPhase::Done, SubmissionAction::Fail(e)),
            Ok(c) => (
                SubmissionPhase::Lookup { context_mode: Some(condition_context_mode(c.mode)) },
                SubmissionAction::FetchJob(call.job_id),
            ),
        },
        (SubmissionPhase::Lookup { context_mode }, SubmissionEvent::Job(existing)) => {
            let found = match &existing {
                Some(j) => Some(j),
                None => None,
            };
            match plan_submission(call.job_id, found, call.engine, call.context_id, call.pipeline_id, call.now) {
                Err(e) => (SubmissionPhase::Done, SubmissionAction::Fail(e)),
                Ok(SubmissionPlan::Existing(id)) => (SubmissionPhase::Done, SubmissionAction::Respond(id)),
                Ok(SubmissionPlan::Create(snapshot)) => match call.engine {
                    QueuedEngine::Ingest => (SubmissionPhase::Storing, SubmissionAction::Store(snapshot)),
                    QueuedEngine::Conditions => (
                        SubmissionPhase::Validating { snapshot },
                        SubmissionAction::Validate(context_mode),
                    ),
                },
            }
        },
        (SubmissionPhase::Validating { snapshot }, SubmissionEvent::Validated(verdict)) => match verdict {
            Err(e) => (SubmissionPhase::Done, SubmissionAction::Fail(e)),
            Ok(()) => (SubmissionPhase::Storing, SubmissionAction::Store(snapshot)),
        },
        (SubmissionPhase::Storing, SubmissionEvent::Written) => {
            let checked = match call.engine {
                QueuedEngine::Ingest => validate_ingest_schema(call.schema_types.as_slice()),
                QueuedEngine::Conditions => Ok(()),
            };
            match checked {
                Err(e) => (SubmissionPhase::Done, SubmissionAction::Fail(e)),
                Ok(()) => (SubmissionPhase::Publishing, SubmissionAction::Publish),
            }
        },
        (SubmissionPhase::Publishing, SubmissionEvent::Published) => (
            SubmissionPhase::Done,
            SubmissionAction::Respond(call.job_id),
        ),
        (phase, _) => (phase, SubmissionAction::FetchJob(call.job_id)),
    }
}

/// The order of a submission: a condition job is stored only after its
/// request passed the check, and before that nothing is stored; an ingest job
/// is stored before its schema is checked, so a refused schema leaves the
/// pending job stored; a start is published only after the job's record was
/// written, and a new job is answered only after its start was published. A
/// job found under the job id for the same engine and context is answered at
/// once, with nothing stored or published.
pub proof fn law_submission_order(
    call: SubmissionCall,
    phase: SubmissionPhase,
    event: SubmissionEvent,
    next: SubmissionPhase,
    action: SubmissionAction,
)
    requires
        submission_phase_ok(call, phase),
        submission_transition(call, phase, event, next, action),
    ensures
        submission_phase_ok(call, next),
        call.engine == QueuedEngine::Conditions && action is Store ==> (phase is Validating
            && event matches SubmissionEvent::Validated(Ok(_))),
        call.engine == QueuedEngine::Ingest && action is Store ==> phase is Lookup,
        action is Validate ==> (call.engine == QueuedEngine::Conditions && next is Validating
            && action matches SubmissionAction::Validate(Some(_))),
        action is Publish ==> phase is Storing && event is Written,
        action is Respond ==> (phase is Publishing || phase is Lookup),
        phase is Lookup && action is Respond ==> (event matches SubmissionEvent::Job(Some(j))
            && j.engine == queued_engine(call.engine) && j.context_id == call.context_id),
        call.engine == QueuedEngine::Ingest && phase is Storing && action is Fail ==> !(forall|
            i: int,
        | 0 <= i < call.schema_types@.len() ==> type_spec_ok(#[trigger] call.schema_types@[i])),
{
}
} // verus!
