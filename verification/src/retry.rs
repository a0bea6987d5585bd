//! Retrying a job: the checks a retry request passes, the MIR job whose
//! result feeds an RDF retry, and the record that retires the retried job.
use vstd::prelude::*;
use crate::artifacts::{is_artifact_choice, select_artifact, MirOutcome};
use crate::contexts::{ensure_context_write_access, may_write, AuthUser, ContextRecord, UserRole};
use crate::error::{invalid_field, is_forbidden, is_invalid_field, GatewayError};
use crate::files::FileRecord;
use crate::ids::{uuid_text, uuid_to_string, Uuid};
use crate::jobs::{require_job, JobEngine, JobLaunchMode, JobRecord, JobSnapshotUpsert, JobStatus};
use crate::numbers::{i64_text, int_text};
use crate::time::Timestamp;

verus! {

/// The answer to a retry request.
#[derive(Debug, Clone, Copy, PartialEq, Eq, Structural)]
pub struct JobRetryResponse {
    pub original_job_id: Uuid,
    pub new_job_id: Uuid,
    pub job_mode: JobLaunchMode,
}

impl JobRetryResponse {
    /// The answer for a retry that started `new_job_id` in place of
    /// `original_job_id`: a retry always starts a new job.
    pub fn new(original_job_id: Uuid, new_job_id: Uuid) -> (r: Self)
        ensures
            r.original_job_id == original_job_id,
            r.new_job_id == new_job_id,
            r.job_mode == JobLaunchMode::Started,
    {
        JobRetryResponse { original_job_id, new_job_id, job_mode: JobLaunchMode::Started }
    }
}

/// A job in this state can be retried: it failed, or failed in a way that
/// may pass on a new attempt.
pub open spec fn retryable(status: JobStatus) -> bool {
    status == JobStatus::Failure || status == JobStatus::Retryable
}

/// The job to retry and the file it processed, from the job store's answer:
/// `NotFound` with the job id when there is no such job; a conflict when the
/// job is neither failed nor retryable, or when it processed no file.
pub fn check_retry_job(job_id: Uuid, job: Option<JobRecord>) -> (r: Result<(JobRecord, i64), GatewayError>)
    ensures
        match job {
            None => r matches Err(GatewayError::NotFound(m)) && m@ == uuid_text(job_id),
            Some(j) => if !retryable(j.status) {
                r matches Err(GatewayError::Conflict(m)) && m@ == "Job cannot be retried"@
            } else {
                match j.file_id {
                    None => r matches Err(GatewayError::Conflict(m)) && m@
                        == "Job is not associated with a file"@,
                    Some(f) => r matches Ok((j2, f2)) && j2 == j && f2 == f,
                }
            },
        },
{
    let job = match require_job(job_id, job) {
        Ok(j) => j,
        Err(e) => return Err(e),
    };
    if !(job.status == JobStatus::Failure || job.status == JobStatus::Retryable) {
        return Err(GatewayError::Conflict(String::from_str("Job cannot be retried")));
    }
    match job.file_id {
        Some(file_id) => Ok((job, file_id)),
        None => Err(GatewayError::Conflict(String::from_str("Job is not associated with a file"))),
    }
}

/// The engine a retry request targets: MIR when it names none.
pub fn retry_target(target: Option<JobEngine>) -> (r: JobEngine)
    ensures
        r == (match target {
            Some(e) => e,
            None => JobEngine::Mir,
        }),
{
    match target {
        Some(engine) => engine,
        None => JobEngine::Mir,
    }
}

/// What a retry of this engine does.
#[derive(Debug, Clone, Copy, PartialEq, Eq, Structural)]
pub enum RetryKind {
    /// Extract the document again.
    Mir,
    /// Build the knowledge graph again from a MIR result.
    Rdf,
}

/// The kind of retry for a target engine; only MIR and RDF can be retried.
pub fn retry_kind(target: JobEngine) -> (r: Result<RetryKind, GatewayError>)
    ensures
        target == JobEngine::Mir ==> r == Ok::<RetryKind, GatewayError>(RetryKind::Mir),
        target == JobEngine::Rdf ==> r == Ok::<RetryKind, GatewayError>(RetryKind::Rdf),
        target != JobEngine::Mir && target != JobEngine::Rdf ==> (r matches Err(e)
            && is_invalid_field(e, "target"@, "Unsupported retry target"@)),
{
    match target {
        JobEngine::Mir => Ok(RetryKind::Mir),
        JobEngine::Rdf => Ok(RetryKind::Rdf),
        _ => Err(invalid_field("target", "Unsupported retry target")),
    }
}

/// A job in this state is still running.
pub open spec fn in_flight(status: JobStatus) -> bool {
    status == JobStatus::Pending || status == JobStatus::InProgress
}

/// The message of a retry refused because another job processes the file.
pub open spec fn busy_message(file_id: i64, current_job_id: Uuid) -> Seq<char> {
    "File "@ + int_text(file_id as int) + " is already being processed by job "@ + uuid_text(
        current_job_id,
    )
}

/// The job that blocks a MIR retry of `job_id`, given the file's current MIR
/// job and that job's status in the job store (`None` when it is not there):
/// the current job, when it is another job than the retried one and is still
/// running.
pub open spec fn retry_blocker(job_id: Uuid, current_job_id: Option<Uuid>, current_status: Option<
    JobStatus,
>) -> Option<Uuid> {
    match (current_job_id, current_status) {
        (Some(cur), Some(st)) => if in_flight(st) && cur != job_id {
            Some(cur)
        } else {
            None
        },
        _ => None,
    }
}

/// Whether a MIR retry of `job_id` may go ahead: it is refused with a
/// conflict naming the blocking job when there is one.
pub fn check_mir_retry(job_id: Uuid, file: &FileRecord, current_status: Option<JobStatus>) -> (r:
    Result<(), GatewayError>)
    ensures
        match retry_blocker(job_id, file.mir_job_id, current_status) {
            Some(cur) => r matches Err(GatewayError::Conflict(m)) && m@ == busy_message(file.id, cur),
            None => r is Ok,
        },
{
    if let Some(current_job_id) = file.mir_job_id {
        if let Some(status) = current_status {
            let running = status == JobStatus::Pending || status == JobStatus::InProgress;
            if running && current_job_id != job_id {
                let mut m = String::from_str("File ");
                let id_text = i64_text(file.id);
                m.append(id_text.as_str());
                m.append(" is already being processed by job ");
                let job_text = uuid_to_string(current_job_id);
                m.append(job_text.as_str());
                return Err(GatewayError::Conflict(m));
            }
        }
    }
    Ok(())
}

/// The retried job itself never blocks its own retry, and a job that is no
/// longer running blocks none.
pub proof fn law_retry_blocker(job_id: Uuid, current_job_id: Option<Uuid>, st: JobStatus)
    ensures
        retry_blocker(job_id, Some(job_id), Some(st)) is None,
        !in_flight(st) ==> retry_blocker(job_id, current_job_id, Some(st)) is None,
        retry_blocker(job_id, current_job_id, None) is None,
{
}

/// A job whose result can feed an RDF run: a successful MIR job.
pub open spec fn is_successful_mir(j: JobRecord) -> bool {
    j.engine == JobEngine::Mir && j.status == JobStatus::Success
}

/// Whether a job is a successful MIR job, whose result can feed an RDF run.
pub fn is_mir_source(job: &JobRecord) -> (r: bool)
    ensures
        r == is_successful_mir(*job),
{
    job.engine == JobEngine::Mir && job.status == JobStatus::Success
}

/// The MIR job of a pipeline to take the result from, by position in the
/// pipeline's job list: the first successful MIR job.
pub fn first_successful_mir(jobs: &[JobRecord]) -> (r: Result<usize, GatewayError>)
    ensures
        r matches Ok(i) ==> i < jobs@.len() && is_successful_mir(jobs@[i as int]) && forall|
            j: int,
        | 0 <= j < i ==> !is_successful_mir(#[trigger] jobs@[j]),
        r matches Err(e) ==> (e matches GatewayError::ResultUnavailable(m) && m@
            == "No successful MIR job found for this pipeline"@),
        r is Err <==> forall|j: int| 0 <= j < jobs@.len() ==> !is_successful_mir(#[trigger] jobs@[j]),
{
    let mut i: usize = 0;
    while i < jobs.len()
        invariant
            i <= jobs@.len(),
            forall|j: int| 0 <= j < i ==> !is_successful_mir(#[trigger] jobs@[j]),
        decreases jobs@.len() - i,
    {
        if is_mir_source(&jobs[i]) {
            return Ok(i);
        }
        i = i + 1;
    }
    Err(GatewayError::ResultUnavailable(
        String::from_str("No successful MIR job found for this pipeline"),
    ))
}

/// The artifact an RDF retry reads, by position, from what the MIR job's
/// stored result holds (`None` when it is missing or cannot be read): the
/// document first, as a download without preference would choose.
pub fn rdf_retry_artifact(mir_job_id: Uuid, outcome: Option<&MirOutcome>) -> (r: Result<
    usize,
    GatewayError,
>)
    ensures
        outcome is None ==> (r matches Err(GatewayError::ResultUnavailable(m)) && m@
            == "MIR result missing or invalid"@),
        outcome matches Some(MirOutcome::Failed) ==> (r matches Err(
            GatewayError::ArtifactMissing { job_id },
        ) && job_id@ == uuid_text(mir_job_id)),
        outcome matches Some(MirOutcome::Success(list)) ==> (if list@.len() == 0 {
            r matches Err(GatewayError::ArtifactMissing { job_id }) && job_id@ == uuid_text(
                mir_job_id,
            )
        } else {
            r matches Ok(i) && is_artifact_choice(list@, false, Some(i as int))
        }),
{
    let artifacts = match outcome {
        Some(MirOutcome::Success(list)) => list,
        Some(MirOutcome::Failed) => {
            return Err(GatewayError::ArtifactMissing { job_id: uuid_to_string(mir_job_id) });
        },
        None => {
            return Err(
                GatewayError::ResultUnavailable(String::from_str("MIR result missing or invalid")),
            );
        },
    };
    match select_artifact(artifacts.as_slice(), None) {
        Some(i) => Ok(i),
        None => Err(GatewayError::ArtifactMissing { job_id: uuid_to_string(mir_job_id) }),
    }
}

/// The note left on a retried job.
pub open spec fn superseded_message(new_job_id: Uuid) -> Seq<char> {
    "superseded by retry "@ + uuid_text(new_job_id)
}

/// `r` retires `job` once `new_job_id` replaced it: the job as it was,
/// marked retired, without stage progress, with a note naming the new job, at
/// time `now`.
pub open spec fn is_retired_snapshot(r: JobSnapshotUpsert, job: JobRecord, new_job_id: Uuid, now: Timestamp) -> bool {
    &&& r.job_id == job.job_id
    &&& r.context_id == job.context_id
    &&& r.file_id == job.file_id
    &&& r.pipeline_id == Some(job.pipeline_id)
    &&& r.source_job_id == job.source_job_id
    &&& r.engine == job.engine
    &&& r.kind == job.kind
    &&& r.status == JobStatus::Retired
    &&& r.stage == job.stage
    &&& r.progress_pct == job.progress_pct
    &&& r.stage_progress_current is None
    &&& r.stage_progress_total is None
    &&& r.stage_progress_pct is None
    &&& r.message matches Some(m) && m@ == superseded_message(new_job_id)
    &&& r.result_json == job.result_json
    &&& r.updated_at == now
}

/// The record that retires `job` once `new_job_id` replaced it: the job as it
/// was, marked retired, without stage progress, with a note naming the new
/// job, at time `now`.
pub fn retired_snapshot(job: JobRecord, new_job_id: Uuid, now: Timestamp) -> (r: JobSnapshotUpsert)
    ensures
        is_retired_snapshot(r, job, new_job_id, now),
{
    let mut message = String::from_str("superseded by retry ");
    let id_text = uuid_to_string(new_job_id);
    message.append(id_text.as_str());
    JobSnapshotUpsert {
        job_id: job.job_id,
        context_id: job.context_id,
        file_id: job.file_id,
        pipeline_id: Some(job.pipeline_id),
        source_job_id: job.source_job_id,
        engine: job.engine,
        kind: job.kind,
        status: JobStatus::Retired,
        stage: job.stage,
        progress_pct: job.progress_pct,
        stage_progress_current: None,
        stage_progress_total: None,
        stage_progress_pct: None,
        message: Some(message),
        result_json: job.result_json,
        updated_at: now,
    }
}


/// A retry request: the job to retry, the engine it names, and its caller.
#[derive(Debug, Clone, Copy)]
pub struct RetryCall {
    pub job_id: Uuid,
    pub target: Option<JobEngine>,
    pub user: AuthUser,
}

/// Where a retry stands between two answers from the stores.
#[derive(Debug)]
pub enum RetryPhase {
    /// Waiting for the retried job.
    LoadJob,
    /// Waiting for the file the job processed.
    LoadFile { job: JobRecord, file_id: i64 },
    /// Waiting for the job's context and the caller's share of it.
    CheckAccess { job: JobRecord, file: FileRecord },
    /// MIR retry: waiting for the state of the file's current MIR job.
    CheckCurrent { job: JobRecord, file: FileRecord },
    /// RDF retry: waiting for the jobs of the retried job's pipeline. The
    /// retried job failed, so the MIR result comes from its pipeline.
    FindMir { job: JobRecord, file: FileRecord },
    /// RDF retry: waiting for what the result of MIR job `mir_job_id` holds.
    ReadMir { job: JobRecord, file: FileRecord, mir_job_id: Uuid },
    /// Waiting for the id of the job that was started.
    Starting { job: JobRecord },
    /// Waiting for the retired record of `job_id` to be written.
    Retiring { job_id: Uuid, new_job_id: Uuid },
    /// The retry was answered or refused.
    Done,
}

/// An answer from the stores or the job launcher.
#[derive(Debug)]
pub enum RetryEvent {
    /// The job store's answer for the retried job.
    Job(Option<JobRecord>),
    /// The file store's answer for the job's file.
    File(Option<FileRecord>),
    /// The context store's answer for the job's context, and the role of the
    /// caller's share of it (`None` when it is not shared with the caller).
    Context(Option<ContextRecord>, Option<UserRole>),
    /// The state of the file's current MIR job (`None` when the store has no
    /// such job).
    CurrentStatus(Option<JobStatus>),
    /// The jobs of the pipeline, as the job store lists them.
    PipelineJobs(Vec<JobRecord>),
    /// What the MIR job's stored result holds (`None` when it is missing or
    /// cannot be read).
    MirResult(Option<MirOutcome>),
    /// A new job was started with this id, at time `now`.
    Started { new_job_id: Uuid, now: Timestamp },
    /// The retired record was written.
    Written,
}

/// What the caller of the retry flow does next.
#[derive(Debug)]
pub enum RetryAction {
    /// Look the retried job up.
    FetchJob(Uuid),
    /// Look the file up.
    FetchFile(i64),
    /// Look the context and the caller's share of it up.
    FetchContext(i32),
    /// Look up the state of this MIR job.
    FetchJobStatus(Uuid),
    /// Reset the file to pending and start a MIR job for it.
    StartMir { file_id: i64, context_id: i32, pipeline_id: Uuid },
    /// List the jobs of this pipeline.
    ListPipeline(Uuid),
    /// Read the stored result of this MIR job.
    ReadMirResult(Uuid),
    /// Start an RDF job for the file from the MIR result's artifact at this
    /// position.
    StartRdf { file_id: i64, context_id: i32, pipeline_id: Uuid, artifact: usize },
    /// Write this record, which retires the retried job.
    Retire(JobSnapshotUpsert),
    /// Answer the request.
    Respond(JobRetryResponse),
    /// Refuse the request with this error.
    Fail(GatewayError),
}

/// The first step of a retry: look the job up.
pub fn retry_begin(job_id: Uuid) -> (r: (RetryPhase, RetryAction))
    ensures
        r.0 is LoadJob,
        r.1 == RetryAction::FetchJob(job_id),
{
    (RetryPhase::LoadJob, RetryAction::FetchJob(job_id))
}

/// `event` answers what a retry in `phase` waits for.
pub open spec fn awaits(phase: RetryPhase, event: RetryEvent) -> bool {
    match (phase, event) {
        (RetryPhase::LoadJob, RetryEvent::Job(_)) => true,
        (RetryPhase::LoadFile { .. }, RetryEvent::File(_)) => true,
        (RetryPhase::CheckAccess { .. }, RetryEvent::Context(_, _)) => true,
        (RetryPhase::CheckCurrent { .. }, RetryEvent::CurrentStatus(_)) => true,
        (RetryPhase::FindMir { .. }, RetryEvent::PipelineJobs(_)) => true,
        (RetryPhase::ReadMir { .. }, RetryEvent::MirResult(_)) => true,
        (RetryPhase::Starting { .. }, RetryEvent::Started { .. }) => true,
        (RetryPhase::Retiring { .. }, RetryEvent::Written) => true,
        _ => false,
    }
}

/// The retry ends, refused with an error `e` for which `ok` holds.
pub open spec fn refused(next: RetryPhase, action: RetryAction, ok: spec_fn(GatewayError) -> bool) -> bool {
    next is Done && (action matches RetryAction::Fail(e) && ok(e))
}

/// The step after a MIR retry of `job` passed its checks: reset the file and
/// start a MIR job in the job's context and pipeline.
pub open spec fn starts_mir(job: JobRecord, file: FileRecord, next: RetryPhase, action: RetryAction) -> bool {
    &&& next == RetryPhase::Starting { job }
    &&& action == RetryAction::StartMir {
        file_id: file.id,
        context_id: job.context_id,
        pipeline_id: job.pipeline_id,
    }
}

/// `i` is the position of the first successful MIR job of `jobs`.
pub open spec fn first_mir_at(jobs: Seq<JobRecord>, i: int) -> bool {
    &&& 0 <= i < jobs.len()
    &&& is_successful_mir(jobs[i])
    &&& forall|k: int| 0 <= k < i ==> !is_successful_mir(#[trigger] jobs[k])
}

/// One step of a retry: from where it stands and the answer it waited for,
/// where it stands next and what is done next.
pub open spec fn retry_transition(
    call: RetryCall,
    phase: RetryPhase,
    event: RetryEvent,
    next: RetryPhase,
    action: RetryAction,
) -> bool {
    match (phase, event) {
        (RetryPhase::LoadJob, RetryEvent::Job(found)) => match found {
            None => refused(next, action, |e: GatewayError| e matches GatewayError::NotFound(m) && m@ == uuid_text(call.job_id)),
            Some(j) => if !retryable(j.status) {
                refused(next, action, |e: GatewayError| e matches GatewayError::Conflict(m) && m@ == "Job cannot be retried"@)
            } else {
                match j.file_id {
                    None => refused(next, action, |e: GatewayError| e matches GatewayError::Conflict(m) && m@ == "Job is not associated with a file"@),
                    Some(f) => next == (RetryPhase::LoadFile { job: j, file_id: f }) && action == RetryAction::FetchFile(f),
                }
            },
        },
        (RetryPhase::LoadFile { job, file_id }, RetryEvent::File(found)) => match found {
            None => refused(next, action, |e: GatewayError| e == GatewayError::FileNotFound(file_id)),
            Some(file) => next == (RetryPhase::CheckAccess { job, file }) && action == RetryAction::FetchContext(job.context_id),
        },
        (RetryPhase::CheckAccess { job, file }, RetryEvent::Context(context, share)) => match context {
            None => refused(next, action, |e: GatewayError| e == GatewayError::ContextNotFound(job.context_id)),
            Some(c) => if !may_write(c.owner_id, call.user, share) {
                refused(next, action, |e: GatewayError| is_forbidden(e, "write access requires context owner or admin"@))
            } else {
                let target = match call.target {
                    Some(t) => t,
                    None => JobEngine::Mir,
                };
                if target == JobEngine::Mir {
                    match file.mir_job_id {
                        Some(cur) => next == (RetryPhase::CheckCurrent { job, file }) && action == RetryAction::FetchJobStatus(cur),
                        None => starts_mir(job, file, next, action),
                    }
                } else if target == JobEngine::Rdf {
                    next == (RetryPhase::FindMir { job, file }) && action == RetryAction::ListPipeline(job.pipeline_id)
                } else {
                    refused(next, action, |e: GatewayError| is_invalid_field(e, "target"@, "Unsupported retry target"@))
                }
            },
        },
        (RetryPhase::CheckCurrent { job, file }, RetryEvent::CurrentStatus(status)) => match retry_blocker(call.job_id, file.mir_job_id, status) {
            Some(cur) => refused(next, action, |e: GatewayError| e matches GatewayError::Conflict(m) && m@ == busy_message(file.id, cur)),
            None => starts_mir(job, file, next, action),
        },
        (RetryPhase::FindMir { job, file }, RetryEvent::PipelineJobs(jobs)) => if forall|k: int| 0 <= k < jobs@.len() ==> !is_successful_mir(#[trigger] jobs@[k]) {
            refused(next, action, |e: GatewayError| e matches GatewayError::ResultUnavailable(m) && m@ == "No successful MIR job found for this pipeline"@)
        } else {
            exists|i: int| first_mir_at(jobs@, i) && next == (RetryPhase::ReadMir { job, file, mir_job_id: jobs@[i].job_id })
                && action == RetryAction::ReadMirResult(jobs@[i].job_id)
        },
        (RetryPhase::ReadMir { job, file, mir_job_id }, RetryEvent::MirResult(outcome)) => match outcome {
            None => refused(next, action, |e: GatewayError| e matches GatewayError::ResultUnavailable(m) && m@ == "MIR result missing or invalid"@),
            Some(MirOutcome::Failed) => refused(next, action, |e: GatewayError| e matches GatewayError::ArtifactMissing { job_id } && job_id@ == uuid_text(mir_job_id)),
            Some(MirOutcome::Success(list)) => if list@.len() == 0 {
                refused(next, action, |e: GatewayError| e matches GatewayError::ArtifactMissing { job_id } && job_id@ == uuid_text(mir_job_id))
            } else {
                next == (RetryPhase::Starting { job }) && (action matches RetryAction::StartRdf { file_id, context_id, pipeline_id, artifact }
                    && file_id == file.id && context_id == job.context_id && pipeline_id == job.pipeline_id
                    && is_artifact_choice(list@, false, Some(artifact as int)))
            },
        },
        (RetryPhase::Starting { job }, RetryEvent::Started { new_job_id, now }) => next == (RetryPhase::Retiring { job_id: call.job_id, new_job_id })
            && (action matches RetryAction::Retire(u) && is_retired_snapshot(u, job, new_job_id, now)),
        (RetryPhase::Retiring { job_id, new_job_id }, RetryEvent::Written) => next is Done && action == RetryAction::Respond(
            JobRetryResponse { original_job_id: job_id, new_job_id, job_mode: JobLaunchMode::Started },
        ),
        _ => false,
    }
}

/// The step of a retry in `phase` on the answer `event`.
pub fn retry_step(call: &RetryCall, phase: RetryPhase, event: RetryEvent) -> (r: (RetryPhase, RetryAction))
    requires
        awaits(phase, event),
    ensures
        retry_transition(*call, phase, event, r.0, r.1),
{
    match (phase, event) {
        (RetryPhase::LoadJob, RetryEvent::Job(found)) => match check_retry_job(call.job_id, found) {
            Ok((job, file_id)) => (RetryPhase::LoadFile { job, file_id }, RetryAction::FetchFile(file_id)),
            Err(e) => (RetryPhase::Done, RetryAction::Fail(e)),
        },
        (RetryPhase::LoadFile { job, file_id }, RetryEvent::File(found)) => match found {
            None => (RetryPhase::Done, RetryAction::Fail(GatewayError::FileNotFound(file_id))),
            Some(file) => {
                let context_id = job.context_id;
                (RetryPhase::CheckAccess { job, file }, RetryAction::FetchContext(context_id))
            },
        },
        (RetryPhase::CheckAccess { job, file }, RetryEvent::Context(context, share)) => {
            match ensure_context_write_access(context, job.context_id, &call.user, share) {
                Err(e) => (RetryPhase::Done, RetryAction::Fail(e)),
                Ok(_) => match retry_kind(retry_target(call.target)) {
                    Err(e) => (RetryPhase::Done, RetryAction::Fail(e)),
                    Ok(RetryKind::Mir) => match file.mir_job_id {
                        Some(cur) => (RetryPhase::CheckCurrent { job, file }, RetryAction::FetchJobStatus(cur)),
                        None => {
                            let action = RetryAction::StartMir {
                                file_id: file.id,
                                context_id: job.context_id,
                                pipeline_id: job.pipeline_id,
                            };
                            (RetryPhase::Starting { job }, action)
                        },
                    },
                    Ok(RetryKind::Rdf) => {
                        let pipeline_id = job.pipeline_id;
                        (RetryPhase::FindMir { job, file }, RetryAction::ListPipeline(pipeline_id))
                    },
                },
            }
        },
        (RetryPhase::CheckCurrent { job, file }, RetryEvent::CurrentStatus(status)) => match check_mir_retry(call.job_id, &file, status) {
            Err(e) => (RetryPhase::Done, RetryAction::Fail(e)),
            Ok(()) => {
                let action = RetryAction::StartMir {
                    file_id: file.id,
                    context_id: job.context_id,
                    pipeline_id: job.pipeline_id,
                };
                (RetryPhase::Starting { job }, action)
            },
        },
        (RetryPhase::FindMir { job, file }, RetryEvent::PipelineJobs(jobs)) => match first_successful_mir(jobs.as_slice()) {
            Err(e) => (RetryPhase::Done, RetryAction::Fail(e)),
            Ok(i) => {
                let mir_job_id = jobs[i].job_id;
                proof {
                    assert(first_mir_at(jobs@, i as int));
                }
                (RetryPhase::ReadMir { job, file, mir_job_id }, RetryAction::ReadMirResult(mir_job_id))
            },
        },
        (RetryPhase::ReadMir { job, file, mir_job_id }, RetryEvent::MirResult(outcome)) => match rdf_retry_artifact(mir_job_id, outcome.as_ref()) {
            Err(e) => (RetryPhase::Done, RetryAction::Fail(e)),
            Ok(artifact) => {
                let action = RetryAction::StartRdf {
                    file_id: file.id,
                    context_id: job.context_id,
                    pipeline_id: job.pipeline_id,
                    artifact,
                };
                (RetryPhase::Starting { job }, action)
            },
        },
        (RetryPhase::Starting { job }, RetryEvent::Started { new_job_id, now }) => (
            RetryPhase::Retiring { job_id: call.job_id, new_job_id },
            RetryAction::Retire(retired_snapshot(job, new_job_id, now)),
        ),
        (RetryPhase::Retiring { job_id, new_job_id }, RetryEvent::Written) => (
            RetryPhase::Done,
            RetryAction::Respond(JobRetryResponse::new(job_id, new_job_id)),
        ),
        (phase, _) => (phase, RetryAction::FetchJob(call.job_id)),
    }
}


/// Actions that change the stores: resetting a file and starting a job, and
/// retiring a job.
pub open spec fn changes_stores(action: RetryAction) -> bool {
    action is StartMir || action is StartRdf || action is Retire
}

/// The retry is still checking the request: nothing has been changed yet.
pub open spec fn is_checking(phase: RetryPhase) -> bool {
    !(phase is Starting || phase is Retiring || phase is Done)
}

/// The order of a retry: it starts checking, and only a check refuses it,
/// ending it; while checking it changes nothing, until the one step that
/// starts the new job; the job that was started is then retired, and only
/// then is the request answered. So a refused retry has changed nothing.
pub proof fn law_retry_order(
    call: RetryCall,
    phase: RetryPhase,
    event: RetryEvent,
    next: RetryPhase,
    action: RetryAction,
)
    requires
        retry_transition(call, phase, event, next, action),
    ensures
        is_checking(RetryPhase::LoadJob),
        action is Fail ==> is_checking(phase) && next is Done,
        is_checking(phase) ==> (changes_stores(action) <==> next is Starting),
        is_checking(phase) && !changes_stores(action) ==> (is_checking(next) || (next is Done
            && action is Fail)),
        phase is Starting ==> (action is Retire && next is Retiring),
        phase is Retiring ==> (action is Respond && next is Done),
        action is Respond ==> phase is Retiring,
{
}

/// The answer to a retry names the retried job and the job that was started
/// in its place, and the retired record names that same new job.
pub proof fn law_retry_answer(
    call: RetryCall,
    job: JobRecord,
    new_job_id: Uuid,
    now: Timestamp,
    next: RetryPhase,
    action: RetryAction,
    last: RetryPhase,
    answer: RetryAction,
)
    requires
        retry_transition(
            call,
            RetryPhase::Starting { job },
            RetryEvent::Started { new_job_id, now },
            next,
            action,
        ),
        retry_transition(call, next, RetryEvent::Written, last, answer),
    ensures
        action matches RetryAction::Retire(u) && u.job_id == job.job_id && u.status
            == JobStatus::Retired && (u.message matches Some(m) && m@ == superseded_message(
            new_job_id,
        )),
        answer == RetryAction::Respond(
            JobRetryResponse {
                original_job_id: call.job_id,
                new_job_id,
                job_mode: JobLaunchMode::Started,
            },
        ),
        last is Done,
{
}
} // verus!
