//! Launching the MIR job for an uploaded file: whether an earlier result is
//! reused, an earlier job followed, or a new job started, and the job records
//! and requests each choice writes.
use vstd::prelude::*;
use crate::artifacts::{find_kind, has_kind, is_first_of_kind, ArtifactKind, ArtifactRef, MirOutcome};
use crate::config::AppConfig;
use crate::files::{FileRecord, FileStatus};
use crate::ids::{uuid_text, uuid_to_string, Uuid};
use crate::jobs::{JobEngine, JobKind, JobLaunchMode, JobRecord, JobSnapshotUpsert, JobStage, JobStatus};
use crate::time::Timestamp;

verus! {

/// What to try first for a file that is attached to a context.
#[derive(Debug, Clone, Copy, PartialEq, Eq, Structural)]
pub enum JobActionPlan {
    /// Reuse the result of the file's finished MIR job.
    Reuse,
    /// Follow the progress of the file's running MIR job.
    Link,
    /// Start a new MIR job.
    Start,
}

/// The plan for a file: with deduplication on, a file whose processing
/// succeeded reuses its result and any other file follows its job; with
/// deduplication off a new job is started.
pub open spec fn spec_plan(dedup_enabled: bool, status: FileStatus) -> JobActionPlan {
    if !dedup_enabled {
        JobActionPlan::Start
    } else if status == FileStatus::Success {
        JobActionPlan::Reuse
    } else {
        JobActionPlan::Link
    }
}

/// The first thing to try for a file with this status.
pub fn plan_job_action(dedup_enabled: bool, status: FileStatus) -> (r: JobActionPlan)
    ensures
        r == spec_plan(dedup_enabled, status),
{
    if dedup_enabled {
        if status == FileStatus::Success {
            JobActionPlan::Reuse
        } else {
            JobActionPlan::Link
        }
    } else {
        JobActionPlan::Start
    }
}

/// The job a plan settled on, given the job id that reusing or linking gave
/// (`None` when it gave none): `None` means that a new job is to be started.
pub open spec fn spec_settled(plan: JobActionPlan, attempt: Option<Uuid>) -> Option<(Uuid, JobLaunchMode)> {
    match (plan, attempt) {
        (JobActionPlan::Reuse, Some(id)) => Some((id, JobLaunchMode::Reused)),
        (JobActionPlan::Link, Some(id)) => Some((id, JobLaunchMode::Linked)),
        _ => None,
    }
}

/// Whether the plan settled on a job, and on which.
pub fn settle_job_action(plan: JobActionPlan, attempt: Option<Uuid>) -> (r: Option<(Uuid, JobLaunchMode)>)
    ensures
        r == spec_settled(plan, attempt),
{
    match (plan, attempt) {
        (JobActionPlan::Reuse, Some(id)) => Some((id, JobLaunchMode::Reused)),
        (JobActionPlan::Link, Some(id)) => Some((id, JobLaunchMode::Linked)),
        _ => None,
    }
}

/// A result is reused only for a file whose processing succeeded, a job is
/// followed only for one whose processing did not, and neither happens with
/// deduplication off.
pub proof fn law_launch_mode(dedup_enabled: bool, status: FileStatus, attempt: Option<Uuid>)
    ensures
        spec_settled(spec_plan(dedup_enabled, status), attempt) matches Some((_, m)) ==> dedup_enabled
            && (m == JobLaunchMode::Reused <==> status == FileStatus::Success),
        spec_settled(spec_plan(dedup_enabled, status), attempt) matches Some((id, _)) ==> attempt
            == Some(id),
        spec_settled(spec_plan(dedup_enabled, status), attempt) is None ==> (!dedup_enabled
            || attempt is None),
{
}

/// `r` is the record of MIR job `new_job_id` that reuses the finished result
/// of an earlier one, as `reused_snapshot` makes it.
pub open spec fn is_reused_snapshot(
    r: JobSnapshotUpsert,
    new_job_id: Uuid,
    context_id: i32,
    file: FileRecord,
    pipeline_id: Uuid,
    result_json: serde_json::Value,
    now: Timestamp,
) -> bool {
    &&& r.job_id == new_job_id
    &&& r.context_id == context_id
    &&& r.file_id == Some(file.id)
    &&& r.pipeline_id == Some(pipeline_id)
    &&& r.source_job_id is None
    &&& r.engine == JobEngine::Mir
    &&& r.kind == Some(JobKind::MirReused)
    &&& r.status == JobStatus::Success
    &&& r.stage matches Some(JobStage::Mir(s)) && s@ == "completed"@
    &&& r.progress_pct == Some(100i32)
    &&& r.stage_progress_current is None && r.stage_progress_total is None
        && r.stage_progress_pct is None
    &&& r.message matches Some(m) && m@ == "mir result reused"@
    &&& r.result_json == Some(result_json)
    &&& r.updated_at == (match file.mir_processed_at {
        Some(t) => t,
        None => now,
    })
}

/// The record of a MIR job that reuses the finished result of an earlier one:
/// a successful MIR job of kind `MirReused` at stage `completed`, 100 %
/// done, with the rewritten result, dated when the file was processed (or
/// `now` when that is unknown).
pub fn reused_snapshot(
    new_job_id: Uuid,
    context_id: i32,
    file: &FileRecord,
    pipeline_id: Uuid,
    result_json: serde_json::Value,
    now: Timestamp,
) -> (r: JobSnapshotUpsert)
    ensures
        is_reused_snapshot(r, new_job_id, context_id, *file, pipeline_id, result_json, now),
{
    JobSnapshotUpsert {
        job_id: new_job_id,
        context_id,
        file_id: Some(file.id),
        pipeline_id: Some(pipeline_id),
        source_job_id: None,
        engine: JobEngine::Mir,
        kind: JobLaunchMode::Reused.as_kind(),
        status: JobStatus::Success,
        stage: Some(JobStage::Mir(String::from_str("completed"))),
        progress_pct: Some(100),
        stage_progress_current: None,
        stage_progress_total: None,
        stage_progress_pct: None,
        message: Some(String::from_str("mir result reused")),
        result_json: Some(result_json),
        updated_at: match file.mir_processed_at {
            Some(t) => t,
            None => now,
        },
    }
}

/// The artifact an RDF job is fanned out from after a MIR result was reused,
/// by position: the first document, and only while the file has no RDF job in
/// this context yet (`rdf_exists`). `None` means no fan-out.
pub fn rdf_fanout_artifact(rdf_exists: bool, artifacts: &[ArtifactRef]) -> (r: Option<usize>)
    ensures
        rdf_exists ==> r is None,
        !rdf_exists ==> (match r {
            Some(i) => is_first_of_kind(artifacts@, ArtifactKind::Document, i as int),
            None => !has_kind(artifacts@, ArtifactKind::Document),
        }),
{
    if rdf_exists {
        None
    } else {
        find_kind(artifacts, ArtifactKind::Document)
    }
}

/// The document id an RDF job runs under: the file's document id, or the id
/// of the MIR job whose result it reads when the file has none.
pub fn rdf_document_id(file: &FileRecord, mir_job_id: Uuid) -> (r: Uuid)
    ensures
        r == (match file.doc_id {
            Some(d) => d,
            None => mir_job_id,
        }),
{
    match file.doc_id {
        Some(d) => d,
        None => mir_job_id,
    }
}

/// `r` is the record of pending RDF job `rdf_job_id`, as
/// `pending_rdf_snapshot` makes it.
pub open spec fn is_pending_rdf_snapshot(
    r: JobSnapshotUpsert,
    rdf_job_id: Uuid,
    context_id: i32,
    file_id: i64,
    pipeline_id: Uuid,
    source_job_id: Uuid,
    retried: bool,
    now: Timestamp,
) -> bool {
    &&& r.job_id == rdf_job_id
    &&& r.context_id == context_id
    &&& r.file_id == Some(file_id)
    &&& r.pipeline_id == Some(pipeline_id)
    &&& r.source_job_id == Some(source_job_id)
    &&& r.engine == JobEngine::Rdf
    &&& r.kind == (if retried { Some(JobKind::Retry) } else { Some(JobKind::Fanout) })
    &&& r.status == JobStatus::Pending
    &&& r.stage is None && r.progress_pct is None
    &&& r.stage_progress_current is None && r.stage_progress_total is None
        && r.stage_progress_pct is None
    &&& r.message matches Some(m) && m@ == (if retried {
        "rdf retried"@
    } else {
        "rdf pending"@
    })
    &&& r.result_json is None
    &&& r.updated_at == now
}

/// The record of a pending RDF job started from a MIR result: fanned out
/// after a reuse, or started by a retry. It has no stage or progress yet.
pub fn pending_rdf_snapshot(
    rdf_job_id: Uuid,
    context_id: i32,
    file_id: i64,
    pipeline_id: Uuid,
    source_job_id: Uuid,
    retried: bool,
    now: Timestamp,
) -> (r: JobSnapshotUpsert)
    ensures
        is_pending_rdf_snapshot(r, rdf_job_id, context_id, file_id, pipeline_id, source_job_id, retried, now),
{
    JobSnapshotUpsert {
        job_id: rdf_job_id,
        context_id,
        file_id: Some(file_id),
        pipeline_id: Some(pipeline_id),
        source_job_id: Some(source_job_id),
        engine: JobEngine::Rdf,
        kind: if retried { Some(JobKind::Retry) } else { Some(JobKind::Fanout) },
        status: JobStatus::Pending,
        stage: None,
        progress_pct: None,
        stage_progress_current: None,
        stage_progress_total: None,
        stage_progress_pct: None,
        message: Some(
            if retried {
                String::from_str("rdf retried")
            } else {
                String::from_str("rdf pending")
            },
        ),
        result_json: None,
        updated_at: now,
    }
}

/// The record of a MIR job that follows an earlier job for the same content:
/// of kind `MirLinked`, pointing at the earlier job, with that job's state,
/// progress, message, result and time.
pub fn linked_snapshot(
    job_id: Uuid,
    context_id: i32,
    file_id: i64,
    pipeline_id: Uuid,
    source_job_id: Uuid,
    template: JobRecord,
) -> (r: JobSnapshotUpsert)
    ensures
        r.job_id == job_id,
        r.context_id == context_id,
        r.file_id == Some(file_id),
        r.pipeline_id == Some(pipeline_id),
        r.source_job_id == Some(source_job_id),
        r.engine == JobEngine::Mir,
        r.kind == Some(JobKind::MirLinked),
        r.status == template.status,
        r.stage == template.stage,
        r.progress_pct == template.progress_pct,
        r.stage_progress_current == template.stage_progress_current,
        r.stage_progress_total == template.stage_progress_total,
        r.stage_progress_pct == template.stage_progress_pct,
        r.message == template.message,
        r.result_json == template.result_json,
        r.updated_at == template.updated_at,
{
    JobSnapshotUpsert {
        job_id,
        context_id,
        file_id: Some(file_id),
        pipeline_id: Some(pipeline_id),
        source_job_id: Some(source_job_id),
        engine: JobEngine::Mir,
        kind: JobLaunchMode::Linked.as_kind(),
        status: template.status,
        stage: template.stage,
        progress_pct: template.progress_pct,
        stage_progress_current: template.stage_progress_current,
        stage_progress_total: template.stage_progress_total,
        stage_progress_pct: template.stage_progress_pct,
        message: template.message,
        result_json: template.result_json,
        updated_at: template.updated_at,
    }
}

/// The request that starts a MIR job.
#[derive(Debug, Clone)]
pub struct MirRequestPlan {
    pub job_id: Uuid,
    pub context_id: i32,
    pub user_id: Option<String>,
    /// Where the file to process is stored.
    pub source_bucket: String,
    pub source_key: String,
    /// Where the job writes its outputs.
    pub output_bucket: String,
    pub output_prefix: String,
    pub dry_run: bool,
    /// The attempt number; a new job is on its first.
    pub attempt: u32,
    pub submitted_at: Timestamp,
}

/// The output prefix of a job: the configured prefix, `/`, and the job id.
pub open spec fn output_prefix_of(config_prefix: Seq<char>, job_id: Uuid) -> Seq<char> {
    config_prefix + "/"@ + uuid_text(job_id)
}

/// The request for a new MIR job over the stored file `bucket`/`key`, writing
/// into the configured output bucket under the job's own prefix.
pub fn build_request(
    config: &AppConfig,
    job_id: Uuid,
    bucket: String,
    key: String,
    context_id: i32,
    user_id: Option<String>,
    dry_run: bool,
    now: Timestamp,
) -> (r: MirRequestPlan)
    ensures
        r.job_id == job_id,
        r.context_id == context_id,
        r.user_id == user_id,
        r.source_bucket == bucket,
        r.source_key == key,
        r.output_bucket@ == config.output_bucket@,
        r.output_prefix@ == output_prefix_of(config.output_prefix@, job_id),
        r.dry_run == dry_run,
        r.attempt == 1,
        r.submitted_at == now,
{
    let mut prefix = config.output_prefix.clone();
    prefix.append("/");
    let id_text = uuid_to_string(job_id);
    prefix.append(id_text.as_str());
    MirRequestPlan {
        job_id,
        context_id,
        user_id,
        source_bucket: bucket,
        source_key: key,
        output_bucket: config.output_bucket.clone(),
        output_prefix: prefix,
        dry_run,
        attempt: 1,
        submitted_at: now,
    }
}


/// Where the reuse of a file's earlier MIR result stands between two answers.
#[derive(Debug)]
pub enum ReusePhase {
    /// Waiting for the file's earlier MIR job.
    LoadSource { source_job_id: Uuid },
    /// Waiting for what that job's stored result holds.
    Decode { source_job_id: Uuid },
    /// Waiting for the result, rewritten for the new job and this context.
    Rewrite { source_job_id: Uuid, artifacts: Vec<ArtifactRef> },
    /// Waiting for the reused job's record to be written.
    Storing { source_job_id: Uuid, new_job_id: Uuid, artifacts: Vec<ArtifactRef> },
    /// Waiting to learn whether the file has an RDF job in this context.
    CheckRdf { source_job_id: Uuid, new_job_id: Uuid, artifacts: Vec<ArtifactRef> },
    /// Waiting for the start message of the RDF job fanned out.
    BuildRdf { new_job_id: Uuid },
    /// Waiting for the RDF job's pending record to be written.
    StoringRdf { new_job_id: Uuid },
    /// Waiting for the RDF job's start to be published.
    Publishing { new_job_id: Uuid },
    /// The reuse is over.
    Done,
}

/// An answer from the stores or the outside services during a reuse.
#[derive(Debug)]
pub enum ReuseEvent {
    /// The job store's answer for the earlier MIR job.
    Source(Option<JobRecord>),
    /// What the earlier job's stored result holds.
    Decoded(MirOutcome),
    /// The result, rewritten under the new job id for this context, at time
    /// `now`.
    Rewritten { new_job_id: Uuid, result_json: serde_json::Value, now: Timestamp },
    /// A record was written.
    Written,
    /// Whether the file already has an RDF job in this context.
    RdfExists(bool),
    /// The RDF start message that was built, by its job id, at time `now`
    /// (`None` when none could be built).
    RdfStart(Option<(Uuid, Timestamp)>),
    /// The RDF start was published.
    Published,
}

/// What the caller of a reuse does next.
#[derive(Debug)]
pub enum ReuseAction {
    /// Look the earlier MIR job up.
    FetchJob(Uuid),
    /// Decode the stored result of the earlier job.
    DecodeResult(Uuid),
    /// Give the result of this earlier job a new job id and this context.
    RewriteResult(Uuid),
    /// Write this record.
    Store(JobSnapshotUpsert),
    /// Ask whether the file has an RDF job in the context.
    CheckRdf { file_id: i64, context_id: i32 },
    /// Build the RDF start message for the result's artifact at this
    /// position, under this document id.
    BuildRdfStart { artifact: usize, doc_id: Uuid },
    /// Publish the RDF start message that was built.
    PublishRdfStart,
    /// The reuse is over: the reused job, or `None` when the result could not
    /// be reused.
    Finish(Option<Uuid>),
}

/// The first step of reusing `file`'s earlier MIR result: nothing to reuse
/// without an earlier MIR job, else look it up.
pub fn reuse_begin(file: &FileRecord) -> (r: (ReusePhase, ReuseAction))
    ensures
        match file.mir_job_id {
            None => r.0 is Done && r.1 == ReuseAction::Finish(None),
            Some(s) => r.0 == (ReusePhase::LoadSource { source_job_id: s }) && r.1
                == ReuseAction::FetchJob(s),
        },
{
    match file.mir_job_id {
        None => (ReusePhase::Done, ReuseAction::Finish(None)),
        Some(s) => (ReusePhase::LoadSource { source_job_id: s }, ReuseAction::FetchJob(s)),
    }
}

/// `event` answers what a reuse in `phase` waits for.
pub open spec fn reuse_awaits(phase: ReusePhase, event: ReuseEvent) -> bool {
    match (phase, event) {
        (ReusePhase::LoadSource { .. }, ReuseEvent::Source(_)) => true,
        (ReusePhase::Decode { .. }, ReuseEvent::Decoded(_)) => true,
        (ReusePhase::Rewrite { .. }, ReuseEvent::Rewritten { .. }) => true,
        (ReusePhase::Storing { .. }, ReuseEvent::Written) => true,
        (ReusePhase::CheckRdf { .. }, ReuseEvent::RdfExists(_)) => true,
        (ReusePhase::BuildRdf { .. }, ReuseEvent::RdfStart(_)) => true,
        (ReusePhase::StoringRdf { .. }, ReuseEvent::Written) => true,
        (ReusePhase::Publishing { .. }, ReuseEvent::Published) => true,
        _ => false,
    }
}

/// One step of reusing `file`'s earlier MIR result for a job in context
/// `context_id` and pipeline `pipeline_id`.
pub open spec fn reuse_transition(
    file: FileRecord,
    context_id: i32,
    pipeline_id: Uuid,
    phase: ReusePhase,
    event: ReuseEvent,
    next: ReusePhase,
    action: ReuseAction,
) -> bool {
    match (phase, event) {
        (ReusePhase::LoadSource { source_job_id }, ReuseEvent::Source(found)) => match found {
            None => next is Done && action == ReuseAction::Finish(None),
            Some(t) => if t.result_json is None {
                next is Done && action == ReuseAction::Finish(None)
            } else {
                next == (ReusePhase::Decode { source_job_id }) && action == ReuseAction::DecodeResult(
                    source_job_id,
                )
            },
        },
        (ReusePhase::Decode { source_job_id }, ReuseEvent::Decoded(outcome)) => match outcome {
            MirOutcome::Failed => next is Done && action == ReuseAction::Finish(None),
            MirOutcome::Success(artifacts) => next == (ReusePhase::Rewrite { source_job_id, artifacts })
                && action == ReuseAction::RewriteResult(source_job_id),
        },
        (
            ReusePhase::Rewrite { source_job_id, artifacts },
            ReuseEvent::Rewritten { new_job_id, result_json, now },
        ) => next == (ReusePhase::Storing { source_job_id, new_job_id, artifacts }) && (action matches ReuseAction::Store(
            u,
        ) && is_reused_snapshot(u, new_job_id, context_id, file, pipeline_id, result_json, now)),
        (ReusePhase::Storing { source_job_id, new_job_id, artifacts }, ReuseEvent::Written) => next
            == (ReusePhase::CheckRdf { source_job_id, new_job_id, artifacts }) && action
            == ReuseAction::CheckRdf { file_id: file.id, context_id },
        (ReusePhase::CheckRdf { source_job_id, new_job_id, artifacts }, ReuseEvent::RdfExists(rdf_exists)) => {
            if rdf_exists || !has_kind(artifacts@, ArtifactKind::Document) {
                next is Done && action == ReuseAction::Finish(Some(new_job_id))
            } else {
                next == (ReusePhase::BuildRdf { new_job_id }) && (action matches ReuseAction::BuildRdfStart {
                    artifact,
                    doc_id,
                } && is_first_of_kind(artifacts@, ArtifactKind::Document, artifact as int) && doc_id
                    == (match file.doc_id {
                    Some(d) => d,
                    None => source_job_id,
                }))
            }
        },
        (ReusePhase::BuildRdf { new_job_id }, ReuseEvent::RdfStart(start)) => match start {
            None => next is Done && action == ReuseAction::Finish(Some(new_job_id)),
            Some((rdf_job_id, now)) => next == (ReusePhase::StoringRdf { new_job_id }) && (action matches ReuseAction::Store(
                u,
            ) && is_pending_rdf_snapshot(u, rdf_job_id, context_id, file.id, pipeline_id, new_job_id, false, now)),
        },
        (ReusePhase::StoringRdf { new_job_id }, ReuseEvent::Written) => next == (ReusePhase::Publishing {
            new_job_id,
        }) && action == ReuseAction::PublishRdfStart,
        (ReusePhase::Publishing { new_job_id }, ReuseEvent::Published) => next is Done && action
            == ReuseAction::Finish(Some(new_job_id)),
        _ => false,
    }
}

/// The step of a reuse in `phase` on the answer `event`.
pub fn reuse_step(
    file: &FileRecord,
    context_id: i32,
    pipeline_id: Uuid,
    phase: ReusePhase,
    event: ReuseEvent,
) -> (r: (ReusePhase, ReuseAction))
    requires
        reuse_awaits(phase, event),
    ensures
        reuse_transition(*file, context_id, pipeline_id, phase, event, r.0, r.1),
{
    match (phase, event) {
        (ReusePhase::LoadSource { source_job_id }, ReuseEvent::Source(found)) => match found {
            None => (ReusePhase::Done, ReuseAction::Finish(None)),
            Some(t) => if t.result_json.is_none() {
                (ReusePhase::Done, ReuseAction::Finish(None))
            } else {
                (ReusePhase::Decode { source_job_id }, ReuseAction::DecodeResult(source_job_id))
            },
        },
        (ReusePhase::Decode { source_job_id }, ReuseEvent::Decoded(outcome)) => match outcome {
            MirOutcome::Failed => (ReusePhase::Done, ReuseAction::Finish(None)),
            MirOutcome::Success(artifacts) => (
                ReusePhase::Rewrite { source_job_id, artifacts },
                ReuseAction::RewriteResult(source_job_id),
            ),
        },
        (
            ReusePhase::Rewrite { source_job_id, artifacts },
            ReuseEvent::Rewritten { new_job_id, result_json, now },
        ) => {
            let record = reused_snapshot(new_job_id, context_id, file, pipeline_id, result_json, now);
            (ReusePhase::Storing { source_job_id, new_job_id, artifacts }, ReuseAction::Store(record))
        },
        (ReusePhase::Storing { source_job_id, new_job_id, artifacts }, ReuseEvent::Written) => (
            ReusePhase::CheckRdf { source_job_id, new_job_id, artifacts },
            ReuseAction::CheckRdf { file_id: file.id, context_id },
        ),
        (ReusePhase::CheckRdf { source_job_id, new_job_id, artifacts }, ReuseEvent::RdfExists(rdf_exists)) => {
            match rdf_fanout_artifact(rdf_exists, artifacts.as_slice()) {
                None => (ReusePhase::Done, ReuseAction::Finish(Some(new_job_id))),
                Some(artifact) => {
                    let doc_id = rdf_document_id(file, source_job_id);
                    (ReusePhase::BuildRdf { new_job_id }, ReuseAction::BuildRdfStart { artifact, doc_id })
                },
            }
        },
        (ReusePhase::BuildRdf { new_job_id }, ReuseEvent::RdfStart(start)) => match start {
            None => (ReusePhase::Done, ReuseAction::Finish(Some(new_job_id))),
            Some((rdf_job_id, now)) => {
                let record = pending_rdf_snapshot(
                    rdf_job_id,
                    context_id,
                    file.id,
                    pipeline_id,
                    new_job_id,
                    false,
                    now,
                );
                (ReusePhase::StoringRdf { new_job_id }, ReuseAction::Store(record))
            },
        },
        (ReusePhase::StoringRdf { new_job_id }, ReuseEvent::Written) => (
            ReusePhase::Publishing { new_job_id },
            ReuseAction::PublishRdfStart,
        ),
        (ReusePhase::Publishing { new_job_id }, ReuseEvent::Published) => (
            ReusePhase::Done,
            ReuseAction::Finish(Some(new_job_id)),
        ),
        (phase, _) => (phase, ReuseAction::Finish(None)),
    }
}

/// A reuse that cannot go ahead stores nothing: it ends with no reused job
/// while it is still looking at the earlier job (no earlier job, no stored
/// result, or a result that did not succeed), and it answers with a reused
/// job only after that job's record was written.
pub proof fn law_reuse_skips_before_storing(
    file: FileRecord,
    context_id: i32,
    pipeline_id: Uuid,
    phase: ReusePhase,
    event: ReuseEvent,
    next: ReusePhase,
    action: ReuseAction,
)
    requires
        reuse_transition(file, context_id, pipeline_id, phase, event, next, action),
    ensures
        action == ReuseAction::Finish(None) ==> (phase is LoadSource || phase is Decode),
        (phase is LoadSource || phase is Decode) ==> !(action is Store),
        action matches ReuseAction::Finish(Some(id)) ==> match phase {
            ReusePhase::CheckRdf { new_job_id, .. } => id == new_job_id,
            ReusePhase::BuildRdf { new_job_id } => id == new_job_id,
            ReusePhase::Publishing { new_job_id } => id == new_job_id,
            _ => false,
        },
        phase is Rewrite ==> (action matches ReuseAction::Store(u) && (u.status == JobStatus::Success
            && u.kind == Some(JobKind::MirReused) && (next matches ReusePhase::Storing {
            new_job_id,
            ..
        } && u.job_id == new_job_id))),
        phase matches ReusePhase::BuildRdf { new_job_id } ==> (action matches ReuseAction::Store(u)
            ==> u.source_job_id == Some(new_job_id) && u.engine == JobEngine::Rdf),
{
}
} // verus!
