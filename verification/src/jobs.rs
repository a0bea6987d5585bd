//! Processing jobs: their status, engine and kind, the records the job store
//! returns, and the per-context statistics built from aggregate rows.
use vstd::prelude::*;
use crate::error::{invalid_field, is_invalid_field, GatewayError};
use crate::files::FileRecord;
use crate::ids::{hex_encode, hex_lower, uuid_text, uuid_to_string, Uuid};
use crate::text::opt_view;
use crate::time::Timestamp;

verus! {

/// Lifecycle state of a job.
#[derive(Debug, Clone, Copy, PartialEq, Eq, Structural)]
pub enum JobStatus {
    Pending,
    InProgress,
    Success,
    Failure,
    Retryable,
    Retired,
}

/// The processing engine that runs a job.
#[derive(Debug, Clone, Copy, PartialEq, Eq, Structural)]
pub enum JobEngine {
    Mir,
    Rdf,
    Lpg,
    Bayessian,
    Ingest,
    Conditions,
}

/// The name an engine goes by on the wire.
pub open spec fn engine_name(engine: JobEngine) -> Seq<char> {
    match engine {
        JobEngine::Mir => "mir"@,
        JobEngine::Rdf => "rdf"@,
        JobEngine::Lpg => "lpg"@,
        JobEngine::Bayessian => "bayessian"@,
        JobEngine::Ingest => "ingest"@,
        JobEngine::Conditions => "conditions"@,
    }
}

impl JobEngine {
    /// The name this engine goes by on the wire.
    pub fn wire_name(self) -> (r: &'static str)
        ensures
            r@ == engine_name(self),
    {
        match self {
            JobEngine::Mir => "mir",
            JobEngine::Rdf => "rdf",
            JobEngine::Lpg => "lpg",
            JobEngine::Bayessian => "bayessian",
            JobEngine::Ingest => "ingest",
            JobEngine::Conditions => "conditions",
        }
    }
}

/// How a job came to exist, where it is not a plain start.
#[derive(Debug, Clone, Copy, PartialEq, Eq, Structural)]
pub enum JobKind {
    Fanout,
    Retry,
    MirLinked,
    MirReused,
}

/// How a MIR job was launched for an upload.
#[derive(Debug, Clone, Copy, PartialEq, Eq, Structural)]
pub enum JobLaunchMode {
    /// A new job was started.
    Started,
    /// The result of an earlier job for the same content was reused.
    Reused,
    /// The job follows the progress of a job for the same content.
    Linked,
}

/// The launch mode a job kind stands for.
pub open spec fn spec_launch_mode(kind: Option<JobKind>) -> JobLaunchMode {
    match kind {
        Some(JobKind::MirLinked) => JobLaunchMode::Linked,
        Some(JobKind::MirReused) => JobLaunchMode::Reused,
        _ => JobLaunchMode::Started,
    }
}

impl JobLaunchMode {
    /// The launch mode of a job of this kind.
    pub fn from_kind(kind: Option<JobKind>) -> (r: Self)
        ensures
            r == spec_launch_mode(kind),
    {
        match kind {
            Some(JobKind::MirLinked) => JobLaunchMode::Linked,
            Some(JobKind::MirReused) => JobLaunchMode::Reused,
            _ => JobLaunchMode::Started,
        }
    }

    /// The job kind recorded for a job launched this way.
    pub fn as_kind(self) -> (r: Option<JobKind>)
        ensures
            spec_launch_mode(r) == self,
            self == JobLaunchMode::Started ==> r is None,
    {
        match self {
            JobLaunchMode::Started => None,
            JobLaunchMode::Reused => Some(JobKind::MirReused),
            JobLaunchMode::Linked => Some(JobKind::MirLinked),
        }
    }
}

/// A job as the job store returns it.
#[derive(Debug, Clone)]
pub struct JobRecord {
    pub job_id: Uuid,
    pub context_id: i32,
    pub file_id: Option<i64>,
    pub pipeline_id: Uuid,
    pub source_job_id: Option<Uuid>,
    pub engine: JobEngine,
    pub kind: Option<JobKind>,
    pub status: JobStatus,
    pub stage: Option<JobStage>,
    pub progress_pct: Option<i32>,
    pub stage_progress_current: Option<i64>,
    pub stage_progress_total: Option<i64>,
    pub stage_progress_pct: Option<i32>,
    pub message: Option<String>,
    /// The result payload the engine reported, as stored.
    pub result_json: Option<serde_json::Value>,
    pub updated_at: Timestamp,
}

/// A write of a job's whole state into the job store.
#[derive(Debug)]
pub struct JobSnapshotUpsert {
    pub job_id: Uuid,
    pub context_id: i32,
    pub file_id: Option<i64>,
    pub pipeline_id: Option<Uuid>,
    pub source_job_id: Option<Uuid>,
    pub engine: JobEngine,
    pub kind: Option<JobKind>,
    pub status: JobStatus,
    pub stage: Option<JobStage>,
    pub progress_pct: Option<i32>,
    pub stage_progress_current: Option<i64>,
    pub stage_progress_total: Option<i64>,
    pub stage_progress_pct: Option<i32>,
    pub message: Option<String>,
    pub result_json: Option<serde_json::Value>,
    pub updated_at: Timestamp,
}

/// The stage a job is in, for each engine, by the stage's wire name
/// (such as `completed` or `information_extraction`).
#[derive(Debug, Clone)]
pub enum JobStage {
    Mir(String),
    Rdf(String),
    Ingest(String),
    Conditions(String),
}

/// The engine a stage belongs to.
pub open spec fn stage_engine(stage: JobStage) -> JobEngine {
    match stage {
        JobStage::Mir(_) => JobEngine::Mir,
        JobStage::Rdf(_) => JobEngine::Rdf,
        JobStage::Ingest(_) => JobEngine::Ingest,
        JobStage::Conditions(_) => JobEngine::Conditions,
    }
}

/// The wire name of a stage.
pub open spec fn stage_name(stage: JobStage) -> Seq<char> {
    match stage {
        JobStage::Mir(s) => s@,
        JobStage::Rdf(s) => s@,
        JobStage::Ingest(s) => s@,
        JobStage::Conditions(s) => s@,
    }
}

/// The wire name of a stage.
pub fn stage_value(stage: &JobStage) -> (r: String)
    ensures
        r@ == stage_name(*stage),
{
    match stage {
        JobStage::Mir(s) => s.clone(),
        JobStage::Rdf(s) => s.clone(),
        JobStage::Ingest(s) => s.clone(),
        JobStage::Conditions(s) => s.clone(),
    }
}

/// A job stage as the API presents it: the engine and the stage's name.
#[derive(Debug, Clone)]
pub struct JobStageResponse {
    pub engine: JobEngine,
    pub value: String,
}

impl JobStageResponse {
    /// The presented form of a stage.
    pub fn from_stage(stage: JobStage) -> (r: Self)
        ensures
            r.engine == stage_engine(stage),
            r.value@ == stage_name(stage),
    {
        let engine = match &stage {
            JobStage::Mir(_) => JobEngine::Mir,
            JobStage::Rdf(_) => JobEngine::Rdf,
            JobStage::Ingest(_) => JobEngine::Ingest,
            JobStage::Conditions(_) => JobEngine::Conditions,
        };
        let value = stage_value(&stage);
        JobStageResponse { engine, value }
    }
}

/// The number of jobs with one status, as an aggregate query returns it.
#[derive(Debug, Clone, Copy, PartialEq, Eq, Structural)]
pub struct JobStatusAggregate {
    pub status: JobStatus,
    pub count: i64,
}

/// The number of jobs for one engine, as an aggregate query returns it.
#[derive(Debug, Clone, Copy, PartialEq, Eq, Structural)]
pub struct JobEngineAggregate {
    pub engine: JobEngine,
    pub count: i64,
}

/// The count of the last row for `status`, or 0 when no row has it.
pub open spec fn status_count(rows: Seq<JobStatusAggregate>, status: JobStatus) -> i64
    decreases rows.len(),
{
    if rows.len() == 0 {
        0
    } else if rows.last().status == status {
        rows.last().count
    } else {
        status_count(rows.drop_last(), status)
    }
}

/// The count of the last row for `engine`, or 0 when no row has it.
pub open spec fn engine_count(rows: Seq<JobEngineAggregate>, engine: JobEngine) -> i64
    decreases rows.len(),
{
    if rows.len() == 0 {
        0
    } else if rows.last().engine == engine {
        rows.last().count
    } else {
        engine_count(rows.drop_last(), engine)
    }
}

/// Job counts of a context by status.
#[derive(Debug, Clone, Copy, PartialEq, Eq, Structural)]
pub struct JobStatusCounts {
    pub pending: i64,
    pub in_progress: i64,
    pub success: i64,
    pub failure: i64,
    pub retryable: i64,
    pub retired: i64,
}

/// Job counts of a context by engine.
#[derive(Debug, Clone, Copy, PartialEq, Eq, Structural)]
pub struct JobEngineCounts {
    pub mir: i64,
    pub rdf: i64,
    pub lpg: i64,
    pub bayessian: i64,
    pub ingest: i64,
    pub conditions: i64,
}

impl JobStatusCounts {
    /// The counts of the aggregate rows, each status taken from its row (the
    /// last one, if it comes twice) and 0 where there is none.
    pub fn from_rows(rows: &[JobStatusAggregate]) -> (r: Self)
        ensures
            r.pending == status_count(rows@, JobStatus::Pending),
            r.in_progress == status_count(rows@, JobStatus::InProgress),
            r.success == status_count(rows@, JobStatus::Success),
            r.failure == status_count(rows@, JobStatus::Failure),
            r.retryable == status_count(rows@, JobStatus::Retryable),
            r.retired == status_count(rows@, JobStatus::Retired),
    {
        let mut counts = JobStatusCounts {
            pending: 0,
            in_progress: 0,
            success: 0,
            failure: 0,
            retryable: 0,
            retired: 0,
        };
        let n = rows.len();
        let mut i: usize = 0;
        while i < n
            invariant
                n == rows@.len(),
                i <= n,
                counts.pending == status_count(rows@.subrange(0, i as int), JobStatus::Pending),
                counts.in_progress == status_count(rows@.subrange(0, i as int), JobStatus::InProgress),
                counts.success == status_count(rows@.subrange(0, i as int), JobStatus::Success),
                counts.failure == status_count(rows@.subrange(0, i as int), JobStatus::Failure),
                counts.retryable == status_count(rows@.subrange(0, i as int), JobStatus::Retryable),
                counts.retired == status_count(rows@.subrange(0, i as int), JobStatus::Retired),
            decreases n - i,
        {
            let row = rows[i];
            assert(rows@.subrange(0, i + 1).drop_last() =~= rows@.subrange(0, i as int));
            match row.status {
                JobStatus::Pending => counts.pending = row.count,
                JobStatus::InProgress => counts.in_progress = row.count,
                JobStatus::Success => counts.success = row.count,
                JobStatus::Failure => counts.failure = row.count,
                JobStatus::Retryable => counts.retryable = row.count,
                JobStatus::Retired => counts.retired = row.count,
            }
            i = i + 1;
        }
        assert(rows@.subrange(0, n as int) =~= rows@);
        counts
    }
}

impl JobEngineCounts {
    /// The counts of the aggregate rows, each engine taken from its row (the
    /// last one, if it comes twice) and 0 where there is none.
    pub fn from_rows(rows: &[JobEngineAggregate]) -> (r: Self)
        ensures
            r.mir == engine_count(rows@, JobEngine::Mir),
            r.rdf == engine_count(rows@, JobEngine::Rdf),
            r.lpg == engine_count(rows@, JobEngine::Lpg),
            r.bayessian == engine_count(rows@, JobEngine::Bayessian),
            r.ingest == engine_count(rows@, JobEngine::Ingest),
            r.conditions == engine_count(rows@, JobEngine::Conditions),
    {
        let mut counts = JobEngineCounts {
            mir: 0,
            rdf: 0,
            lpg: 0,
            bayessian: 0,
            ingest: 0,
            conditions: 0,
        };
        let n = rows.len();
        let mut i: usize = 0;
        while i < n
            invariant
                n == rows@.len(),
                i <= n,
                counts.mir == engine_count(rows@.subrange(0, i as int), JobEngine::Mir),
                counts.rdf == engine_count(rows@.subrange(0, i as int), JobEngine::Rdf),
                counts.lpg == engine_count(rows@.subrange(0, i as int), JobEngine::Lpg),
                counts.bayessian == engine_count(rows@.subrange(0, i as int), JobEngine::Bayessian),
                counts.ingest == engine_count(rows@.subrange(0, i as int), JobEngine::Ingest),
                counts.conditions == engine_count(rows@.subrange(0, i as int), JobEngine::Conditions),
            decreases n - i,
        {
            let row = rows[i];
            assert(rows@.subrange(0, i + 1).drop_last() =~= rows@.subrange(0, i as int));
            match row.engine {
                JobEngine::Mir => counts.mir = row.count,
                JobEngine::Rdf => counts.rdf = row.count,
                JobEngine::Lpg => counts.lpg = row.count,
                JobEngine::Bayessian => counts.bayessian = row.count,
                JobEngine::Ingest => counts.ingest = row.count,
                JobEngine::Conditions => counts.conditions = row.count,
            }
            i = i + 1;
        }
        assert(rows@.subrange(0, n as int) =~= rows@);
        counts
    }
}

/// Whether an engine count is zero (such counts are left out of responses).
pub fn is_zero(value: &i64) -> (r: bool)
    ensures
        r == (*value == 0),
{
    *value == 0
}

/// A status that no row reports counts 0.
pub proof fn law_missing_status_counts_zero(rows: Seq<JobStatusAggregate>, status: JobStatus)
    requires
        forall|i: int| 0 <= i < rows.len() ==> rows[i].status != status,
    ensures
        status_count(rows, status) == 0,
    decreases rows.len(),
{
    if rows.len() > 0 {
        law_missing_status_counts_zero(rows.drop_last(), status);
    }
}

/// Appending a row for one status sets that status's count and leaves every
/// other status's count as it was.
pub proof fn law_status_row_update(
    rows: Seq<JobStatusAggregate>,
    row: JobStatusAggregate,
    other: JobStatus,
)
    ensures
        status_count(rows.push(row), row.status) == row.count,
        other != row.status ==> status_count(rows.push(row), other) == status_count(rows, other),
{
    assert(rows.push(row).drop_last() =~= rows);
}

/// Position after which the next page of a context's jobs starts.
#[derive(Debug, Clone, Copy, PartialEq, Eq, Structural)]
pub struct JobListCursor {
    pub updated_at: Timestamp,
    pub job_id: Uuid,
}

/// The cursor a job page request asks for: `Some(None)` for no cursor, `None`
/// when only one part is given.
pub open spec fn job_cursor_choice(updated_at: Option<Timestamp>, job_id: Option<Uuid>) -> Option<
    Option<JobListCursor>,
> {
    match (updated_at, job_id) {
        (Some(ts), Some(id)) => Some(Some(JobListCursor { updated_at: ts, job_id: id })),
        (None, None) => Some(None),
        _ => None,
    }
}

/// The cursor of a context-jobs page request: both parts or neither.
pub fn build_cursor(updated_at: Option<Timestamp>, job_id: Option<Uuid>) -> (r: Result<
    Option<JobListCursor>,
    GatewayError,
>)
    ensures
        match job_cursor_choice(updated_at, job_id) {
            Some(c) => r == Ok::<Option<JobListCursor>, GatewayError>(c),
            None => r matches Err(e) && is_invalid_field(
                e,
                "cursor"@,
                "provide both cursor_updated_at and cursor_job_id"@,
            ),
        },
{
    match (updated_at, job_id) {
        (Some(ts), Some(job_id)) => Ok(Some(JobListCursor { updated_at: ts, job_id })),
        (None, None) => Ok(None),
        _ => Err(invalid_field("cursor", "provide both cursor_updated_at and cursor_job_id")),
    }
}

/// A percentage clamped to `0..=100`.
pub open spec fn clamp_pct(p: i32) -> u8 {
    if p < 0 {
        0
    } else if p > 100 {
        100
    } else {
        p as u8
    }
}

/// A stage counter when it fits in `u32`.
pub open spec fn as_u32(v: i64) -> Option<u32> {
    if 0 <= v && v <= u32::MAX {
        Some(v as u32)
    } else {
        None
    }
}

fn clamp_percent(p: i32) -> (r: u8)
    ensures
        r == clamp_pct(p),
{
    if p < 0 {
        0
    } else if p > 100 {
        100
    } else {
        p as u8
    }
}

fn counter_u32(v: i64) -> (r: Option<u32>)
    ensures
        r == as_u32(v),
{
    if 0 <= v && v <= 4294967295 {
        Some(v as u32)
    } else {
        None
    }
}

/// A job as a context's job list presents it.
#[derive(Debug, Clone)]
pub struct ContextJob {
    pub job_id: Uuid,
    pub pipeline_id: Uuid,
    pub file_id: Option<i64>,
    pub engine: JobEngine,
    pub kind: Option<JobKind>,
    pub job_mode: JobLaunchMode,
    pub status: JobStatus,
    pub stage: Option<JobStageResponse>,
    pub progress_pct: Option<u8>,
    pub stage_current: Option<u32>,
    pub stage_total: Option<u32>,
    pub stage_percent: Option<u8>,
    pub message: Option<String>,
    pub updated_at: Timestamp,
    pub sha256_hex: Option<String>,
    pub artifact_uri: Option<String>,
}

/// `e` is the listed form of `record`, with the digest and artifact of
/// `file` when the file is known; percentages are clamped to `0..=100` and
/// stage counters kept only when they fit in `u32`.
pub open spec fn presents_job(e: ContextJob, record: JobRecord, file: Option<FileRecord>) -> bool {
    &&& e.job_id == record.job_id
    &&& e.pipeline_id == record.pipeline_id
    &&& e.file_id == record.file_id
    &&& e.engine == record.engine
    &&& e.kind == record.kind
    &&& e.job_mode == spec_launch_mode(record.kind)
    &&& e.status == record.status
    &&& match (e.stage, record.stage) {
        (Some(s), Some(st)) => s.engine == stage_engine(st) && s.value@ == stage_name(st),
        (None, None) => true,
        _ => false,
    }
    &&& e.progress_pct == (match record.progress_pct {
        Some(p) => Some(clamp_pct(p)),
        None => None,
    })
    &&& e.stage_current == (match record.stage_progress_current {
        Some(v) => as_u32(v),
        None => None,
    })
    &&& e.stage_total == (match record.stage_progress_total {
        Some(v) => as_u32(v),
        None => None,
    })
    &&& e.stage_percent == (match record.stage_progress_pct {
        Some(p) => Some(clamp_pct(p)),
        None => None,
    })
    &&& e.message == record.message
    &&& e.updated_at == record.updated_at
    &&& opt_view(e.sha256_hex) == (match file {
        Some(f) => Some(hex_lower(f.sha256@)),
        None => None,
    })
    &&& e.artifact_uri == (match file {
        Some(f) => f.mir_artifact_uri,
        None => None,
    })
}

impl ContextJob {
    /// The listed form of a job record, with its file's digest and artifact
    /// when the file is known.
    pub fn from_record(record: JobRecord, file: Option<&FileRecord>) -> (r: Self)
        ensures
            presents_job(
                r,
                record,
                match file {
                    Some(f) => Some(*f),
                    None => None,
                },
            ),
    {
        let job_mode = JobLaunchMode::from_kind(record.kind);
        let sha256_hex = match file {
            Some(f) => Some(hex_encode(f.sha256.as_slice())),
            None => None,
        };
        let artifact_uri = match file {
            Some(f) => f.mir_artifact_uri.clone(),
            None => None,
        };
        let stage = match record.stage {
            Some(st) => Some(JobStageResponse::from_stage(st)),
            None => None,
        };
        let progress_pct = match record.progress_pct {
            Some(p) => Some(clamp_percent(p)),
            None => None,
        };
        let stage_current = match record.stage_progress_current {
            Some(v) => counter_u32(v),
            None => None,
        };
        let stage_total = match record.stage_progress_total {
            Some(v) => counter_u32(v),
            None => None,
        };
        let stage_percent = match record.stage_progress_pct {
            Some(p) => Some(clamp_percent(p)),
            None => None,
        };
        ContextJob {
            job_id: record.job_id,
            pipeline_id: record.pipeline_id,
            file_id: record.file_id,
            engine: record.engine,
            kind: record.kind,
            job_mode,
            status: record.status,
            stage,
            progress_pct,
            stage_current,
            stage_total,
            stage_percent,
            message: record.message,
            updated_at: record.updated_at,
            sha256_hex,
            artifact_uri,
        }
    }
}

/// The job with id `job_id`, from the job store's answer: `NotFound` with the
/// job id when there is none.
pub fn require_job(job_id: Uuid, job: Option<JobRecord>) -> (r: Result<JobRecord, GatewayError>)
    ensures
        match job {
            None => r matches Err(GatewayError::NotFound(m)) && m@ == uuid_text(job_id),
            Some(j) => r matches Ok(j2) && j2 == j,
        },
{
    match job {
        Some(j) => Ok(j),
        None => Err(GatewayError::NotFound(uuid_to_string(job_id))),
    }
}

} // verus!
