//! Job statistics of a context: the total and the counts by status and by
//! engine.
use vstd::prelude::*;
use crate::error::GatewayError;
use crate::jobs::{
    engine_count, status_count, JobEngine, JobEngineAggregate, JobEngineCounts, JobStatus,
    JobStatusAggregate, JobStatusCounts,
};

verus! {

/// The sum of the counts of the first `k` rows.
pub open spec fn rows_total(rows: Seq<JobStatusAggregate>, k: int) -> int
    decreases k,
{
    if k <= 0 {
        0
    } else {
        rows_total(rows, k - 1) + rows[k - 1].count
    }
}

/// Every running sum of the counts fits an `i64`, as summing them requires.
pub open spec fn sums_fit(rows: Seq<JobStatusAggregate>) -> bool {
    forall|k: int| 0 <= k <= rows.len() ==> i64::MIN <= #[trigger] rows_total(rows, k) <= i64::MAX
}

/// The job statistics of a context.
#[derive(Debug, Clone, Copy, PartialEq, Eq, Structural)]
pub struct ContextJobStatsResponse {
    pub context_id: i32,
    pub total: i64,
    pub status_counts: JobStatusCounts,
    pub engine_counts: JobEngineCounts,
}

/// The total number of jobs: the sum of the counts by status.
pub fn jobs_total(rows: &[JobStatusAggregate]) -> (r: i64)
    requires
        sums_fit(rows@),
    ensures
        r == rows_total(rows@, rows@.len() as int),
{
    let mut total: i64 = 0;
    let mut i: usize = 0;
    while i < rows.len()
        invariant
            i <= rows@.len(),
            sums_fit(rows@),
            total == rows_total(rows@, i as int),
        decreases rows@.len() - i,
    {
        assert(i64::MIN <= rows_total(rows@, i + 1) <= i64::MAX);
        total = total + rows[i].count;
        i = i + 1;
    }
    total
}

/// The statistics of context `context_id` from the aggregate rows. A context
/// without jobs must exist (`context_exists` tells whether it does; it is
/// only looked at when there are no jobs).
pub fn context_job_stats(
    context_id: i32,
    status_rows: &[JobStatusAggregate],
    engine_rows: &[JobEngineAggregate],
    context_exists: bool,
) -> (r: Result<ContextJobStatsResponse, GatewayError>)
    requires
        sums_fit(status_rows@),
    ensures
        rows_total(status_rows@, status_rows@.len() as int) == 0 && !context_exists ==> (r matches Err(
            GatewayError::ContextNotFound(id),
        ) && id == context_id),
        !(rows_total(status_rows@, status_rows@.len() as int) == 0 && !context_exists) ==> (r matches Ok(
            s,
        ) && s.context_id == context_id && s.total == rows_total(
            status_rows@,
            status_rows@.len() as int,
        ) && s.status_counts.pending == status_count(status_rows@, JobStatus::Pending)
            && s.status_counts.in_progress == status_count(status_rows@, JobStatus::InProgress)
            && s.status_counts.success == status_count(status_rows@, JobStatus::Success)
            && s.status_counts.failure == status_count(status_rows@, JobStatus::Failure)
            && s.status_counts.retryable == status_count(status_rows@, JobStatus::Retryable)
            && s.status_counts.retired == status_count(status_rows@, JobStatus::Retired)
            && s.engine_counts.mir == engine_count(engine_rows@, JobEngine::Mir)
            && s.engine_counts.rdf == engine_count(engine_rows@, JobEngine::Rdf)
            && s.engine_counts.lpg == engine_count(engine_rows@, JobEngine::Lpg)
            && s.engine_counts.bayessian == engine_count(
            engine_rows@,
            JobEngine::Bayessian,
        ) && s.engine_counts.ingest == engine_count(engine_rows@, JobEngine::Ingest)
            && s.engine_counts.conditions == engine_count(
            engine_rows@,
            JobEngine::Conditions,
        )),
{
    let total = jobs_total(status_rows);
    if total == 0 && !context_exists {
        return Err(GatewayError::ContextNotFound(context_id));
    }
    let status_counts = JobStatusCounts::from_rows(status_rows);
    let engine_counts = JobEngineCounts::from_rows(engine_rows);
    Ok(ContextJobStatsResponse { context_id, total, status_counts, engine_counts })
}

} // verus!
