//! The overall status of a document pipeline, summarised from its jobs.
use vstd::prelude::*;
use crate::error::GatewayError;
use crate::files::ContextFileRecord;
use crate::ids::{uuid_text, uuid_to_string, Uuid};
use crate::jobs::{JobEngine, JobKind, JobRecord, JobStatus};
use crate::time::Timestamp;

verus! {

/// A MIR job that only mirrors the progress of another file's MIR job.
pub open spec fn spec_is_linked_mir(r: JobRecord) -> bool {
    r.engine == JobEngine::Mir && r.kind == Some(JobKind::MirLinked)
}

/// The records that are not retired, in order.
pub open spec fn keep_active(s: Seq<JobRecord>) -> Seq<JobRecord>
    decreases s.len(),
{
    if s.len() == 0 {
        seq![]
    } else if s.last().status != JobStatus::Retired {
        keep_active(s.drop_last()).push(s.last())
    } else {
        keep_active(s.drop_last())
    }
}

/// The records that are not linked MIR jobs, in order.
pub open spec fn drop_linked(s: Seq<JobRecord>) -> Seq<JobRecord>
    decreases s.len(),
{
    if s.len() == 0 {
        seq![]
    } else if !spec_is_linked_mir(s.last()) {
        drop_linked(s.drop_last()).push(s.last())
    } else {
        drop_linked(s.drop_last())
    }
}

/// Some record is a MIR job of its own (not a linked one).
pub open spec fn has_canonical_mir(s: Seq<JobRecord>) -> bool {
    exists|i: int| 0 <= i < s.len() && s[i].engine == JobEngine::Mir && !spec_is_linked_mir(s[i])
}

/// Linked MIR jobs are left out when a canonical MIR job is present, unless
/// nothing would be left.
pub open spec fn spec_filter_linked_mir(s: Seq<JobRecord>) -> Seq<JobRecord> {
    if !has_canonical_mir(s) {
        s
    } else if drop_linked(s).len() == 0 {
        s
    } else {
        drop_linked(s)
    }
}

/// The records the summary looks at: the active ones (all of them when none is
/// active), without linked MIR jobs when a canonical one is present.
pub open spec fn summary_view(records: Seq<JobRecord>) -> Seq<JobRecord> {
    let active = keep_active(records);
    spec_filter_linked_mir(if active.len() == 0 { records } else { active })
}

/// Some record has status `st`.
pub open spec fn any_status(s: Seq<JobRecord>, st: JobStatus) -> bool {
    exists|i: int| 0 <= i < s.len() && s[i].status == st
}

/// Every record succeeded.
pub open spec fn all_success(s: Seq<JobRecord>) -> bool {
    forall|i: int| 0 <= i < s.len() ==> s[i].status == JobStatus::Success
}

/// Failure dominates, then retryable; all successful gives success; any job in
/// progress gives in progress; otherwise pending.
pub open spec fn status_of(s: Seq<JobRecord>) -> JobStatus {
    if any_status(s, JobStatus::Failure) {
        JobStatus::Failure
    } else if any_status(s, JobStatus::Retryable) {
        JobStatus::Retryable
    } else if all_success(s) {
        JobStatus::Success
    } else if any_status(s, JobStatus::InProgress) {
        JobStatus::InProgress
    } else {
        JobStatus::Pending
    }
}

/// The overall status of a pipeline with these job records.
pub open spec fn spec_summarize_pipeline(records: Seq<JobRecord>) -> JobStatus {
    status_of(summary_view(records))
}

/// What the overall status of a pipeline says of the jobs it counts (those
/// `summary_view` keeps): failure when some job failed; retryable when none
/// failed and some is retryable; success exactly when every counted job
/// succeeded and none failed or is retryable; in progress only when some job
/// is in progress; and pending whenever nothing failed, is retryable or is in
/// progress and not every job succeeded.
pub proof fn law_pipeline_status_meaning(records: Seq<JobRecord>)
    ensures
        ({
            let s = summary_view(records);
            let r = spec_summarize_pipeline(records);
            let some_failed = exists|i: int| 0 <= i < s.len() && #[trigger] s[i].status == JobStatus::Failure;
            let some_retryable = exists|i: int| 0 <= i < s.len() && #[trigger] s[i].status == JobStatus::Retryable;
            let some_running = exists|i: int| 0 <= i < s.len() && #[trigger] s[i].status == JobStatus::InProgress;
            let every_success = forall|i: int| 0 <= i < s.len() ==> #[trigger] s[i].status == JobStatus::Success;
            &&& (r == JobStatus::Failure <==> some_failed)
            &&& (r == JobStatus::Retryable <==> !some_failed && some_retryable)
            &&& (r == JobStatus::Success <==> !some_failed && !some_retryable && every_success)
            &&& (r == JobStatus::InProgress ==> some_running)
            &&& (r == JobStatus::InProgress <==> !some_failed && !some_retryable && !every_success && some_running)
            &&& (!some_failed && !some_retryable && !some_running && !every_success ==> r == JobStatus::Pending)
            &&& (r == JobStatus::Pending ==> !some_failed && !some_retryable && !some_running && !every_success)
            &&& r != JobStatus::Retired
        }),
{
}

/// The records behind a sequence of references.
pub open spec fn derefs(v: Seq<&JobRecord>) -> Seq<JobRecord> {
    v.map_values(|r: &JobRecord| *r)
}

/// Whether the record is a linked MIR job.
pub fn is_linked_mir(record: &JobRecord) -> (r: bool)
    ensures
        r == spec_is_linked_mir(*record),
{
    match (record.engine, record.kind) {
        (JobEngine::Mir, Some(JobKind::MirLinked)) => true,
        _ => false,
    }
}

/// Leaves out linked MIR jobs when a canonical MIR job is present, unless that
/// would leave nothing.
pub fn filter_linked_mir<'a>(records: Vec<&'a JobRecord>) -> (r: Vec<&'a JobRecord>)
    ensures
        derefs(r@) == spec_filter_linked_mir(derefs(records@)),
{
    let ghost s = derefs(records@);
    let n = records.len();
    let mut has_canonical = false;
    let mut i: usize = 0;
    while i < n
        invariant
            n == records@.len(),
            s == derefs(records@),
            i <= n,
            has_canonical == exists|j: int|
                0 <= j < i && s[j].engine == JobEngine::Mir && !spec_is_linked_mir(s[j]),
        decreases n - i,
    {
        let rec = records[i];
        assert(s[i as int] == *rec);
        if rec.engine == JobEngine::Mir && !is_linked_mir(rec) {
            has_canonical = true;
        }
        i = i + 1;
    }
    if !has_canonical {
        return records;
    }
    let mut filtered: Vec<&'a JobRecord> = Vec::new();
    let mut k: usize = 0;
    while k < n
        invariant
            n == records@.len(),
            s == derefs(records@),
            k <= n,
            derefs(filtered@) == drop_linked(s.subrange(0, k as int)),
        decreases n - k,
    {
        let rec = records[k];
        assert(s.subrange(0, k + 1).drop_last() =~= s.subrange(0, k as int));
        if !is_linked_mir(rec) {
            filtered.push(rec);
            assert(derefs(filtered@) =~= derefs(filtered@).drop_last().push(*rec));
        }
        k = k + 1;
    }
    assert(s.subrange(0, n as int) =~= s);
    if filtered.len() == 0 {
        records
    } else {
        filtered
    }
}

/// The overall status of a pipeline with these job records.
pub fn summarize_pipeline(records: &[JobRecord]) -> (r: JobStatus)
    ensures
        r == spec_summarize_pipeline(records@),
{
    let n = records.len();
    let mut active: Vec<&JobRecord> = Vec::new();
    let mut i: usize = 0;
    while i < n
        invariant
            n == records@.len(),
            i <= n,
            derefs(active@) == keep_active(records@.subrange(0, i as int)),
        decreases n - i,
    {
        let rec = &records[i];
        assert(records@.subrange(0, i + 1).drop_last() =~= records@.subrange(0, i as int));
        if rec.status != JobStatus::Retired {
            active.push(rec);
            assert(derefs(active@) =~= derefs(active@).drop_last().push(*rec));
        }
        i = i + 1;
    }
    assert(records@.subrange(0, n as int) =~= records@);
    let view: Vec<&JobRecord> = if active.len() == 0 {
        let mut all: Vec<&JobRecord> = Vec::new();
        let mut j: usize = 0;
        while j < n
            invariant
                n == records@.len(),
                j <= n,
                derefs(all@) == records@.subrange(0, j as int),
            decreases n - j,
        {
            let ghost before = derefs(all@);
            all.push(&records[j]);
            assert(derefs(all@) =~= before.push(records@[j as int]));
            assert(records@.subrange(0, j + 1) =~= records@.subrange(0, j as int).push(records@[j as int]));
            j = j + 1;
        }
        all
    } else {
        active
    };
    let filtered = filter_linked_mir(view);
    let ghost f = derefs(filtered@);
    assert(f == summary_view(records@));
    let m = filtered.len();
    let mut any_failure = false;
    let mut any_retryable = false;
    let mut any_in_progress = false;
    let mut every_success = true;
    let mut k: usize = 0;
    while k < m
        invariant
            m == filtered@.len(),
            f == derefs(filtered@),
            k <= m,
            any_failure == exists|j: int| 0 <= j < k && f[j].status == JobStatus::Failure,
            any_retryable == exists|j: int| 0 <= j < k && f[j].status == JobStatus::Retryable,
            any_in_progress == exists|j: int| 0 <= j < k && f[j].status == JobStatus::InProgress,
            every_success == forall|j: int| 0 <= j < k ==> f[j].status == JobStatus::Success,
        decreases m - k,
    {
        let st = filtered[k].status;
        assert(f[k as int].status == st);
        if st == JobStatus::Failure {
            any_failure = true;
        }
        if st == JobStatus::Retryable {
            any_retryable = true;
        }
        if st == JobStatus::InProgress {
            any_in_progress = true;
        }
        if st != JobStatus::Success {
            every_success = false;
        }
        k = k + 1;
    }
    if any_failure {
        JobStatus::Failure
    } else if any_retryable {
        JobStatus::Retryable
    } else if every_success {
        JobStatus::Success
    } else if any_in_progress {
        JobStatus::InProgress
    } else {
        JobStatus::Pending
    }
}

proof fn lemma_canonical_survives_drop_linked(s: Seq<JobRecord>)
    requires
        has_canonical_mir(s),
    ensures
        drop_linked(s).len() > 0,
    decreases s.len(),
{
    let i = choose|i: int|
        0 <= i < s.len() && s[i].engine == JobEngine::Mir && !spec_is_linked_mir(s[i]);
    if i < s.len() - 1 {
        assert(s.drop_last()[i] == s[i]);
        lemma_canonical_survives_drop_linked(s.drop_last());
    }
}

/// A linked MIR job does not change the pipeline status while a canonical MIR
/// job is among the active jobs.
pub proof fn law_linked_mir_ignored_with_canonical(records: Seq<JobRecord>, linked: JobRecord)
    requires
        spec_is_linked_mir(linked),
        linked.status != JobStatus::Retired,
        has_canonical_mir(keep_active(records)),
    ensures
        spec_summarize_pipeline(records.push(linked)) == spec_summarize_pipeline(records),
{
    let a = keep_active(records);
    assert(records.push(linked).drop_last() =~= records);
    assert(keep_active(records.push(linked)) == a.push(linked));
    let i = choose|i: int|
        0 <= i < a.len() && a[i].engine == JobEngine::Mir && !spec_is_linked_mir(a[i]);
    assert(a.push(linked)[i] == a[i]);
    assert(has_canonical_mir(a.push(linked)));
    assert(a.push(linked).drop_last() =~= a);
    assert(drop_linked(a.push(linked)) == drop_linked(a));
    lemma_canonical_survives_drop_linked(a);
    assert(summary_view(records.push(linked)) == summary_view(records));
}

/// A retired job does not change the pipeline status while another job is
/// active.
pub proof fn law_retired_job_ignored(records: Seq<JobRecord>, retired: JobRecord)
    requires
        retired.status == JobStatus::Retired,
        keep_active(records).len() > 0,
    ensures
        spec_summarize_pipeline(records.push(retired)) == spec_summarize_pipeline(records),
{
    assert(records.push(retired).drop_last() =~= records);
    assert(keep_active(records.push(retired)) == keep_active(records));
}

/// The latest update time among `records`, which are not empty.
pub open spec fn latest_update(records: Seq<JobRecord>) -> Timestamp
    decreases records.len(),
{
    if records.len() <= 1 {
        records[0].updated_at
    } else {
        let rest = latest_update(records.drop_last());
        if records.last().updated_at > rest {
            records.last().updated_at
        } else {
            rest
        }
    }
}

/// The latest update time is that of one of the records and no record is
/// later.
pub proof fn law_latest_update(records: Seq<JobRecord>)
    requires
        records.len() > 0,
    ensures
        exists|i: int| 0 <= i < records.len() && records[i].updated_at == latest_update(records),
        forall|i: int| 0 <= i < records.len() ==> records[i].updated_at <= latest_update(records),
    decreases records.len(),
{
    if records.len() > 1 {
        law_latest_update(records.drop_last());
        let rest = records.drop_last();
        let k = choose|i: int| 0 <= i < rest.len() && rest[i].updated_at == latest_update(rest);
        assert(records[k] == rest[k]);
        assert forall|i: int| 0 <= i < records.len() implies records[i].updated_at <= latest_update(
            records,
        ) by {
            if i < records.len() - 1 {
                assert(records[i] == rest[i]);
            }
        }
        if records.last().updated_at > latest_update(rest) {
            assert(records[records.len() - 1] == records.last());
        }
    } else {
        assert(records[0].updated_at == latest_update(records));
    }
}

/// The attachment a pipeline belongs to, from the file store's answer:
/// `NotFound` with the pipeline id when there is none.
pub fn require_pipeline(pipeline_id: Uuid, context_file: Option<ContextFileRecord>) -> (r: Result<
    ContextFileRecord,
    GatewayError,
>)
    ensures
        match context_file {
            None => r matches Err(GatewayError::NotFound(m)) && m@ == uuid_text(pipeline_id),
            Some(c) => r matches Ok(c2) && c2 == c,
        },
{
    match context_file {
        Some(c) => Ok(c),
        None => Err(GatewayError::NotFound(uuid_to_string(pipeline_id))),
    }
}

/// The message for a pipeline without jobs.
pub open spec fn no_jobs_message(pipeline_id: Uuid) -> Seq<char> {
    "no jobs found for pipeline "@ + uuid_text(pipeline_id)
}

/// The status of a pipeline and the time of its latest update, from its
/// jobs; a pipeline without jobs is not found.
pub fn pipeline_outcome(pipeline_id: Uuid, records: &[JobRecord]) -> (r: Result<
    (JobStatus, Timestamp),
    GatewayError,
>)
    ensures
        records@.len() == 0 ==> (r matches Err(GatewayError::NotFound(m)) && m@ == no_jobs_message(
            pipeline_id,
        )),
        records@.len() > 0 ==> r == Ok::<(JobStatus, Timestamp), GatewayError>(
            (spec_summarize_pipeline(records@), latest_update(records@)),
        ),
{
    if records.len() == 0 {
        let mut m = String::from_str("no jobs found for pipeline ");
        let id_text = uuid_to_string(pipeline_id);
        m.append(id_text.as_str());
        return Err(GatewayError::NotFound(m));
    }
    let status = summarize_pipeline(records);
    let mut latest = records[0].updated_at;
    let mut i: usize = 1;
    while i < records.len()
        invariant
            1 <= i <= records@.len(),
            latest == latest_update(records@.subrange(0, i as int)),
        decreases records@.len() - i,
    {
        let ghost prefix = records@.subrange(0, i + 1);
        assert(prefix.drop_last() =~= records@.subrange(0, i as int));
        assert(prefix.last() == records@[i as int]);
        if records[i].updated_at > latest {
            latest = records[i].updated_at;
        }
        i = i + 1;
    }
    assert(records@.subrange(0, records@.len() as int) =~= records@);
    Ok((status, latest))
}

} // verus!
