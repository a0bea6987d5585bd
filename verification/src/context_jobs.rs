//! A context's job list: the files its jobs need, and the cursor of the
//! next page.
use vstd::prelude::*;
use crate::files::FileRecord;
use crate::ids::Uuid;
use crate::jobs::{presents_job, ContextJob, JobRecord};
use crate::pagination::page_is_full;
use crate::time::Timestamp;

verus! {

/// The file ids of `records`, in order, with repeats.
pub open spec fn job_file_ids(records: Seq<JobRecord>) -> Seq<i64>
    decreases records.len(),
{
    if records.len() == 0 {
        seq![]
    } else {
        match records.last().file_id {
            Some(f) => job_file_ids(records.drop_last()).push(f),
            None => job_file_ids(records.drop_last()),
        }
    }
}

/// `ids` with every repeat dropped, each id at its first place.
pub open spec fn first_occurrences(ids: Seq<i64>) -> Seq<i64>
    decreases ids.len(),
{
    if ids.len() == 0 {
        seq![]
    } else if ids.drop_last().contains(ids.last()) {
        first_occurrences(ids.drop_last())
    } else {
        first_occurrences(ids.drop_last()).push(ids.last())
    }
}

proof fn lemma_push_contains(s: Seq<i64>, a: i64, x: i64)
    ensures
        s.push(a).contains(x) <==> (s.contains(x) || x == a),
{
    if s.push(a).contains(x) {
        let i = choose|i: int| 0 <= i < s.push(a).len() && s.push(a)[i] == x;
        if i < s.len() {
            assert(s[i] == x);
        }
    }
    if s.contains(x) {
        let i = choose|i: int| 0 <= i < s.len() && s[i] == x;
        assert(s.push(a)[i] == x);
    }
    if x == a {
        assert(s.push(a)[s.len() as int] == x);
    }
}

proof fn lemma_first_occurrences_members(ids: Seq<i64>, x: i64)
    ensures
        first_occurrences(ids).contains(x) <==> ids.contains(x),
    decreases ids.len(),
{
    if ids.len() > 0 {
        let p = ids.drop_last();
        let l = ids.last();
        assert(ids =~= p.push(l));
        lemma_first_occurrences_members(p, x);
        lemma_push_contains(p, l, x);
        if !p.contains(l) {
            lemma_push_contains(first_occurrences(p), l, x);
        }
    }
}

/// Dropping repeats keeps exactly the ids there were, and leaves none twice.
pub proof fn law_first_occurrences(ids: Seq<i64>)
    ensures
        forall|x: i64| first_occurrences(ids).contains(x) <==> ids.contains(x),
        forall|i: int, j: int|
            0 <= i < j < first_occurrences(ids).len() ==> first_occurrences(ids)[i]
                != first_occurrences(ids)[j],
    decreases ids.len(),
{
    assert forall|x: i64| first_occurrences(ids).contains(x) <==> ids.contains(x) by {
        lemma_first_occurrences_members(ids, x);
    }
    if ids.len() > 0 {
        let p = ids.drop_last();
        let l = ids.last();
        law_first_occurrences(p);
        if !p.contains(l) {
            let f = first_occurrences(p);
            lemma_first_occurrences_members(p, l);
            assert forall|i: int, j: int|
                0 <= i < j < f.push(l).len() implies f.push(l)[i] != f.push(l)[j] by {
                if j == f.len() {
                    assert(f[i] == f.push(l)[i]);
                    assert(f.contains(f[i]));
                }
            }
        }
    }
}

/// The ids of the files that `records` processed, each once, in the order in
/// which the records first name them.
pub fn distinct_file_ids(records: &[JobRecord]) -> (r: Vec<i64>)
    ensures
        r@ == first_occurrences(job_file_ids(records@)),
{
    let mut ids: Vec<i64> = Vec::new();
    let mut i: usize = 0;
    while i < records.len()
        invariant
            i <= records@.len(),
            ids@ == first_occurrences(job_file_ids(records@.subrange(0, i as int))),
        decreases records@.len() - i,
    {
        let ghost prefix = records@.subrange(0, i + 1);
        assert(prefix.drop_last() =~= records@.subrange(0, i as int));
        if let Some(file_id) = records[i].file_id {
            let ghost all = job_file_ids(records@.subrange(0, i as int));
            assert(job_file_ids(prefix) == all.push(file_id));
            assert(all.push(file_id).drop_last() =~= all);
            proof {
                lemma_first_occurrences_members(all, file_id);
            }
            let mut seen = false;
            let mut j: usize = 0;
            while j < ids.len()
                invariant
                    j <= ids@.len(),
                    seen <==> ids@.subrange(0, j as int).contains(file_id),
                decreases ids@.len() - j,
            {
                if ids[j] == file_id {
                    seen = true;
                }
                proof {
                    let a = ids@.subrange(0, j as int);
                    let b = ids@.subrange(0, j + 1);
                    assert(b =~= a.push(ids@[j as int]));
                    if b.contains(file_id) && !a.contains(file_id) {
                        let k = choose|k: int| 0 <= k < b.len() && b[k] == file_id;
                        if k < a.len() {
                            assert(a[k] == file_id);
                        }
                    }
                    if a.contains(file_id) {
                        let k = choose|k: int| 0 <= k < a.len() && a[k] == file_id;
                        assert(b[k] == file_id);
                    }
                    if ids@[j as int] == file_id {
                        assert(b[j as int] == file_id);
                    }
                }
                j = j + 1;
            }
            assert(ids@.subrange(0, ids@.len() as int) =~= ids@);
            if !seen {
                ids.push(file_id);
            }
        } else {
            assert(job_file_ids(prefix) == job_file_ids(records@.subrange(0, i as int)));
        }
        i = i + 1;
    }
    assert(records@.subrange(0, records@.len() as int) =~= records@);
    ids
}

/// The first file of `files` with id `file_id`.
pub open spec fn lookup_file(files: Seq<FileRecord>, file_id: i64) -> Option<FileRecord>
    decreases files.len(),
{
    if files.len() == 0 {
        None
    } else if files[0].id == file_id {
        Some(files[0])
    } else {
        lookup_file(files.drop_first(), file_id)
    }
}

/// The stored file with id `file_id` among `files`: the first one.
pub fn find_file(files: &[FileRecord], file_id: i64) -> (r: Option<&FileRecord>)
    ensures
        match lookup_file(files@, file_id) {
            Some(f) => r matches Some(g) && *g == f,
            None => r is None,
        },
{
    let mut i: usize = 0;
    assert(files@.skip(0) =~= files@);
    while i < files.len()
        invariant
            i <= files@.len(),
            lookup_file(files@, file_id) == lookup_file(files@.skip(i as int), file_id),
        decreases files@.len() - i,
    {
        let ghost rest = files@.skip(i as int);
        assert(rest[0] == files@[i as int]);
        if files[i].id == file_id {
            return Some(&files[i]);
        }
        assert(rest.drop_first() =~= files@.skip(i + 1));
        i = i + 1;
    }
    assert(files@.skip(i as int) =~= Seq::<FileRecord>::empty());
    None
}

/// The file a job's listing shows: the file the job processed, when it is
/// among `files`.
pub open spec fn job_file(files: Seq<FileRecord>, record: JobRecord) -> Option<FileRecord> {
    match record.file_id {
        Some(id) => lookup_file(files, id),
        None => None,
    }
}

/// Position after which the next page of a context's jobs starts.
#[derive(Debug, Clone, Copy, PartialEq, Eq, Structural)]
pub struct ContextJobCursor {
    pub updated_at: Timestamp,
    pub job_id: Uuid,
}

/// Query parameters of a context's job list.
#[derive(Debug, Clone, Copy, PartialEq, Eq, Structural)]
pub struct ContextJobsQuery {
    pub limit: Option<i64>,
    pub cursor_updated_at: Option<Timestamp>,
    pub cursor_job_id: Option<Uuid>,
}

/// A page of a context's jobs.
#[derive(Debug)]
pub struct ContextJobsResponse {
    pub jobs: Vec<ContextJob>,
    pub next_cursor: Option<ContextJobCursor>,
}

impl ContextJobsResponse {
    /// The page made of `records`, fetched with page size `limit`, each job
    /// with its file from `files`; a full page has a cursor at its last job.
    pub fn from_records(records: Vec<JobRecord>, files: &[FileRecord], limit: i64) -> (r: Self)
        ensures
            r.jobs@.len() == records@.len(),
            forall|i: int|
                0 <= i < records@.len() ==> presents_job(
                    #[trigger] r.jobs@[i],
                    records@[i],
                    job_file(files@, records@[i]),
                ),
            r.next_cursor == next_job_cursor_of(records@, limit),
    {
        let next_cursor = next_job_cursor(records.as_slice(), limit);
        let ghost orig = records@;
        let total = records.len();
        let mut rest = records;
        let mut jobs: Vec<ContextJob> = Vec::new();
        while rest.len() > 0
            invariant
                total == orig.len(),
                rest@.len() <= total,
                rest@ == orig.subrange(total - rest@.len(), total as int),
                jobs@.len() == total - rest@.len(),
                forall|j: int|
                    0 <= j < jobs@.len() ==> presents_job(
                        #[trigger] jobs@[j],
                        orig[j],
                        job_file(files@, orig[j]),
                    ),
            decreases rest@.len(),
        {
            let ghost before = rest@;
            let record = rest.remove(0);
            assert(record == orig[total - before.len()]);
            assert(rest@ =~= orig.subrange(total - rest@.len(), total as int));
            let file = match record.file_id {
                Some(id) => find_file(files, id),
                None => None,
            };
            jobs.push(ContextJob::from_record(record, file));
        }
        ContextJobsResponse { jobs, next_cursor }
    }
}

/// The cursor for the page after `records`, fetched with page size `limit`.
pub open spec fn next_job_cursor_of(records: Seq<JobRecord>, limit: i64) -> Option<ContextJobCursor> {
    if records.len() == limit && records.len() > 0 {
        Some(ContextJobCursor { updated_at: records.last().updated_at, job_id: records.last().job_id })
    } else {
        None
    }
}

/// The cursor for the page after a page of jobs, fetched with page size
/// `limit`: the position of the last job when the page is full.
pub fn next_job_cursor(records: &[JobRecord], limit: i64) -> (r: Option<ContextJobCursor>)
    ensures
        r == next_job_cursor_of(records@, limit),
{
    if page_is_full(records.len(), limit) && records.len() > 0 {
        let last = &records[records.len() - 1];
        Some(ContextJobCursor { updated_at: last.updated_at, job_id: last.job_id })
    } else {
        None
    }
}

} // verus!
