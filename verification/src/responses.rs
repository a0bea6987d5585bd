//! Responses to uploads and job submissions: one entry per processed file,
//! with the status URLs a client polls.
use vstd::prelude::*;
use crate::config::AppConfig;
use crate::files::FileRecord;
use crate::ids::{uuid_text, uuid_to_string, Uuid, NIL_UUID};
use crate::jobs::JobLaunchMode;
use crate::text::clone_opt_string;

verus! {

/// The URL at which a job's status is polled: `/v1/jobs/<job_id>`.
pub open spec fn job_url(job_id: Uuid) -> Seq<char> {
    "/v1/jobs/"@ + uuid_text(job_id)
}

/// The URL at which a pipeline's status is polled: `/v1/pipelines/<id>`.
pub open spec fn pipeline_url(pipeline_id: Uuid) -> Seq<char> {
    "/v1/pipelines/"@ + uuid_text(pipeline_id)
}

fn job_status_path(job_id: Uuid) -> (r: String)
    ensures
        r@ == job_url(job_id),
{
    let mut url = String::from_str("/v1/jobs/");
    let id = uuid_to_string(job_id);
    url.append(id.as_str());
    url
}

fn pipeline_status_path(pipeline_id: Uuid) -> (r: String)
    ensures
        r@ == pipeline_url(pipeline_id),
{
    let mut url = String::from_str("/v1/pipelines/");
    let id = uuid_to_string(pipeline_id);
    url.append(id.as_str());
    url
}

/// Where an uploaded file is stored.
#[derive(Debug, Clone)]
pub struct UploadedLocation {
    pub bucket: String,
    pub key: String,
}

/// The message topics on which a job's progress and result are published.
#[derive(Debug, Clone)]
pub struct TopicInfo {
    pub progress: String,
    pub result: String,
    pub rdf_progress: String,
    pub rdf_result: String,
}

/// The outcome of processing one uploaded file.
#[derive(Debug)]
pub struct LoadEntry {
    pub job_id: Uuid,
    pub doc_id: Uuid,
    pub pipeline_id: Uuid,
    pub context_id: i32,
    pub file_id: i64,
    pub sha256_hex: String,
    pub deduplicated: bool,
    pub job_mode: JobLaunchMode,
    pub source: UploadedLocation,
    pub topics: TopicInfo,
    pub pipeline_status_url: String,
    pub job_status_url: Option<String>,
    pub original_path: Option<String>,
}

fn copy_location(l: &UploadedLocation) -> (r: UploadedLocation)
    ensures
        r == *l,
{
    UploadedLocation { bucket: l.bucket.clone(), key: l.key.clone() }
}

fn copy_topics(t: &TopicInfo) -> (r: TopicInfo)
    ensures
        r == *t,
{
    TopicInfo {
        progress: t.progress.clone(),
        result: t.result.clone(),
        rdf_progress: t.rdf_progress.clone(),
        rdf_result: t.rdf_result.clone(),
    }
}

impl LoadEntry {
    /// The entry that stands in when an upload produced none: nil ids, zero
    /// numbers, empty texts, a started job and no URLs.
    pub fn placeholder() -> (r: Self)
        ensures
            r.job_id == NIL_UUID && r.doc_id == NIL_UUID && r.pipeline_id == NIL_UUID,
            r.context_id == 0 && r.file_id == 0,
            r.sha256_hex@ == Seq::<char>::empty(),
            !r.deduplicated,
            r.job_mode == JobLaunchMode::Started,
            r.source.bucket@ == Seq::<char>::empty() && r.source.key@ == Seq::<char>::empty(),
            r.topics.progress@ == Seq::<char>::empty() && r.topics.result@ == Seq::<char>::empty()
                && r.topics.rdf_progress@ == Seq::<char>::empty() && r.topics.rdf_result@
                == Seq::<char>::empty(),
            r.pipeline_status_url@ == Seq::<char>::empty(),
            r.job_status_url is None,
            r.original_path is None,
    {
        LoadEntry {
            job_id: NIL_UUID,
            doc_id: NIL_UUID,
            pipeline_id: NIL_UUID,
            context_id: 0,
            file_id: 0,
            sha256_hex: String::new(),
            deduplicated: false,
            job_mode: JobLaunchMode::Started,
            source: UploadedLocation { bucket: String::new(), key: String::new() },
            topics: TopicInfo {
                progress: String::new(),
                result: String::new(),
                rdf_progress: String::new(),
                rdf_result: String::new(),
            },
            pipeline_status_url: String::new(),
            job_status_url: None,
            original_path: None,
        }
    }

    /// The URL at which this entry's job status is polled.
    pub fn job_status_url(&self) -> (r: String)
        ensures
            r@ == job_url(self.job_id),
    {
        job_status_path(self.job_id)
    }
}

/// The response to an upload: the first entry's fields at the top, for
/// clients that upload one file, and all entries.
#[derive(Debug)]
pub struct LoadContextResponse {
    pub pipeline_id: Uuid,
    pub job_id: Uuid,
    pub doc_id: Uuid,
    pub context_id: i32,
    pub file_id: i64,
    pub sha256_hex: String,
    pub deduplicated: bool,
    pub job_mode: JobLaunchMode,
    pub source: UploadedLocation,
    pub topics: TopicInfo,
    pub status_url: String,
    pub job_status_url: Option<String>,
    pub original_path: Option<String>,
    pub entries: Vec<LoadEntry>,
}

/// The top-level fields of `r` are those of entry `p`, with the job status
/// URL built from its job id.
pub open spec fn promotes(r: LoadContextResponse, p: LoadEntry) -> bool {
    &&& r.pipeline_id == p.pipeline_id
    &&& r.job_id == p.job_id
    &&& r.doc_id == p.doc_id
    &&& r.context_id == p.context_id
    &&& r.file_id == p.file_id
    &&& r.sha256_hex == p.sha256_hex
    &&& r.deduplicated == p.deduplicated
    &&& r.job_mode == p.job_mode
    &&& r.source == p.source
    &&& r.topics == p.topics
    &&& r.status_url == p.pipeline_status_url
    &&& r.job_status_url matches Some(u) && u@ == job_url(p.job_id)
    &&& r.original_path == p.original_path
}

impl LoadContextResponse {
    /// The response for these entries: the first entry promoted to the top
    /// (the placeholder when there is none), and the entries kept as given.
    pub fn from_entries(entries: Vec<LoadEntry>) -> (r: Self)
        ensures
            r.entries@ == entries@,
            entries@.len() > 0 ==> promotes(r, entries@[0]),
            entries@.len() == 0 ==> (r.job_id == NIL_UUID && r.doc_id == NIL_UUID
                && r.pipeline_id == NIL_UUID && r.context_id == 0 && r.file_id == 0
                && r.sha256_hex@ == Seq::<char>::empty() && !r.deduplicated && r.job_mode
                == JobLaunchMode::Started && r.status_url@ == Seq::<char>::empty()
                && r.source.bucket@ == Seq::<char>::empty() && r.source.key@ == Seq::<char>::empty()
                && r.topics.progress@ == Seq::<char>::empty() && r.topics.result@
                == Seq::<char>::empty() && r.topics.rdf_progress@ == Seq::<char>::empty()
                && r.topics.rdf_result@ == Seq::<char>::empty()
                && r.original_path is None && (r.job_status_url matches Some(u) && u@ == job_url(
                NIL_UUID,
            ))),
    {
        if entries.len() == 0 {
            let p = LoadEntry::placeholder();
            let job_status_url = Some(p.job_status_url());
            return LoadContextResponse {
                pipeline_id: p.pipeline_id,
                job_id: p.job_id,
                doc_id: p.doc_id,
                context_id: p.context_id,
                file_id: p.file_id,
                sha256_hex: p.sha256_hex,
                deduplicated: p.deduplicated,
                job_mode: p.job_mode,
                source: p.source,
                topics: p.topics,
                status_url: p.pipeline_status_url,
                job_status_url,
                original_path: p.original_path,
                entries,
            };
        }
        let p = &entries[0];
        LoadContextResponse {
            pipeline_id: p.pipeline_id,
            job_id: p.job_id,
            doc_id: p.doc_id,
            context_id: p.context_id,
            file_id: p.file_id,
            sha256_hex: p.sha256_hex.clone(),
            deduplicated: p.deduplicated,
            job_mode: p.job_mode,
            source: copy_location(&p.source),
            topics: copy_topics(&p.topics),
            status_url: p.pipeline_status_url.clone(),
            job_status_url: Some(p.job_status_url()),
            original_path: clone_opt_string(&p.original_path),
            entries,
        }
    }
}

/// What an upload entry is built from.
pub struct BuildEntryParams<'a> {
    pub context_id: i32,
    pub job_id: Uuid,
    pub job_mode: JobLaunchMode,
    pub file_record: &'a FileRecord,
    pub sha_hex: String,
    pub deduplicated: bool,
    pub original_path: Option<String>,
    pub config: &'a AppConfig,
    pub pipeline_id: Uuid,
}

/// `r` is the entry for file `file_record` processed by job `job_id` in
/// context `context_id` and pipeline `pipeline_id`, as `build_entry` makes it.
pub open spec fn is_built_entry(
    r: LoadEntry,
    context_id: i32,
    job_id: Uuid,
    job_mode: JobLaunchMode,
    file_record: FileRecord,
    sha_hex: String,
    deduplicated: bool,
    original_path: Option<String>,
    config: AppConfig,
    pipeline_id: Uuid,
) -> bool {
    &&& r.job_id == job_id
    &&& r.doc_id == (match file_record.doc_id {
        Some(d) => d,
        None => job_id,
    })
    &&& r.pipeline_id == pipeline_id
    &&& r.context_id == context_id
    &&& r.file_id == file_record.id
    &&& r.sha256_hex == sha_hex
    &&& r.deduplicated == deduplicated
    &&& r.job_mode == job_mode
    &&& r.source.bucket == file_record.storage_bucket
    &&& r.source.key == file_record.storage_key
    &&& r.topics.progress == config.progress_topic
    &&& r.topics.result == config.result_topic
    &&& r.topics.rdf_progress == config.rdf_progress_topic
    &&& r.topics.rdf_result == config.rdf_result_topic
    &&& r.pipeline_status_url@ == pipeline_url(pipeline_id)
    &&& r.job_status_url matches Some(u) && u@ == job_url(job_id)
    &&& r.original_path == original_path
}

/// The entry for one processed file. The document id is the file's, or the
/// job id for a file that has none yet.
pub fn build_entry(params: BuildEntryParams<'_>) -> (r: LoadEntry)
    ensures
        is_built_entry(
            r,
            params.context_id,
            params.job_id,
            params.job_mode,
            *params.file_record,
            params.sha_hex,
            params.deduplicated,
            params.original_path,
            *params.config,
            params.pipeline_id,
        ),
{
    let BuildEntryParams {
        context_id,
        job_id,
        job_mode,
        file_record,
        sha_hex,
        deduplicated,
        original_path,
        config,
        pipeline_id,
    } = params;
    LoadEntry {
        job_id,
        doc_id: match file_record.doc_id {
            Some(d) => d,
            None => job_id,
        },
        pipeline_id,
        context_id,
        file_id: file_record.id,
        sha256_hex: sha_hex,
        deduplicated,
        job_mode,
        source: UploadedLocation {
            bucket: file_record.storage_bucket.clone(),
            key: file_record.storage_key.clone(),
        },
        topics: TopicInfo {
            progress: config.progress_topic.clone(),
            result: config.result_topic.clone(),
            rdf_progress: config.rdf_progress_topic.clone(),
            rdf_result: config.rdf_result_topic.clone(),
        },
        pipeline_status_url: pipeline_status_path(pipeline_id),
        job_status_url: Some(job_status_path(job_id)),
        original_path,
    }
}

/// The answer to a job submission: the job id and where to poll it.
#[derive(Debug)]
pub struct CreateIngestJobResponse {
    pub job_id: Uuid,
    pub job_status_url: String,
}

impl CreateIngestJobResponse {
    /// The answer for a submitted ingest job.
    pub fn new(job_id: Uuid) -> (r: Self)
        ensures
            r.job_id == job_id,
            r.job_status_url@ == job_url(job_id),
    {
        CreateIngestJobResponse { job_status_url: job_status_path(job_id), job_id }
    }
}

/// The answer to a conditions-evaluation submission.
#[derive(Debug)]
pub struct CreateEvaluateConditionsJobResponse {
    pub job_id: Uuid,
    pub job_status_url: String,
}

impl CreateEvaluateConditionsJobResponse {
    /// The answer for a submitted conditions-evaluation job.
    pub fn new(job_id: Uuid) -> (r: Self)
        ensures
            r.job_id == job_id,
            r.job_status_url@ == job_url(job_id),
    {
        CreateEvaluateConditionsJobResponse { job_status_url: job_status_path(job_id), job_id }
    }
}

} // verus!
