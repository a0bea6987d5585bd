//! Administration of stored files: listing them with filters and cursors,
//! showing one with its attachments, and restarting its processing.
use vstd::prelude::*;
use crate::error::{invalid_field, is_invalid_field, GatewayError};
use crate::files::{ContextFileRecord, FileRecord, FileStatus};
use crate::ids::{hex_encode, hex_lower, uuid_text, uuid_to_string, Uuid};
use crate::jobs::{JobLaunchMode, JobStatus};
use crate::numbers::{i64_text, int_text};
use crate::pagination::page_is_full;
use crate::text::{exec_lower_char, is_ascii_hex, lower_seq, push_char};
use crate::time::Timestamp;
use crate::uploads::FileOrigin;

verus! {

/// A stored file as the administrators' listing reads it, with the contexts
/// it is attached to.
#[derive(Debug, Clone)]
pub struct AdminFileRecord {
    pub file_id: i64,
    pub sha256: Vec<u8>,
    pub size_bytes: i64,
    pub status: FileStatus,
    pub mir_job_id: Option<Uuid>,
    pub mir_artifact_uri: Option<String>,
    pub contexts_count: i64,
    pub contexts: Vec<i32>,
    pub created_at: Timestamp,
    pub updated_at: Timestamp,
}

/// A stored file as the administrators' listing presents it.
#[derive(Debug, Clone)]
pub struct AdminFileEntry {
    pub file_id: i64,
    pub sha256_hex: String,
    pub size_bytes: i64,
    pub status: FileStatus,
    pub mir_job_id: Option<Uuid>,
    pub mir_artifact_uri: Option<String>,
    pub contexts_count: i64,
    pub contexts: Vec<i32>,
    pub created_at: Timestamp,
    pub updated_at: Timestamp,
}

/// `e` is the listed form of `record`: the digest as lower-case hex, all
/// else as it is.
pub open spec fn presents_admin_file(e: AdminFileEntry, record: AdminFileRecord) -> bool {
    &&& e.file_id == record.file_id
    &&& e.sha256_hex@ == hex_lower(record.sha256@)
    &&& e.size_bytes == record.size_bytes
    &&& e.status == record.status
    &&& e.mir_job_id == record.mir_job_id
    &&& e.mir_artifact_uri == record.mir_artifact_uri
    &&& e.contexts_count == record.contexts_count
    &&& e.contexts == record.contexts
    &&& e.created_at == record.created_at
    &&& e.updated_at == record.updated_at
}

impl AdminFileEntry {
    /// The listed form of a record.
    pub fn from_record(record: AdminFileRecord) -> (r: Self)
        ensures
            presents_admin_file(r, record),
    {
        let sha256_hex = hex_encode(record.sha256.as_slice());
        AdminFileEntry {
            file_id: record.file_id,
            sha256_hex,
            size_bytes: record.size_bytes,
            status: record.status,
            mir_job_id: record.mir_job_id,
            mir_artifact_uri: record.mir_artifact_uri,
            contexts_count: record.contexts_count,
            contexts: record.contexts,
            created_at: record.created_at,
            updated_at: record.updated_at,
        }
    }
}

/// Position after which the next page of the listing starts.
#[derive(Debug, Clone, Copy, PartialEq, Eq, Structural)]
pub struct AdminFilesCursor {
    pub updated_at: Timestamp,
    pub file_id: i64,
}

/// The cursor a listing request asks for: `Some(None)` for no cursor, `None`
/// when the request is invalid (one part only, or an id that is not
/// positive).
pub open spec fn admin_cursor_choice(updated_at: Option<Timestamp>, file_id: Option<i64>) -> Option<
    Option<AdminFilesCursor>,
> {
    match (updated_at, file_id) {
        (Some(ts), Some(id)) => if id > 0 {
            Some(Some(AdminFilesCursor { updated_at: ts, file_id: id }))
        } else {
            None
        },
        (None, None) => Some(None),
        _ => None,
    }
}

/// The cursor of a listing request: both parts with a positive id, or
/// neither.
pub fn build_cursor(updated_at: Option<Timestamp>, file_id: Option<i64>) -> (r: Result<
    Option<AdminFilesCursor>,
    GatewayError,
>)
    ensures
        match admin_cursor_choice(updated_at, file_id) {
            Some(c) => r == Ok::<Option<AdminFilesCursor>, GatewayError>(c),
            None => r matches Err(e) && is_invalid_field(
                e,
                "cursor"@,
                "provide both cursor_updated_at and cursor_file_id"@,
            ),
        },
{
    match (updated_at, file_id) {
        (Some(ts), Some(id)) if id > 0 => Ok(Some(AdminFilesCursor { updated_at: ts, file_id: id })),
        (None, None) => Ok(None),
        _ => Err(invalid_field("cursor", "provide both cursor_updated_at and cursor_file_id")),
    }
}

/// The filter a SHA-256 prefix asks for: none for an absent or empty prefix;
/// the prefix in lower case followed by the wildcard `%` for up to 64 hex
/// digits; `None` (an error) for anything else.
pub open spec fn sha_filter_choice(raw: Option<Seq<char>>) -> Option<Option<Seq<char>>> {
    match raw {
        None => Some(None),
        Some(p) => if p.len() == 0 {
            Some(None)
        } else if p.len() <= 64 && forall|i: int| 0 <= i < p.len() ==> is_ascii_hex(#[trigger] p[i]) {
            Some(Some(lower_seq(p) + "%"@))
        } else {
            None
        },
    }
}

/// The storage filter for the listing's `sha256_hex` prefix.
pub fn build_sha_filter(raw: &Option<String>) -> (r: Result<Option<String>, GatewayError>)
    ensures
        match sha_filter_choice(
            match raw {
                Some(p) => Some(p@),
                None => None,
            },
        ) {
            Some(None) => r matches Ok(None),
            Some(Some(f)) => r matches Ok(Some(s)) && s@ == f,
            None => r matches Err(e) && is_invalid_field(
                e,
                "sha256_hex"@,
                "must be a hex prefix up to 64 chars"@,
            ),
        },
{
    let prefix = match raw {
        None => return Ok(None),
        Some(p) => p,
    };
    let n = prefix.as_str().unicode_len();
    if n == 0 {
        return Ok(None);
    }
    if n > 64 {
        return Err(invalid_field("sha256_hex", "must be a hex prefix up to 64 chars"));
    }
    let mut out = String::new();
    let mut i: usize = 0;
    while i < n
        invariant
            *raw == Some(*prefix),
            n == prefix@.len(),
            i <= n,
            forall|j: int| 0 <= j < i ==> is_ascii_hex(#[trigger] prefix@[j]),
            out@ == lower_seq(prefix@.subrange(0, i as int)),
        decreases n - i,
    {
        let c = prefix.as_str().get_char(i);
        if !(('0' <= c && c <= '9') || ('a' <= c && c <= 'f') || ('A' <= c && c <= 'F')) {
            assert(!is_ascii_hex(prefix@[i as int]));
            return Err(invalid_field("sha256_hex", "must be a hex prefix up to 64 chars"));
        }
        let lc = exec_lower_char(c);
        push_char(&mut out, lc);
        assert(lower_seq(prefix@.subrange(0, i + 1)) =~= lower_seq(prefix@.subrange(0, i as int)).push(lc));
        i = i + 1;
    }
    assert(prefix@.subrange(0, n as int) =~= prefix@);
    push_char(&mut out, '%');
    proof {
        reveal_strlit("%");
    }
    assert(out@ =~= lower_seq(prefix@) + "%"@);
    Ok(Some(out))
}

/// The cursor for the page after `records`, fetched with page size `limit`.
pub open spec fn next_admin_cursor_of(records: Seq<AdminFileRecord>, limit: i64) -> Option<AdminFilesCursor> {
    if records.len() == limit && records.len() > 0 {
        Some(AdminFilesCursor { updated_at: records.last().updated_at, file_id: records.last().file_id })
    } else {
        None
    }
}

/// The cursor for the page after `records`, fetched with page size `limit`:
/// the position of the last record when the page is full.
pub fn next_admin_cursor(records: &[AdminFileRecord], limit: i64) -> (r: Option<AdminFilesCursor>)
    ensures
        r == next_admin_cursor_of(records@, limit),
{
    if page_is_full(records.len(), limit) && records.len() > 0 {
        let last = &records[records.len() - 1];
        Some(AdminFilesCursor { updated_at: last.updated_at, file_id: last.file_id })
    } else {
        None
    }
}

/// Query parameters of the administrators' file listing.
#[derive(Debug, Clone)]
pub struct AdminFilesQuery {
    pub limit: Option<i64>,
    pub cursor_updated_at: Option<Timestamp>,
    pub cursor_file_id: Option<i64>,
    pub status: Option<FileStatus>,
    pub sha256_hex: Option<String>,
    pub context_id: Option<i32>,
}

/// A page of the administrators' file listing.
#[derive(Debug)]
pub struct AdminFilesResponse {
    pub files: Vec<AdminFileEntry>,
    pub next_cursor: Option<AdminFilesCursor>,
}

impl AdminFilesResponse {
    /// The page made of `records`, fetched with page size `limit`: a full page
    /// has a cursor at its last file.
    pub fn from_records(records: Vec<AdminFileRecord>, limit: i64) -> (r: Self)
        ensures
            r.files@.len() == records@.len(),
            forall|i: int|
                0 <= i < records@.len() ==> presents_admin_file(#[trigger] r.files@[i], records@[i]),
            r.next_cursor == next_admin_cursor_of(records@, limit),
    {
        let next_cursor = next_admin_cursor(records.as_slice(), limit);
        let ghost orig = records@;
        let total = records.len();
        let mut rest = records;
        let mut files: Vec<AdminFileEntry> = Vec::new();
        while rest.len() > 0
            invariant
                total == orig.len(),
                rest@.len() <= total,
                rest@ == orig.subrange(total - rest@.len(), total as int),
                files@.len() == total - rest@.len(),
                forall|j: int| 0 <= j < files@.len() ==> presents_admin_file(#[trigger] files@[j], orig[j]),
            decreases rest@.len(),
        {
            let ghost before = rest@;
            let record = rest.remove(0);
            assert(record == orig[total - before.len()]);
            assert(rest@ =~= orig.subrange(total - rest@.len(), total as int));
            files.push(AdminFileEntry::from_record(record));
        }
        AdminFilesResponse { files, next_cursor }
    }
}

/// An attachment of a file to a context, as the file details present it.
#[derive(Debug, Clone)]
pub struct FileContextAttachment {
    pub context_file_id: i64,
    pub context_id: i32,
    pub pipeline_id: Uuid,
    pub origin: FileOrigin,
    pub original_name: String,
    pub original_path: Option<String>,
    pub media_type: Option<String>,
    pub attached_at: Timestamp,
}

impl FileContextAttachment {
    /// The presented form of an attachment record.
    pub fn from_record(record: ContextFileRecord) -> (r: Self)
        ensures
            r.context_file_id == record.id,
            r.context_id == record.context_id,
            r.pipeline_id == record.pipeline_id,
            r.origin == record.origin,
            r.original_name == record.original_name,
            r.original_path == record.original_path,
            r.media_type == record.media_type,
            r.attached_at == record.attached_at,
    {
        FileContextAttachment {
            context_file_id: record.id,
            context_id: record.context_id,
            pipeline_id: record.pipeline_id,
            origin: record.origin,
            original_name: record.original_name,
            original_path: record.original_path,
            media_type: record.media_type,
            attached_at: record.attached_at,
        }
    }
}

/// A stored file in detail, with its attachments.
#[derive(Debug)]
pub struct FileDetailsResponse {
    pub file_id: i64,
    pub sha256_hex: String,
    pub size_bytes: i64,
    pub mime: Option<String>,
    pub storage_bucket: String,
    pub storage_key: String,
    pub status: FileStatus,
    pub mir_job_id: Option<Uuid>,
    pub mir_artifact_uri: Option<String>,
    pub mir_artifact_sha256_hex: Option<String>,
    pub mir_processed_at: Option<Timestamp>,
    pub created_at: Timestamp,
    pub updated_at: Timestamp,
    pub contexts: Vec<FileContextAttachment>,
}

impl FileDetailsResponse {
    /// The details of a file: its digests as lower-case hex, all else as it
    /// is, and the given attachments.
    pub fn from_record(record: FileRecord, contexts: Vec<FileContextAttachment>) -> (r: Self)
        ensures
            r.file_id == record.id,
            r.sha256_hex@ == hex_lower(record.sha256@),
            r.size_bytes == record.size_bytes,
            r.mime == record.mime,
            r.storage_bucket == record.storage_bucket,
            r.storage_key == record.storage_key,
            r.status == record.status,
            r.mir_job_id == record.mir_job_id,
            r.mir_artifact_uri == record.mir_artifact_uri,
            match record.mir_artifact_sha256 {
                Some(d) => r.mir_artifact_sha256_hex matches Some(h) && h@ == hex_lower(d@),
                None => r.mir_artifact_sha256_hex is None,
            },
            r.mir_processed_at == record.mir_processed_at,
            r.created_at == record.created_at,
            r.updated_at == record.updated_at,
            r.contexts == contexts,
    {
        let sha256_hex = hex_encode(record.sha256.as_slice());
        let mir_artifact_sha256_hex = match &record.mir_artifact_sha256 {
            Some(d) => Some(hex_encode(d.as_slice())),
            None => None,
        };
        FileDetailsResponse {
            file_id: record.id,
            sha256_hex,
            size_bytes: record.size_bytes,
            mime: record.mime,
            storage_bucket: record.storage_bucket,
            storage_key: record.storage_key,
            status: record.status,
            mir_job_id: record.mir_job_id,
            mir_artifact_uri: record.mir_artifact_uri,
            mir_artifact_sha256_hex,
            mir_processed_at: record.mir_processed_at,
            created_at: record.created_at,
            updated_at: record.updated_at,
            contexts,
        }
    }
}

/// A context a file is attached to, and the pipeline of that attachment.
#[derive(Debug, Clone, Copy, PartialEq, Eq, Structural)]
pub struct ContextPipelineRef {
    pub context_id: i32,
    pub pipeline_id: Uuid,
}

/// The attachment under which a file's processing restarts: the first one; a
/// file attached nowhere cannot be restarted.
pub fn retry_attachment(contexts: &[ContextPipelineRef]) -> (r: Result<ContextPipelineRef, GatewayError>)
    ensures
        contexts@.len() > 0 ==> r == Ok::<ContextPipelineRef, GatewayError>(contexts@[0]),
        contexts@.len() == 0 ==> (r matches Err(GatewayError::Conflict(m)) && m@
            == "file is not attached to any context"@),
{
    if contexts.len() > 0 {
        Ok(contexts[0])
    } else {
        Err(GatewayError::Conflict(String::from_str("file is not attached to any context")))
    }
}

/// The message of a restart refused because the file is being processed.
pub open spec fn processing_message(file_id: i64, job_id: Uuid) -> Seq<char> {
    "file "@ + int_text(file_id as int) + " already processing via job "@ + uuid_text(job_id)
}

/// Whether a file's processing may restart, given the status of its current
/// MIR job in the job store (`None` when it is not there): not while that
/// job is pending or in progress.
pub fn check_file_retry(file: &FileRecord, current_status: Option<JobStatus>) -> (r: Result<
    (),
    GatewayError,
>)
    ensures
        match (file.mir_job_id, current_status) {
            (Some(job_id), Some(st)) => if st == JobStatus::Pending || st == JobStatus::InProgress {
                r matches Err(GatewayError::Conflict(m)) && m@ == processing_message(file.id, job_id)
            } else {
                r is Ok
            },
            _ => r is Ok,
        },
{
    if let Some(job_id) = file.mir_job_id {
        if let Some(status) = current_status {
            if status == JobStatus::Pending || status == JobStatus::InProgress {
                let mut m = String::from_str("file ");
                let id_text = i64_text(file.id);
                m.append(id_text.as_str());
                m.append(" already processing via job ");
                let job_text = uuid_to_string(job_id);
                m.append(job_text.as_str());
                return Err(GatewayError::Conflict(m));
            }
        }
    }
    Ok(())
}

/// The answer to a restart of a file's processing.
#[derive(Debug, Clone, Copy, PartialEq, Eq, Structural)]
pub struct RetryResponse {
    pub file_id: i64,
    pub context_id: i32,
    pub pipeline_id: Uuid,
    pub job_id: Uuid,
    pub job_mode: JobLaunchMode,
}

impl RetryResponse {
    /// The answer for a restart that started `job_id`: always a new job.
    pub fn new(file_id: i64, attachment: ContextPipelineRef, job_id: Uuid) -> (r: Self)
        ensures
            r.file_id == file_id,
            r.context_id == attachment.context_id,
            r.pipeline_id == attachment.pipeline_id,
            r.job_id == job_id,
            r.job_mode == JobLaunchMode::Started,
    {
        RetryResponse {
            file_id,
            context_id: attachment.context_id,
            pipeline_id: attachment.pipeline_id,
            job_id,
            job_mode: JobLaunchMode::Started,
        }
    }
}

/// A file attached to a context, as the administrators' view of a context
/// presents it.
#[derive(Debug, Clone)]
pub struct ContextFileEntry {
    pub context_file_id: i64,
    pub file_id: i64,
    pub pipeline_id: Uuid,
    pub origin: FileOrigin,
    pub original_name: String,
    pub original_path: Option<String>,
    pub media_type: Option<String>,
    pub attached_at: Timestamp,
    pub status: FileStatus,
    pub sha256_hex: Option<String>,
    pub mir_artifact_uri: Option<String>,
}

/// `e` is the administrators' form of the attachment `record`.
pub open spec fn presents_attachment(e: ContextFileEntry, record: ContextFileRecord) -> bool {
    &&& e.context_file_id == record.id
    &&& e.file_id == record.file_id
    &&& e.pipeline_id == record.pipeline_id
    &&& e.origin == record.origin
    &&& e.original_name == record.original_name
    &&& e.original_path == record.original_path
    &&& e.media_type == record.media_type
    &&& e.attached_at == record.attached_at
    &&& e.status == record.file_status
    &&& e.sha256_hex matches Some(h) && h@ == hex_lower(record.file_sha256@)
    &&& e.mir_artifact_uri == record.mir_artifact_uri
}

impl ContextFileEntry {
    /// The presented form of an attachment: the file's digest as lower-case
    /// hex, all else as it is.
    pub fn from_record(record: ContextFileRecord) -> (r: Self)
        ensures
            presents_attachment(r, record),
    {
        let sha256_hex = hex_encode(record.file_sha256.as_slice());
        ContextFileEntry {
            context_file_id: record.id,
            file_id: record.file_id,
            pipeline_id: record.pipeline_id,
            origin: record.origin,
            original_name: record.original_name,
            original_path: record.original_path,
            media_type: record.media_type,
            attached_at: record.attached_at,
            status: record.file_status,
            sha256_hex: Some(sha256_hex),
            mir_artifact_uri: record.mir_artifact_uri,
        }
    }
}

/// The files attached to a context, as administrators see them.
#[derive(Debug)]
pub struct ContextFilesResponse {
    pub context_id: i32,
    pub files: Vec<ContextFileEntry>,
}

impl ContextFilesResponse {
    /// The files of context `context_id`, in the order of `records`.
    pub fn from_records(context_id: i32, records: Vec<ContextFileRecord>) -> (r: Self)
        ensures
            r.context_id == context_id,
            r.files@.len() == records@.len(),
            forall|i: int|
                0 <= i < records@.len() ==> presents_attachment(#[trigger] r.files@[i], records@[i]),
    {
        let ghost orig = records@;
        let total = records.len();
        let mut rest = records;
        let mut files: Vec<ContextFileEntry> = Vec::new();
        while rest.len() > 0
            invariant
                total == orig.len(),
                rest@.len() <= total,
                rest@ == orig.subrange(total - rest@.len(), total as int),
                files@.len() == total - rest@.len(),
                forall|j: int| 0 <= j < files@.len() ==> presents_attachment(#[trigger] files@[j], orig[j]),
            decreases rest@.len(),
        {
            let ghost before = rest@;
            let record = rest.remove(0);
            assert(record == orig[total - before.len()]);
            assert(rest@ =~= orig.subrange(total - rest@.len(), total as int));
            files.push(ContextFileEntry::from_record(record));
        }
        ContextFilesResponse { context_id, files }
    }
}

} // verus!
