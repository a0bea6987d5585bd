//! Storing an uploaded file and attaching it to a context: the name it is
//! known by, the record a new file gets, and the attachment it is given.
use vstd::prelude::*;
use crate::config::AppConfig;
use crate::files::FileRecord;
use crate::ids::{hex_lower, is_hex_char, law_hex_digits, sha256_digest, Uuid};
use crate::jobs::JobLaunchMode;
use crate::responses::{build_entry, is_built_entry, BuildEntryParams, LoadEntry};
use crate::text::{clone_opt_string, opt_view};
use crate::uploads::{
    build_metadata, compose_ingest_key, first_two_bytes, ingest_key, sanitized, FileOrigin,
    UploadedFile, WorkItem,
};

verus! {

/// The name a file goes by: its own, or `document.bin` when it has none.
pub open spec fn display_name_of(name: Option<Seq<char>>) -> Seq<char> {
    match name {
        Some(n) => n,
        None => "document.bin"@,
    }
}

/// The name an uploaded file goes by.
pub fn display_name(file: &UploadedFile) -> (r: String)
    ensures
        r@ == display_name_of(opt_view(file.name)),
{
    match &file.name {
        Some(n) => n.clone(),
        None => String::from_str("document.bin"),
    }
}

/// The record of a newly stored file.
#[derive(Debug, Clone)]
pub struct CreateFileParams {
    pub sha256: Vec<u8>,
    pub size_bytes: i64,
    pub mime: Option<String>,
    pub storage_bucket: String,
    pub storage_key: String,
}

/// `r` records `file` stored under `ingest_key` in the input bucket of
/// `config`, with digest `sha256`.
pub open spec fn is_file_params(
    r: CreateFileParams,
    config: AppConfig,
    file: UploadedFile,
    sha256: Vec<u8>,
    ingest_key: String,
) -> bool {
    &&& r.sha256 == sha256
    &&& r.size_bytes == file.bytes@.len()
    &&& opt_view(r.mime) == opt_view(file.content_type)
    &&& r.storage_bucket@ == config.input_bucket@
    &&& r.storage_key == ingest_key
}

/// The record for a file stored under `ingest_key` in the input bucket: its
/// digest, its size in bytes and its media type.
pub fn create_file_params(config: &AppConfig, file: &UploadedFile, sha256: Vec<u8>, ingest_key: String) -> (r:
    CreateFileParams)
    requires
        file.bytes@.len() <= i64::MAX,
    ensures
        is_file_params(r, *config, *file, sha256, ingest_key),
{
    CreateFileParams {
        sha256,
        size_bytes: file.bytes.len() as i64,
        mime: clone_opt_string(&file.content_type),
        storage_bucket: config.input_bucket.clone(),
        storage_key: ingest_key,
    }
}

/// The attachment of a stored file to a context.
#[derive(Debug, Clone)]
pub struct AttachContextFileParams {
    pub context_id: i32,
    pub file_id: i64,
    pub pipeline_id: Uuid,
    pub origin: FileOrigin,
    pub original_name: String,
    pub original_path: Option<String>,
    pub media_type: Option<String>,
}

/// `r` attaches stored file `file_id` to context `context_id` for `item`,
/// in pipeline `pipeline_id`.
pub open spec fn is_attach_params(
    r: AttachContextFileParams,
    item: WorkItem,
    context_id: i32,
    file_id: i64,
    pipeline_id: Uuid,
) -> bool {
    &&& r.context_id == context_id
    &&& r.file_id == file_id
    &&& r.pipeline_id == pipeline_id
    &&& r.origin == item.origin
    &&& r.original_name@ == display_name_of(opt_view(item.file.name))
    &&& opt_view(r.original_path) == opt_view(item.original_path)
    &&& opt_view(r.media_type) == opt_view(item.file.content_type)
}

/// The attachment for a work item whose file was stored as `file_id`, in a
/// new pipeline `pipeline_id`: the item's origin, name (`document.bin` when
/// it has none), path and media type.
pub fn attach_params(item: &WorkItem, context_id: i32, file_id: i64, pipeline_id: Uuid) -> (r:
    AttachContextFileParams)
    ensures
        is_attach_params(r, *item, context_id, file_id, pipeline_id),
{
    AttachContextFileParams {
        context_id,
        file_id,
        pipeline_id,
        origin: item.origin,
        original_name: display_name(&item.file),
        original_path: clone_opt_string(&item.original_path),
        media_type: clone_opt_string(&item.file.content_type),
    }
}


/// The digest of a work item's content, as hex text.
pub open spec fn item_hex(item: WorkItem) -> Seq<char> {
    hex_lower(sha256_digest(item.file.bytes@))
}

/// The storage key a work item's content goes to: by its digest and its
/// sanitized name.
pub open spec fn item_key(config: AppConfig, item: WorkItem) -> Seq<char> {
    ingest_key(
        config.input_prefix@,
        item_hex(item),
        sanitized(display_name_of(opt_view(item.file.name))),
    )
}

/// Where the intake of one work item stands between two answers.
#[derive(Debug)]
pub enum ItemPhase {
    /// Waiting for the file store's answer for the content's digest.
    FindFile { sha256: Vec<u8>, sha_hex: String, ingest_key: String },
    /// Waiting for the content to be uploaded under `ingest_key`.
    Uploading { sha256: Vec<u8>, sha_hex: String, ingest_key: String },
    /// Waiting for the new file's record.
    Creating { sha_hex: String },
    /// Waiting for the file to be attached to the context.
    Attaching { file: FileRecord, sha_hex: String, deduplicated: bool },
    /// Waiting for the job launched for the file.
    Deciding { sha_hex: String, deduplicated: bool, pipeline_id: Uuid },
    /// The item was answered.
    Done,
}

/// An answer from the stores during the intake of one work item.
#[derive(Debug)]
pub enum ItemEvent {
    /// The file the store holds with this digest, if any.
    Found(Option<FileRecord>),
    /// The content was uploaded.
    Uploaded,
    /// The record of the newly stored file.
    Created(FileRecord),
    /// The file was attached; the pipeline of the attachment.
    Attached(Uuid),
    /// The job launched for the file, how, and the file's record afterwards.
    Decided { job_id: Uuid, job_mode: JobLaunchMode, file: FileRecord },
}

/// What the caller of an intake does next.
#[derive(Debug)]
pub enum ItemAction {
    /// Look a stored file up by this digest.
    FindByHash(Vec<u8>),
    /// Upload the item's content to this bucket under this key.
    Upload { bucket: String, key: String },
    /// Record the newly stored file.
    CreateFile(CreateFileParams),
    /// Attach the file to the context.
    Attach(AttachContextFileParams),
    /// Launch the file's job in this pipeline (reuse, follow or start).
    DecideJob { file: FileRecord, pipeline_id: Uuid },
    /// The item's entry in the answer.
    Answer(LoadEntry),
}

/// What a phase knows of the item's digest and key.
pub open spec fn item_phase_ok(config: AppConfig, item: WorkItem, phase: ItemPhase) -> bool {
    match phase {
        ItemPhase::FindFile { sha256, sha_hex, ingest_key } => sha256@ == sha256_digest(item.file.bytes@)
            && sha_hex@ == item_hex(item) && ingest_key@ == item_key(config, item),
        ItemPhase::Uploading { sha256, sha_hex, ingest_key } => sha256@ == sha256_digest(item.file.bytes@)
            && sha_hex@ == item_hex(item) && ingest_key@ == item_key(config, item),
        ItemPhase::Creating { sha_hex } => sha_hex@ == item_hex(item),
        ItemPhase::Attaching { sha_hex, .. } => sha_hex@ == item_hex(item),
        ItemPhase::Deciding { sha_hex, .. } => sha_hex@ == item_hex(item),
        ItemPhase::Done => true,
    }
}

fn copy_bytes(v: &Vec<u8>) -> (r: Vec<u8>)
    ensures
        r@ == v@,
{
    let mut r: Vec<u8> = Vec::new();
    let mut i: usize = 0;
    while i < v.len()
        invariant
            i <= v@.len(),
            r@ == v@.take(i as int),
        decreases v@.len() - i,
    {
        r.push(v[i]);
        i = i + 1;
        assert(r@ =~= v@.take(i as int));
    }
    assert(v@.take(v@.len() as int) =~= v@);
    r
}

/// The first step of taking in a work item: digest its content, name its
/// storage key, and look the digest up.
pub fn item_begin(config: &AppConfig, item: &WorkItem) -> (r: (ItemPhase, ItemAction))
    ensures
        item_phase_ok(*config, *item, r.0),
        r.0 is FindFile,
        r.1 matches ItemAction::FindByHash(h) && h@ == sha256_digest(item.file.bytes@),
{
    let name = display_name(&item.file);
    let (sha256, sha_hex, clean) = build_metadata(name.as_str(), item.file.bytes.as_slice());
    proof {
        law_hex_digits(sha256_digest(item.file.bytes@));
        assert(is_hex_char(sha_hex@[0]) && is_hex_char(sha_hex@[1]));
    }
    let key = compose_ingest_key(config, sha_hex.as_str(), clean.as_str());
    let lookup = copy_bytes(&sha256);
    (ItemPhase::FindFile { sha256, sha_hex, ingest_key: key }, ItemAction::FindByHash(lookup))
}

/// `event` answers what an intake in `phase` waits for.
pub open spec fn item_awaits(phase: ItemPhase, event: ItemEvent) -> bool {
    match (phase, event) {
        (ItemPhase::FindFile { .. }, ItemEvent::Found(_)) => true,
        (ItemPhase::Uploading { .. }, ItemEvent::Uploaded) => true,
        (ItemPhase::Creating { .. }, ItemEvent::Created(_)) => true,
        (ItemPhase::Attaching { .. }, ItemEvent::Attached(_)) => true,
        (ItemPhase::Deciding { .. }, ItemEvent::Decided { .. }) => true,
        _ => false,
    }
}

/// One step of taking in `item` for context `context_id`; `pipeline_id` is the
/// pipeline a new attachment is given.
pub open spec fn item_transition(
    config: AppConfig,
    item: WorkItem,
    context_id: i32,
    pipeline_id: Uuid,
    phase: ItemPhase,
    event: ItemEvent,
    next: ItemPhase,
    action: ItemAction,
) -> bool {
    match (phase, event) {
        (ItemPhase::FindFile { sha256, sha_hex, ingest_key }, ItemEvent::Found(found)) => match found {
            Some(file) => next == (ItemPhase::Attaching { file, sha_hex, deduplicated: true }) && (action matches ItemAction::Attach(p)
                && is_attach_params(p, item, context_id, file.id, pipeline_id)),
            None => next == (ItemPhase::Uploading { sha256, sha_hex, ingest_key }) && (action matches ItemAction::Upload { bucket, key }
                && bucket@ == config.input_bucket@ && key == ingest_key),
        },
        (ItemPhase::Uploading { sha256, sha_hex, ingest_key }, ItemEvent::Uploaded) => next == (ItemPhase::Creating { sha_hex })
            && (action matches ItemAction::CreateFile(p) && is_file_params(p, config, item.file, sha256, ingest_key)),
        (ItemPhase::Creating { sha_hex }, ItemEvent::Created(file)) => next == (ItemPhase::Attaching { file, sha_hex, deduplicated: false })
            && (action matches ItemAction::Attach(p) && is_attach_params(p, item, context_id, file.id, pipeline_id)),
        (ItemPhase::Attaching { file, sha_hex, deduplicated }, ItemEvent::Attached(attached)) => next
            == (ItemPhase::Deciding { sha_hex, deduplicated, pipeline_id: attached }) && action == (ItemAction::DecideJob {
            file,
            pipeline_id: attached,
        }),
        (ItemPhase::Deciding { sha_hex, deduplicated, pipeline_id: attached }, ItemEvent::Decided { job_id, job_mode, file }) => next is Done
            && (action matches ItemAction::Answer(e) && is_built_entry(
            e,
            context_id,
            job_id,
            job_mode,
            file,
            sha_hex,
            deduplicated,
            item.original_path,
            config,
            attached,
        )),
        _ => false,
    }
}

/// The step of an intake in `phase` on the answer `event`.
pub fn item_step(
    config: &AppConfig,
    item: &WorkItem,
    context_id: i32,
    pipeline_id: Uuid,
    phase: ItemPhase,
    event: ItemEvent,
) -> (r: (ItemPhase, ItemAction))
    requires
        item_awaits(phase, event),
        item_phase_ok(*config, *item, phase),
        item.file.bytes@.len() <= i64::MAX,
    ensures
        item_transition(*config, *item, context_id, pipeline_id, phase, event, r.0, r.1),
        item_phase_ok(*config, *item, r.0),
{
    match (phase, event) {
        (ItemPhase::FindFile { sha256, sha_hex, ingest_key }, ItemEvent::Found(found)) => match found {
            Some(file) => {
                let params = attach_params(item, context_id, file.id, pipeline_id);
                (ItemPhase::Attaching { file, sha_hex, deduplicated: true }, ItemAction::Attach(params))
            },
            None => {
                let key = ingest_key.clone();
                let action = ItemAction::Upload { bucket: config.input_bucket.clone(), key };
                (ItemPhase::Uploading { sha256, sha_hex, ingest_key }, action)
            },
        },
        (ItemPhase::Uploading { sha256, sha_hex, ingest_key }, ItemEvent::Uploaded) => {
            let params = create_file_params(config, &item.file, sha256, ingest_key);
            (ItemPhase::Creating { sha_hex }, ItemAction::CreateFile(params))
        },
        (ItemPhase::Creating { sha_hex }, ItemEvent::Created(file)) => {
            let params = attach_params(item, context_id, file.id, pipeline_id);
            (ItemPhase::Attaching { file, sha_hex, deduplicated: false }, ItemAction::Attach(params))
        },
        (ItemPhase::Attaching { file, sha_hex, deduplicated }, ItemEvent::Attached(attached)) => (
            ItemPhase::Deciding { sha_hex, deduplicated, pipeline_id: attached },
            ItemAction::DecideJob { file, pipeline_id: attached },
        ),
        (ItemPhase::Deciding { sha_hex, deduplicated, pipeline_id: attached }, ItemEvent::Decided { job_id, job_mode, file }) => {
            let entry = build_entry(
                BuildEntryParams {
                    context_id,
                    job_id,
                    job_mode,
                    file_record: &file,
                    sha_hex,
                    deduplicated,
                    original_path: clone_opt_string(&item.original_path),
                    config,
                    pipeline_id: attached,
                },
            );
            (ItemPhase::Done, ItemAction::Answer(entry))
        },
        (phase, _) => (phase, ItemAction::FindByHash(Vec::new())),
    }
}

/// An upload item's entry carries the hex digest of the item's own content,
/// and a newly stored file goes under the key made of that digest and the
/// item's sanitized name, with that digest recorded; the entry says it was
/// deduplicated exactly when the store already held the content.
pub proof fn law_item_digest_and_key(
    config: AppConfig,
    item: WorkItem,
    context_id: i32,
    pipeline_id: Uuid,
    phase: ItemPhase,
    event: ItemEvent,
    next: ItemPhase,
    action: ItemAction,
)
    requires
        item_phase_ok(config, item, phase),
        item_transition(config, item, context_id, pipeline_id, phase, event, next, action),
    ensures
        action matches ItemAction::Answer(e) ==> e.sha256_hex@ == item_hex(item),
        action matches ItemAction::Upload { key, .. } ==> key@ == item_key(config, item),
        action matches ItemAction::CreateFile(p) ==> p.storage_key@ == item_key(config, item)
            && p.sha256@ == sha256_digest(item.file.bytes@),
        next matches ItemPhase::Attaching { deduplicated, .. } ==> (deduplicated <==> event
            matches ItemEvent::Found(Some(_))),
{
}
} // verus!
