//! Contexts (document collections): who may read or change them, their list
//! cursors, and how records are presented.
use vstd::prelude::*;
use crate::error::{invalid_field, is_forbidden, is_invalid_field, GatewayError};
use crate::files::{ContextFileRecord, FileStatus};
use crate::ids::{hex_encode, hex_lower, Uuid};
use crate::pagination::page_is_full;
use crate::time::Timestamp;
use crate::uploads::FileOrigin;

verus! {

/// The role of a user account.
#[derive(Debug, Clone, Copy, PartialEq, Eq, Structural)]
pub enum UserRole {
    Admin,
    User,
    Viewer,
}

/// The authenticated caller of a request.
#[derive(Debug, Clone, Copy, PartialEq, Eq, Structural)]
pub struct AuthUser {
    pub id: Uuid,
    pub role: UserRole,
}

/// How a context's documents are processed.
#[derive(Debug, Clone, Copy, PartialEq, Eq, Structural)]
pub enum ContextMode {
    Emb,
    Rdf,
    Lpg,
}

/// A context as the context store returns it.
#[derive(Debug, Clone)]
pub struct ContextRecord {
    pub id: i32,
    pub title: Option<String>,
    pub description: Option<String>,
    pub created_at: Timestamp,
    pub updated_at: Timestamp,
    pub owner_id: Option<Uuid>,
    pub files_count: Option<i64>,
    pub mode: ContextMode,
}

/// The caller may read a context with this owner: admins, the owner, and
/// users the context is shared with.
pub open spec fn may_read(owner_id: Option<Uuid>, user: AuthUser, is_shared: bool) -> bool {
    user.role == UserRole::Admin || owner_id == Some(user.id) || is_shared
}

/// The caller may change a context with this owner: admins, the owner, and
/// users the context is shared with in the `User` role (read and write).
/// `share` is the role of the caller's share of the context, if any.
pub open spec fn may_write(owner_id: Option<Uuid>, user: AuthUser, share: Option<UserRole>) -> bool {
    user.role == UserRole::Admin || owner_id == Some(user.id) || share == Some(UserRole::User)
}

/// The caller may grant or revoke shares of a context with this owner:
/// admins and the owner.
pub open spec fn may_share(owner_id: Option<Uuid>, user: AuthUser) -> bool {
    user.role == UserRole::Admin || owner_id == Some(user.id)
}

/// Read access to a context: the context when the caller may read it, given
/// the stored context (`None` when there is none) and whether it is shared
/// with the caller.
pub fn ensure_context_owner(
    context: Option<ContextRecord>,
    context_id: i32,
    user: &AuthUser,
    is_shared: bool,
) -> (r: Result<ContextRecord, GatewayError>)
    ensures
        match context {
            None => r matches Err(GatewayError::ContextNotFound(id)) && id == context_id,
            Some(c) => if may_read(c.owner_id, *user, is_shared) {
                r == Ok::<ContextRecord, GatewayError>(c)
            } else {
                r matches Err(e) && is_forbidden(
                    e,
                    "context does not belong to the authenticated user"@,
                )
            },
        },
{
    let context = match context {
        Some(c) => c,
        None => return Err(GatewayError::ContextNotFound(context_id)),
    };
    let is_admin = user.role == UserRole::Admin;
    let is_owner = match context.owner_id {
        Some(id) => id == user.id,
        None => false,
    };
    if is_admin || is_owner || is_shared {
        return Ok(context);
    }
    Err(GatewayError::Forbidden("context does not belong to the authenticated user".to_owned()))
}

/// The stored context, or the error that says why the caller may not have it.
fn context_or_forbidden(
    context: Option<ContextRecord>,
    context_id: i32,
    allowed: bool,
) -> (r: Result<ContextRecord, GatewayError>)
    ensures
        match context {
            None => r matches Err(GatewayError::ContextNotFound(id)) && id == context_id,
            Some(c) => if allowed {
                r == Ok::<ContextRecord, GatewayError>(c)
            } else {
                r matches Err(e) && is_forbidden(
                    e,
                    "write access requires context owner or admin"@,
                )
            },
        },
{
    match context {
        None => Err(GatewayError::ContextNotFound(context_id)),
        Some(c) => if allowed {
            Ok(c)
        } else {
            Err(GatewayError::Forbidden("write access requires context owner or admin".to_owned()))
        },
    }
}

/// Whether the caller owns the context or is an admin.
fn is_owner_or_admin(owner_id: Option<Uuid>, user: &AuthUser) -> (r: bool)
    ensures
        r == may_share(owner_id, *user),
{
    let is_admin = user.role == UserRole::Admin;
    let is_owner = match owner_id {
        Some(id) => id == user.id,
        None => false,
    };
    is_admin || is_owner
}

/// Write access to a context: the context when the caller may change it,
/// given the role of the caller's share of it (`None` when it is not shared
/// with the caller).
pub fn ensure_context_write_access(
    context: Option<ContextRecord>,
    context_id: i32,
    user: &AuthUser,
    share: Option<UserRole>,
) -> (r: Result<ContextRecord, GatewayError>)
    ensures
        match context {
            None => r matches Err(GatewayError::ContextNotFound(id)) && id == context_id,
            Some(c) => if may_write(c.owner_id, *user, share) {
                r == Ok::<ContextRecord, GatewayError>(c)
            } else {
                r matches Err(e) && is_forbidden(
                    e,
                    "write access requires context owner or admin"@,
                )
            },
        },
{
    let allowed = match &context {
        Some(c) => {
            let shared_for_writing = match share {
                Some(UserRole::User) => true,
                _ => false,
            };
            is_owner_or_admin(c.owner_id, user) || shared_for_writing
        },
        None => false,
    };
    context_or_forbidden(context, context_id, allowed)
}

/// Access to a context's shares: the context when the caller may grant or
/// revoke them.
pub fn ensure_context_share_access(
    context: Option<ContextRecord>,
    context_id: i32,
    user: &AuthUser,
) -> (r: Result<ContextRecord, GatewayError>)
    ensures
        match context {
            None => r matches Err(GatewayError::ContextNotFound(id)) && id == context_id,
            Some(c) => if may_share(c.owner_id, *user) {
                r == Ok::<ContextRecord, GatewayError>(c)
            } else {
                r matches Err(e) && is_forbidden(
                    e,
                    "write access requires context owner or admin"@,
                )
            },
        },
{
    let allowed = match &context {
        Some(c) => is_owner_or_admin(c.owner_id, user),
        None => false,
    };
    context_or_forbidden(context, context_id, allowed)
}

/// Whoever may change a context may also read it; whoever may manage its
/// shares may also change it, whatever share they hold; admins may do all
/// three with any context; a viewer share grants reading only.
pub proof fn law_write_implies_read(owner_id: Option<Uuid>, user: AuthUser, share: Option<UserRole>)
    ensures
        may_write(owner_id, user, share) ==> may_read(owner_id, user, share is Some),
        may_share(owner_id, user) ==> may_write(owner_id, user, share),
        user.role == UserRole::Admin ==> may_share(owner_id, user),
        share == Some(UserRole::Viewer) ==> (may_read(owner_id, user, true) && (may_write(
            owner_id,
            user,
            share,
        ) <==> may_share(owner_id, user))),
{
}

/// Position after which the next page of a context's files starts.
#[derive(Debug, Clone, Copy, PartialEq, Eq, Structural)]
pub struct ContextFileListCursor {
    pub attached_at: Timestamp,
    pub context_file_id: i64,
}

/// Position after which the next page of contexts starts.
#[derive(Debug, Clone, Copy, PartialEq, Eq, Structural)]
pub struct ContextListCursor {
    pub created_at: Timestamp,
    pub id: i32,
}

/// The cursor a context-files page request asks for: `Some(None)` for no
/// cursor, `None` when the request is invalid (one part only, or an id that is
/// not positive).
pub open spec fn file_cursor_choice(attached_at: Option<Timestamp>, context_file_id: Option<i64>) -> Option<
    Option<ContextFileListCursor>,
> {
    match (attached_at, context_file_id) {
        (Some(ts), Some(id)) => if id > 0 {
            Some(Some(ContextFileListCursor { attached_at: ts, context_file_id: id }))
        } else {
            None
        },
        (None, None) => Some(None),
        _ => None,
    }
}

/// The cursor a contexts page request asks for, in the same way.
pub open spec fn context_cursor_choice(created_at: Option<Timestamp>, context_id: Option<i32>) -> Option<
    Option<ContextListCursor>,
> {
    match (created_at, context_id) {
        (Some(ts), Some(id)) => if id > 0 {
            Some(Some(ContextListCursor { created_at: ts, id }))
        } else {
            None
        },
        (None, None) => Some(None),
        _ => None,
    }
}

/// The cursor of a context-files page request: both parts with a positive id,
/// or neither.
pub fn build_file_cursor(attached_at: Option<Timestamp>, context_file_id: Option<i64>) -> (r: Result<
    Option<ContextFileListCursor>,
    GatewayError,
>)
    ensures
        match file_cursor_choice(attached_at, context_file_id) {
            Some(c) => r == Ok::<Option<ContextFileListCursor>, GatewayError>(c),
            None => r matches Err(e) && is_invalid_field(
                e,
                "cursor"@,
                "provide both cursor_attached_at and cursor_id"@,
            ),
        },
{
    match (attached_at, context_file_id) {
        (Some(ts), Some(id)) if id > 0 => Ok(
            Some(ContextFileListCursor { attached_at: ts, context_file_id: id }),
        ),
        (None, None) => Ok(None),
        _ => Err(invalid_field("cursor", "provide both cursor_attached_at and cursor_id")),
    }
}

/// The cursor of a contexts page request: both parts with a positive id, or
/// neither.
pub fn build_context_cursor(created_at: Option<Timestamp>, context_id: Option<i32>) -> (r: Result<
    Option<ContextListCursor>,
    GatewayError,
>)
    ensures
        match context_cursor_choice(created_at, context_id) {
            Some(c) => r == Ok::<Option<ContextListCursor>, GatewayError>(c),
            None => r matches Err(e) && is_invalid_field(
                e,
                "cursor"@,
                "provide both cursor_created_at and cursor_id"@,
            ),
        },
{
    match (created_at, context_id) {
        (Some(ts), Some(id)) if id > 0 => Ok(Some(ContextListCursor { created_at: ts, id })),
        (None, None) => Ok(None),
        _ => Err(invalid_field("cursor", "provide both cursor_created_at and cursor_id")),
    }
}

/// A context as the API presents it.
#[derive(Debug, Clone)]
pub struct ContextResponse {
    pub id: i32,
    pub title: Option<String>,
    pub description: Option<String>,
    pub created_at: Timestamp,
    pub updated_at: Timestamp,
    pub owner_id: Option<Uuid>,
    pub files_count: i64,
    pub mode: ContextMode,
}

/// The presented form of a context record; a missing file count is 0.
pub open spec fn presented(record: ContextRecord) -> ContextResponse {
    ContextResponse {
        id: record.id,
        title: record.title,
        description: record.description,
        created_at: record.created_at,
        updated_at: record.updated_at,
        owner_id: record.owner_id,
        files_count: match record.files_count {
            Some(n) => n,
            None => 0,
        },
        mode: record.mode,
    }
}

impl ContextResponse {
    /// The presented form of a context record; a missing file count is 0.
    pub fn from_record(record: ContextRecord) -> (r: Self)
        ensures
            r == presented(record),
            r.id == record.id,
            r.title == record.title,
            r.description == record.description,
            r.created_at == record.created_at,
            r.updated_at == record.updated_at,
            r.owner_id == record.owner_id,
            r.files_count == (match record.files_count {
                Some(n) => n,
                None => 0,
            }),
            r.mode == record.mode,
    {
        ContextResponse {
            id: record.id,
            title: record.title,
            description: record.description,
            created_at: record.created_at,
            updated_at: record.updated_at,
            owner_id: record.owner_id,
            files_count: match record.files_count {
                Some(n) => n,
                None => 0,
            },
            mode: record.mode,
        }
    }
}

/// Position after which the next page of contexts starts, as a page gives it.
#[derive(Debug, Clone, Copy, PartialEq, Eq, Structural)]
pub struct ContextCursor {
    pub created_at: Timestamp,
    pub id: i32,
}

/// Query parameters of the contexts list.
#[derive(Debug, Clone, Copy, PartialEq, Eq, Structural)]
pub struct ContextsQuery {
    pub limit: Option<i64>,
    pub cursor_created_at: Option<Timestamp>,
    pub cursor_id: Option<i32>,
}

/// A page of contexts, and where the next page starts when there may be one.
#[derive(Debug)]
pub struct ContextsResponse {
    pub contexts: Vec<ContextResponse>,
    pub next_cursor: Option<ContextCursor>,
}

impl ContextsResponse {
    /// The page made of `records`, fetched with page size `limit`: a full page
    /// has a cursor at its last context.
    pub fn from_records(records: Vec<ContextRecord>, limit: i64) -> (r: Self)
        ensures
            r.contexts@.len() == records@.len(),
            forall|i: int| 0 <= i < records@.len() ==> #[trigger] r.contexts@[i] == presented(records@[i]),
            (records@.len() == limit && records@.len() > 0) ==> r.next_cursor == Some(
                ContextCursor { created_at: records@.last().created_at, id: records@.last().id },
            ),
            !(records@.len() == limit && records@.len() > 0) ==> r.next_cursor is None,
    {
        let full = page_is_full(records.len(), limit);
        let next_cursor = if full && records.len() > 0 {
            let last = &records[records.len() - 1];
            Some(ContextCursor { created_at: last.created_at, id: last.id })
        } else {
            None
        };
        let ghost orig = records@;
        let total = records.len();
        let mut rest = records;
        let mut contexts: Vec<ContextResponse> = Vec::new();
        while rest.len() > 0
            invariant
                total == orig.len(),
                rest@.len() <= total,
                rest@ == orig.subrange(total - rest@.len(), total as int),
                contexts@.len() == total - rest@.len(),
                forall|j: int|
                    0 <= j < contexts@.len() ==> #[trigger] contexts@[j] == presented(orig[j]),
            decreases rest@.len(),
        {
            let ghost before = rest@;
            let record = rest.remove(0);
            assert(record == orig[total - before.len()]);
            assert(rest@ =~= orig.subrange(total - rest@.len(), total as int));
            contexts.push(ContextResponse::from_record(record));
        }
        ContextsResponse { contexts, next_cursor }
    }
}

/// A file attached to a context, as the context's file list presents it.
#[derive(Debug, Clone)]
pub struct ContextFileEntry {
    pub context_file_id: i64,
    pub pipeline_id: Uuid,
    pub doc_id: Option<Uuid>,
    pub original_name: String,
    pub media_type: Option<String>,
    pub status: FileStatus,
    pub sha256_hex: String,
    pub origin: FileOrigin,
    pub mir_artifact_uri: Option<String>,
    pub attached_at: Timestamp,
}

/// `e` is the listed form of the attachment `record`: the file's digest as
/// lower-case hex, all else as it is.
pub open spec fn presents_file(e: ContextFileEntry, record: ContextFileRecord) -> bool {
    &&& e.context_file_id == record.id
    &&& e.pipeline_id == record.pipeline_id
    &&& e.doc_id == record.doc_id
    &&& e.original_name == record.original_name
    &&& e.media_type == record.media_type
    &&& e.status == record.file_status
    &&& e.sha256_hex@ == hex_lower(record.file_sha256@)
    &&& e.origin == record.origin
    &&& e.mir_artifact_uri == record.mir_artifact_uri
    &&& e.attached_at == record.attached_at
}

impl ContextFileEntry {
    /// The listed form of an attachment.
    pub fn from_record(record: ContextFileRecord) -> (r: Self)
        ensures
            presents_file(r, record),
    {
        let sha256_hex = hex_encode(record.file_sha256.as_slice());
        ContextFileEntry {
            context_file_id: record.id,
            pipeline_id: record.pipeline_id,
            doc_id: record.doc_id,
            original_name: record.original_name,
            media_type: record.media_type,
            status: record.file_status,
            sha256_hex,
            origin: record.origin,
            mir_artifact_uri: record.mir_artifact_uri,
            attached_at: record.attached_at,
        }
    }
}

/// Position after which the next page of a context's files starts, as a
/// page gives it.
#[derive(Debug, Clone, Copy, PartialEq, Eq, Structural)]
pub struct ContextFileCursor {
    pub attached_at: Timestamp,
    pub context_file_id: i64,
}

/// Query parameters of a context's file list.
#[derive(Debug, Clone, Copy, PartialEq, Eq, Structural)]
pub struct ContextFilesQuery {
    pub limit: Option<i64>,
    pub cursor_attached_at: Option<Timestamp>,
    pub cursor_id: Option<i64>,
}

/// The cursor for the page after `records`, fetched with page size `limit`.
pub open spec fn next_file_cursor_of(records: Seq<ContextFileRecord>, limit: i64) -> Option<ContextFileCursor> {
    if records.len() == limit && records.len() > 0 {
        Some(ContextFileCursor { attached_at: records.last().attached_at, context_file_id: records.last().id })
    } else {
        None
    }
}

/// The cursor for the page after a page of a context's files, fetched with
/// page size `limit`: the position of the last file when the page is full.
pub fn next_file_cursor(records: &[ContextFileRecord], limit: i64) -> (r: Option<ContextFileCursor>)
    ensures
        r == next_file_cursor_of(records@, limit),
{
    if page_is_full(records.len(), limit) && records.len() > 0 {
        let last = &records[records.len() - 1];
        Some(ContextFileCursor { attached_at: last.attached_at, context_file_id: last.id })
    } else {
        None
    }
}

/// A page of a context's files.
#[derive(Debug)]
pub struct ContextFilesResponse {
    pub files: Vec<ContextFileEntry>,
    pub next_cursor: Option<ContextFileCursor>,
}

impl ContextFilesResponse {
    /// The page made of `records`, fetched with page size `limit`: a full page
    /// has a cursor at its last file.
    pub fn from_records(records: Vec<ContextFileRecord>, limit: i64) -> (r: Self)
        ensures
            r.files@.len() == records@.len(),
            forall|i: int| 0 <= i < records@.len() ==> presents_file(#[trigger] r.files@[i], records@[i]),
            r.next_cursor == next_file_cursor_of(records@, limit),
    {
        let next_cursor = next_file_cursor(records.as_slice(), limit);
        let ghost orig = records@;
        let total = records.len();
        let mut rest = records;
        let mut files: Vec<ContextFileEntry> = Vec::new();
        while rest.len() > 0
            invariant
                total == orig.len(),
                rest@.len() <= total,
                rest@ == orig.subrange(total - rest@.len(), total as int),
                files@.len() == total - rest@.len(),
                forall|j: int| 0 <= j < files@.len() ==> presents_file(#[trigger] files@[j], orig[j]),
            decreases rest@.len(),
        {
            let ghost before = rest@;
            let record = rest.remove(0);
            assert(record == orig[total - before.len()]);
            assert(rest@ =~= orig.subrange(total - rest@.len(), total as int));
            files.push(ContextFileEntry::from_record(record));
        }
        ContextFilesResponse { files, next_cursor }
    }
}

/// A request to create a context.
#[derive(Debug, Clone, Copy, PartialEq, Eq, Structural)]
pub struct CreateContextRequest {
    pub mode: Option<ContextMode>,
}

/// The mode of a context the caller creates: viewers may not create
/// contexts; the mode defaults to RDF.
pub fn create_context_mode(user: &AuthUser, payload: &CreateContextRequest) -> (r: Result<
    ContextMode,
    GatewayError,
>)
    ensures
        user.role == UserRole::Viewer ==> (r matches Err(e) && is_forbidden(
            e,
            "viewer role cannot create contexts"@,
        )),
        user.role != UserRole::Viewer ==> r == Ok::<ContextMode, GatewayError>(
            match payload.mode {
                Some(m) => m,
                None => ContextMode::Rdf,
            },
        ),
{
    if user.role == UserRole::Viewer {
        return Err(GatewayError::Forbidden(String::from_str("viewer role cannot create contexts")));
    }
    match payload.mode {
        Some(m) => Ok(m),
        None => Ok(ContextMode::Rdf),
    }
}

/// A request to change a context; absent fields stay as they are.
#[derive(Debug, Clone)]
pub struct UpdateContextRequest {
    pub title: Option<String>,
    pub description: Option<String>,
    pub mode: Option<ContextMode>,
}

/// The outcome of an update or a deletion that the store reports as done or
/// not: a context that vanished in between is not found.
pub fn require_context_change<T>(changed: Option<T>, context_id: i32) -> (r: Result<T, GatewayError>)
    ensures
        match changed {
            Some(v) => r matches Ok(w) && w == v,
            None => r matches Err(GatewayError::ContextNotFound(id)) && id == context_id,
        },
{
    match changed {
        Some(v) => Ok(v),
        None => Err(GatewayError::ContextNotFound(context_id)),
    }
}

/// A request to share a context with another user.
#[derive(Debug, Clone, Copy, PartialEq, Eq, Structural)]
pub struct CreateShareRequest {
    pub user_id: Uuid,
    pub role: Option<UserRole>,
}

/// The role a share grants: viewer unless another is asked for; the admin
/// role cannot be granted by sharing.
pub fn share_role(payload: &CreateShareRequest) -> (r: Result<UserRole, GatewayError>)
    ensures
        payload.role == Some(UserRole::Admin) ==> (r matches Err(e) && is_forbidden(
            e,
            "cannot grant admin role"@,
        )),
        payload.role != Some(UserRole::Admin) ==> r == Ok::<UserRole, GatewayError>(
            match payload.role {
                Some(role) => role,
                None => UserRole::Viewer,
            },
        ),
{
    let role = match payload.role {
        Some(role) => role,
        None => UserRole::Viewer,
    };
    if role == UserRole::Admin {
        return Err(GatewayError::Forbidden(String::from_str("cannot grant admin role")));
    }
    Ok(role)
}

/// A list read for a context is only answered empty when the context exists:
/// `listed` is the number of records read, and `context_exists` whether the
/// context is there (only looked at when nothing was read).
pub fn check_listed_context(listed: usize, context_exists: bool, context_id: i32) -> (r: Result<
    (),
    GatewayError,
>)
    ensures
        (listed == 0 && !context_exists) ==> (r matches Err(GatewayError::ContextNotFound(id)) && id
            == context_id),
        !(listed == 0 && !context_exists) ==> r is Ok,
{
    if listed == 0 && !context_exists {
        Err(GatewayError::ContextNotFound(context_id))
    } else {
        Ok(())
    }
}

/// Files can only be loaded into a context that exists.
pub fn require_context_exists(context_exists: bool, context_id: i32) -> (r: Result<(), GatewayError>)
    ensures
        context_exists ==> r is Ok,
        !context_exists ==> (r matches Err(GatewayError::ContextNotFound(id)) && id == context_id),
{
    if context_exists {
        Ok(())
    } else {
        Err(GatewayError::ContextNotFound(context_id))
    }
}

} // verus!
