//! Stored files and their attachments to contexts, as the file store returns
//! them.
use vstd::prelude::*;
use crate::error::GatewayError;
use crate::ids::Uuid;
use crate::time::Timestamp;
use crate::uploads::FileOrigin;

verus! {

/// Processing state of a stored file.
#[derive(Debug, Clone, Copy, PartialEq, Eq, Structural)]
pub enum FileStatus {
    Pending,
    Processing,
    Success,
    Failure,
}

/// A stored file, identified by the SHA-256 of its content.
#[derive(Debug, Clone)]
pub struct FileRecord {
    pub id: i64,
    pub sha256: Vec<u8>,
    pub size_bytes: i64,
    pub mime: Option<String>,
    pub storage_bucket: String,
    pub storage_key: String,
    pub status: FileStatus,
    pub mir_job_id: Option<Uuid>,
    pub mir_artifact_uri: Option<String>,
    pub mir_artifact_sha256: Option<Vec<u8>>,
    pub mir_processed_at: Option<Timestamp>,
    pub doc_id: Option<Uuid>,
    pub created_at: Timestamp,
    pub updated_at: Timestamp,
}

/// A file attached to a context, with the file's state.
#[derive(Debug, Clone)]
pub struct ContextFileRecord {
    pub id: i64,
    pub context_id: i32,
    pub file_id: i64,
    pub pipeline_id: Uuid,
    pub origin: FileOrigin,
    pub original_name: String,
    pub original_path: Option<String>,
    pub media_type: Option<String>,
    pub attached_at: Timestamp,
    pub file_sha256: Vec<u8>,
    pub file_status: FileStatus,
    pub mir_artifact_uri: Option<String>,
    pub doc_id: Option<Uuid>,
}

/// The stored file with this id, from the file store's answer:
/// `FileNotFound` when there is none.
pub fn require_file(file_id: i64, file: Option<FileRecord>) -> (r: Result<FileRecord, GatewayError>)
    ensures
        match file {
            None => r matches Err(GatewayError::FileNotFound(id)) && id == file_id,
            Some(f) => r matches Ok(f2) && f2 == f,
        },
{
    match file {
        Some(f) => Ok(f),
        None => Err(GatewayError::FileNotFound(file_id)),
    }
}

} // verus!
