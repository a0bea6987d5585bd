//! Downloads of stored documents and files: where an `s3://` artifact URI
//! points, which media type and file name a download is served with, and
//! which lookups a download needs to pass.
use vstd::prelude::*;
use crate::artifacts::{artifact_file_name, last_segment, ArtifactRef};
use crate::error::GatewayError;
use crate::files::{ContextFileRecord, FileRecord};
use crate::headers::{attachment_disposition, disposition_of, header_text_ok, header_text_valid};
use crate::ids::Uuid;
use crate::text::{has_suffix, split_once, split_once_char, strip_prefix, has_prefix, lemma_split_once_char, ends_with, opt_view};

verus! {

/// The bucket and key of `s3://<bucket>/<key>`; the bucket ends at the first
/// `/`, and neither part may be empty.
pub open spec fn spec_parse_s3_uri(uri: Seq<char>) -> Option<(Seq<char>, Seq<char>)> {
    if !has_prefix(uri, "s3://"@) {
        None
    } else {
        match split_once_char(uri.skip("s3://"@.len() as int), '/') {
            Some((bucket, key)) => if bucket.len() == 0 || key.len() == 0 {
                None
            } else {
                Some((bucket, key))
            },
            None => None,
        }
    }
}

/// Splits an `s3://<bucket>/<key>` URI into bucket and key.
pub fn parse_s3_uri(uri: &str) -> (r: Option<(&str, &str)>)
    ensures
        match r {
            Some((bucket, key)) => spec_parse_s3_uri(uri@) == Some((bucket@, key@)),
            None => spec_parse_s3_uri(uri@) is None,
        },
{
    let value = strip_prefix(uri, "s3://")?;
    let (bucket, key) = split_once(value, '/')?;
    if bucket.is_empty() || key.is_empty() {
        return None;
    }
    Some((bucket, key))
}

/// A URI written from a bucket without `/` and a non-empty key is parsed back
/// into the same bucket and key.
pub proof fn law_s3_uri_round_trip(bucket: Seq<char>, key: Seq<char>)
    requires
        bucket.len() > 0,
        key.len() > 0,
        forall|i: int| 0 <= i < bucket.len() ==> bucket[i] != '/',
    ensures
        spec_parse_s3_uri("s3://"@ + bucket + seq!['/'] + key) == Some((bucket, key)),
{
    let uri = "s3://"@ + bucket + seq!['/'] + key;
    let p = "s3://"@;
    assert(uri.subrange(0, p.len() as int) =~= p);
    let rest = uri.skip(p.len() as int);
    assert(rest =~= bucket + seq!['/'] + key);
    assert(rest[bucket.len() as int] == '/');
    assert forall|j: int| 0 <= j < bucket.len() implies rest[j] != '/' by {
        assert(rest[j] == bucket[j]);
    }
    lemma_split_once_char(rest, '/', bucket.len() as int);
    assert(rest.take(bucket.len() as int) =~= bucket);
    assert(rest.skip(bucket.len() as int + 1) =~= key);
}

/// The media type served for a stored key, by its extension.
pub open spec fn spec_infer_content_type(key: Seq<char>) -> Option<Seq<char>> {
    if has_suffix(key, ".md"@) {
        Some("text/markdown; charset=utf-8"@)
    } else if has_suffix(key, ".txt"@) {
        Some("text/plain; charset=utf-8"@)
    } else if has_suffix(key, ".json"@) {
        Some("application/json"@)
    } else {
        None
    }
}

/// The media type for `.md`, `.txt` and `.json` keys; `None` for others.
pub fn infer_content_type(key: &str) -> (r: Option<&'static str>)
    ensures
        match r {
            Some(t) => spec_infer_content_type(key@) == Some(t@),
            None => spec_infer_content_type(key@) is None,
        },
{
    if ends_with(key, ".md") {
        return Some("text/markdown; charset=utf-8");
    }
    if ends_with(key, ".txt") {
        return Some("text/plain; charset=utf-8");
    }
    if ends_with(key, ".json") {
        return Some("application/json");
    }
    None
}

/// The header texts of a download.
#[derive(Debug, Clone)]
pub struct DownloadHeaders {
    /// `Content-Type`.
    pub content_type: String,
    /// `Content-Disposition`, when the file name gives one.
    pub disposition: Option<String>,
}

/// The media type a download is served with: the known one when it is a
/// valid header value, else `application/octet-stream`.
pub open spec fn served_media_type(media_type: Option<Seq<char>>) -> Seq<char> {
    match media_type {
        Some(t) => if header_text_ok(t) {
            t
        } else {
            "application/octet-stream"@
        },
        None => "application/octet-stream"@,
    }
}

/// The headers for a download of `filename` with the media type `media_type`.
pub fn download_headers(media_type: Option<&str>, filename: &str) -> (r: DownloadHeaders)
    ensures
        r.content_type@ == served_media_type(
            match media_type {
                Some(t) => Some(t@),
                None => None,
            },
        ),
        opt_view(r.disposition) == disposition_of(filename@),
{
    let content_type = match media_type {
        Some(t) => {
            if header_text_valid(t) {
                t.to_owned()
            } else {
                String::from_str("application/octet-stream")
            }
        },
        None => String::from_str("application/octet-stream"),
    };
    DownloadHeaders { content_type, disposition: attachment_disposition(filename) }
}

/// Where a document's extracted result is stored, from the file the document
/// belongs to: no file means no such document; a file without a result, or
/// with a result URI that is not `s3://<bucket>/<key>`, has none available.
pub fn document_location(doc_id: Uuid, file: Option<FileRecord>) -> (r: Result<(String, String), GatewayError>)
    ensures
        match file {
            None => r matches Err(GatewayError::DocumentNotFound(id)) && id == doc_id,
            Some(f) => match opt_view(f.mir_artifact_uri) {
                None => r matches Err(GatewayError::DocumentResultUnavailable(id)) && id == doc_id,
                Some(uri) => match spec_parse_s3_uri(uri) {
                    None => r matches Err(GatewayError::DocumentResultUnavailable(id)) && id
                        == doc_id,
                    Some((b, k)) => r matches Ok((b2, k2)) && b2@ == b && k2@ == k,
                },
            },
        },
{
    let file = match file {
        Some(f) => f,
        None => return Err(GatewayError::DocumentNotFound(doc_id)),
    };
    let uri = match &file.mir_artifact_uri {
        Some(u) => u,
        None => return Err(GatewayError::DocumentResultUnavailable(doc_id)),
    };
    match parse_s3_uri(uri.as_str()) {
        Some((bucket, key)) => Ok((bucket.to_owned(), key.to_owned())),
        None => Err(GatewayError::DocumentResultUnavailable(doc_id)),
    }
}

/// The headers of a document download: the media type by the key's
/// extension, the file name the key's last segment.
pub fn document_headers(key: &str) -> (r: DownloadHeaders)
    ensures
        r.content_type@ == served_media_type(spec_infer_content_type(key@)),
        opt_view(r.disposition) == disposition_of(last_segment(key@)),
{
    let media_type = infer_content_type(key);
    let filename = artifact_file_name(key);
    download_headers(media_type, filename)
}

/// The attachment to download from a context, from the store's answer: it
/// must exist and belong to that context; either failure reads as not found.
pub fn context_file_for_download(context_id: i32, context_file_id: i64, record: Option<ContextFileRecord>) -> (r:
    Result<ContextFileRecord, GatewayError>)
    ensures
        match record {
            Some(c) => if c.context_id == context_id {
                r matches Ok(c2) && c2 == c
            } else {
                r matches Err(GatewayError::FileNotFound(id)) && id == context_file_id
            },
            None => r matches Err(GatewayError::FileNotFound(id)) && id == context_file_id,
        },
{
    match record {
        Some(c) => {
            if c.context_id == context_id {
                Ok(c)
            } else {
                Err(GatewayError::FileNotFound(context_file_id))
            }
        },
        None => Err(GatewayError::FileNotFound(context_file_id)),
    }
}

/// The stored file behind an attachment; a missing one is reported under the
/// attachment's id.
pub fn stored_file_for_download(context_file_id: i64, file: Option<FileRecord>) -> (r: Result<
    FileRecord,
    GatewayError,
>)
    ensures
        match file {
            Some(f) => r matches Ok(f2) && f2 == f,
            None => r matches Err(GatewayError::FileNotFound(id)) && id == context_file_id,
        },
{
    match file {
        Some(f) => Ok(f),
        None => Err(GatewayError::FileNotFound(context_file_id)),
    }
}

/// The media type an attachment is served with: the one recorded when it was
/// attached, else the stored file's.
pub fn attachment_media_type<'a>(record: &'a ContextFileRecord, file: &'a FileRecord) -> (r: Option<&'a str>)
    ensures
        match record.media_type {
            Some(t) => r matches Some(s) && s@ == t@,
            None => match file.mime {
                Some(m) => r matches Some(s) && s@ == m@,
                None => r is None,
            },
        },
{
    match &record.media_type {
        Some(t) => Some(t.as_str()),
        None => match &file.mime {
            Some(m) => Some(m.as_str()),
            None => None,
        },
    }
}

/// The headers of an artifact download: the artifact's recorded media type,
/// and its key's last segment as the file name.
pub fn artifact_headers(artifact: &ArtifactRef) -> (r: DownloadHeaders)
    ensures
        r.content_type@ == served_media_type(opt_view(artifact.content_type)),
        opt_view(r.disposition) == disposition_of(last_segment(artifact.key@)),
{
    let media_type = match &artifact.content_type {
        Some(t) => Some(t.as_str()),
        None => None,
    };
    let filename = artifact_file_name(artifact.key.as_str());
    download_headers(media_type, filename)
}

} // verus!
