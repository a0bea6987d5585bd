//! The artifacts a finished MIR job produced, and which of them a download or
//! a follow-up job uses.
use vstd::prelude::*;
use crate::error::GatewayError;
use crate::ids::{uuid_text, uuid_to_string, Uuid};
use crate::text::{eq_ignore_ascii_case, eq_ignore_case};

verus! {

/// What an artifact holds, as the artifact catalogue classifies it.
#[derive(Debug, Clone, Copy, PartialEq, Eq, Structural)]
pub enum ArtifactKind {
    /// The parsed document.
    Document,
    /// An archive of all outputs.
    Archive,
    /// Anything else.
    Other,
}

/// An artifact stored in object storage.
#[derive(Debug, Clone)]
pub struct ArtifactRef {
    pub bucket: String,
    pub key: String,
    pub content_type: Option<String>,
    pub kind: ArtifactKind,
}

/// What a MIR job reported.
#[derive(Debug)]
pub enum MirOutcome {
    /// The job succeeded with these artifacts.
    Success(Vec<ArtifactRef>),
    /// The job did not succeed.
    Failed,
}

/// Some artifact of `s` has kind `k`.
pub open spec fn has_kind(s: Seq<ArtifactRef>, k: ArtifactKind) -> bool {
    exists|i: int| 0 <= i < s.len() && (#[trigger] s[i]).kind == k
}

/// `i` is the first position of an artifact of kind `k` in `s`.
pub open spec fn is_first_of_kind(s: Seq<ArtifactRef>, k: ArtifactKind, i: int) -> bool {
    &&& 0 <= i < s.len()
    &&& s[i].kind == k
    &&& forall|j: int| 0 <= j < i ==> (#[trigger] s[j]).kind != k
}

/// The preference `archive`, in any letter case, asks for the archive first.
pub open spec fn prefers_archive(preference: Option<Seq<char>>) -> bool {
    preference matches Some(p) && eq_ignore_case(p, "archive"@)
}

/// `r` is the artifact chosen from `s`: nothing from an empty list; else the
/// first artifact of the preferred kind, then the first of the other of the
/// two kinds, then the first artifact.
pub open spec fn is_artifact_choice(s: Seq<ArtifactRef>, prefer_archive: bool, r: Option<int>) -> bool {
    let (first, second) = if prefer_archive {
        (ArtifactKind::Archive, ArtifactKind::Document)
    } else {
        (ArtifactKind::Document, ArtifactKind::Archive)
    };
    if s.len() == 0 {
        r is None
    } else if has_kind(s, first) {
        r matches Some(i) && is_first_of_kind(s, first, i)
    } else if has_kind(s, second) {
        r matches Some(i) && is_first_of_kind(s, second, i)
    } else {
        r == Some(0int)
    }
}

/// The first artifact of kind `kind`, by position.
pub fn find_kind(artifacts: &[ArtifactRef], kind: ArtifactKind) -> (r: Option<usize>)
    ensures
        r matches Some(i) ==> is_first_of_kind(artifacts@, kind, i as int),
        r is None ==> !has_kind(artifacts@, kind),
{
    let mut i: usize = 0;
    while i < artifacts.len()
        invariant
            i <= artifacts@.len(),
            forall|j: int| 0 <= j < i ==> (#[trigger] artifacts@[j]).kind != kind,
        decreases artifacts@.len() - i,
    {
        if artifacts[i].kind == kind {
            return Some(i);
        }
        i = i + 1;
    }
    None
}

/// The artifact to serve, by position: with the preference `archive` (in any
/// letter case) the first archive, else the first document, else the first
/// artifact; otherwise the first document, else the first archive, else the
/// first artifact. Nothing from an empty list.
pub fn select_artifact(artifacts: &[ArtifactRef], preference: Option<&str>) -> (r: Option<usize>)
    ensures
        is_artifact_choice(
            artifacts@,
            prefers_archive(
                match preference {
                    Some(p) => Some(p@),
                    None => None,
                },
            ),
            match r {
                Some(i) => Some(i as int),
                None => None,
            },
        ),
{
    if artifacts.len() == 0 {
        return None;
    }
    let prefer_archive = match preference {
        Some(value) => eq_ignore_ascii_case(value, "archive"),
        None => false,
    };
    let (first, second) = if prefer_archive {
        (ArtifactKind::Archive, ArtifactKind::Document)
    } else {
        (ArtifactKind::Document, ArtifactKind::Archive)
    };
    match find_kind(artifacts, first) {
        Some(i) => Some(i),
        None => match find_kind(artifacts, second) {
            Some(i) => Some(i),
            None => Some(0),
        },
    }
}

/// The last `/`-separated segment of `s` (all of `s` when it has no `/`).
pub open spec fn last_segment(s: Seq<char>) -> Seq<char> {
    if exists|i: int| 0 <= i < s.len() && s[i] == '/' {
        let k = choose|i: int|
            0 <= i < s.len() && s[i] == '/' && forall|j: int| i < j < s.len() ==> s[j] != '/';
        s.subrange(k + 1, s.len() as int)
    } else {
        s
    }
}

/// The file name under which an artifact with this key is downloaded: the
/// key's last `/`-separated segment.
pub fn artifact_file_name(key: &str) -> (r: &str)
    ensures
        r@ == last_segment(key@),
        forall|j: int| 0 <= j < r@.len() ==> r@[j] != '/',
{
    let n = key.unicode_len();
    let mut i: usize = n;
    while i > 0
        invariant
            i <= n,
            n == key@.len(),
            forall|j: int| i <= j < n ==> key@[j] != '/',
        decreases i,
    {
        if key.get_char(i - 1) == '/' {
            let k = i - 1;
            proof {
                let c = choose|p: int|
                    0 <= p < key@.len() && key@[p] == '/' && forall|j: int|
                        p < j < key@.len() ==> key@[j] != '/';
                assert(0 <= k < key@.len() && key@[k as int] == '/' && forall|j: int|
                    k < j < key@.len() ==> key@[j] != '/');
                if c < k {
                    assert(key@[k as int] != '/');
                }
                if c > k {
                    assert(key@[c] != '/');
                }
            }
            return key.substring_char(i, n);
        }
        i = i - 1;
    }
    key
}

/// The artifact a result download of job `job_id` serves, by position,
/// from what the job's stored result holds (`None` when it holds no MIR
/// result) and the preference the request gives.
pub fn download_artifact(job_id: Uuid, outcome: Option<&MirOutcome>, preference: Option<&str>) -> (r: Result<
    usize,
    GatewayError,
>)
    ensures
        outcome is None ==> (r matches Err(GatewayError::ResultUnavailable(m)) && m@ == uuid_text(
            job_id,
        )),
        outcome matches Some(MirOutcome::Failed) ==> (r matches Err(
            GatewayError::ArtifactMissing { job_id: m },
        ) && m@ == uuid_text(job_id)),
        outcome matches Some(MirOutcome::Success(list)) ==> (if list@.len() == 0 {
            r matches Err(GatewayError::ArtifactMissing { job_id: m }) && m@ == uuid_text(job_id)
        } else {
            r matches Ok(i) && is_artifact_choice(
                list@,
                prefers_archive(
                    match preference {
                        Some(p) => Some(p@),
                        None => None,
                    },
                ),
                Some(i as int),
            )
        }),
{
    let artifacts = match outcome {
        Some(MirOutcome::Success(list)) => list,
        Some(MirOutcome::Failed) => {
            return Err(GatewayError::ArtifactMissing { job_id: uuid_to_string(job_id) });
        },
        None => return Err(GatewayError::ResultUnavailable(uuid_to_string(job_id))),
    };
    match select_artifact(artifacts.as_slice(), preference) {
        Some(i) => Ok(i),
        None => Err(GatewayError::ArtifactMissing { job_id: uuid_to_string(job_id) }),
    }
}

} // verus!
