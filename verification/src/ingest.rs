//! Structured ingest jobs: the schema field types they accept, and the
//! idempotency key that makes a resubmission return the same job.
use vstd::prelude::*;
use crate::error::{invalid_field, is_invalid_field, GatewayError};

verus! {

/// JSON values, which job records carry as they are stored.
#[verifier::external_type_specification]
#[verifier::external_body]
pub struct ExJsonValue(serde_json::Value);

/// The kind of a JSON value: what the schema check reads of a field's type.
#[derive(Debug, Clone, Copy, PartialEq, Eq, Structural)]
pub enum JsonKind {
    Null,
    Bool,
    Number,
    String,
    Array,
    Object,
}

/// A schema field's type is acceptable: absent, a string, or an object.
pub open spec fn type_spec_ok(kind: Option<JsonKind>) -> bool {
    match kind {
        None => true,
        Some(k) => k == JsonKind::String || k == JsonKind::Object,
    }
}

/// Checks the type of an ingest schema field, by the kind of its JSON value
/// (`None` when the field gives no type): absent, a string, or an object.
pub fn validate_ingest_type_spec(type_spec: Option<JsonKind>) -> (r: Result<(), GatewayError>)
    ensures
        type_spec_ok(type_spec) ==> r == Ok::<(), GatewayError>(()),
        !type_spec_ok(type_spec) ==> (r matches Err(e) && is_invalid_field(
            e,
            "schema.type"@,
            "schema field type must be a string or object"@,
        )),
{
    match type_spec {
        None | Some(JsonKind::String) | Some(JsonKind::Object) => Ok(()),
        _ => Err(invalid_field("schema.type", "schema field type must be a string or object")),
    }
}

/// A character that `str::trim` removes: the Unicode `White_Space` set.
pub open spec fn is_white_space(c: char) -> bool {
    ('\u{9}' <= c && c <= '\u{d}') || c == ' ' || c == '\u{85}' || c == '\u{a0}' || c == '\u{1680}'
        || ('\u{2000}' <= c && c <= '\u{200a}') || c == '\u{2028}' || c == '\u{2029}' || c
        == '\u{202f}' || c == '\u{205f}' || c == '\u{3000}'
}

fn white_space(c: char) -> (r: bool)
    ensures
        r == is_white_space(c),
{
    ('\u{9}' <= c && c <= '\u{d}') || c == ' ' || c == '\u{85}' || c == '\u{a0}' || c == '\u{1680}'
        || ('\u{2000}' <= c && c <= '\u{200a}') || c == '\u{2028}' || c == '\u{2029}' || c
        == '\u{202f}' || c == '\u{205f}' || c == '\u{3000}'
}

/// `s` without leading and trailing white space: the part from `lo` to `hi`
/// where `lo` and `hi` stop at the first and last other characters.
pub open spec fn is_trim_of(s: Seq<char>, t: Seq<char>) -> bool {
    exists|lo: int, hi: int|
        0 <= lo <= hi <= s.len() && t == s.subrange(lo, hi) && (forall|j: int|
            0 <= j < lo ==> is_white_space(#[trigger] s[j])) && (forall|j: int|
            hi <= j < s.len() ==> is_white_space(#[trigger] s[j])) && (lo < hi ==> (
        !is_white_space(s[lo]) && !is_white_space(s[hi - 1])))
}

/// A trim of `s` is empty exactly when `s` is all white space.
pub proof fn lemma_blank_trim(s: Seq<char>, t: Seq<char>)
    requires
        is_trim_of(s, t),
    ensures
        t.len() == 0 <==> forall|j: int| 0 <= j < s.len() ==> is_white_space(#[trigger] s[j]),
{
    let (lo, hi) = choose|lo: int, hi: int|
        0 <= lo <= hi <= s.len() && t == s.subrange(lo, hi) && (forall|j: int|
            0 <= j < lo ==> is_white_space(#[trigger] s[j])) && (forall|j: int|
            hi <= j < s.len() ==> is_white_space(#[trigger] s[j])) && (lo < hi ==> (
        !is_white_space(s[lo]) && !is_white_space(s[hi - 1])));
    if t.len() == 0 {
        assert forall|j: int| 0 <= j < s.len() implies is_white_space(#[trigger] s[j]) by {
            if j < lo {
            } else {
                assert(hi <= j);
            }
        }
    } else {
        assert(!is_white_space(s[lo]));
    }
}

/// `s.trim()`.
pub fn trim(s: &str) -> (r: &str)
    ensures
        is_trim_of(s@, r@),
{
    let n = s.unicode_len();
    let mut lo: usize = 0;
    while lo < n && white_space(s.get_char(lo))
        invariant
            n == s@.len(),
            lo <= n,
            forall|j: int| 0 <= j < lo ==> is_white_space(#[trigger] s@[j]),
        decreases n - lo,
    {
        lo = lo + 1;
    }
    let mut hi: usize = n;
    while hi > lo && white_space(s.get_char(hi - 1))
        invariant
            n == s@.len(),
            lo <= hi <= n,
            forall|j: int| hi <= j < n ==> is_white_space(#[trigger] s@[j]),
        decreases hi,
    {
        hi = hi - 1;
    }
    let r = s.substring_char(lo, hi);
    assert(is_trim_of(s@, r@)) by {
        assert(0 <= lo <= hi <= s@.len() && r@ == s@.subrange(lo as int, hi as int));
    }
    r
}

/// The idempotency key of a job submission: the header text without
/// surrounding white space, when something is left.
pub fn idempotency_key(header_text: Option<&str>) -> (r: Option<&str>)
    ensures
        match header_text {
            None => r is None,
            Some(h) => match r {
                Some(k) => is_trim_of(h@, k@) && k@.len() > 0,
                None => exists|t: Seq<char>| is_trim_of(h@, t) && t.len() == 0,
            },
        },
{
    match header_text {
        None => None,
        Some(h) => {
            let k = trim(h);
            if k.is_empty() {
                None
            } else {
                Some(k)
            }
        },
    }
}

} // verus!
