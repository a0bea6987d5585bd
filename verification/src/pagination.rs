//! Page sizes for list endpoints.
use vstd::prelude::*;
use crate::error::{invalid_field, is_invalid_field, GatewayError};

verus! {

/// The page size a request asks for: `default` when absent, the value itself
/// when it lies in `1..=max`, and `None` (an error) otherwise.
pub open spec fn limit_choice(raw: Option<i64>, default: i64, max: i64) -> Option<i64> {
    match raw {
        None => Some(default),
        Some(v) => if 1 <= v && v <= max { Some(v) } else { None },
    }
}

/// The page size of a list request: 50 by default, at most 100.
pub fn resolve_limit(raw: Option<i64>) -> (r: Result<i64, GatewayError>)
    ensures
        match limit_choice(raw, 50, 100) {
            Some(v) => r == Ok::<i64, GatewayError>(v),
            None => r matches Err(e) && is_invalid_field(e, "limit"@, "must be between 1 and 100"@),
        },
{
    match raw {
        None => Ok(50),
        Some(value) => {
            if 1 <= value && value <= 100 {
                Ok(value)
            } else {
                Err(invalid_field("limit", "must be between 1 and 100"))
            }
        },
    }
}

/// A page size that was accepted lies in `1..=max` and is accepted again as
/// it is.
pub proof fn law_limit_choice(raw: Option<i64>, default: i64, max: i64)
    requires
        1 <= default <= max,
    ensures
        limit_choice(raw, default, max) matches Some(v) ==> (1 <= v <= max && limit_choice(
            Some(v),
            default,
            max,
        ) == Some(v)),
{
}

/// Whether a page of `len` records, fetched with page size `limit`, may have a
/// successor: it is full. The next page then starts after its last record.
pub fn page_is_full(len: usize, limit: i64) -> (r: bool)
    ensures
        r == (len as int == limit as int),
{
    if limit < 0 {
        false
    } else {
        len as u64 == limit as u64
    }
}

} // verus!
