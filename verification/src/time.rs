//! Points in time.
use vstd::prelude::*;

verus! {

/// A point in time, as microseconds since the Unix epoch in UTC.
pub type Timestamp = i64;

} // verus!
