//! The trace records of command runs and the integer conversions of their
//! SQLite storage.

use vstd::prelude::*;

verus! {

/// One command run as the trace store keeps it.
#[derive(Debug, Clone)]
pub struct TraceRecord {
    pub created_at: String,
    pub session: String,
    pub trace_id: String,
    pub command: String,
    pub status: String,
    pub output_json: String,
    pub duration_ms: u128,
}

impl TraceRecord {
    /// The duration as stored in the `INTEGER` column: the low 64 bits, read
    /// as a signed number (the `as i64` conversion).
    pub fn duration_ms_sql(&self) -> (r: i64)
        ensures
            r == self.duration_ms as i64,
    {
        #[verifier::truncate]
        (self.duration_ms as i64)
    }
}

/// A reference version as stored in the `INTEGER` column (the `as i64`
/// conversion).
pub fn version_to_sql(version: u64) -> (r: i64)
    ensures
        r == version as i64,
{
    #[verifier::truncate]
    (version as i64)
}

/// A reference version read back from the store: negative values count as 0.
pub fn version_from_sql(value: i64) -> (r: u64)
    ensures
        r == (if value < 0 {
            0
        } else {
            value
        }),
{
    if value < 0 {
        0
    } else {
        value as u64
    }
}

/// A version that fits in `i64` comes back from the store unchanged.
pub proof fn lemma_version_round_trip(version: u64)
    requires
        version <= i64::MAX,
    ensures
        (if (version as i64) < 0 {
            0
        } else {
            version as i64
        }) == version,
{
}

} // verus!
