//! Moments in time, as milliseconds since the Unix epoch.
//!
//! Which counts of milliseconds stand for a moment is for `chrono` to say:
//! a count is accepted where `chrono` can make a date and time of it, which
//! it can from the first moment of its first year to the last of its last.

use vstd::prelude::*;

verus! {

/// The count of milliseconds of the first moment that `chrono` knows, its
/// `DateTime::<Utc>::MIN_UTC`.
pub const FIRST_MILLIS: i64 = -8_334_601_228_800_000;

/// The count of milliseconds of the last millisecond that `chrono` knows, in
/// the last second of its `DateTime::<Utc>::MAX_UTC`.
pub const LAST_MILLIS: i64 = 8_210_266_876_799_999;

/// Whether a count of milliseconds stands for a moment.
pub open spec fn representable_millis(millis: i64) -> bool {
    FIRST_MILLIS <= millis <= LAST_MILLIS
}

/// Asks `chrono::DateTime::from_timestamp_millis` whether it makes a date and
/// time of a count of milliseconds. Taken on trust: it does so exactly for
/// the counts from [`FIRST_MILLIS`] to [`LAST_MILLIS`], the days of the years
/// that `chrono` admits.
#[verifier::external_body]
fn in_chrono_range(millis: i64) -> (ok: bool)
    ensures
        ok == representable_millis(millis),
{
    chrono::DateTime::from_timestamp_millis(millis).is_some()
}

/// Whether a count of milliseconds stands for a moment.
pub fn is_valid_millis(millis: i64) -> (ok: bool)
    ensures
        ok == representable_millis(millis),
{
    in_chrono_range(millis)
}

} // verus!
