use vstd::prelude::*;

verus! {

/// Seconds in one day.
pub const SECONDS_IN_DAY: u64 = 86400;

/// Seconds in one week: the look-ahead window for upcoming claims.
pub const SECONDS_IN_WEEK: u64 = 604800;

/// Seconds in one payment period, a fixed thirty days.
pub const SECONDS_IN_MONTH: u64 = 2592000;

/// Ten to the eighteenth: the scale of an 18-decimal fixed-point value.
pub const WAD_SCALE: i128 = 1_000_000_000_000_000_000;

} // verus!
