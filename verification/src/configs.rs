//! Configured thresholds for the time-of-day alert gating and the
//! default retention capacity of a per-instrument window.

use vstd::prelude::*;

verus! {

/// Latest hour of the morning gating interval: the volume-spike alert may
/// fire while `hour <= MIN_HOUR && minute <= MIN_MINUTE` (both bounds
/// inclusive).
pub const MIN_HOUR: u32 = 7;

/// Latest minute of the morning gating interval.
pub const MIN_MINUTE: u32 = 15;

/// Earliest hour of the closing gating interval: the volume-spike alert may
/// fire while `hour >= MAX_HOUR && minute >= MAX_MIN` (both bounds
/// inclusive).
pub const MAX_HOUR: u32 = 12;

/// Earliest minute of the closing gating interval.
pub const MAX_MIN: u32 = 45;

/// Default number of bars a per-instrument window retains.
pub const QUEUE_CAPACITY: u32 = 50;

/// Exclusive upper bound on the fixed-point prices a window stores
/// (`2^40` sub-units), so that every moving-average numerator fits `i64`.
pub const PRICE_LIMIT: i64 = 0x100_0000_0000;

/// Exclusive upper bound on a bar volume admitted to the statistics
/// (`2^32`), so that the squared terms of the spike test fit 128 bits.
pub const VOLUME_LIMIT: u64 = 0x1_0000_0000;

/// Upper bound on a window length admitted to the statistics (`2^20`),
/// so that the summed terms of the spike test fit 128 bits.
pub const WINDOW_LEN_LIMIT: usize = 0x10_0000;

} // verus!
