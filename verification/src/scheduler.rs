//! The decision logic of the polling scheduler: market-hours gating,
//! time-bucket deduplication, and the clock offset used to run the loop
//! against delayed data outside trading hours. The loop body itself —
//! sleeping, fetching, notifying — lives outside the library and asks
//! these functions what to do each tick.

use vstd::prelude::*;

verus! {

/// What a tick does: wait for the market, wait for a fresh time bucket,
/// fetch for every instrument, or sit idle until the next tick fires.
#[derive(Clone, Copy, PartialEq, Eq, Structural, Debug)]
pub enum SchedulerPhase {
    WaitingForMarketOpen,
    WaitingForFreshBucket,
    Fetching,
    Idle,
}

/// The bucket value meaning "never processed": a traditional clock never
/// reads 61 minutes, so the first open-market tick always fetches.
pub const NEVER_FETCHED_BUCKET: u32 = 61;

/// Whether the market is closed at this local time: before 6:30 or after
/// the hour starting at 13.
pub open spec fn market_closed_spec(now_hour: int, now_min: int) -> bool {
    now_hour * 60 + now_min < 390 || now_hour > 13
}

/// The time bucket of a minute value: the minute rounded down to a
/// multiple of the polling timeframe.
pub open spec fn bucket_spec(now_min: int, timeframe: int) -> int {
    now_min - now_min % timeframe
}

/// The phase one tick decides on: wait while the market is closed, wait
/// while the current bucket was already processed, otherwise fetch.
pub open spec fn plan_spec(
    last_bucket: int,
    now_hour: int,
    now_min: int,
    timeframe: int,
) -> SchedulerPhase {
    if market_closed_spec(now_hour, now_min) {
        SchedulerPhase::WaitingForMarketOpen
    } else if bucket_spec(now_min, timeframe) == last_bucket {
        SchedulerPhase::WaitingForFreshBucket
    } else {
        SchedulerPhase::Fetching
    }
}

/// Whether the market is closed at this local time.
pub fn is_market_closed(now_hour: u32, now_min: u32) -> (r: bool)
    requires
        now_hour < 24,
        now_min < 60,
    ensures
        r == market_closed_spec(now_hour as int, now_min as int),
{
    now_hour * 60 + now_min < 390 || now_hour > 13
}

/// The scheduler's state between ticks: the last time bucket whose fetch
/// fan-out ran.
pub struct SchedulerState {
    pub last_processed_bucket: u32,
}

impl SchedulerState {
    /// A scheduler that has processed no bucket yet.
    pub fn new() -> (r: SchedulerState)
        ensures
            r.last_processed_bucket == NEVER_FETCHED_BUCKET,
    {
        SchedulerState { last_processed_bucket: NEVER_FETCHED_BUCKET }
    }

    /// Decides what this tick does, without changing any state.
    pub fn plan_tick(&self, now_hour: u32, now_min: u32, timeframe: u32) -> (p: SchedulerPhase)
        requires
            1 <= timeframe,
            now_hour < 24,
            now_min < 60,
        ensures
            p == plan_spec(
                self.last_processed_bucket as int,
                now_hour as int,
                now_min as int,
                timeframe as int,
            ),
    {
        if is_market_closed(now_hour, now_min) {
            SchedulerPhase::WaitingForMarketOpen
        } else {
            proof {
                assert(now_min % timeframe <= now_min) by (nonlinear_arith)
                    requires
                        timeframe >= 1,
                ;
            }
            let bucket = now_min - now_min % timeframe;
            if bucket == self.last_processed_bucket {
                SchedulerPhase::WaitingForFreshBucket
            } else {
                SchedulerPhase::Fetching
            }
        }
    }

    /// Records that the fetch fan-out for the current bucket ran.
    pub fn mark_bucket_processed(&mut self, now_min: u32, timeframe: u32)
        requires
            1 <= timeframe,
            now_min < 60,
        ensures
            final(self).last_processed_bucket as int == bucket_spec(
                now_min as int,
                timeframe as int,
            ),
    {
        proof {
            assert(now_min % timeframe <= now_min) by (nonlinear_arith)
                requires
                    timeframe >= 1,
            ;
        }
        self.last_processed_bucket = now_min - now_min % timeframe;
    }
}

/// Once a tick's bucket is marked processed, a second tick at the same
/// clock reading plans no fetch while the market stays open: identical
/// consecutive buckets fetch exactly once.
pub proof fn lemma_second_tick_same_bucket_skips_fetch(
    now_hour: int,
    now_min: int,
    timeframe: int,
)
    requires
        !market_closed_spec(now_hour, now_min),
        1 <= timeframe,
    ensures
        plan_spec(
            bucket_spec(now_min, timeframe),
            now_hour,
            now_min,
            timeframe,
        ) == SchedulerPhase::WaitingForFreshBucket,
{
}

/// The hard-coded rewind applied to "now" so that off-hours test runs
/// still land on data the provider already serves: at least 48 hours
/// back, another 48 over the weekend gap when run on a Monday or Tuesday
/// (`day_of_week` counts from Monday as 0), six more hours when run
/// between 13 and 18 local, twelve more after 19.
pub open spec fn offset_spec(now_millis: int, day_of_week: int, now_hour: int) -> int {
    let base = now_millis - 172_800_000;
    let with_weekend = if day_of_week <= 1 {
        base - 172_800_000
    } else {
        base
    };
    let rewind: int = if 13 <= now_hour && now_hour < 19 {
        21_600_000
    } else if now_hour > 19 {
        43_200_000
    } else {
        0
    };
    with_weekend - rewind
}

/// Applies the rewind of [`offset_spec`] to a concrete clock reading.
pub fn compute_offset(now_millis: i64, day_of_week: u32, now_hour: u32) -> (r: i64)
    requires
        0 <= now_millis,
        day_of_week < 7,
        now_hour < 24,
    ensures
        r == offset_spec(now_millis as int, day_of_week as int, now_hour as int),
{
    let mut offsetted_time = now_millis - 172_800_000;
    let is_testing_weekend = day_of_week <= 1;
    if is_testing_weekend {
        offsetted_time = offsetted_time - 172_800_000;
    }
    let rewind: i64 = if 13 <= now_hour && now_hour < 19 {
        21_600_000
    } else if 19 < now_hour {
        43_200_000
    } else {
        0
    };
    offsetted_time - rewind
}

/// Relies on chrono's `Local::now` for the current local date and time;
/// the rest of the body converts it to plain values. The ranges are the
/// ones chrono documents: `Timelike::hour` is 0 to 23, `Timelike::minute`
/// is 0 to 59, and `Weekday::num_days_from_monday` is 0 (Monday) to 6.
#[verifier::external_body]
fn now_local_fields() -> (r: (i64, u32, u32, u32))
    ensures
        r.1 < 7,
        r.2 < 24,
        r.3 < 60,
{
    let now = chrono::Local::now();
    let millis = now.timestamp_millis();
    let day_of_week = chrono::Datelike::weekday(&now).num_days_from_monday();
    let hour = chrono::Timelike::hour(&now);
    let minute = chrono::Timelike::minute(&now);
    (millis, day_of_week, hour, minute)
}

/// Reads the local clock and pushes it back as [`offset_spec`] says, so
/// that test runs outside trading hours still fall on served data. A
/// clock reading before the epoch is clamped to the epoch first.
pub fn manage_offset() -> (r: i64)
    ensures
        exists|now_millis: int, day_of_week: int, now_hour: int|
            0 <= now_millis && 0 <= day_of_week < 7 && 0 <= now_hour < 24 && r == offset_spec(
                now_millis,
                day_of_week,
                now_hour,
            ),
{
    let fields = now_local_fields();
    let now_millis = if fields.0 < 0 {
        0
    } else {
        fields.0
    };
    let r = compute_offset(now_millis, fields.1, fields.2);
    proof {
        assert(r == offset_spec(now_millis as int, fields.1 as int, fields.2 as int));
    }
    r
}

/// Chooses between the real clock reading and the rewound one: the
/// second component records whether a shift applied.
pub fn select_effective_timestamp(real_millis: i64, offset_millis: i64, use_real: bool) -> (r: (
    i64,
    bool,
))
    ensures
        r.0 == if use_real {
            real_millis
        } else {
            offset_millis
        },
        r.1 == !use_real,
{
    if use_real {
        (real_millis, false)
    } else {
        (offset_millis, true)
    }
}

/// A clock for test runs that can hand back a shifted "now": with
/// `use_real_timestamp` unset every reading is pushed back as
/// [`offset_spec`] says, and the flag beside the reading records whether
/// the shift applied.
pub struct OffsetClock {
    pub use_real_timestamp: bool,
}

impl OffsetClock {
    /// A clock that shifts, or one that does not.
    pub fn new(use_real_timestamp: bool) -> (r: OffsetClock)
        ensures
            r.use_real_timestamp == use_real_timestamp,
    {
        OffsetClock { use_real_timestamp }
    }

    /// One reading: the effective timestamp for this tick and whether it
    /// was shifted.
    pub fn effective_now(&self) -> (r: (i64, bool))
        ensures
            r.1 == !self.use_real_timestamp,
            !self.use_real_timestamp ==> exists|
                now_millis: int,
                day_of_week: int,
                now_hour: int,
            |
                0 <= now_millis && 0 <= day_of_week < 7 && 0 <= now_hour < 24 && r.0
                    == offset_spec(now_millis, day_of_week, now_hour),
    {
        if self.use_real_timestamp {
            let fields = now_local_fields();
            select_effective_timestamp(fields.0, 0, true)
        } else {
            let shifted = manage_offset();
            select_effective_timestamp(0, shifted, false)
        }
    }
}

} // verus!
