use stock_monitor::scheduler::{
    compute_offset, is_market_closed, manage_offset, select_effective_timestamp, OffsetClock,
    SchedulerPhase, SchedulerState, NEVER_FETCHED_BUCKET,
};

#[test]
fn market_hours_boundaries() {
    // Closed strictly before 6:30 local.
    assert!(is_market_closed(6, 29));
    assert!(is_market_closed(0, 0));
    assert!(!is_market_closed(6, 30));
    assert!(!is_market_closed(10, 0));
    // The hour starting at 13 is still open; 14 is not.
    assert!(!is_market_closed(13, 59));
    assert!(is_market_closed(14, 0));
    assert!(is_market_closed(23, 59));
}

#[test]
fn fresh_scheduler_fetches_on_the_first_open_tick() {
    let s = SchedulerState::new();
    assert_eq!(s.last_processed_bucket, NEVER_FETCHED_BUCKET);
    assert!(matches!(s.plan_tick(10, 23, 5), SchedulerPhase::Fetching));
}

#[test]
fn closed_market_wins_over_everything() {
    let s = SchedulerState::new();
    assert!(matches!(s.plan_tick(5, 0, 5), SchedulerPhase::WaitingForMarketOpen));
    assert!(matches!(s.plan_tick(14, 30, 5), SchedulerPhase::WaitingForMarketOpen));
}

#[test]
fn scenario_second_tick_in_the_same_bucket_fetches_nothing() {
    let mut s = SchedulerState::new();
    assert!(matches!(s.plan_tick(10, 23, 5), SchedulerPhase::Fetching));
    s.mark_bucket_processed(23, 5);
    assert_eq!(s.last_processed_bucket, 20);
    // Same bucket (minutes 20..24 with a five-minute timeframe): no fetch.
    assert!(matches!(s.plan_tick(10, 23, 5), SchedulerPhase::WaitingForFreshBucket));
    assert!(matches!(s.plan_tick(10, 24, 5), SchedulerPhase::WaitingForFreshBucket));
    // The next bucket fetches again.
    assert!(matches!(s.plan_tick(10, 25, 5), SchedulerPhase::Fetching));
}

#[test]
fn bucket_is_the_minute_rounded_down_to_the_timeframe() {
    let mut s = SchedulerState::new();
    s.mark_bucket_processed(59, 15);
    assert_eq!(s.last_processed_bucket, 45);
    s.mark_bucket_processed(0, 5);
    assert_eq!(s.last_processed_bucket, 0);
    s.mark_bucket_processed(7, 1);
    assert_eq!(s.last_processed_bucket, 7);
}

#[test]
fn offset_rewinds_at_least_48_hours() {
    let now: i64 = 1_700_000_000_000;
    // A Wednesday mid-morning: only the base 48 hours.
    assert_eq!(compute_offset(now, 2, 10), now - 172_800_000);
    // Monday and Tuesday rewind a further 48 hours over the weekend gap.
    assert_eq!(compute_offset(now, 0, 10), now - 2 * 172_800_000);
    assert_eq!(compute_offset(now, 1, 10), now - 2 * 172_800_000);
    assert_eq!(compute_offset(now, 6, 10), now - 172_800_000);
}

#[test]
fn offset_rewinds_extra_hours_after_trading() {
    let now: i64 = 1_700_000_000_000;
    // 13..18 local: six more hours.
    assert_eq!(compute_offset(now, 3, 13), now - 172_800_000 - 21_600_000);
    assert_eq!(compute_offset(now, 3, 18), now - 172_800_000 - 21_600_000);
    // After 19: twelve more hours; 19 itself takes no extra rewind.
    assert_eq!(compute_offset(now, 3, 20), now - 172_800_000 - 43_200_000);
    assert_eq!(compute_offset(now, 3, 19), now - 172_800_000);
    assert_eq!(compute_offset(now, 3, 12), now - 172_800_000);
}

#[test]
fn manage_offset_lands_between_two_and_five_days_back() {
    let before = chrono::Local::now().timestamp_millis();
    let shifted = manage_offset();
    let after = chrono::Local::now().timestamp_millis();
    // At least the base 48 hours are always subtracted...
    assert!(shifted <= after - 172_800_000);
    // ...and never more than 48 + 48 + 12 hours.
    assert!(shifted >= before - 2 * 172_800_000 - 43_200_000);
}

#[test]
fn effective_timestamp_selection_is_exact() {
    assert_eq!(select_effective_timestamp(111, 222, true), (111, false));
    assert_eq!(select_effective_timestamp(111, 222, false), (222, true));
}

#[test]
fn offset_clock_reports_whether_it_shifted() {
    let real = OffsetClock::new(true);
    let (_, shifted) = real.effective_now();
    assert!(!shifted);

    let testing = OffsetClock::new(false);
    let before = chrono::Local::now().timestamp_millis();
    let (t, shifted) = testing.effective_now();
    assert!(shifted);
    assert!(t <= before - 172_800_000 + 60_000, "the testing clock reads into the past");
}
