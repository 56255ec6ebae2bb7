use stock_monitor::fetch_data::{null_stock_data_response, PriceDatum};
use stock_monitor::stock::{RawDataTableRow, StockData, StockDatum, Trend, VolumeAttr};

fn bar(close: i64, volume: u64) -> PriceDatum {
    PriceDatum {
        open: close,
        high: close + 1,
        low: close - 1,
        close,
        volume,
        timestamp: 1_700_000_000_000,
    }
}

fn present_volume_sum(w: &StockData) -> u64 {
    w.stock_data.iter().map(|d| d.volume).sum()
}

#[test]
fn new_window_starts_empty() {
    let w = StockData::new(String::from("QQQ"), 50);
    assert_eq!(w.name, "QQQ");
    assert_eq!(w.stock_data.len(), 0);
    assert_eq!(w.sum_volume, 0);
    assert_eq!(w.stock_data_capacity, 50);
    assert!(matches!(w.current_trend, Trend::UNKNOWN));
    assert_eq!(w.high_low_queue.len(), 0);
}

#[test]
fn running_volume_sum_tracks_bars_through_appends_and_evictions() {
    let mut w = StockData::new(String::from("QQQ"), 2);
    let volumes = [5u64, 7, 11, 13, 17];
    for v in volumes {
        w.add_stock_data(&bar(100, v));
        assert_eq!(w.sum_volume, present_volume_sum(&w));
        w.maybe_evict_if_over_cap();
        assert_eq!(w.sum_volume, present_volume_sum(&w));
        assert!(w.stock_data.len() <= 2);
    }
    assert_eq!(w.sum_volume, 13 + 17);
}

#[test]
fn evict_never_fires_at_or_under_capacity() {
    let mut w = StockData::new(String::from("QQQ"), 3);
    assert!(w.maybe_evict_if_over_cap().is_none());
    w.add_stock_data(&bar(10, 1));
    w.add_stock_data(&bar(11, 2));
    w.add_stock_data(&bar(12, 3));
    // len == capacity: strictly-over is required, so nothing leaves.
    assert!(w.maybe_evict_if_over_cap().is_none());
    assert_eq!(w.stock_data.len(), 3);
    assert_eq!(w.sum_volume, 6);
}

#[test]
fn evict_removes_exactly_one_oldest_bar() {
    let mut w = StockData::new(String::from("QQQ"), 1);
    w.add_stock_data(&bar(10, 1));
    w.add_stock_data(&bar(11, 2));
    w.add_stock_data(&bar(12, 3));
    // Two bars over capacity: still one eviction per call.
    let first = w.maybe_evict_if_over_cap().expect("over capacity");
    assert_eq!(first.volume, 1);
    assert_eq!(w.stock_data.len(), 2);
    let second = w.maybe_evict_if_over_cap().expect("still over capacity");
    assert_eq!(second.volume, 2);
    assert_eq!(w.stock_data.len(), 1);
    assert!(w.maybe_evict_if_over_cap().is_none());
}

#[test]
fn scenario_capacity_three_evicts_ten_leaving_sum_120() {
    let mut w = StockData::new(String::from("QQQ"), 3);
    for v in [10u64, 10, 10] {
        w.add_stock_data(&bar(100, v));
        assert!(w.maybe_evict_if_over_cap().is_none());
    }
    w.add_stock_data(&bar(100, 100));
    assert_eq!(w.sum_volume, 130);
    let evicted = w.maybe_evict_if_over_cap().expect("fourth append went over");
    assert_eq!(evicted.volume, 10);
    assert_eq!(w.sum_volume, 120);
    assert_eq!(w.stock_data.len(), 3);
}

#[test]
fn null_append_returns_zero_quadruple_and_changes_nothing() {
    let mut w = StockData::new(String::from("QQQ"), 3);
    w.add_stock_data(&bar(50, 9));
    let quad = w.add_stock_data(&null_stock_data_response());
    assert_eq!(quad, (0, 0, 0, 0));
    assert_eq!(w.stock_data.len(), 1);
    assert_eq!(w.sum_volume, 9);
}

#[test]
fn null_sentinel_is_recognised_and_ordinary_bars_are_not() {
    assert!(null_stock_data_response().is_null());
    assert!(!bar(100, 5).is_null());
    // One field off the sentinel is not null.
    let mut almost = null_stock_data_response();
    almost.volume = 1;
    assert!(!almost.is_null());
}

#[test]
fn pop_front_if_at_capacity_matches_eviction_rules() {
    let mut w = StockData::new(String::from("QQQ"), 1);
    w.add_stock_data(&bar(10, 4));
    assert!(w.pop_front_if_at_capacity().is_none());
    w.add_stock_data(&bar(11, 6));
    let popped = w.pop_front_if_at_capacity().expect("over capacity");
    assert_eq!(popped.volume, 4);
    assert_eq!(w.sum_volume, 6);
}

#[test]
fn from_hashmap_defaults_missing_columns_to_zero() {
    let row = RawDataTableRow {
        open: Some(5),
        high: None,
        low: None,
        close: Some(7),
        volume: None,
        ema9: None,
        ema20: Some(3),
        timestamp: None,
    };
    let datum = StockDatum::from_hashmap(&row);
    assert_eq!(datum.open, 5);
    assert_eq!(datum.high, 0);
    assert_eq!(datum.low, 0);
    assert_eq!(datum.close, 7);
    assert_eq!(datum.volume, 0);
    assert_eq!(datum.ema9, 0);
    assert_eq!(datum.ema20, 3);
    assert_eq!(datum.timestamp, 0);
    assert!(datum.high_low_type.is_none());
}

#[test]
fn set_stock_data_seeds_bars_and_volume_sum() {
    let mut w = StockData::new(String::from("QQQ"), 10);
    let row = |close: i64, volume: u64| RawDataTableRow {
        open: Some(close),
        high: Some(close + 1),
        low: Some(close - 1),
        close: Some(close),
        volume: Some(volume),
        ema9: Some(0),
        ema20: Some(0),
        timestamp: Some(1),
    };
    let table = vec![row(10, 3), row(11, 4), row(12, 5)];
    w.set_stock_data(&table);
    assert_eq!(w.stock_data.len(), 3);
    assert_eq!(w.stock_data[0].close, 10);
    assert_eq!(w.stock_data[2].volume, 5);
    assert_eq!(w.sum_volume, 12);
}

#[test]
fn volume_attr_starts_empty() {
    let attrs = VolumeAttr::new();
    assert!(attrs.volume_groups.is_empty());
    assert!(attrs.volume_cache.is_empty());
    assert!(attrs.volume_thresholds.is_empty());
}
