use stock_monitor::alert_cluster::AlertClusterBuilder;
use stock_monitor::fetch_data::PriceDatum;
use stock_monitor::stock::{StockData, StockDatum};

fn bar(close: i64, volume: u64) -> PriceDatum {
    PriceDatum {
        open: close,
        high: close + 1,
        low: close - 1,
        close,
        volume,
        timestamp: 1_700_000_000_000,
    }
}

fn window_with_volumes(volumes: &[u64]) -> StockData {
    let mut w = StockData::new(String::from("QQQ"), 1000);
    for &v in volumes {
        w.add_stock_data(&bar(100, v));
    }
    w
}

#[test]
fn ema_step_is_the_exact_smoothing_two_formula() {
    // (2*close + (period-1)*prev) / (period+1)
    assert_eq!(StockData::calculate_ema(9, &100, &50), (2 * 100 + 8 * 50) / 10);
    assert_eq!(StockData::calculate_ema(9, &100, &50), 60);
    assert_eq!(StockData::calculate_ema(20, &210, &105), (2 * 210 + 19 * 105) / 21);
    assert_eq!(StockData::calculate_ema(1, &8, &999), 8);
}

#[test]
fn sma_is_the_mean_of_the_last_closes() {
    let datum = |close: i64| StockDatum {
        open: close,
        high: close,
        low: close,
        close,
        volume: 1,
        ema9: 0,
        ema20: 0,
        timestamp: 0,
        high_low_type: None,
    };
    let bars = vec![datum(1000), datum(10), datum(20), datum(30)];
    assert_eq!(StockData::calculate_sma(&bars, 3), 20);
    assert_eq!(StockData::calculate_sma(&bars, 4), (1000 + 10 + 20 + 30) / 4);
}

#[test]
fn ema9_stays_zero_until_nine_bars_were_seen() {
    let mut w = StockData::new(String::from("QQQ"), 1000);
    for i in 0..9 {
        let quad = w.add_stock_data(&bar(100 + i, 1));
        assert_eq!(quad.2, 0, "ema9 must be zero while fewer than nine bars");
        assert_eq!(quad.3, 0, "ema20 must be zero while fewer than twenty bars");
    }
    // The tenth bar is appended onto nine: one EMA step on the stored
    // zero, so (2*c + 8*0) / 10 = c / 5.
    let quad = w.add_stock_data(&bar(200, 1));
    assert_eq!(quad.2, 200 / 5);
    assert_eq!(w.stock_data[9].ema9, 40);
}

#[test]
fn identical_close_sequences_give_identical_ema_trajectories() {
    let closes = [100i64, 105, 103, 110, 120, 118, 125, 124, 130, 128, 131, 135, 134, 140, 138,
        141, 139, 145, 150, 149, 155, 154];
    let mut w1 = StockData::new(String::from("A"), 1000);
    let mut w2 = StockData::new(String::from("B"), 1000);
    for (i, &c) in closes.iter().enumerate() {
        // Same closes, different opens, highs, lows and volumes.
        w1.add_stock_data(&bar(c, 10 + i as u64));
        w2.add_stock_data(&PriceDatum {
            open: c + 7,
            high: c + 30,
            low: c - 30,
            close: c,
            volume: 999 + i as u64,
            timestamp: 1,
        });
    }
    for i in 0..closes.len() {
        assert_eq!(w1.stock_data[i].ema9, w2.stock_data[i].ema9);
        assert_eq!(w1.stock_data[i].ema20, w2.stock_data[i].ema20);
    }
    // And the trajectory is not everywhere zero: both averages seeded.
    assert!(w1.stock_data[closes.len() - 1].ema9 > 0);
    assert!(w1.stock_data[closes.len() - 1].ema20 > 0);
}

#[test]
fn scenario_flat_volumes_have_zero_deviation_and_no_spike() {
    let w = window_with_volumes(&[100, 100, 100, 100, 100]);
    // avg = 100, stddev = 0: the last volume does not strictly exceed it.
    assert!(!w.is_volume_spike(30));
}

#[test]
fn spike_fires_on_a_genuine_outlier() {
    // Ten bars of 100 and one of 10000: avg = 1000, stddev ~ 2846, so the
    // threshold at k = 3.0 is ~ 9538 and the last volume exceeds it.
    let w = window_with_volumes(&[100, 100, 100, 100, 100, 100, 100, 100, 100, 100, 10000]);
    assert!(w.is_volume_spike(30));
    // A smaller multiplier fires all the more.
    assert!(w.is_volume_spike(10));
}

#[test]
fn spike_requires_strict_excess_over_the_threshold() {
    // The outlier below sits under avg + 3 * stddev: no spike at k = 3.0,
    // but a spike once the multiplier shrinks.
    let w = window_with_volumes(&[100, 100, 100, 100, 2000]);
    assert!(!w.is_volume_spike(30));
    assert!(w.is_volume_spike(10));
}

#[test]
fn spike_answer_is_deterministic_and_read_only() {
    let w = window_with_volumes(&[5, 80, 3, 9, 120, 4]);
    let first = w.is_volume_spike(30);
    // Prior read-only calls change nothing.
    for _ in 0..5 {
        assert_eq!(w.is_volume_spike(30), first);
    }
    // A window built the same way answers the same.
    let twin = window_with_volumes(&[5, 80, 3, 9, 120, 4]);
    assert_eq!(twin.is_volume_spike(30), first);
}

#[test]
fn genuine_spike_outside_gating_windows_never_fires() {
    let w = window_with_volumes(&[100, 100, 100, 100, 100, 100, 100, 100, 100, 100, 10000]);
    assert!(w.is_volume_spike(30), "the statistical signal itself is on");
    // 10:00 is in neither the opening nor the closing interval.
    assert!(!w.analyze(10, 0).is_alert_fireable());
    // 8:10: hour past the opening bound. 7:20: minute past it.
    assert!(!w.analyze(8, 10).is_alert_fireable());
    assert!(!w.analyze(7, 20).is_alert_fireable());
}

#[test]
fn genuine_spike_inside_gating_windows_fires() {
    let w = window_with_volumes(&[100, 100, 100, 100, 100, 100, 100, 100, 100, 100, 10000]);
    // 7:15 is the inclusive corner of the opening interval.
    assert!(w.analyze(7, 15).is_alert_fireable());
    assert!(w.analyze(6, 10).is_alert_fireable());
    // 12:45 is the inclusive corner of the closing interval.
    assert!(w.analyze(12, 45).is_alert_fireable());
    assert!(w.analyze(13, 59).is_alert_fireable());
    // Just outside either corner nothing fires.
    assert!(!w.analyze(12, 44).is_alert_fireable());
}

#[test]
fn quiet_window_fires_nowhere_even_inside_the_gate() {
    let w = window_with_volumes(&[100, 100, 100, 100, 100]);
    assert!(!w.analyze(7, 10).is_alert_fireable());
    assert!(!w.analyze(12, 50).is_alert_fireable());
}

#[test]
fn alert_cluster_builder_sets_filters_and_builds() {
    let fired = AlertClusterBuilder::new().set_is_volume_spike(true).filter_volume_spike(true)
        .build();
    assert!(fired.is_alert_fireable());
    assert!(fired.is_volume_spike);

    let gated_off = AlertClusterBuilder::new().set_is_volume_spike(true).filter_volume_spike(
        false,
    ).build();
    assert!(!gated_off.is_alert_fireable());

    let no_signal = AlertClusterBuilder::new().set_is_volume_spike(false).filter_volume_spike(
        true,
    ).build();
    assert!(!no_signal.is_alert_fireable());

    let untouched = AlertClusterBuilder::new().build();
    assert!(!untouched.is_alert_fireable());
}

#[test]
fn run_poll_cycle_composes_append_evict_and_analysis() {
    let mut w = StockData::new(String::from("QQQ"), 11);
    for _ in 0..11 {
        w.add_stock_data(&bar(100, 100));
    }
    // The twelfth bar spikes; the tick falls inside the opening gate.
    let (quad, evicted, cluster) = w.run_poll_cycle(&bar(101, 10000), 7, 5);
    assert_eq!(quad.0, 102); // high
    assert_eq!(quad.1, 100); // low
    let evicted = evicted.expect("window of eleven went over capacity");
    assert_eq!(evicted.volume, 100);
    assert_eq!(w.stock_data.len(), 11);
    assert!(cluster.is_alert_fireable());

    // The same data polled at midday stays quiet.
    let mut w2 = StockData::new(String::from("QQQ"), 11);
    for _ in 0..11 {
        w2.add_stock_data(&bar(100, 100));
    }
    let (_, _, midday) = w2.run_poll_cycle(&bar(101, 10000), 10, 5);
    assert!(!midday.is_alert_fireable());
}

#[test]
fn one_outlier_among_nine_equals_sits_exactly_on_the_k3_threshold() {
    // Nine equal volumes and one outlier give a z-score of exactly 3, and
    // the test demands strict excess: k = 3.0 stays quiet, k = 2.9 fires.
    let w = window_with_volumes(&[100, 100, 100, 100, 100, 100, 100, 100, 100, 10000]);
    assert!(!w.is_volume_spike(30));
    assert!(w.is_volume_spike(29));
}
