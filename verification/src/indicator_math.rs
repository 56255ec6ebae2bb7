//! The mathematical model of the indicators: exponential and simple
//! moving averages over fixed-point prices, and the population statistics
//! behind the volume-spike test.
//!
//! Prices are integers in a fixed sub-unit scale chosen by the caller
//! (the same scale throughout one process); every formula below is exact
//! integer arithmetic in that scale, with division rounding toward zero
//! on the non-negative operands the window admits.

use vstd::prelude::*;

verus! {

use crate::configs::{MIN_HOUR, MIN_MINUTE, MAX_HOUR, MAX_MIN};

/// One smoothed step of an exponential moving average with smoothing 2:
/// `close * 2/(period+1) + prev * (1 - 2/(period+1))`, cleared of
/// denominators into the single exact division
/// `(2*close + (period-1)*prev) / (period+1)`.
pub open spec fn ema_step_spec(period: int, close: int, prev: int) -> int {
    (2 * close + (period - 1) * prev) / (period + 1)
}

/// Sum of a sequence of volumes.
pub open spec fn sum_volumes(s: Seq<u64>) -> int
    decreases s.len(),
{
    if s.len() == 0 {
        0
    } else {
        sum_volumes(s.drop_last()) + s.last()
    }
}

/// Sum of the squares of a sequence of volumes.
pub open spec fn sum_squares(s: Seq<u64>) -> int
    decreases s.len(),
{
    if s.len() == 0 {
        0
    } else {
        sum_squares(s.drop_last()) + s.last() * s.last()
    }
}

/// The volume-spike test over the retained volumes, `k` given in tenths.
///
/// With `n` the window length, `s` the volume sum and `q` the sum of
/// squared volumes, the population variance is `(n*q - s*s) / n^2` and the
/// test of the trailing anomaly detector is
/// `last > s/n + (k/10) * sqrt((n*q - s*s)) / n`.
/// Multiplying through by `10*n` and squaring the two non-negative sides
/// gives the exact integer form stated here; no rounding is involved.
pub open spec fn volume_spike_spec(vols: Seq<u64>, k_tenths: int) -> bool {
    let n = vols.len() as int;
    let s = sum_volumes(vols);
    let q = sum_squares(vols);
    let lhs = n * vols.last() - s;
    lhs > 0 && 100 * lhs * lhs > k_tenths * k_tenths * (n * q - s * s)
}

/// The time-of-day gate of the volume-spike alert: an opening interval
/// (both bounds inclusive) and a closing interval (both bounds inclusive).
pub open spec fn gate_spec(now_hour: int, now_min: int) -> bool {
    (now_hour <= MIN_HOUR && now_min <= MIN_MINUTE) || (now_hour >= MAX_HOUR && now_min
        >= MAX_MIN)
}

/// Sum of a sequence of fixed-point closes.
pub open spec fn sum_closes(s: Seq<i64>) -> int
    decreases s.len(),
{
    if s.len() == 0 {
        0
    } else {
        sum_closes(s.drop_last()) + s.last()
    }
}

/// Appending one close adds it to the sum.
pub proof fn lemma_sum_closes_push(s: Seq<i64>, v: i64)
    ensures
        sum_closes(s.push(v)) == sum_closes(s) + v,
{
    assert(s.push(v).drop_last() =~= s);
}

/// Appending one volume adds it to the sum.
pub proof fn lemma_sum_volumes_push(s: Seq<u64>, v: u64)
    ensures
        sum_volumes(s.push(v)) == sum_volumes(s) + v,
{
    assert(s.push(v).drop_last() =~= s);
}

/// Appending one volume adds its square to the sum of squares.
pub proof fn lemma_sum_squares_push(s: Seq<u64>, v: u64)
    ensures
        sum_squares(s.push(v)) == sum_squares(s) + v * v,
{
    assert(s.push(v).drop_last() =~= s);
}

/// The sum of a non-empty sequence splits off its first element.
pub proof fn lemma_sum_volumes_drop_first(s: Seq<u64>)
    requires
        s.len() >= 1,
    ensures
        sum_volumes(s) == s[0] + sum_volumes(s.drop_first()),
    decreases s.len(),
{
    if s.len() == 1 {
        assert(s.drop_last() =~= Seq::<u64>::empty());
        assert(s.drop_first() =~= Seq::<u64>::empty());
    } else {
        lemma_sum_volumes_drop_first(s.drop_last());
        assert(s.drop_last().drop_first() =~= s.drop_first().drop_last());
        assert(s.drop_first().last() == s.last());
        assert(s.drop_last()[0] == s[0]);
    }
}

/// A sum of volumes is never negative.
pub proof fn lemma_sum_volumes_nonneg(s: Seq<u64>)
    ensures
        sum_volumes(s) >= 0,
    decreases s.len(),
{
    if s.len() > 0 {
        lemma_sum_volumes_nonneg(s.drop_last());
    }
}

/// Volumes below a bound sum to at most the length times the bound.
pub proof fn lemma_sum_volumes_bound(s: Seq<u64>, bound: int)
    requires
        forall|i: int| 0 <= i < s.len() ==> s[i] < bound,
    ensures
        sum_volumes(s) <= s.len() * bound,
    decreases s.len(),
{
    if s.len() == 0 {
    } else {
        lemma_sum_volumes_bound(s.drop_last(), bound);
        assert((s.len() - 1) * bound + bound == s.len() * bound) by (nonlinear_arith);
    }
}

/// A run of one repeated volume sums to the length times that volume,
/// and its squares to the length times the square.
pub proof fn lemma_constant_volume_sums(s: Seq<u64>, v: u64)
    requires
        forall|i: int| 0 <= i < s.len() ==> s[i] == v,
    ensures
        sum_volumes(s) == s.len() * v,
        sum_squares(s) == s.len() * (v * v),
    decreases s.len(),
{
    if s.len() == 0 {
    } else {
        lemma_constant_volume_sums(s.drop_last(), v);
        assert((s.len() - 1) * v + v == s.len() * v) by (nonlinear_arith);
        assert((s.len() - 1) * (v * v) + v * v == s.len() * (v * v)) by (nonlinear_arith);
    }
}

/// A window of identical volumes has average equal to the last volume
/// and zero deviation, so it never spikes, whatever the multiplier.
pub proof fn lemma_flat_volumes_never_spike(s: Seq<u64>, v: u64, k_tenths: int)
    requires
        s.len() >= 1,
        forall|i: int| 0 <= i < s.len() ==> s[i] == v,
    ensures
        !volume_spike_spec(s, k_tenths),
{
    lemma_constant_volume_sums(s, v);
    let n = s.len() as int;
    assert(s.last() == v);
    assert(n * s.last() - sum_volumes(s) == n * v - n * v) by (nonlinear_arith)
        requires
            sum_volumes(s) == n * v,
            s.last() == v,
    ;
}

/// The finished volume-spike decision: the raw statistical signal ANDed
/// with its time-of-day gate.
pub open spec fn fireable_spec(vols: Seq<u64>, k_tenths: int, now_hour: int, now_min: int) -> bool {
    volume_spike_spec(vols, k_tenths) && gate_spec(now_hour, now_min)
}

/// Outside the configured gating windows even a genuine statistical
/// spike never fires; inside them a genuine spike always does.
pub proof fn lemma_gate_decides_fireable(
    vols: Seq<u64>,
    k_tenths: int,
    now_hour: int,
    now_min: int,
)
    ensures
        !gate_spec(now_hour, now_min) ==> !fireable_spec(vols, k_tenths, now_hour, now_min),
        volume_spike_spec(vols, k_tenths) && gate_spec(now_hour, now_min) ==> fireable_spec(
            vols,
            k_tenths,
            now_hour,
            now_min,
        ),
{
}

/// The volume-spike test reads nothing but the retained volumes: two
/// windows with the same volumes in the same order answer it the same
/// way, for any multiplier, however often it is asked.
pub proof fn lemma_volume_spike_deterministic(v1: Seq<u64>, v2: Seq<u64>, k_tenths: int)
    requires
        v1 == v2,
    ensures
        volume_spike_spec(v1, k_tenths) == volume_spike_spec(v2, k_tenths),
{
}

} // verus!
