//! The trend classifier: swing-pivot labelling of bars and the trend
//! state derived from the last four labelled pivots.

use vstd::prelude::*;

verus! {

use crate::stock::{HighLow, StockData, StockDatum, Trend};

/// Whether the bar at `idx` is a swing high: its high strictly exceeds
/// the high of every bar within `radius` on either side.
pub open spec fn is_swing_high(bars: Seq<StockDatum>, idx: int, radius: int) -> bool {
    forall|t: int|
        idx - radius <= t <= idx + radius && t != idx ==> (#[trigger] bars[t]).high < bars[idx].high
}

/// Whether the bar at `idx` is a swing low: its low strictly undercuts
/// the low of every bar within `radius` on either side.
pub open spec fn is_swing_low(bars: Seq<StockDatum>, idx: int, radius: int) -> bool {
    forall|t: int|
        idx - radius <= t <= idx + radius && t != idx ==> (#[trigger] bars[t]).low > bars[idx].low
}

/// The label the classifier gives the bar at `idx`: a swing high first,
/// else a swing low, else neither.
pub open spec fn label_spec(bars: Seq<StockDatum>, idx: int, radius: int) -> HighLow {
    if is_swing_high(bars, idx, radius) {
        HighLow::HIGH
    } else if is_swing_low(bars, idx, radius) {
        HighLow::LOW
    } else {
        HighLow::NEUTRAL
    }
}

/// The trend read off the last four labelled pivots, oldest of the four
/// first. Fewer than four pivots give `UNKNOWN`; a first pivot that is
/// not labelled a swing gives `SIDEWAYS`.
pub open spec fn trend_of_pivots(pivots: Seq<StockDatum>) -> Trend {
    if pivots.len() < 4 {
        Trend::UNKNOWN
    } else {
        let first = pivots[pivots.len() - 4];
        let second = pivots[pivots.len() - 3];
        let third = pivots[pivots.len() - 2];
        let fourth = pivots[pivots.len() - 1];
        match first.high_low_type {
            Some(HighLow::HIGH) => {
                if first.high < third.high && second.low < fourth.low {
                    Trend::UPTREND
                } else if first.high >= third.high && second.low >= fourth.low {
                    Trend::DOWNTREND
                } else {
                    Trend::SIDEWAYS
                }
            },
            Some(HighLow::LOW) => {
                if first.low >= third.low && second.high >= fourth.high {
                    Trend::DOWNTREND
                } else if first.low < third.low && second.high < fourth.high {
                    Trend::UPTREND
                } else {
                    Trend::SIDEWAYS
                }
            },
            _ => Trend::SIDEWAYS,
        }
    }
}

/// The copy of a bar that enters the pivot queue, carrying its label.
pub open spec fn labelled_pivot_spec(bar: StockDatum, hl: HighLow) -> StockDatum {
    StockDatum {
        open: bar.open,
        high: bar.high,
        low: bar.low,
        close: bar.close,
        volume: bar.volume,
        ema9: bar.ema9,
        ema20: bar.ema20,
        timestamp: bar.timestamp,
        high_low_type: Some(hl),
    }
}

/// Classifies the trend from a pivot queue: `UNKNOWN` under four pivots,
/// whatever the bars hold; otherwise the swing comparison rules over the
/// last four.
pub fn classify_trend(pivots: &Vec<StockDatum>) -> (t: Trend)
    ensures
        t == trend_of_pivots(pivots@),
{
    let len = pivots.len();
    if len < 4 {
        return Trend::UNKNOWN;
    }
    let first = &pivots[len - 4];
    let second = &pivots[len - 3];
    let third = &pivots[len - 2];
    let fourth = &pivots[len - 1];
    match first.high_low_type {
        Some(HighLow::HIGH) => {
            if first.high < third.high && second.low < fourth.low {
                Trend::UPTREND
            } else if first.high >= third.high && second.low >= fourth.low {
                Trend::DOWNTREND
            } else {
                Trend::SIDEWAYS
            }
        },
        Some(HighLow::LOW) => {
            if first.low >= third.low && second.high >= fourth.high {
                Trend::DOWNTREND
            } else if first.low < third.low && second.high < fourth.high {
                Trend::UPTREND
            } else {
                Trend::SIDEWAYS
            }
        },
        _ => Trend::SIDEWAYS,
    }
}

impl StockData {
    /// Labels the bar at `idx` by comparing it with the `radius` bars on
    /// each side of it.
    pub fn label_high_low(stock_data: &Vec<StockDatum>, idx: usize, radius: usize) -> (hl:
        HighLow)
        requires
            1 <= radius <= idx,
            idx + radius < stock_data@.len(),
        ensures
            hl == label_spec(stock_data@, idx as int, radius as int),
    {
        let length: usize = stock_data.len();
        let center_high = stock_data[idx].high;
        let center_low = stock_data[idx].low;
        let start = idx - radius;
        let end = idx + radius;
        let mut higher_than_all = true;
        let mut lower_than_all = true;
        let mut j = start;
        while j <= end
            invariant
                start <= j <= end + 1,
                start == idx - radius,
                end == idx + radius,
                length == stock_data@.len(),
                end < length,
                center_high == stock_data@[idx as int].high,
                center_low == stock_data@[idx as int].low,
                higher_than_all <==> (forall|t: int|
                    start <= t < j && t != idx ==> (#[trigger] stock_data@[t]).high
                        < center_high),
                lower_than_all <==> (forall|t: int|
                    start <= t < j && t != idx ==> (#[trigger] stock_data@[t]).low > center_low),
            decreases end + 1 - j,
        {
            if j != idx {
                if stock_data[j].high >= center_high {
                    higher_than_all = false;
                }
                if stock_data[j].low <= center_low {
                    lower_than_all = false;
                }
            }
            j = j + 1;
        }
        if higher_than_all {
            HighLow::HIGH
        } else if lower_than_all {
            HighLow::LOW
        } else {
            HighLow::NEUTRAL
        }
    }

    /// Appends one labelled pivot to the queue, which keeps only the last
    /// four: a fifth arrival pushes the oldest out.
    pub fn push_pivot(&mut self, pivot: StockDatum)
        requires
            old(self).high_low_queue@.len() <= 4,
        ensures
            final(self).high_low_queue@ == if old(self).high_low_queue@.len() < 4 {
                old(self).high_low_queue@.push(pivot)
            } else {
                old(self).high_low_queue@.drop_first().push(pivot)
            },
            final(self).high_low_queue@.len() <= 4,
            final(self).name == old(self).name,
            final(self).stock_data == old(self).stock_data,
            final(self).stock_data_capacity == old(self).stock_data_capacity,
            final(self).sum_volume == old(self).sum_volume,
            final(self).current_trend == old(self).current_trend,
            final(self).daily_resistances == old(self).daily_resistances,
            final(self).daily_supports == old(self).daily_supports,
            final(self).wf() == old(self).wf(),
    {
        if self.high_low_queue.len() >= 4 {
            self.high_low_queue.remove(0);
            proof {
                assert(old(self).high_low_queue@.remove(0) =~= old(
                    self,
                ).high_low_queue@.drop_first());
            }
        }
        self.high_low_queue.push(pivot);
    }

    /// Re-derives the current trend from the pivot queue.
    pub fn update_trend(&mut self)
        ensures
            final(self).current_trend == trend_of_pivots(old(self).high_low_queue@),
            final(self).name == old(self).name,
            final(self).stock_data == old(self).stock_data,
            final(self).stock_data_capacity == old(self).stock_data_capacity,
            final(self).sum_volume == old(self).sum_volume,
            final(self).high_low_queue == old(self).high_low_queue,
            final(self).daily_resistances == old(self).daily_resistances,
            final(self).daily_supports == old(self).daily_supports,
            final(self).wf() == old(self).wf(),
    {
        self.current_trend = classify_trend(&self.high_low_queue);
    }

    /// One classifier cycle over the bar at `idx`: label it against its
    /// neighbours, copy it onto the pivot queue if it is a swing (copies,
    /// never references, so later evictions of the main sequence cannot
    /// invalidate a pivot), and re-derive the trend from the queue.
    pub fn track_pivot_at(&mut self, idx: usize, radius: usize) -> (hl: HighLow)
        requires
            1 <= radius <= idx,
            idx + radius < old(self).stock_data@.len(),
            old(self).high_low_queue@.len() <= 4,
        ensures
            hl == label_spec(old(self).stock_data@, idx as int, radius as int),
            final(self).high_low_queue@ == if hl == HighLow::NEUTRAL {
                old(self).high_low_queue@
            } else {
                ({
                    let pivot = labelled_pivot_spec(old(self).stock_data@[idx as int], hl);
                    if old(self).high_low_queue@.len() < 4 {
                        old(self).high_low_queue@.push(pivot)
                    } else {
                        old(self).high_low_queue@.drop_first().push(pivot)
                    }
                })
            },
            final(self).high_low_queue@.len() <= 4,
            final(self).current_trend == trend_of_pivots(final(self).high_low_queue@),
            final(self).name == old(self).name,
            final(self).stock_data == old(self).stock_data,
            final(self).stock_data_capacity == old(self).stock_data_capacity,
            final(self).sum_volume == old(self).sum_volume,
            final(self).daily_resistances == old(self).daily_resistances,
            final(self).daily_supports == old(self).daily_supports,
            final(self).wf() == old(self).wf(),
    {
        let hl = Self::label_high_low(&self.stock_data, idx, radius);
        let is_swing = match hl {
            HighLow::NEUTRAL => false,
            _ => true,
        };
        if is_swing {
            let mut pivot = self.stock_data[idx];
            pivot.high_low_type = Some(hl);
            self.push_pivot(pivot);
        }
        self.update_trend();
        hl
    }
}

} // verus!
