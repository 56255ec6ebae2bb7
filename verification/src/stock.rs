//! The per-instrument rolling window: a bounded, FIFO-evicting sequence
//! of bars with an incrementally maintained volume sum, the moving-average
//! bookkeeping done on append, and the statistical volume-spike analysis.

use vstd::prelude::*;

verus! {

use std::collections::HashMap;
use std::collections::VecDeque;

use crate::alert_cluster::{AlertCluster, AlertClusterBuilder};
use crate::configs::{MAX_HOUR, MAX_MIN, MIN_HOUR, MIN_MINUTE, PRICE_LIMIT, VOLUME_LIMIT,
    WINDOW_LEN_LIMIT};
use crate::fetch_data::PriceDatum;
use crate::indicator_math::{
    ema_step_spec, fireable_spec, lemma_sum_closes_push, lemma_sum_squares_push,
    lemma_sum_volumes_bound, lemma_sum_volumes_drop_first, lemma_sum_volumes_nonneg,
    lemma_sum_volumes_push, sum_closes, sum_squares, sum_volumes, volume_spike_spec,
};
use vstd::arithmetic::div_mod::{lemma_div_pos_is_pos, lemma_multiply_divide_lt};

/// Whether a bar is a swing high or a swing low.
#[derive(Clone, Copy, PartialEq, Eq, Structural, Debug)]
pub enum HighLow {
    HIGH,
    LOW,
    NEUTRAL,
}

/// Direction of a position a trend would suggest.
#[derive(Clone, Copy, PartialEq, Eq, Structural, Debug)]
pub enum LongShort {
    LONG,
    SHORT,
}

/// The overall trend of an instrument. `UNKNOWN` is the initial state and
/// the fallback while fewer than four labelled pivots exist.
#[derive(Clone, Copy, PartialEq, Eq, Structural, Debug)]
pub enum Trend {
    SIDEWAYS,
    UPTREND,
    DOWNTREND,
    UNKNOWN,
}

/// The value of one swing high or swing low.
#[derive(Clone, Copy, PartialEq, Eq, Structural, Debug)]
pub struct HighLowData {
    pub value: i64,
    pub close: i64,
    pub high_low: HighLow,
}

/// One unit of stock data; anything that belongs to a particular point in
/// time is kept here rather than on the larger [`StockData`] struct.
/// Prices and the moving averages are fixed-point integers in the
/// caller's sub-unit scale.
#[derive(Clone, Copy, PartialEq, Eq, Structural, Debug)]
pub struct StockDatum {
    pub open: i64,
    pub high: i64,
    pub low: i64,
    pub close: i64,
    pub volume: u64,
    pub ema9: i64,
    pub ema20: i64,
    pub timestamp: u64,
    pub high_low_type: Option<HighLow>,
}

/// One row of seed data, each column optional: absent columns default to
/// zero when the row becomes a bar.
#[derive(Clone, Copy, PartialEq, Eq, Structural, Debug)]
pub struct RawDataTableRow {
    pub open: Option<i64>,
    pub high: Option<i64>,
    pub low: Option<i64>,
    pub close: Option<i64>,
    pub volume: Option<u64>,
    pub ema9: Option<i64>,
    pub ema20: Option<i64>,
    pub timestamp: Option<u64>,
}

/// The bar a seed row turns into: each absent column becomes zero, and
/// the pivot label starts unset.
pub open spec fn datum_of_row(row: RawDataTableRow) -> StockDatum {
    StockDatum {
        open: if row.open is Some { row.open->Some_0 } else { 0i64 },
        high: if row.high is Some { row.high->Some_0 } else { 0i64 },
        low: if row.low is Some { row.low->Some_0 } else { 0i64 },
        close: if row.close is Some { row.close->Some_0 } else { 0i64 },
        volume: if row.volume is Some { row.volume->Some_0 } else { 0u64 },
        ema9: if row.ema9 is Some { row.ema9->Some_0 } else { 0i64 },
        ema20: if row.ema20 is Some { row.ema20->Some_0 } else { 0i64 },
        timestamp: if row.timestamp is Some { row.timestamp->Some_0 } else { 0u64 },
        high_low_type: None,
    }
}

impl StockDatum {
    /// Builds a bar from one seed row, defaulting absent columns to zero.
    pub fn from_hashmap(dict: &RawDataTableRow) -> (r: Self)
        ensures
            r == datum_of_row(*dict),
    {
        StockDatum {
            open: dict.open.unwrap_or(0),
            high: dict.high.unwrap_or(0),
            low: dict.low.unwrap_or(0),
            close: dict.close.unwrap_or(0),
            volume: dict.volume.unwrap_or(0),
            ema9: dict.ema9.unwrap_or(0),
            ema20: dict.ema20.unwrap_or(0),
            timestamp: dict.timestamp.unwrap_or(0),
            high_low_type: None,
        }
    }
}

/// Three periods of a trading day: the opening stretch, midday, and the
/// closing stretch.
#[derive(Clone, Copy, PartialEq, Eq, Structural, Hash, Debug)]
pub enum MarketTimePeriod {
    OPEN,
    MIDDAY,
    CLOSE,
}

/// Attributes related to volume, grouped by market time period: recent
/// volumes, cached values and alert thresholds per period.
pub struct VolumeAttr {
    pub volume_groups: HashMap<MarketTimePeriod, VecDeque<i64>>,
    pub volume_cache: HashMap<MarketTimePeriod, i64>,
    pub volume_thresholds: HashMap<MarketTimePeriod, i64>,
}

impl VolumeAttr {
    /// Empty volume attributes: no groups, no cache, no thresholds.
    pub fn new() -> (r: VolumeAttr)
        ensures
            r.volume_groups@ == Map::<MarketTimePeriod, VecDeque<i64>>::empty(),
            r.volume_cache@ == Map::<MarketTimePeriod, i64>::empty(),
            r.volume_thresholds@ == Map::<MarketTimePeriod, i64>::empty(),
    {
        VolumeAttr {
            volume_groups: HashMap::new(),
            volume_cache: HashMap::new(),
            volume_thresholds: HashMap::new(),
        }
    }
}

/// Whether a bar's close and moving averages lie in the fixed-point range
/// the window's arithmetic is proved for.
pub open spec fn bar_in_range(b: StockDatum) -> bool {
    &&& 0 <= b.close < PRICE_LIMIT
    &&& 0 <= b.ema9 < PRICE_LIMIT
    &&& 0 <= b.ema20 < PRICE_LIMIT
}

/// Whether a seed row will produce a bar within that range.
pub open spec fn row_in_range(row: RawDataTableRow) -> bool {
    &&& bar_in_range(datum_of_row(row))
    &&& datum_of_row(row).volume < VOLUME_LIMIT
}

/// The volumes of a run of bars, oldest first.
pub open spec fn volumes_of(bars: Seq<StockDatum>) -> Seq<u64> {
    bars.map_values(|b: StockDatum| b.volume)
}

/// The closes of a run of bars, oldest first.
pub open spec fn closes_of(bars: Seq<StockDatum>) -> Seq<i64> {
    bars.map_values(|b: StockDatum| b.close)
}

/// The bar a window carrying `bars` stores for the usable response
/// `resp`: the response's own fields, the EMA pair computed from the
/// pre-append state, and no pivot label yet.
pub open spec fn new_bar_spec(bars: Seq<StockDatum>, resp: PriceDatum) -> StockDatum {
    StockDatum {
        open: resp.open,
        high: resp.high,
        low: resp.low,
        close: resp.close,
        volume: resp.volume,
        ema9: next_ema9_spec(bars, resp.close as int) as i64,
        ema20: next_ema20_spec(bars, resp.close as int) as i64,
        timestamp: resp.timestamp,
        high_low_type: None,
    }
}

/// The window contents after feeding a run of fetched bars into a fresh
/// window, appends only: each null sentinel appends nothing, every other
/// bar is stored with the EMA pair computed from the state before it.
pub open spec fn fed_bars_spec(inputs: Seq<PriceDatum>) -> Seq<StockDatum>
    decreases inputs.len(),
{
    if inputs.len() == 0 {
        Seq::<StockDatum>::empty()
    } else {
        let prev = fed_bars_spec(inputs.drop_last());
        let resp = inputs.last();
        if resp.spec_is_null() {
            prev
        } else {
            prev.push(new_bar_spec(prev, resp))
        }
    }
}

/// One step of the fold above is exactly what [`StockData::add_stock_data`]
/// promises of a window whose bars equal the fold so far: a null input
/// leaves the bars alone, any other input appends the bar built from the
/// pre-append state.
pub proof fn lemma_fed_bars_one_step(inputs: Seq<PriceDatum>, next: PriceDatum)
    ensures
        fed_bars_spec(inputs.push(next)) == if next.spec_is_null() {
            fed_bars_spec(inputs)
        } else {
            fed_bars_spec(inputs).push(new_bar_spec(fed_bars_spec(inputs), next))
        },
{
    assert(inputs.push(next).drop_last() =~= inputs);
    assert(inputs.push(next).last() == next);
}

/// Feeding two freshly constructed windows input runs whose closes agree
/// bar for bar (null sentinels in the same places) yields identical EMA
/// trajectories: opens, highs, lows and volumes play no part in the
/// stored moving averages.
pub proof fn lemma_ema_trajectory_depends_on_closes(in1: Seq<PriceDatum>, in2: Seq<PriceDatum>)
    requires
        in1.len() == in2.len(),
        forall|i: int| 0 <= i < in1.len() ==> (#[trigger] in1[i]).close == in2[i].close,
        forall|i: int|
            0 <= i < in1.len() ==> ((#[trigger] in1[i]).spec_is_null()
                <==> in2[i].spec_is_null()),
    ensures
        fed_bars_spec(in1).len() == fed_bars_spec(in2).len(),
        forall|j: int|
            0 <= j < fed_bars_spec(in1).len() ==> {
                let b1 = #[trigger] fed_bars_spec(in1)[j];
                let b2 = fed_bars_spec(in2)[j];
                b1.ema9 == b2.ema9 && b1.ema20 == b2.ema20 && b1.close == b2.close
            },
    decreases in1.len(),
{
    if in1.len() == 0 {
    } else {
        lemma_ema_trajectory_depends_on_closes(in1.drop_last(), in2.drop_last());
        let p1 = fed_bars_spec(in1.drop_last());
        let p2 = fed_bars_spec(in2.drop_last());
        let r1 = in1.last();
        let r2 = in2.last();
        assert(r1.close == r2.close && (r1.spec_is_null() <==> r2.spec_is_null()));
        if !r1.spec_is_null() {
            let f1 = fed_bars_spec(in1);
            let f2 = fed_bars_spec(in2);
            assert(f1 == p1.push(new_bar_spec(p1, r1)));
            assert(f2 == p2.push(new_bar_spec(p2, r2)));
            if p1.len() >= 9 {
                assert(p1[p1.len() - 1].ema9 == p2[p2.len() - 1].ema9);
            }
            if p1.len() >= 20 {
                assert(p1[p1.len() - 1].ema20 == p2[p2.len() - 1].ema20);
            }
            assert(new_bar_spec(p1, r1).ema9 == new_bar_spec(p2, r2).ema9);
            assert(new_bar_spec(p1, r1).ema20 == new_bar_spec(p2, r2).ema20);
            assert forall|j: int| 0 <= j < f1.len() implies {
                let b1 = #[trigger] f1[j];
                let b2 = f2[j];
                b1.ema9 == b2.ema9 && b1.ema20 == b2.ema20 && b1.close == b2.close
            } by {
                if j < p1.len() {
                    assert(f1[j] == p1[j] && f2[j] == p2[j]);
                }
            }
        }
    }
}

/// The EMA(9) a window carrying `bars` stores for a bar that closes at
/// `close`: zero while fewer than nine bars were seen, afterwards one
/// exact EMA step on the previously stored value.
pub open spec fn next_ema9_spec(bars: Seq<StockDatum>, close: int) -> int {
    if bars.len() < 9 {
        0
    } else {
        ema_step_spec(9, close, bars.last().ema9 as int)
    }
}

/// The EMA(20) counterpart of [`next_ema9_spec`].
pub open spec fn next_ema20_spec(bars: Seq<StockDatum>, close: int) -> int {
    if bars.len() < 20 {
        0
    } else {
        ema_step_spec(20, close, bars.last().ema20 as int)
    }
}

/// The internal representation of the data corresponding to one
/// instrument: the container that holds its bars across loop iterations.
pub struct StockData {
    /// The ticker name.
    pub name: String,
    /// The retained bars, oldest first.
    pub stock_data: Vec<StockDatum>,
    /// The retention capacity fixed at construction; treated as immutable
    /// after `new`.
    pub stock_data_capacity: u32,
    /// Daily-chart resistances, not mutated by the window.
    pub daily_resistances: Vec<i64>,
    /// Daily-chart supports, not mutated by the window.
    pub daily_supports: Vec<i64>,
    /// The last labelled pivots, copied out of the main sequence so that
    /// eviction there never invalidates them; at most four are kept.
    pub high_low_queue: Vec<StockDatum>,
    /// Volume attributes grouped by market time period.
    pub volume_attrs: VolumeAttr,
    /// The current overall trend of the instrument.
    pub current_trend: Trend,
    /// Running sum of the retained volumes, kept for the spike statistics.
    pub sum_volume: u64,
}

impl StockData {
    /// The window invariant: the running volume sum equals the sum of the
    /// volumes of the bars present, and every bar's close and moving
    /// averages lie in the range the arithmetic is proved for.
    pub open spec fn wf(&self) -> bool {
        &&& self.sum_volume as int == sum_volumes(volumes_of(self.stock_data@))
        &&& forall|i: int|
            0 <= i < self.stock_data@.len() ==> bar_in_range(#[trigger] self.stock_data@[i])
    }

    /// An empty window for one instrument with the given retention
    /// capacity.
    pub fn new(name: String, stock_data_capacity: u32) -> (r: StockData)
        ensures
            r.name@ == name@,
            r.stock_data@ == Seq::<StockDatum>::empty(),
            r.stock_data_capacity == stock_data_capacity,
            r.daily_resistances@ == Seq::<i64>::empty(),
            r.daily_supports@ == Seq::<i64>::empty(),
            r.high_low_queue@ == Seq::<StockDatum>::empty(),
            r.current_trend == Trend::UNKNOWN,
            r.sum_volume == 0,
            r.wf(),
    {
        let r = StockData {
            name,
            stock_data: Vec::new(),
            stock_data_capacity,
            daily_resistances: Vec::new(),
            daily_supports: Vec::new(),
            high_low_queue: Vec::new(),
            volume_attrs: VolumeAttr::new(),
            current_trend: Trend::UNKNOWN,
            sum_volume: 0,
        };
        proof {
            assert(volumes_of(r.stock_data@) =~= Seq::<u64>::empty());
        }
        r
    }

    /// One exact EMA step with smoothing 2: the spread-out float formula
    /// `close * 2/(1+period) + prev * (1 - 2/(1+period))` collected over
    /// the common denominator `period + 1`.
    pub fn calculate_ema(period: u64, close: &i64, prev_ema: &i64) -> (r: i64)
        requires
            1 <= period <= 1000,
            0 <= *close < PRICE_LIMIT,
            0 <= *prev_ema < PRICE_LIMIT,
        ensures
            r == ema_step_spec(period as int, *close as int, *prev_ema as int),
            0 <= r < PRICE_LIMIT,
    {
        let c = *close as u64;
        let p = *prev_ema as u64;
        proof {
            assert((period - 1) * p <= 1000 * (PRICE_LIMIT as int)) by (nonlinear_arith)
                requires
                    period <= 1000,
                    0 <= p < PRICE_LIMIT,
            ;
        }
        let numerator = 2 * c + (period - 1) * p;
        proof {
            assert(2 * c + (period - 1) * p < (period + 1) * (PRICE_LIMIT as int))
                by (nonlinear_arith)
                requires
                    1 <= period,
                    0 <= c < PRICE_LIMIT,
                    0 <= p < PRICE_LIMIT,
            ;
            lemma_multiply_divide_lt(numerator as int, (period + 1) as int, PRICE_LIMIT as int);
            lemma_div_pos_is_pos(numerator as int, (period + 1) as int);
        }
        let quotient = numerator / (period + 1);
        quotient as i64
    }

    /// The mean of the last `sma_length` closes, in the same fixed-point
    /// scale as the closes themselves.
    pub fn calculate_sma(stock_data: &Vec<StockDatum>, sma_length: usize) -> (r: i64)
        requires
            1 <= sma_length <= stock_data@.len(),
            stock_data@.len() <= WINDOW_LEN_LIMIT,
            forall|i: int|
                0 <= i < stock_data@.len() ==> bar_in_range(#[trigger] stock_data@[i]),
        ensures
            r == sum_closes(
                closes_of(stock_data@).subrange(
                    stock_data@.len() - sma_length,
                    stock_data@.len() as int,
                ),
            ) / sma_length as int,
            0 <= r < PRICE_LIMIT,
    {
        let length_stock_data: usize = stock_data.len();
        let start: usize = length_stock_data - sma_length;
        let mut sum: i64 = 0;
        let mut idx: usize = start;
        proof {
            assert(closes_of(stock_data@).subrange(start as int, start as int) =~= Seq::<
                i64,
            >::empty());
        }
        while idx < length_stock_data
            invariant
                start <= idx <= length_stock_data,
                length_stock_data == stock_data@.len() <= WINDOW_LEN_LIMIT,
                start == length_stock_data - sma_length,
                forall|i: int|
                    0 <= i < stock_data@.len() ==> bar_in_range(#[trigger] stock_data@[i]),
                sum == sum_closes(closes_of(stock_data@).subrange(start as int, idx as int)),
                0 <= sum <= (idx - start) * (PRICE_LIMIT - 1),
            decreases length_stock_data - idx,
        {
            let close = stock_data[idx].close;
            proof {
                let closes = closes_of(stock_data@);
                assert(closes.subrange(start as int, idx + 1) =~= closes.subrange(
                    start as int,
                    idx as int,
                ).push(closes[idx as int]));
                lemma_sum_closes_push(closes.subrange(start as int, idx as int), close);
                assert(bar_in_range(stock_data@[idx as int]));
                assert((idx + 1 - start) * (PRICE_LIMIT - 1) == (idx - start) * (PRICE_LIMIT - 1)
                    + (PRICE_LIMIT - 1)) by (nonlinear_arith);
                assert((idx + 1 - start) * (PRICE_LIMIT - 1) <= WINDOW_LEN_LIMIT * (PRICE_LIMIT
                    - 1)) by (nonlinear_arith)
                    requires
                        0 <= idx + 1 - start <= WINDOW_LEN_LIMIT,
                ;
            }
            sum = sum + close;
            idx = idx + 1;
        }
        proof {
            assert(sum < sma_length * PRICE_LIMIT);
            lemma_multiply_divide_lt(sum as int, sma_length as int, PRICE_LIMIT as int);
        }
        let quotient = (sum as u64) / (sma_length as u64);
        quotient as i64
    }

    /// The EMA pair the window would store for a bar closing at
    /// `last_close`: zero for each average while fewer bars than its
    /// period were seen. While exactly the period-th bar arrives, the SMA
    /// seed of the seeding rule is computed and immediately superseded by
    /// the plain EMA step on the previously stored value; the step, not
    /// the seed, decides the stored trajectory.
    pub fn calculate_emas(stock_data: &Vec<StockDatum>, last_close: &i64) -> (r: (i64, i64))
        requires
            stock_data@.len() <= WINDOW_LEN_LIMIT,
            0 <= *last_close < PRICE_LIMIT,
            forall|i: int|
                0 <= i < stock_data@.len() ==> bar_in_range(#[trigger] stock_data@[i]),
        ensures
            r.0 == next_ema9_spec(stock_data@, *last_close as int),
            r.1 == next_ema20_spec(stock_data@, *last_close as int),
            0 <= r.0 < PRICE_LIMIT,
            0 <= r.1 < PRICE_LIMIT,
    {
        let ema_9: i64;
        let ema_20: i64;
        let length_stock_data: usize = stock_data.len();

        if length_stock_data < 9 {
            ema_9 = 0;
        } else {
            let last_stock_idx = length_stock_data - 1;
            let last_ema_9 = stock_data[last_stock_idx].ema9;
            if length_stock_data == 9 {
                let _seed: i64 = Self::calculate_sma(stock_data, 9);
            }
            ema_9 = Self::calculate_ema(9, last_close, &last_ema_9);
        }

        if length_stock_data < 20 {
            ema_20 = 0;
        } else {
            let last_stock_idx = length_stock_data - 1;
            let last_ema_20 = stock_data[last_stock_idx].ema20;
            if length_stock_data == 20 {
                let _seed: i64 = Self::calculate_sma(stock_data, 20);
            }
            ema_20 = Self::calculate_ema(20, last_close, &last_ema_20);
        }

        (ema_9, ema_20)
    }

    /// Appends one fetched bar. The null sentinel is rejected by
    /// returning the zero quadruple without any mutation; a usable
    /// response has its EMA pair computed from the pre-append state, is
    /// appended, adds its volume to the running sum, and its high and low
    /// come back with the new EMAs.
    pub fn add_stock_data(&mut self, stock_data_response: &PriceDatum) -> (r: (i64, i64, i64, i64))
        requires
            old(self).wf(),
            old(self).stock_data@.len() < WINDOW_LEN_LIMIT,
            stock_data_response.spec_is_null() || 0 <= stock_data_response.close < PRICE_LIMIT,
            old(self).sum_volume + stock_data_response.volume <= u64::MAX,
        ensures
            final(self).wf(),
            stock_data_response.spec_is_null() ==> r == (0i64, 0i64, 0i64, 0i64) && *final(self)
                == *old(self),
            !stock_data_response.spec_is_null() ==> ({
                let bar = new_bar_spec(old(self).stock_data@, *stock_data_response);
                &&& final(self).stock_data@ == old(self).stock_data@.push(bar)
                &&& final(self).sum_volume == old(self).sum_volume
                    + stock_data_response.volume
                &&& r == (stock_data_response.high, stock_data_response.low, bar.ema9, bar.ema20)
                &&& final(self).name == old(self).name
                &&& final(self).stock_data_capacity == old(self).stock_data_capacity
                &&& final(self).daily_resistances == old(self).daily_resistances
                &&& final(self).daily_supports == old(self).daily_supports
                &&& final(self).high_low_queue == old(self).high_low_queue
                &&& final(self).current_trend == old(self).current_trend
            }),
    {
        if stock_data_response.is_null() {
            return (0, 0, 0, 0);
        }
        let last_close = &stock_data_response.close;
        let emas = Self::calculate_emas(&self.stock_data, last_close);
        let ema_9 = emas.0;
        let ema_20 = emas.1;

        let incoming_data = StockDatum {
            open: stock_data_response.open,
            high: stock_data_response.high,
            low: stock_data_response.low,
            close: stock_data_response.close,
            volume: stock_data_response.volume,
            ema9: ema_9,
            ema20: ema_20,
            timestamp: stock_data_response.timestamp,
            high_low_type: None,
        };

        self.stock_data.push(incoming_data);
        self.sum_volume = self.sum_volume + stock_data_response.volume;
        proof {
            lemma_sum_volumes_push(
                volumes_of(old(self).stock_data@),
                stock_data_response.volume,
            );
            assert(volumes_of(old(self).stock_data@.push(incoming_data)) =~= volumes_of(
                old(self).stock_data@,
            ).push(incoming_data.volume));
        }

        (stock_data_response.high, stock_data_response.low, ema_9, ema_20)
    }

    /// Evicts the oldest bar only while the window holds strictly more
    /// bars than its capacity, handing the bar to the caller and taking
    /// its volume out of the running sum; one eviction per call, and none
    /// at or under capacity.
    pub fn maybe_evict_if_over_cap(&mut self) -> (r: Option<StockDatum>)
        requires
            old(self).wf(),
        ensures
            final(self).wf(),
            old(self).stock_data@.len() <= old(self).stock_data_capacity ==> r is None && *final(self) == *old(self),
            old(self).stock_data@.len() > old(self).stock_data_capacity ==> ({
                &&& r == Some(old(self).stock_data@[0])
                &&& final(self).stock_data@ == old(self).stock_data@.drop_first()
                &&& final(self).sum_volume == old(self).sum_volume - old(self).stock_data@[0].volume
                &&& final(self).name == old(self).name
                &&& final(self).stock_data_capacity == old(self).stock_data_capacity
                &&& final(self).daily_resistances == old(self).daily_resistances
                &&& final(self).daily_supports == old(self).daily_supports
                &&& final(self).high_low_queue == old(self).high_low_queue
                &&& final(self).current_trend == old(self).current_trend
            }),
    {
        if self.stock_data.len() > self.stock_data_capacity as usize {
            let price_datum = self.stock_data.remove(0);
            proof {
                lemma_sum_volumes_drop_first(volumes_of(old(self).stock_data@));
                lemma_sum_volumes_nonneg(volumes_of(old(self).stock_data@).drop_first());
                assert(volumes_of(old(self).stock_data@)[0] == price_datum.volume);
                assert(old(self).stock_data@.remove(0) =~= old(self).stock_data@.drop_first());
                assert(volumes_of(old(self).stock_data@.drop_first()) =~= volumes_of(
                    old(self).stock_data@,
                ).drop_first());
            }
            self.sum_volume = self.sum_volume - price_datum.volume;
            return Some(price_datum);
        }
        None
    }

    /// Pops the oldest bar while over capacity, for callers that persist
    /// the evicted bar. The running sum follows the bars out, as the
    /// window invariant demands.
    pub fn pop_front_if_at_capacity(&mut self) -> (r: Option<StockDatum>)
        requires
            old(self).wf(),
        ensures
            final(self).wf(),
            old(self).stock_data@.len() <= old(self).stock_data_capacity ==> r is None && *final(self) == *old(self),
            old(self).stock_data@.len() > old(self).stock_data_capacity ==> ({
                &&& r == Some(old(self).stock_data@[0])
                &&& final(self).stock_data@ == old(self).stock_data@.drop_first()
                &&& final(self).sum_volume == old(self).sum_volume - old(self).stock_data@[0].volume
            }),
    {
        self.maybe_evict_if_over_cap()
    }

    /// The sum of the squares of the retained volumes, exact in 128 bits.
    fn sum_of_squared_volumes(stock_data: &Vec<StockDatum>) -> (q: u128)
        requires
            stock_data@.len() <= WINDOW_LEN_LIMIT,
            forall|i: int|
                0 <= i < stock_data@.len() ==> (#[trigger] stock_data@[i]).volume < VOLUME_LIMIT,
        ensures
            q as int == sum_squares(volumes_of(stock_data@)),
            q <= stock_data@.len() * 0x1_0000_0000_0000_0000,
    {
        let length: usize = stock_data.len();
        let mut q: u128 = 0;
        let mut idx: usize = 0;
        proof {
            assert(volumes_of(stock_data@).take(0) =~= Seq::<u64>::empty());
        }
        while idx < length
            invariant
                idx <= length == stock_data@.len() <= WINDOW_LEN_LIMIT,
                forall|i: int|
                    0 <= i < stock_data@.len() ==> (#[trigger] stock_data@[i]).volume
                        < VOLUME_LIMIT,
                q as int == sum_squares(volumes_of(stock_data@).take(idx as int)),
                q <= idx * 0x1_0000_0000_0000_0000,
            decreases length - idx,
        {
            let v = stock_data[idx].volume;
            proof {
                let vols = volumes_of(stock_data@);
                assert(vols.take(idx + 1) =~= vols.take(idx as int).push(vols[idx as int]));
                lemma_sum_squares_push(vols.take(idx as int), v);
                assert((v as int) * (v as int) < 0x1_0000_0000_0000_0000) by (nonlinear_arith)
                    requires
                        0 <= v < VOLUME_LIMIT,
                ;
                assert((idx + 1) * 0x1_0000_0000_0000_0000 == idx * 0x1_0000_0000_0000_0000
                    + 0x1_0000_0000_0000_0000) by (nonlinear_arith);
                assert((idx + 1) * 0x1_0000_0000_0000_0000 <= WINDOW_LEN_LIMIT
                    * 0x1_0000_0000_0000_0000) by (nonlinear_arith)
                    requires
                        0 <= idx + 1 <= WINDOW_LEN_LIMIT,
                ;
            }
            q = q + (v as u128) * (v as u128);
            idx = idx + 1;
        }
        proof {
            assert(volumes_of(stock_data@).take(length as int) =~= volumes_of(stock_data@));
        }
        q
    }

    /// The statistical volume-spike test over the entire retained window,
    /// with the multiplier `k` given in tenths (a multiplier over three,
    /// like an empty window, is a caller contract breach and is excluded
    /// here rather than detected at run time).
    ///
    /// The comparison `last > avg + k * stddev` is evaluated exactly: both
    /// sides are scaled by `10 * len` and squared, so no rounding decides.
    pub fn is_volume_spike(&self, k_tenths: u64) -> (r: bool)
        requires
            self.wf(),
            1 <= self.stock_data@.len() <= WINDOW_LEN_LIMIT,
            forall|i: int|
                0 <= i < self.stock_data@.len() ==> (#[trigger] self.stock_data@[i]).volume
                    < VOLUME_LIMIT,
            k_tenths <= 30,
        ensures
            r == volume_spike_spec(volumes_of(self.stock_data@), k_tenths as int),
    {
        let ghost vols = volumes_of(self.stock_data@);
        let n = self.stock_data.len();
        let s = self.sum_volume;
        let q = Self::sum_of_squared_volumes(&self.stock_data);
        let curr_vol = self.stock_data[n - 1].volume;
        proof {
            assert(vols.last() == curr_vol);
            lemma_sum_volumes_nonneg(vols);
            lemma_sum_volumes_bound(vols, VOLUME_LIMIT as int);
            assert((n as int) * (VOLUME_LIMIT as int) <= 0x10_0000 * 0x1_0000_0000)
                by (nonlinear_arith)
                requires
                    0 <= n <= 0x10_0000,
            ;
        }
        let n128 = n as u128;
        let s128 = s as u128;
        let k128 = k_tenths as u128;
        let curr128 = curr_vol as u128;
        proof {
            assert(n128 * curr128 < 0x10_0000 * 0x1_0000_0000) by (nonlinear_arith)
                requires
                    0 < n128 <= 0x10_0000,
                    0 <= curr128 < 0x1_0000_0000,
            ;
        }
        let ncurr = n128 * curr128;
        if ncurr <= s128 {
            return false;
        }
        let lhs = ncurr - s128;
        proof {
            assert(lhs * lhs < 0x1_0000_0000_0000_0000_0000_0000_0000) by (nonlinear_arith)
                requires
                    0 < lhs < 0x100_0000_0000_0000,
            ;
            assert(s128 * s128 < 0x1_0000_0000_0000_0000_0000_0000_0000) by (nonlinear_arith)
                requires
                    0 <= s128 < 0x100_0000_0000_0000,
            ;
            assert(k128 * k128 <= 900) by (nonlinear_arith)
                requires
                    0 <= k128 <= 30,
            ;
            assert(n128 * q <= 0x10_0000 * (0x10_0000 * 0x1_0000_0000_0000_0000))
                by (nonlinear_arith)
                requires
                    0 <= n128 <= 0x10_0000,
                    0 <= q <= 0x10_0000 * 0x1_0000_0000_0000_0000,
            ;
            assert(900 * (n128 * q) <= 900 * (0x10_0000 * (0x10_0000 * 0x1_0000_0000_0000_0000)))
                by (nonlinear_arith)
                requires
                    0 <= n128 * q <= 0x10_0000 * (0x10_0000 * 0x1_0000_0000_0000_0000),
            ;
            assert((k128 * k128) * (n128 * q) <= 900 * (n128 * q)) by (nonlinear_arith)
                requires
                    0 <= k128 * k128 <= 900,
                    0 <= n128 * q,
            ;
            assert((k128 * k128) * (s128 * s128) <= 900 * 0x1_0000_0000_0000_0000_0000_0000_0000)
                by (nonlinear_arith)
                requires
                    0 <= k128 * k128 <= 900,
                    0 <= s128 * s128 < 0x1_0000_0000_0000_0000_0000_0000_0000,
            ;
        }
        let left = 100 * (lhs * lhs);
        let right_s = (k128 * k128) * (s128 * s128);
        let right_q = (k128 * k128) * (n128 * q);
        let result = left + right_s > right_q;
        proof {
            let ni = n as int;
            let si = sum_volumes(vols);
            let qi = sum_squares(vols);
            let ki = k_tenths as int;
            let li = ni * (curr_vol as int) - si;
            assert(si == s as int);
            assert(li == lhs as int);
            assert(left as int == 100 * li * li) by (nonlinear_arith)
                requires
                    left as int == 100 * ((lhs as int) * (lhs as int)),
                    li == lhs as int,
            ;
            assert((ki * ki) * (ni * qi - si * si) == (ki * ki) * (ni * qi) - (ki * ki) * (si
                * si)) by (nonlinear_arith);
            assert(right_s as int == (ki * ki) * (si * si)) by (nonlinear_arith)
                requires
                    right_s as int == ((k_tenths as int) * (k_tenths as int)) * ((s as int) * (
                    s as int)),
                    ki == k_tenths as int,
                    si == s as int,
            ;
            assert(right_q as int == (ki * ki) * (ni * qi)) by (nonlinear_arith)
                requires
                    right_q as int == ((k_tenths as int) * (k_tenths as int)) * ((n as int) * (
                    q as int)),
                    ki == k_tenths as int,
                    ni == n as int,
                    qi == q as int,
            ;
            assert(100 * li * li > (ki * ki) * (ni * qi - si * si) <==> 100 * li * li + (ki * ki)
                * (si * si) > (ki * ki) * (ni * qi));
        }
        result
    }

    /// One analysis pass over the window: the statistical spike test with
    /// the fixed multiplier of three, gated to the configured opening and
    /// closing intervals (both interval bounds inclusive).
    pub fn analyze(&self, now_hour: u32, now_min: u32) -> (r: AlertCluster)
        requires
            self.wf(),
            1 <= self.stock_data@.len() <= WINDOW_LEN_LIMIT,
            forall|i: int|
                0 <= i < self.stock_data@.len() ==> (#[trigger] self.stock_data@[i]).volume
                    < VOLUME_LIMIT,
        ensures
            r.is_volume_spike == fireable_spec(
                volumes_of(self.stock_data@),
                30,
                now_hour as int,
                now_min as int,
            ),
    {
        let is_time_to_fire_volume_spike = (now_hour <= MIN_HOUR && now_min <= MIN_MINUTE) || (
        now_hour >= MAX_HOUR && now_min >= MAX_MIN);

        AlertClusterBuilder::new().set_is_volume_spike(
            self.is_volume_spike(30),
        ).filter_volume_spike(is_time_to_fire_volume_spike).build()
    }

    /// One full polling cycle for this instrument once its bar has been
    /// fetched: append the bar (a null sentinel appends nothing), evict
    /// if the window went over capacity, then analyze at the tick's time
    /// of day. Returns the append quadruple, the evicted bar if any, and
    /// the alert decision for this cycle.
    pub fn run_poll_cycle(&mut self, datum: &PriceDatum, now_hour: u32, now_min: u32) -> (r: (
        (i64, i64, i64, i64),
        Option<StockDatum>,
        AlertCluster,
    ))
        requires
            old(self).wf(),
            old(self).stock_data_capacity >= 1,
            old(self).stock_data@.len() < WINDOW_LEN_LIMIT,
            old(self).stock_data@.len() >= 1 || !datum.spec_is_null(),
            datum.spec_is_null() || 0 <= datum.close < PRICE_LIMIT,
            datum.spec_is_null() || datum.volume < VOLUME_LIMIT,
            forall|i: int|
                0 <= i < old(self).stock_data@.len() ==> (#[trigger] old(
                    self,
                ).stock_data@[i]).volume < VOLUME_LIMIT,
            old(self).sum_volume + datum.volume <= u64::MAX,
        ensures
            ({
                let bars0 = old(self).stock_data@;
                let bar = new_bar_spec(bars0, *datum);
                let bars1 = if datum.spec_is_null() {
                    bars0
                } else {
                    bars0.push(bar)
                };
                let over = bars1.len() > old(self).stock_data_capacity;
                let bars2 = if over {
                    bars1.drop_first()
                } else {
                    bars1
                };
                &&& final(self).wf()
                &&& final(self).stock_data@ == bars2
                &&& r.0 == if datum.spec_is_null() {
                    (0i64, 0i64, 0i64, 0i64)
                } else {
                    (datum.high, datum.low, bar.ema9, bar.ema20)
                }
                &&& r.1 == if over {
                    Some(bars1[0])
                } else {
                    None::<StockDatum>
                }
                &&& r.2.is_volume_spike == fireable_spec(
                    volumes_of(bars2),
                    30,
                    now_hour as int,
                    now_min as int,
                )
                &&& final(self).name == old(self).name
                &&& final(self).stock_data_capacity == old(self).stock_data_capacity
                &&& final(self).high_low_queue == old(self).high_low_queue
                &&& final(self).current_trend == old(self).current_trend
            }),
    {
        let quad = self.add_stock_data(datum);
        proof {
            assert forall|i: int|
                0 <= i < self.stock_data@.len() implies (#[trigger] self.stock_data@[i]).volume
                < VOLUME_LIMIT by {
                if i < old(self).stock_data@.len() {
                    assert(old(self).stock_data@[i].volume < VOLUME_LIMIT);
                }
            }
        }
        let evicted = self.maybe_evict_if_over_cap();
        proof {
            assert(self.stock_data@.len() >= 1);
            assert forall|i: int|
                0 <= i < self.stock_data@.len() implies (#[trigger] self.stock_data@[i]).volume
                < VOLUME_LIMIT by {}
        }
        let cluster = self.analyze(now_hour, now_min);
        (quad, evicted, cluster)
    }

    /// Replaces the retained bars with seed rows, one bar per row in
    /// order, and sets the running volume sum to match them, as the
    /// window invariant demands of every mutation.
    pub fn set_stock_data(&mut self, table: &Vec<RawDataTableRow>)
        requires
            table@.len() <= WINDOW_LEN_LIMIT,
            forall|i: int| 0 <= i < table@.len() ==> row_in_range(#[trigger] table@[i]),
        ensures
            final(self).stock_data@ == table@.map_values(|row: RawDataTableRow| datum_of_row(row)),
            final(self).wf(),
            final(self).name == old(self).name,
            final(self).stock_data_capacity == old(self).stock_data_capacity,
            final(self).daily_resistances == old(self).daily_resistances,
            final(self).daily_supports == old(self).daily_supports,
            final(self).high_low_queue == old(self).high_low_queue,
            final(self).current_trend == old(self).current_trend,
    {
        let table_len: usize = table.len();
        let mut stock_data_points: Vec<StockDatum> = Vec::new();
        let mut total_volume: u64 = 0;
        let mut idx: usize = 0;
        proof {
            assert(volumes_of(stock_data_points@) =~= Seq::<u64>::empty());
        }
        while idx < table_len
            invariant
                idx <= table_len == table@.len() <= WINDOW_LEN_LIMIT,
                forall|i: int| 0 <= i < table@.len() ==> row_in_range(#[trigger] table@[i]),
                stock_data_points@ == table@.subrange(0, idx as int).map_values(
                    |row: RawDataTableRow| datum_of_row(row),
                ),
                total_volume as int == sum_volumes(volumes_of(stock_data_points@)),
                total_volume <= idx * (VOLUME_LIMIT - 1),
            decreases table_len - idx,
        {
            let datum = StockDatum::from_hashmap(&table[idx]);
            proof {
                assert(row_in_range(table@[idx as int]));
                lemma_sum_volumes_push(volumes_of(stock_data_points@), datum.volume);
                assert(volumes_of(stock_data_points@.push(datum)) =~= volumes_of(
                    stock_data_points@,
                ).push(datum.volume));
                assert(table@.subrange(0, idx + 1).map_values(
                    |row: RawDataTableRow| datum_of_row(row),
                ) =~= table@.subrange(0, idx as int).map_values(
                    |row: RawDataTableRow| datum_of_row(row),
                ).push(datum_of_row(table@[idx as int])));
                assert((idx + 1) * (VOLUME_LIMIT - 1) == idx * (VOLUME_LIMIT - 1) + (VOLUME_LIMIT
                    - 1)) by (nonlinear_arith);
                assert((idx + 1) * (VOLUME_LIMIT - 1) <= WINDOW_LEN_LIMIT * (VOLUME_LIMIT - 1))
                    by (nonlinear_arith)
                    requires
                        0 <= idx + 1 <= WINDOW_LEN_LIMIT,
                ;
            }
            stock_data_points.push(datum);
            total_volume = total_volume + datum.volume;
            idx = idx + 1;
        }
        self.stock_data = stock_data_points;
        self.sum_volume = total_volume;
        proof {
            assert(table@.subrange(0, table_len as int) =~= table@);
            assert forall|i: int|
                0 <= i < self.stock_data@.len() implies bar_in_range(
                #[trigger] self.stock_data@[i],
            ) by {
                assert(row_in_range(table@[i]));
                assert(self.stock_data@[i] == datum_of_row(table@[i]));
            }
        }
    }
}

} // verus!
