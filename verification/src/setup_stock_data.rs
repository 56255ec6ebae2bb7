//! Start-up construction of the per-instrument registry: one empty
//! window per tracked ticker, owned by the caller and passed by handle,
//! with no process-wide state.

use vstd::prelude::*;

verus! {

use crate::configs::QUEUE_CAPACITY;
use crate::stock::{StockData, StockDatum, Trend};

/// One empty window per ticker, in the order given, each with the
/// default retention capacity. Seeding from persisted history, where a
/// deployment has any, happens afterwards through
/// [`StockData::set_stock_data`].
pub fn setup_stock_data(tickers: &Vec<&str>) -> (r: Vec<StockData>)
    ensures
        r@.len() == tickers@.len(),
        forall|i: int|
            0 <= i < r@.len() ==> {
                let w = #[trigger] r@[i];
                &&& w.name@ == tickers@[i]@
                &&& w.stock_data@ == Seq::<StockDatum>::empty()
                &&& w.stock_data_capacity == QUEUE_CAPACITY
                &&& w.current_trend == Trend::UNKNOWN
                &&& w.high_low_queue@ == Seq::<StockDatum>::empty()
                &&& w.sum_volume == 0
                &&& w.wf()
            },
{
    let ticker_count: usize = tickers.len();
    let mut res: Vec<StockData> = Vec::new();
    let mut idx: usize = 0;
    while idx < ticker_count
        invariant
            idx <= ticker_count == tickers@.len(),
            windows_built_spec(res@, tickers@, idx as int),
        decreases ticker_count - idx,
    {
        let name = tickers[idx].to_owned();
        res.push(StockData::new(name, QUEUE_CAPACITY));
        idx = idx + 1;
    }
    res
}

/// The loop invariant of [`setup_stock_data`]: the first `n` windows are
/// built, empty and well formed, one per ticker in order.
pub open spec fn windows_built_spec(built: Seq<StockData>, tickers: Seq<&str>, n: int) -> bool {
    &&& built.len() == n
    &&& forall|i: int|
        0 <= i < n ==> {
            let w = #[trigger] built[i];
            &&& w.name@ == tickers[i]@
            &&& w.stock_data@ == Seq::<StockDatum>::empty()
            &&& w.stock_data_capacity == QUEUE_CAPACITY
            &&& w.current_trend == Trend::UNKNOWN
            &&& w.high_low_queue@ == Seq::<StockDatum>::empty()
            &&& w.sum_volume == 0
            &&& w.wf()
        }
}

} // verus!
