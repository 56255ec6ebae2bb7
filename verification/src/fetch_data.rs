//! The shape of one fetched bar and the checks applied to a provider
//! response before it reaches a window. The HTTP transfer itself lives
//! outside the library; it hands over plain values in these types.

use vstd::prelude::*;

verus! {

/// One aggregated price/volume bar for a time bucket. Prices are
/// fixed-point integers in the caller's sub-unit scale; `timestamp` is
/// milliseconds since the epoch.
#[derive(Clone, Copy, PartialEq, Eq, Structural, Debug)]
pub struct PriceDatum {
    pub open: i64,
    pub high: i64,
    pub low: i64,
    pub close: i64,
    pub volume: u64,
    pub timestamp: u64,
}

/// The sentinel meaning "no usable data this cycle": negative unit prices,
/// no volume, epoch timestamp. A window treats it as a no-op append.
pub open spec fn spec_null_datum() -> PriceDatum {
    PriceDatum { open: -1i64, high: -1i64, low: -1i64, close: -1i64, volume: 0u64, timestamp: 0u64 }
}

impl PriceDatum {
    /// Whether this bar is the "no usable data" sentinel.
    pub open spec fn spec_is_null(self) -> bool {
        self == spec_null_datum()
    }

    /// Runtime test for the "no usable data" sentinel.
    pub fn is_null(&self) -> (r: bool)
        ensures
            r == self.spec_is_null(),
    {
        self.open == -1 && self.high == -1 && self.low == -1 && self.close == -1 && self.volume
            == 0 && self.timestamp == 0
    }
}

/// Builds the "no usable data" sentinel bar.
pub fn null_stock_data_response() -> (r: PriceDatum)
    ensures
        r == spec_null_datum(),
{
    PriceDatum { open: -1, high: -1, low: -1, close: -1, volume: 0, timestamp: 0 }
}

/// One aggregate entry of a provider response, already carried as plain
/// values: `o`/`h`/`l`/`c` are fixed-point prices, `v` the traded volume,
/// `t` the bucket timestamp in milliseconds.
#[derive(Clone, Copy, PartialEq, Eq, Structural, Debug)]
pub struct PolygonAggregate {
    pub o: i64,
    pub h: i64,
    pub l: i64,
    pub c: i64,
    pub v: u64,
    pub t: u64,
}

/// A provider response: a run of aggregate entries, absent when the
/// provider had nothing for the requested range.
pub struct PolygonResponse {
    pub results: Option<Vec<PolygonAggregate>>,
}

/// Takes the last entry of a response and returns it as a [`PriceDatum`].
pub fn format_price_datum(polygon_response: &PolygonResponse) -> (r: PriceDatum)
    requires
        polygon_response.results matches Some(entries) && entries@.len() >= 1,
    ensures
        ({
            let entries = polygon_response.results->Some_0;
            let entry = entries@.last();
            r == PriceDatum {
                open: entry.o,
                high: entry.h,
                low: entry.l,
                close: entry.c,
                volume: entry.v,
                timestamp: entry.t,
            }
        }),
{
    let results = match &polygon_response.results {
        Some(entries) => entries,
        None => unreached(),
    };
    let entry = &results[results.len() - 1];
    PriceDatum {
        open: entry.o,
        high: entry.h,
        low: entry.l,
        close: entry.c,
        volume: entry.v,
        timestamp: entry.t,
    }
}

/// Whether a fetched response must be discarded and replaced by the null
/// sentinel: a failed transfer, a body that did not parse, or a parsed
/// body with no entries all map to "no usable data"; none is an error.
pub fn is_unusable_response(status_ok: bool, body_ok: bool, has_results: bool) -> (r: bool)
    ensures
        r == !(status_ok && body_ok && has_results),
{
    !status_ok || !body_ok || !has_results
}

} // verus!
