//! Rolling-window stock analytics: per-instrument bar retention with
//! incremental aggregates, EMA indicators, a statistical volume-spike
//! alert gated by time of day, swing-pivot trend classification, and the
//! decision logic of the polling scheduler that drives a fetch cycle.

pub mod alert_cluster;
pub mod configs;
pub mod fetch_data;
pub mod indicator_math;
pub mod scheduler;
pub mod setup_stock_data;
pub mod stock;
pub mod trend;
