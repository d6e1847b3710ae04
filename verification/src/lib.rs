//! A small availability-monitor core: a metrics registry of counters,
//! gauges and latency histograms keyed by endpoint labels, the record
//! step of the per-endpoint probe loop, the host-sampler step, and a
//! renderer for the metrics exposition text format.
pub mod counter;
pub mod gauge;
pub mod laws;
pub mod histogram;
pub mod registry;
pub mod render;
pub mod text;
