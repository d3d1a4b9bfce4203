//! A benchmarking harness for a remote statistics service: typed workload
//! parsing, latency decomposition, per-zone result records, bounded dispatch
//! and the server-side validation and timing contract.

pub mod decimal;
pub mod latency;
pub mod workload;
pub mod gate;
pub mod dispatcher;
pub mod server;
pub mod zone_log;
