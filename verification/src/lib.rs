//! A bounded, CPU-bound batch-processing engine.
//!
//! The engine synthesizes a batch of independent work items, hashes each of
//! them with bcrypt either sequentially or on a fixed-size global worker
//! pool, and reports how the batch was executed: how many items were
//! processed, which mode was effective, how many workers were configured and
//! how many distinct threads actually touched the data.

pub mod dispatch;
pub mod errors;
pub mod labels;
pub mod metrics;
pub mod numbers;
pub mod pool;
pub mod processor;
pub mod workload;
