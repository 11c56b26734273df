//! A small map-then-reduce framework over sets of delimited tabular files.
//!
//! For each input file the framework derives a summary path, prepares the
//! output location, and runs a caller-supplied per-file summarization step,
//! optionally on a bounded pool of worker threads.  A second, sequential pass
//! discovers the materialized summary files and folds them into one aggregate
//! artifact through caller-supplied fold and write steps.

pub mod config;
pub mod discovery;
pub mod engine;
pub mod errors;
pub mod paths;
pub mod prepare;

pub use config::Config;
pub use engine::KRNSMovementOperator;
pub use engine::PreparedTask;
pub use engine::aggregate_prepared;
pub use engine::run_map_stage;
pub use errors::EngineError;
