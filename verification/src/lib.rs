//! Core logic of an object-storage load-generation harness.
//!
//! The library holds the decision and accounting logic of the benchmark:
//! payload chunking and multipart part ordering, admission-control state,
//! the driver phase machine, pagination accounting, object-key construction,
//! and statistics aggregation. The asynchronous storage calls themselves are
//! made by a thin unverified shell around this crate.

pub mod config;
pub mod driver;
pub mod gate;
pub mod keys;
pub mod listing;
pub mod multipart;
pub mod payload;
pub mod stats;

pub use driver::PutPath;
pub use stats::OperationOutcome;
pub use stats::RunStats;
