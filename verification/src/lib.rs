//! Batch retrieval of medical imaging series from an imaging server.
//!
//! The crate covers the decision core of a bulk downloader: classifying
//! series against inclusion rules, building download plans with
//! collision-avoiding folder names, driving bounded-retry instance
//! downloads, polling asynchronous move jobs, and folding per-instance
//! outcomes into per-series and per-accession status reports.  Network
//! and filesystem access stay outside; the library works on plain values
//! handed in by its callers.

pub mod text;
pub mod names;
pub mod config;
pub mod retry;
pub mod jobs;
pub mod process;
pub mod plan;
pub mod gateway;
pub mod input;
pub mod convert;
pub mod checker;
