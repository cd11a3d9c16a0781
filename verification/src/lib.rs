//! Storage backend of the timeseries database, over SlateDB.
//!
//! The crate holds every decision of the backend and none of its I/O: the
//! value types, the batches that writes turn into, the meaning of what SlateDB
//! answers, and the order in which a storage is put together.
//!
//! - [`ops`]: what is written, what is read, what comes back.
//! - [`batch`]: the batches that writes turn into.
//! - [`slate`]: what is asked of SlateDB, and what its answers mean.
//! - [`scan`]: collecting all records of a range.
//! - [`factory`]: putting a storage together from its configuration.
//! - [`laws`]: what holds of the backend as a whole.
//! - [`text`]: searching in text, and how text displays.
//! - [`outside`]: what is taken on trust from other crates.

pub mod batch;
pub mod factory;
pub mod laws;
pub mod ops;
pub mod outside;
pub mod scan;
pub mod slate;
pub mod text;
