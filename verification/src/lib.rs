//! Resumable batch downloader for a remote album catalog.
//!
//! The library holds the decision logic of the pipeline: which albums need
//! work, which download tasks a stage produces, when a completion marker may
//! be committed, and how the worker pool bounds its concurrency.  All
//! filesystem and network activity is performed by a thin shell around the
//! library, which feeds observations in and carries planned actions out.

pub mod catalog;
pub mod errors;
pub mod layout;
pub mod plan;
pub mod pool;
pub mod sanitize;
pub mod tracker;

pub use errors::MsmdError;
pub use pool::clamp_concurrency;
pub use tracker::Markers;
pub use tracker::Stage;
