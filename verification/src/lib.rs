//! Core of a service that serves a randomly chosen artwork from a curated
//! registry of source links.
//!
//! The library holds the verified logic of that service: the registry of
//! known art entries with its idempotent incremental reload, the per-site
//! protocols that turn a source page link into a direct image link (with
//! retry and cross-site fallback decisions modelled as a step machine that a
//! host drives), and the memoizing cache of resolved links.  Network I/O and
//! page rendering are left to the host program; the library tells it what to
//! fetch and decides what each response means.

pub mod cache;
pub mod error;
pub mod registry;
pub mod resolve;
pub mod state;
pub mod text;
pub mod url;
