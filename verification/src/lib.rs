//! A verified core for a VATSIM status exporter.
//!
//! The library models the upstream status document, decides when a cached
//! snapshot is stale, reconciles a conditional fetch result with the cache,
//! and projects one snapshot into a deterministic set of metric samples.
//! Transport, serialization and the metric registry live outside the library.

use vstd::prelude::*;

pub mod cache;
mod config;
pub mod projector;
pub mod timestamp;
pub mod vatsim;

pub use config::Config;

verus! {

} // verus!
