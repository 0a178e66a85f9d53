//! Dynamic capacity control for a bounded, weighted in-memory cache.
//!
//! The cache's maximum weighted capacity can be changed at any time, either
//! at once (a blocking change, which sweeps before it returns) or through a
//! queue of pending requests that a maintenance pass applies in order. Every
//! entry that a sweep removes is handed to the cache's eviction listener.
use vstd::prelude::*;

pub mod cache;
pub mod error;
pub mod laws;
pub mod listener;
pub mod store;
pub mod sweep;
