use vstd::prelude::*;

verus! {

/// Why an entry left the cache.
#[derive(Debug, Clone, Copy, PartialEq, Eq, Structural)]
pub enum RemovalCause {
    /// A sweep removed it to bring the weighted size within the capacity.
    SizeConstraint,
}

/// An observer of the entries that capacity sweeps remove.
///
/// The cache calls `on_evict` once per removed entry, in the order of
/// removal, from the maintenance pass that removed it. What the listener
/// does with the notice is its own affair: the sweep goes on whatever it does.
pub trait EvictionListener<V> {
    /// Receives one removed entry and the cause of its removal.
    fn on_evict(&mut self, key: u64, value: V, cause: RemovalCause);
}

/// The listener of a cache built without one: it ignores every notice.
pub struct NoListener;

impl<V> EvictionListener<V> for NoListener {
    fn on_evict(&mut self, key: u64, value: V, cause: RemovalCause) {
    }
}

} // verus!
