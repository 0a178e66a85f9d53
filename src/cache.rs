use vstd::prelude::*;

use crate::error::CapacityError;
use crate::listener::{EvictionListener, NoListener, RemovalCause};
use crate::store::{has_key, key_index, total_weight, without_key, Entry, Store};
use crate::sweep::{
    after_requests, effective_capacity, evict_count, evicted, lemma_after_requests_fits,
    lemma_swept_fits, notices_for, over_target, size_notices, swept,
};

verus! {

/// How many capacity requests may wait on the queue of a cache that was not
/// given a limit of its own.
pub const DEFAULT_PENDING_LIMIT: usize = 1024;

/// A snapshot of a cache's configuration.
pub struct Policy {
    max_capacity: Option<u64>,
}

impl Policy {
    /// The cache's published maximum capacity.
    pub fn max_capacity(&self) -> (r: Option<u64>)
        ensures
            r == self.max_capacity_spec(),
    {
        self.max_capacity
    }

    /// The maximum capacity that this snapshot holds.
    pub closed spec fn max_capacity_spec(&self) -> Option<u64> {
        self.max_capacity
    }
}

/// A bounded cache whose maximum weighted capacity can be changed while it
/// is in use.
///
/// Entries are kept in eviction order. A capacity change is applied either at
/// once (`set_max_capacity_block`) or by queueing it
/// (`set_max_capacity_async`) for the next maintenance pass
/// (`run_pending_tasks`). Each change is followed by a sweep that removes
/// entries from the front of the eviction order until the weighted size fits
/// the new capacity, and that hands each removed entry to the listener.
pub struct Cache<V, L> {
    store: Store<V>,
    max_capacity: u64,
    pending: Vec<u64>,
    pending_limit: usize,
    alive: bool,
    listener: L,
    notified: Ghost<Seq<(u64, RemovalCause)>>,
}

impl<V> Cache<V, NoListener> {
    /// An empty cache with the given maximum capacity and no listener.
    pub fn new(max_capacity: u64) -> (r: Self)
        ensures
            r.wf(),
            r.entries() == Seq::<Entry<V>>::empty(),
            r.capacity() == max_capacity,
            r.pending() == Seq::<u64>::empty(),
            r.pending_limit() == DEFAULT_PENDING_LIMIT,
            r.is_alive(),
            r.notified() == Seq::<(u64, RemovalCause)>::empty(),
    {
        Cache::with_listener(max_capacity, NoListener)
    }
}

impl<V, L: EvictionListener<V>> Cache<V, L> {
    /// The resident entries, in eviction order.
    pub closed spec fn entries(&self) -> Seq<Entry<V>> {
        self.store@
    }

    /// The published maximum capacity.
    pub closed spec fn capacity(&self) -> u64 {
        self.max_capacity
    }

    /// The queued capacity requests, oldest first.
    pub closed spec fn pending(&self) -> Seq<u64> {
        self.pending@
    }

    /// How many requests the queue takes.
    pub closed spec fn pending_limit(&self) -> usize {
        self.pending_limit
    }

    /// Whether the maintenance machinery is still running.
    pub closed spec fn is_alive(&self) -> bool {
        self.alive
    }

    /// Every notice handed to the listener so far, in order.
    pub closed spec fn notified(&self) -> Seq<(u64, RemovalCause)> {
        self.notified@
    }

    /// The cache's invariant.
    pub closed spec fn wf(&self) -> bool {
        &&& self.store.wf()
        &&& !self.alive ==> self.pending@.len() == 0
    }

    /// An empty cache with the given maximum capacity and listener.
    pub fn with_listener(max_capacity: u64, listener: L) -> (r: Self)
        ensures
            r.wf(),
            r.entries() == Seq::<Entry<V>>::empty(),
            r.capacity() == max_capacity,
            r.pending() == Seq::<u64>::empty(),
            r.pending_limit() == DEFAULT_PENDING_LIMIT,
            r.is_alive(),
            r.notified() == Seq::<(u64, RemovalCause)>::empty(),
    {
        Cache {
            store: Store::new(),
            max_capacity,
            pending: Vec::new(),
            pending_limit: DEFAULT_PENDING_LIMIT,
            alive: true,
            listener,
            notified: Ghost(Seq::empty()),
        }
    }

    /// The same cache, with a queue that takes `limit` requests.
    pub fn with_pending_limit(self, limit: usize) -> (r: Self)
        requires
            self.wf(),
        ensures
            r.wf(),
            r.entries() == self.entries(),
            r.capacity() == self.capacity(),
            r.pending() == self.pending(),
            r.pending_limit() == limit,
            r.is_alive() == self.is_alive(),
            r.notified() == self.notified(),
    {
        Cache { pending_limit: limit, ..self }
    }

    /// The cache's listener.
    pub fn listener(&self) -> &L {
        &self.listener
    }

    /// A snapshot of the cache's configuration.
    pub fn policy(&self) -> (r: Policy)
        ensures
            r.max_capacity_spec() == Some(self.capacity()),
    {
        Policy { max_capacity: Some(self.max_capacity) }
    }

    /// The number of resident entries.
    pub fn entry_count(&self) -> (r: u64)
        ensures
            r == self.entries().len(),
    {
        self.store.len() as u64
    }

    /// The sum of the weights of the resident entries.
    pub fn weighted_size(&self) -> (r: u64)
        requires
            self.wf(),
        ensures
            r == total_weight(self.entries()),
    {
        self.store.weighted_size()
    }

    /// Whether an entry with the key `key` is resident.
    pub fn contains_key(&self, key: u64) -> (r: bool)
        requires
            self.wf(),
        ensures
            r == has_key(self.entries(), key),
    {
        self.store.contains_key(key)
    }

    /// The value stored under `key`, if any.
    pub fn get(&self, key: u64) -> (r: Option<&V>)
        requires
            self.wf(),
        ensures
            r.is_some() == has_key(self.entries(), key),
            r matches Some(v) ==> *v == self.entries()[key_index(self.entries(), key)].value,
    {
        self.store.get(key)
    }
    /// Whether a sweep targeting `target` must still remove an entry.
    fn needs_sweep(&self, target: u64) -> (r: bool)
        requires
            self.wf(),
        ensures
            r == over_target(self.entries(), target as nat),
    {
        self.store.len() > 0 && (self.store.weighted_size() > target || target == 0)
    }

    /// Removes entries from the front of the eviction order until the
    /// weighted size fits `target` (until none is left, where `target` is
    /// zero), handing each to the listener.
    fn evict_to(&mut self, target: u64)
        requires
            old(self).wf(),
        ensures
            final(self).wf(),
            final(self).entries() == swept(old(self).entries(), target as nat),
            final(self).notified() == old(self).notified() + size_notices(
                evicted(old(self).entries(), target as nat),
            ),
            final(self).capacity() == old(self).capacity(),
            final(self).pending() == old(self).pending(),
            final(self).pending_limit() == old(self).pending_limit(),
            final(self).is_alive() == old(self).is_alive(),
    {
        let ghost start = self.store@;
        let ghost notified0 = self.notified@;
        let ghost t = target as nat;
        let mut k: usize = 0;
        let len: usize = self.store.len();
        proof {
            lemma_swept_fits(start, t);
        }
        let mut more = self.needs_sweep(target);
        while more
            invariant
                self.wf(),
                t == target as nat,
                more == over_target(self.store@, t),
                k <= start.len(),
                start.len() <= usize::MAX,
                evict_count(start, t) <= start.len(),
                self.store@ == start.skip(k as int),
                evict_count(start, t) == k + evict_count(self.store@, t),
                self.notified@ == notified0 + size_notices(start.take(k as int)),
                self.max_capacity == old(self).max_capacity,
                self.pending == old(self).pending,
                self.pending_limit == old(self).pending_limit,
                self.alive == old(self).alive,
            decreases self.store@.len(),
        {
            let ghost cur = self.store@;
            assert(evict_count(cur, t) == 1 + evict_count(cur.skip(1), t));
            let e = match self.store.pop_front() {
                Some(e) => e,
                None => {
                    return;
                },
            };
            let key = e.key;
            proof {
                assert(cur.skip(1) =~= start.skip(k + 1));
                assert(start.take(k + 1) =~= start.take(k as int).push(e));
                assert(size_notices(start.take(k + 1)) =~= size_notices(start.take(k as int)).push(
                    (key, RemovalCause::SizeConstraint),
                ));
                assert(notified0 + size_notices(start.take(k + 1)) =~= (notified0 + size_notices(
                    start.take(k as int),
                )).push((key, RemovalCause::SizeConstraint)));
            }
            self.listener.on_evict(key, e.value, RemovalCause::SizeConstraint);
            self.notified = Ghost(self.notified@.push((key, RemovalCause::SizeConstraint)));
            k = k + 1;
            more = self.needs_sweep(target);
        }
        assert(!over_target(self.store@, t));
    }

    /// Applies every queued request in order, each followed by its own sweep,
    /// and then `last` in the same way, leaving the queue empty.
    fn apply_requests(&mut self, last: u64)
        requires
            old(self).wf(),
        ensures
            final(self).wf(),
            final(self).entries() == after_requests(old(self).entries(), old(self).pending().push(last)),
            final(self).notified() == old(self).notified() + notices_for(
                old(self).entries(),
                old(self).pending().push(last),
            ),
            final(self).capacity() == last,
            final(self).pending() == Seq::<u64>::empty(),
            final(self).pending_limit() == old(self).pending_limit(),
            final(self).is_alive() == old(self).is_alive(),
    {
        let ghost start = self.store@;
        let ghost notified0 = self.notified@;
        let mut reqs: Vec<u64> = Vec::new();
        std::mem::swap(&mut reqs, &mut self.pending);
        let mut i: usize = 0;
        while i < reqs.len()
            invariant
                self.wf(),
                i <= reqs@.len(),
                reqs@ == old(self).pending(),
                self.store@ == after_requests(start, reqs@.take(i as int)),
                self.notified@ == notified0 + notices_for(start, reqs@.take(i as int)),
                self.pending@ == Seq::<u64>::empty(),
                self.pending_limit == old(self).pending_limit,
                self.alive == old(self).alive,
            decreases reqs@.len() - i,
        {
            let n = reqs[i];
            self.max_capacity = n;
            self.evict_to(n);
            proof {
                let prefix = reqs@.take(i + 1);
                assert(prefix.drop_last() =~= reqs@.take(i as int));
                assert(prefix.last() == n);
                let a = notices_for(start, reqs@.take(i as int));
                let b = size_notices(evicted(after_requests(start, reqs@.take(i as int)), n as nat));
                assert(notified0 + (a + b) =~= (notified0 + a) + b);
            }
            i = i + 1;
        }
        self.max_capacity = last;
        self.evict_to(last);
        proof {
            let all = reqs@.push(last);
            assert(reqs@.take(reqs@.len() as int) =~= reqs@);
            assert(all.drop_last() =~= reqs@);
            let a = notices_for(start, reqs@);
            let b = size_notices(evicted(after_requests(start, reqs@), last as nat));
            assert(notified0 + (a + b) =~= (notified0 + a) + b);
        }
    }

    /// Sets the maximum capacity to `n` and sweeps before returning. Requests
    /// still on the queue are applied first, in order, so that `n` is the last
    /// change made.
    pub fn set_max_capacity_block(&mut self, n: u64) -> (r: Result<(), CapacityError>)
        requires
            old(self).wf(),
        ensures
            final(self).wf(),
            !old(self).is_alive() ==> r == Err::<(), CapacityError>(CapacityError::CacheDropped)
                && *final(self) == *old(self),
            old(self).is_alive() ==> {
                &&& r == Ok::<(), CapacityError>(())
                &&& final(self).entries() == after_requests(
                    old(self).entries(),
                    old(self).pending().push(n),
                )
                &&& final(self).notified() == old(self).notified() + notices_for(
                    old(self).entries(),
                    old(self).pending().push(n),
                )
                &&& final(self).capacity() == n
                &&& final(self).pending() == Seq::<u64>::empty()
                &&& final(self).pending_limit() == old(self).pending_limit()
                &&& final(self).is_alive()
                &&& total_weight(final(self).entries()) <= n
                &&& n == 0 ==> final(self).entries().len() == 0
            },
    {
        if !self.alive {
            return Err(CapacityError::CacheDropped);
        }
        self.apply_requests(n);
        proof {
            lemma_after_requests_fits(old(self).entries(), old(self).pending().push(n));
        }
        Ok(())
    }

    /// The same as `set_max_capacity_block`.
    pub fn set_max_capacity(&mut self, n: u64) -> (r: Result<(), CapacityError>)
        requires
            old(self).wf(),
        ensures
            final(self).wf(),
            !old(self).is_alive() ==> r == Err::<(), CapacityError>(CapacityError::CacheDropped)
                && *final(self) == *old(self),
            old(self).is_alive() ==> {
                &&& r == Ok::<(), CapacityError>(())
                &&& final(self).entries() == after_requests(
                    old(self).entries(),
                    old(self).pending().push(n),
                )
                &&& final(self).notified() == old(self).notified() + notices_for(
                    old(self).entries(),
                    old(self).pending().push(n),
                )
                &&& final(self).capacity() == n
                &&& final(self).pending() == Seq::<u64>::empty()
                &&& final(self).pending_limit() == old(self).pending_limit()
                &&& final(self).is_alive()
                &&& total_weight(final(self).entries()) <= n
                &&& n == 0 ==> final(self).entries().len() == 0
            },
    {
        self.set_max_capacity_block(n)
    }

    /// Queues a request to set the maximum capacity to `n`, for the next
    /// maintenance pass to apply. Fails without waiting where the queue is
    /// full.
    pub fn set_max_capacity_async(&mut self, n: u64) -> (r: Result<(), CapacityError>)
        requires
            old(self).wf(),
        ensures
            final(self).wf(),
            !old(self).is_alive() ==> r == Err::<(), CapacityError>(CapacityError::CacheDropped),
            old(self).is_alive() && old(self).pending().len() >= old(self).pending_limit() ==> r
                == Err::<(), CapacityError>(CapacityError::ChannelError),
            r.is_err() ==> *final(self) == *old(self),
            old(self).is_alive() && old(self).pending().len() < old(self).pending_limit() ==> {
                &&& r == Ok::<(), CapacityError>(())
                &&& final(self).pending() == old(self).pending().push(n)
                &&& final(self).entries() == old(self).entries()
                &&& final(self).notified() == old(self).notified()
                &&& final(self).capacity() == old(self).capacity()
                &&& final(self).pending_limit() == old(self).pending_limit()
                &&& final(self).is_alive()
            },
    {
        if !self.alive {
            return Err(CapacityError::CacheDropped);
        }
        if self.pending.len() >= self.pending_limit {
            return Err(CapacityError::ChannelError);
        }
        self.pending.push(n);
        Ok(())
    }

    /// Runs one maintenance pass: applies every queued request in order, each
    /// followed by its own sweep, then sweeps once more to the capacity in
    /// force, which also removes what was inserted since the last pass.
    pub fn run_pending_tasks(&mut self)
        requires
            old(self).wf(),
        ensures
            final(self).wf(),
            !old(self).is_alive() ==> *final(self) == *old(self),
            old(self).is_alive() ==> {
                let reqs = old(self).pending().push(
                    effective_capacity(old(self).capacity(), old(self).pending()),
                );
                &&& final(self).entries() == after_requests(old(self).entries(), reqs)
                &&& final(self).notified() == old(self).notified() + notices_for(
                    old(self).entries(),
                    reqs,
                )
                &&& final(self).capacity() == effective_capacity(
                    old(self).capacity(),
                    old(self).pending(),
                )
                &&& final(self).pending() == Seq::<u64>::empty()
                &&& final(self).pending_limit() == old(self).pending_limit()
                &&& final(self).is_alive()
                &&& total_weight(final(self).entries()) <= final(self).capacity()
                &&& final(self).capacity() == 0 ==> final(self).entries().len() == 0
            },
    {
        if !self.alive {
            return;
        }
        let last = match self.pending.last() {
            Some(n) => *n,
            None => self.max_capacity,
        };
        self.apply_requests(last);
        proof {
            let reqs = old(self).pending().push(last);
            lemma_after_requests_fits(old(self).entries(), reqs);
        }
    }

    /// Tears down the maintenance machinery: queued requests are dropped, and
    /// later capacity changes fail with `CacheDropped`.
    pub fn close(&mut self)
        requires
            old(self).wf(),
        ensures
            final(self).wf(),
            !final(self).is_alive(),
            final(self).pending() == Seq::<u64>::empty(),
            final(self).entries() == old(self).entries(),
            final(self).capacity() == old(self).capacity(),
            final(self).pending_limit() == old(self).pending_limit(),
            final(self).notified() == old(self).notified(),
    {
        self.alive = false;
        self.pending = Vec::new();
    }

    /// Stores `value` under `key` with weight one; see `insert_with_weight`.
    pub fn insert(&mut self, key: u64, value: V) -> (r: bool)
        requires
            old(self).wf(),
        ensures
            final(self).wf(),
            r == (total_weight(without_key(old(self).entries(), key)) + 1 <= u64::MAX),
            r ==> final(self).entries() == without_key(old(self).entries(), key).push(
                Entry { key, value, weight: 1 },
            ),
            !r ==> final(self).entries() == old(self).entries(),
            final(self).capacity() == old(self).capacity(),
            final(self).pending() == old(self).pending(),
            final(self).pending_limit() == old(self).pending_limit(),
            final(self).is_alive() == old(self).is_alive(),
            final(self).notified() == old(self).notified(),
    {
        self.insert_with_weight(key, value, 1)
    }

    /// Stores `value` under `key` with the given weight, at the back of the
    /// eviction order, in place of any entry with that key. The capacity is
    /// not enforced here: the next sweep does that. Nothing changes, and
    /// `false` comes back, where the weighted size would not fit in a `u64`.
    pub fn insert_with_weight(&mut self, key: u64, value: V, weight: u64) -> (r: bool)
        requires
            old(self).wf(),
        ensures
            final(self).wf(),
            r == (total_weight(without_key(old(self).entries(), key)) + weight <= u64::MAX),
            r ==> final(self).entries() == without_key(old(self).entries(), key).push(
                Entry { key, value, weight },
            ),
            !r ==> final(self).entries() == old(self).entries(),
            final(self).capacity() == old(self).capacity(),
            final(self).pending() == old(self).pending(),
            final(self).pending_limit() == old(self).pending_limit(),
            final(self).is_alive() == old(self).is_alive(),
            final(self).notified() == old(self).notified(),
    {
        self.store.insert(key, value, weight)
    }

    /// Takes out the entry with the key `key` and returns its value, if one
    /// is resident. The listener hears only of removals for size.
    pub fn remove(&mut self, key: u64) -> (r: Option<V>)
        requires
            old(self).wf(),
        ensures
            final(self).wf(),
            r.is_some() == has_key(old(self).entries(), key),
            r matches Some(v) ==> v == old(self).entries()[key_index(old(self).entries(), key)].value,
            final(self).entries() == without_key(old(self).entries(), key),
            final(self).capacity() == old(self).capacity(),
            final(self).pending() == old(self).pending(),
            final(self).pending_limit() == old(self).pending_limit(),
            final(self).is_alive() == old(self).is_alive(),
            final(self).notified() == old(self).notified(),
    {
        match self.store.remove(key) {
            Some(e) => Some(e.value),
            None => None,
        }
    }
}

} // verus!
