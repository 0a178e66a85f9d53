use vstd::prelude::*;

use crate::listener::RemovalCause;
use crate::store::{total_weight, Entry};

verus! {

/// Whether a sweep targeting `target` must still remove an entry from `s`:
/// the weight exceeds the target, or the target is zero and `s` holds
/// anything at all.
pub open spec fn over_target<V>(s: Seq<Entry<V>>, target: nat) -> bool {
    s.len() > 0 && (total_weight(s) > target || target == 0)
}

/// How many entries a sweep targeting `target` removes from the front of `s`.
pub open spec fn evict_count<V>(s: Seq<Entry<V>>, target: nat) -> nat
    decreases s.len(),
{
    if over_target(s, target) {
        1 + evict_count(s.skip(1), target)
    } else {
        0
    }
}

/// What a sweep targeting `target` leaves of `s`.
pub open spec fn swept<V>(s: Seq<Entry<V>>, target: nat) -> Seq<Entry<V>> {
    s.skip(evict_count(s, target) as int)
}

/// What a sweep targeting `target` removes from `s`, in order of removal.
pub open spec fn evicted<V>(s: Seq<Entry<V>>, target: nat) -> Seq<Entry<V>> {
    s.take(evict_count(s, target) as int)
}

/// The notices that removing `s` for size hands to the listener.
pub open spec fn size_notices<V>(s: Seq<Entry<V>>) -> Seq<(u64, RemovalCause)> {
    s.map_values(|e: Entry<V>| (e.key, RemovalCause::SizeConstraint))
}

/// What is left of `s` after the capacity requests `reqs` have been applied
/// in order, each followed by its own sweep.
pub open spec fn after_requests<V>(s: Seq<Entry<V>>, reqs: Seq<u64>) -> Seq<Entry<V>>
    decreases reqs.len(),
{
    if reqs.len() == 0 {
        s
    } else {
        swept(after_requests(s, reqs.drop_last()), reqs.last() as nat)
    }
}

/// The notices that applying the requests `reqs` to `s` hands to the listener.
pub open spec fn notices_for<V>(s: Seq<Entry<V>>, reqs: Seq<u64>) -> Seq<(u64, RemovalCause)>
    decreases reqs.len(),
{
    if reqs.len() == 0 {
        Seq::empty()
    } else {
        notices_for(s, reqs.drop_last()) + size_notices(
            evicted(after_requests(s, reqs.drop_last()), reqs.last() as nat),
        )
    }
}

/// The capacity in force once the requests `reqs` have been applied to a
/// cache whose capacity was `cap`.
pub open spec fn effective_capacity(cap: u64, reqs: Seq<u64>) -> u64 {
    if reqs.len() == 0 {
        cap
    } else {
        reqs.last()
    }
}

/// A sweep removes a prefix of `s`, and what it leaves is within the target.
pub proof fn lemma_swept_fits<V>(s: Seq<Entry<V>>, target: nat)
    ensures
        evict_count(s, target) <= s.len(),
        !over_target(swept(s, target), target),
        total_weight(swept(s, target)) <= target,
        target == 0 ==> swept(s, target).len() == 0,
    decreases s.len(),
{
    if over_target(s, target) {
        lemma_swept_fits(s.skip(1), target);
        assert(swept(s, target) =~= swept(s.skip(1), target));
    } else {
        assert(swept(s, target) =~= s);
        if s.len() == 0 {
            assert(total_weight(s) == 0);
        }
    }
}

/// Applying requests leaves the cache within the last requested capacity.
pub proof fn lemma_after_requests_fits<V>(s: Seq<Entry<V>>, reqs: Seq<u64>)
    requires
        reqs.len() > 0,
    ensures
        total_weight(after_requests(s, reqs)) <= reqs.last(),
        reqs.last() == 0 ==> after_requests(s, reqs).len() == 0,
{
    lemma_swept_fits(after_requests(s, reqs.drop_last()), reqs.last() as nat);
}

} // verus!
