use vstd::prelude::*;

use crate::listener::RemovalCause;
use crate::store::{total_weight, Entry};
use crate::sweep::{
    after_requests, effective_capacity, evict_count, evicted, lemma_swept_fits, notices_for,
    over_target, size_notices, swept,
};

verus! {

/// What is left of `s` after the capacities `reqs` have been set one at a
/// time by blocking calls, each on an empty queue.
pub open spec fn one_by_one<V>(s: Seq<Entry<V>>, reqs: Seq<u64>) -> Seq<Entry<V>>
    decreases reqs.len(),
{
    if reqs.len() == 0 {
        s
    } else {
        after_requests(one_by_one(s, reqs.drop_last()), Seq::<u64>::empty().push(reqs.last()))
    }
}

/// The notices that those blocking calls hand to the listener.
pub open spec fn one_by_one_notices<V>(s: Seq<Entry<V>>, reqs: Seq<u64>) -> Seq<
    (u64, RemovalCause),
>
    decreases reqs.len(),
{
    if reqs.len() == 0 {
        Seq::empty()
    } else {
        one_by_one_notices(s, reqs.drop_last()) + notices_for(
            one_by_one(s, reqs.drop_last()),
            Seq::<u64>::empty().push(reqs.last()),
        )
    }
}

/// Every entry of `s` has weight one.
pub open spec fn unit_weights<V>(s: Seq<Entry<V>>) -> bool {
    forall|i: int| 0 <= i < s.len() ==> s[i].weight == 1
}

/// A sweep of what already fits its target removes nothing.
proof fn lemma_sweep_of_fitting<V>(s: Seq<Entry<V>>, n: u64)
    requires
        !over_target(s, n as nat),
    ensures
        after_requests(s, Seq::<u64>::empty().push(n)) == s,
        notices_for(s, Seq::<u64>::empty().push(n)) == Seq::<(u64, RemovalCause)>::empty(),
{
    let one = Seq::<u64>::empty().push(n);
    assert(one.drop_last() =~= Seq::<u64>::empty());
    assert(one.last() == n);
    assert(after_requests(s, one.drop_last()) == s);
    assert(notices_for(s, one.drop_last()) == Seq::<(u64, RemovalCause)>::empty());
    assert(evict_count(s, n as nat) == 0);
    assert(swept(s, n as nat) =~= s);
    assert(size_notices(evicted(s, n as nat)) =~= Seq::<(u64, RemovalCause)>::empty());
    assert(Seq::<(u64, RemovalCause)>::empty() + Seq::<(u64, RemovalCause)>::empty()
        =~= Seq::<(u64, RemovalCause)>::empty());
}

/// Setting the same capacity twice in a row by blocking calls, with nothing
/// inserted between them, evicts nothing the second time, and leaves the
/// weighted size within the capacity after each call.
pub proof fn lemma_repeated_block_evicts_nothing<V>(s: Seq<Entry<V>>, pending: Seq<u64>, n: u64)
    ensures
        ({
            let once = after_requests(s, pending.push(n));
            &&& total_weight(once) <= n
            &&& after_requests(once, Seq::<u64>::empty().push(n)) == once
            &&& notices_for(once, Seq::<u64>::empty().push(n)) == Seq::<(u64, RemovalCause)>::empty()
        }),
{
    let once = after_requests(s, pending.push(n));
    assert(pending.push(n).drop_last() =~= pending);
    lemma_swept_fits(after_requests(s, pending), n as nat);
    lemma_sweep_of_fitting(once, n);
}

/// With unit weights, the total weight is the number of entries.
proof fn lemma_unit_total_weight<V>(s: Seq<Entry<V>>)
    requires
        unit_weights(s),
    ensures
        total_weight(s) == s.len(),
    decreases s.len(),
{
    if s.len() > 0 {
        lemma_unit_total_weight(s.drop_last());
    }
}

/// With unit weights, a sweep to a target no larger than the number of
/// entries removes exactly the surplus.
proof fn lemma_unit_evict_count<V>(s: Seq<Entry<V>>, c: nat)
    requires
        unit_weights(s),
        c <= s.len(),
    ensures
        evict_count(s, c) == s.len() - c,
    decreases s.len(),
{
    lemma_unit_total_weight(s);
    if s.len() > c {
        lemma_unit_evict_count(s.skip(1), c);
    }
}

/// With `n` resident entries of weight one, a blocking call to capacity
/// `c` no larger than `n`, on an empty queue, hands the listener exactly
/// `n - c` notices, each for size, and leaves `c` entries. The capacity in
/// force before the call plays no part.
pub proof fn lemma_unit_weight_shrink<V>(s: Seq<Entry<V>>, c: u64)
    requires
        unit_weights(s),
        c <= s.len(),
    ensures
        ({
            let reqs = Seq::<u64>::empty().push(c);
            let notices = notices_for(s, reqs);
            &&& notices.len() == s.len() - c
            &&& forall|i: int| 0 <= i < notices.len() ==> notices[i].1 == RemovalCause::SizeConstraint
            &&& after_requests(s, reqs).len() == c
        }),
{
    let reqs = Seq::<u64>::empty().push(c);
    assert(reqs.drop_last() =~= Seq::<u64>::empty());
    assert(reqs.last() == c);
    assert(after_requests(s, reqs.drop_last()) == s);
    assert(notices_for(s, reqs.drop_last()) == Seq::<(u64, RemovalCause)>::empty());
    lemma_unit_evict_count(s, c as nat);
    let notices = notices_for(s, reqs);
    assert(notices =~= size_notices(evicted(s, c as nat)));
}

/// Applying requests one at a time by blocking calls gives the same entries
/// and the same notices as queueing them all and applying them in one batch.
proof fn lemma_one_by_one<V>(s: Seq<Entry<V>>, reqs: Seq<u64>)
    ensures
        after_requests(s, reqs) == one_by_one(s, reqs),
        notices_for(s, reqs) == one_by_one_notices(s, reqs),
    decreases reqs.len(),
{
    if reqs.len() > 0 {
        let d = reqs.drop_last();
        let l = reqs.last();
        lemma_one_by_one(s, d);
        let one = Seq::<u64>::empty().push(l);
        let x = after_requests(s, d);
        assert(one.drop_last() =~= Seq::<u64>::empty());
        assert(one.last() == l);
        assert(after_requests(x, one.drop_last()) == x);
        assert(notices_for(x, one.drop_last()) == Seq::<(u64, RemovalCause)>::empty());
        let step = size_notices(evicted(x, l as nat));
        assert(Seq::<(u64, RemovalCause)>::empty() + step =~= step);
    }
}

/// Queueing capacity requests from one producer and then running the
/// pending tasks ends in the same entries, the same capacity and the same
/// notices as issuing the requests one at a time as blocking calls; each
/// request meets the same entries in both, so each evicts the same number.
pub proof fn lemma_queued_matches_blocking<V>(s: Seq<Entry<V>>, cap: u64, reqs: Seq<u64>)
    requires
        reqs.len() > 0,
    ensures
        effective_capacity(cap, reqs) == reqs.last(),
        after_requests(s, reqs.push(effective_capacity(cap, reqs))) == one_by_one(s, reqs),
        notices_for(s, reqs.push(effective_capacity(cap, reqs))) == one_by_one_notices(s, reqs),
        forall|i: int|
            0 <= i <= reqs.len() ==> #[trigger] after_requests(s, reqs.take(i)) == one_by_one(
                s,
                reqs.take(i),
            ) && notices_for(s, reqs.take(i)) == one_by_one_notices(s, reqs.take(i)),
{
    let l = reqs.last();
    let all = reqs.push(l);
    assert(all.drop_last() =~= reqs);
    assert(reqs =~= reqs.drop_last().push(l));
    lemma_swept_fits(after_requests(s, reqs.drop_last()), l as nat);
    let y = after_requests(s, reqs);
    assert(evict_count(y, l as nat) == 0);
    assert(swept(y, l as nat) =~= y);
    assert(size_notices(evicted(y, l as nat)) =~= Seq::<(u64, RemovalCause)>::empty());
    assert(notices_for(s, reqs) + Seq::<(u64, RemovalCause)>::empty() =~= notices_for(s, reqs));
    lemma_one_by_one(s, reqs);
    assert forall|i: int| 0 <= i <= reqs.len() implies #[trigger] after_requests(
        s,
        reqs.take(i),
    ) == one_by_one(s, reqs.take(i)) && notices_for(s, reqs.take(i)) == one_by_one_notices(
        s,
        reqs.take(i),
    ) by {
        lemma_one_by_one(s, reqs.take(i));
    }
}

} // verus!
