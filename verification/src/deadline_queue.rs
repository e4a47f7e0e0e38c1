//! The queue of pending wake requests, kept by `embassy_time_queue_utils`
//! in its generic form of a fixed capacity. The contracts speak of the
//! expirations that the queue holds, as a multiset: the wakers themselves
//! stay opaque.

use core::task::Waker;
use embassy_time_queue_utils::Queue;
use vstd::multiset::Multiset;
use vstd::prelude::*;

verus! {

/// `embassy_time_queue_utils::Queue`, carried as an opaque value.
#[verifier::external_type_specification]
#[verifier::external_body]
pub struct ExQueue(Queue);

/// `core::task::Waker`, carried as an opaque value.
#[verifier::external_type_specification]
#[verifier::external_body]
pub struct ExWaker(Waker);

/// The expirations of the wake requests that a queue holds.
pub uninterp spec fn queue_deadlines(queue: Queue) -> Multiset<u64>;

/// The requests of `pending` that have expired at `now`: those are woken.
pub open spec fn expired_at(pending: Multiset<u64>, now: u64) -> Multiset<u64> {
    pending.filter(|d: u64| d <= now)
}

/// The requests of `pending` that expire strictly after `now`: those stay.
pub open spec fn pending_after(pending: Multiset<u64>, now: u64) -> Multiset<u64> {
    pending.filter(|d: u64| d > now)
}

/// `next` is the earliest expiration in `pending`, or `u64::MAX` where
/// nothing is pending.
pub open spec fn is_earliest(pending: Multiset<u64>, next: u64) -> bool {
    &&& forall|d: u64| pending.contains(d) ==> next <= d
    &&& pending.contains(next) || (next == u64::MAX && forall|d: u64| !pending.contains(d))
}

/// The earliest expiration in `pending`, or `u64::MAX` where nothing is
/// pending.
pub open spec fn earliest(pending: Multiset<u64>) -> u64 {
    choose|next: u64| is_earliest(pending, next)
}

/// The number of requests that the queue has room for.
pub open spec fn queue_capacity() -> nat {
    8
}

/// `after` is `before` with `at` added, or with `at` in the place of one
/// expiration of `before`: a later one, or any one of a full queue.
pub open spec fn rescheduled(before: Multiset<u64>, at: u64, after: Multiset<u64>) -> bool {
    ||| after == before.insert(at)
    ||| exists|d: u64|
        {
            &&& #[trigger] before.contains(d)
            &&& after == before.remove(d).insert(at)
            &&& d > at || before.len() == queue_capacity()
        }
}

/// `embassy_time_queue_utils::Queue::new`: a queue that holds nothing.
#[verifier::external_body]
pub(crate) fn queue_new() -> (queue: Queue)
    ensures
        queue_deadlines(queue) == Multiset::<u64>::empty(),
{
    Queue::new()
}

/// `embassy_time_queue_utils::Queue::schedule_wake`. Returns `false` and
/// leaves the queue as it was where the waker already has a request that
/// expires at `at` or earlier. Otherwise returns `true`, and either adds
/// `at`, or puts `at` in the place of one expiration held before: the
/// waker's own later one, or that of the request evicted from a queue
/// that was full, which is one that held as many as it has room for.
#[verifier::external_body]
pub(crate) fn queue_schedule_wake(queue: &mut Queue, at: u64, waker: &Waker) -> (changed: bool)
    ensures
        !changed ==> queue_deadlines(*final(queue)) == queue_deadlines(*old(queue)) && exists|
            d: u64,
        | #[trigger] queue_deadlines(*old(queue)).contains(d) && d <= at,
        changed ==> rescheduled(queue_deadlines(*old(queue)), at, queue_deadlines(*final(queue))),
{
    queue.schedule_wake(at, waker)
}

/// `embassy_time_queue_utils::Queue::next_expiration`: wakes and removes
/// every request that expires at `now` or earlier, keeps the others, and
/// returns the earliest expiration kept, or `u64::MAX` where none is.
#[verifier::external_body]
pub(crate) fn queue_next_expiration(queue: &mut Queue, now: u64) -> (next: u64)
    ensures
        queue_deadlines(*final(queue)) == pending_after(queue_deadlines(*old(queue)), now),
        is_earliest(queue_deadlines(*final(queue)), next),
{
    queue.next_expiration(now)
}

/// An expiration that meets `is_earliest` is the earliest one.
pub proof fn lemma_earliest_is(pending: Multiset<u64>, next: u64)
    requires
        is_earliest(pending, next),
    ensures
        earliest(pending) == next,
{
    let e = earliest(pending);
    assert(is_earliest(pending, e));
}

/// After the requests expired at `now` are gone, the earliest one left
/// lies after `now`, or nothing is left.
pub proof fn lemma_earliest_after(pending: Multiset<u64>, now: u64)
    ensures
        now < earliest(pending_after(pending, now)) || (earliest(pending_after(pending, now))
            == u64::MAX && forall|d: u64| !pending_after(pending, now).contains(d)),
{
    broadcast use vstd::multiset::group_multiset_axioms;

    let after = pending_after(pending, now);
    lemma_min_exists(after);
    let e = earliest(after);
    assert(is_earliest(after, e));
    if after.contains(e) {
        assert(pending.filter(|d: u64| d > now).count(e) > 0);
    }
}

/// Every multiset of expirations has an earliest one.
pub proof fn lemma_min_exists(pending: Multiset<u64>)
    ensures
        exists|next: u64| is_earliest(pending, next),
    decreases pending.len(),
{
    broadcast use vstd::multiset::group_multiset_axioms;

    if pending.len() == 0 {
        vstd::multiset::lemma_multiset_empty_len(pending);
        assert(is_earliest(pending, u64::MAX));
    } else {
        let d = pending.choose();
        assert(pending.count(d) > 0);
        let rest = pending.remove(d);
        assert(Multiset::singleton(d).subset_of(pending)) by {
            assert forall|v: u64| Multiset::singleton(d).count(v) <= pending.count(v) by {}
        }
        assert(rest.len() < pending.len());
        lemma_min_exists(rest);
        let m = choose|next: u64| is_earliest(rest, next);
        assert forall|x: u64| pending.contains(x) implies x == d || rest.contains(x) by {}
        assert forall|x: u64| rest.contains(x) implies pending.contains(x) by {}
        if rest.contains(m) && m <= d {
            assert(is_earliest(pending, m));
        } else {
            assert(pending.contains(d));
            assert forall|x: u64| pending.contains(x) implies d <= x by {
                if x != d {
                    assert(rest.contains(x));
                }
            }
            assert(is_earliest(pending, d));
        }
    }
}

/// At a firing each pending request is either woken or kept, never both,
/// and none is lost.
pub proof fn lemma_woken_or_kept(pending: Multiset<u64>, now: u64, d: u64)
    ensures
        pending.count(d) == expired_at(pending, now).count(d) + pending_after(pending, now).count(
            d,
        ),
        expired_at(pending, now).count(d) == 0 || pending_after(pending, now).count(d) == 0,
{
    broadcast use vstd::multiset::group_multiset_axioms;

}

/// Wakes come in the order of the expirations: a request woken at a firing
/// expires before every request that a later firing wakes, and a request
/// once woken is not pending at any later firing.
pub proof fn lemma_wake_order(pending: Multiset<u64>, first: u64, second: u64, a: u64, b: u64)
    requires
        first <= second,
        expired_at(pending, first).contains(a),
        expired_at(pending_after(pending, first), second).contains(b),
    ensures
        a <= first < b <= second,
        expired_at(pending_after(pending, first), second).count(b) == pending.count(b),
        !pending_after(pending, first).contains(a),
{
    broadcast use vstd::multiset::group_multiset_axioms;

}

/// A new request moves the earliest expiration down to its own where it is
/// earlier, and leaves it where it is not.
pub proof fn lemma_earliest_after_insert(pending: Multiset<u64>, at: u64)
    ensures
        at < earliest(pending) ==> earliest(pending.insert(at)) == at,
        at >= earliest(pending) ==> earliest(pending.insert(at)) == earliest(pending),
{
    broadcast use vstd::multiset::group_multiset_axioms;

    lemma_min_exists(pending);
    let e = earliest(pending);
    assert(is_earliest(pending, e));
    let grown = pending.insert(at);
    assert forall|d: u64| grown.contains(d) implies d == at || pending.contains(d) by {}
    assert(grown.contains(at));
    if at < e {
        assert(is_earliest(grown, at));
        lemma_earliest_is(grown, at);
    } else {
        if pending.contains(e) {
            assert(grown.contains(e));
            assert(is_earliest(grown, e));
        } else {
            assert(at == u64::MAX);
            assert(is_earliest(grown, e));
        }
        lemma_earliest_is(grown, e);
    }
}

} // verus!
