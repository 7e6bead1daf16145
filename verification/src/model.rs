use vstd::prelude::*;

verus! {

/// The abstract state of a pool: the queue of available elements in
/// FIFO order, the number of live elements (queued plus checked out),
/// and whether teardown has begun.
#[verifier::ext_equal]
pub ghost struct PoolModel<T> {
    pub queue: Seq<T>,
    pub count: nat,
    pub shutting_down: bool,
}

/// The pool invariant: there are at least as many live elements as
/// queued ones. Together with [`checked_out`] this makes `count == 0`
/// mean that no element is live anywhere.
pub open spec fn model_wf<T>(m: PoolModel<T>) -> bool {
    m.queue.len() <= m.count
}

/// Elements currently checked out: live elements that are not queued.
pub open spec fn checked_out<T>(m: PoolModel<T>) -> int {
    m.count - m.queue.len()
}

/// Depositing appends the element at the queue's tail and counts one
/// more live element.
pub open spec fn spec_deposit<T>(m: PoolModel<T>, elem: T) -> PoolModel<T> {
    PoolModel { queue: m.queue.push(elem), count: (m.count + 1) as nat, shutting_down: m.shutting_down }
}

/// A successful checkout takes the queue's head; the element stays
/// live, so the count is unchanged.
pub open spec fn spec_checkout<T>(m: PoolModel<T>) -> (PoolModel<T>, T)
    recommends
        m.queue.len() > 0,
{
    (
        PoolModel { queue: m.queue.drop_first(), count: m.count, shutting_down: m.shutting_down },
        m.queue.first(),
    )
}

/// Returning a checked-out element: while the pool is up it rejoins the
/// queue's tail; during shutdown it is discarded and the live count
/// drops by one.
pub open spec fn spec_give_back<T>(m: PoolModel<T>, elem: T) -> PoolModel<T>
    recommends
        m.count > 0,
{
    if m.shutting_down {
        PoolModel { queue: m.queue, count: (m.count - 1) as nat, shutting_down: true }
    } else {
        PoolModel { queue: m.queue.push(elem), count: m.count, shutting_down: false }
    }
}

/// Extracting a checked-out element: it leaves the pool for good, so
/// only the live count drops.
pub open spec fn spec_disconnect<T>(m: PoolModel<T>) -> PoolModel<T>
    recommends
        m.count > 0,
{
    PoolModel { queue: m.queue, count: (m.count - 1) as nat, shutting_down: m.shutting_down }
}

/// One teardown pass: mark the pool as shutting down and discard every
/// queued element, each discarded element leaving the live count.
pub open spec fn spec_drain<T>(m: PoolModel<T>) -> PoolModel<T>
    recommends
        model_wf(m),
{
    PoolModel {
        queue: Seq::<T>::empty(),
        count: (m.count - m.queue.len()) as nat,
        shutting_down: true,
    }
}

/// The state after `n` successive checkouts.
pub open spec fn spec_checkout_n<T>(m: PoolModel<T>, n: nat) -> PoolModel<T>
    decreases n,
{
    if n == 0 {
        m
    } else {
        spec_checkout(spec_checkout_n(m, (n - 1) as nat)).0
    }
}

/// The count is zero exactly when no element is live anywhere: none
/// queued and none checked out.
pub proof fn lemma_count_zero_iff_no_live_elements<T>(m: PoolModel<T>)
    requires
        model_wf(m),
    ensures
        m.count == 0 <==> (m.queue.len() == 0 && checked_out(m) == 0),
{
}

/// Every pool transition preserves the invariant, so it holds of all
/// reachable states: deposits and checkouts keep `count` at or above
/// the queue length, and returns, extractions and draining only remove
/// elements that the count still accounts for.
pub proof fn lemma_transitions_preserve_wf<T>(m: PoolModel<T>, elem: T)
    requires
        model_wf(m),
    ensures
        model_wf(spec_deposit(m, elem)),
        m.queue.len() > 0 ==> model_wf(spec_checkout(m).0),
        checked_out(m) >= 1 ==> model_wf(spec_give_back(m, elem)),
        checked_out(m) >= 1 ==> model_wf(spec_disconnect(m)),
        model_wf(spec_drain(m)),
{
}

/// FIFO order: the elements come out of the queue exactly in the order
/// they were deposited. After `i` checkouts without intervening
/// deposits, the remaining queue is the starting one with its first `i`
/// elements gone, and the next checkout yields the element at position
/// `i`.
pub proof fn lemma_fifo_order<T>(m: PoolModel<T>, i: nat)
    requires
        i < m.queue.len(),
    ensures
        spec_checkout_n(m, i).queue == m.queue.skip(i as int),
        spec_checkout_n(m, i).count == m.count,
        spec_checkout_n(m, i).shutting_down == m.shutting_down,
        spec_checkout(spec_checkout_n(m, i)).1 == m.queue[i as int],
    decreases i,
{
    if i == 0 {
        assert(m.queue.skip(0) =~= m.queue);
    } else {
        lemma_fifo_order(m, (i - 1) as nat);
        assert(m.queue.skip(i - 1).drop_first() =~= m.queue.skip(i as int));
    }
    assert(m.queue.skip(i as int)[0] == m.queue[i as int]);
}

/// Returning a checked-out element to a pool that is not shutting down
/// makes that exact element available again: it rejoins the queue at
/// the tail, the live count is what it was before the checkout, and
/// once the elements ahead of it are gone a checkout hands it out
/// again — immediately so if it was the only element.
pub proof fn lemma_checkout_return_roundtrip<T>(m: PoolModel<T>)
    requires
        model_wf(m),
        !m.shutting_down,
        m.queue.len() > 0,
    ensures
        ({
            let (m1, elem) = spec_checkout(m);
            let m2 = spec_give_back(m1, elem);
            &&& model_wf(m2)
            &&& m2.count == m.count
            &&& m2.queue == m.queue.drop_first().push(m.queue.first())
            &&& m2.queue[m2.queue.len() - 1] == elem
            &&& (m.queue.len() == 1 ==> spec_checkout(m2).1 == elem)
        }),
{
}

/// Extraction removes an element permanently: the live count drops by
/// one and, unless the same value also sat elsewhere in the queue, no
/// later checkout can yield it again.
pub proof fn lemma_extract_is_permanent<T>(m: PoolModel<T>)
    requires
        model_wf(m),
        m.queue.len() > 0,
    ensures
        ({
            let (m1, elem) = spec_checkout(m);
            let m2 = spec_disconnect(m1);
            &&& model_wf(m2)
            &&& m2.count == m.count - 1
            &&& m2.queue == m.queue.drop_first()
            &&& ((forall|j: int| 1 <= j < m.queue.len() ==> (#[trigger] m.queue[j]) != m.queue[0])
                ==> !m2.queue.contains(elem))
        }),
{
    let (m1, elem) = spec_checkout(m);
    let m2 = spec_disconnect(m1);
    if forall|j: int| 1 <= j < m.queue.len() ==> (#[trigger] m.queue[j]) != m.queue[0] {
        assert(!m2.queue.contains(elem)) by {
            if m2.queue.contains(elem) {
                let k: int = choose|k: int| 0 <= k < m2.queue.len() && m2.queue[k] == elem;
                assert(m.queue[k + 1] == m.queue[0]);
            }
        }
    }
}

/// Absent deposits and extractions, the live count is stable: checking
/// an element out and giving one back both leave `count` unchanged
/// while the pool is up. Exclusive use of a checked-out element needs
/// no lemma — a checkout moves the element out of the queue, so no
/// later checkout can hand the same slot out again.
pub proof fn lemma_count_stable_without_deposits_or_extractions<T>(m: PoolModel<T>, elem: T)
    requires
        model_wf(m),
        !m.shutting_down,
    ensures
        m.queue.len() > 0 ==> spec_checkout(m).0.count == m.count,
        m.count > 0 ==> spec_give_back(m, elem).count == m.count,
{
}

/// With nothing checked out, teardown completes at once: draining the
/// queue alone brings the live count to zero, and there is nothing to
/// wait for.
pub proof fn lemma_teardown_without_checkouts_completes<T>(m: PoolModel<T>)
    requires
        model_wf(m),
        checked_out(m) == 0,
    ensures
        spec_drain(m).count == 0,
        spec_drain(m).queue.len() == 0,
{
}

/// Teardown waits exactly for the checked-out elements: draining leaves
/// the live count at the number checked out, and each element returned
/// during shutdown brings it down by one. With a single outstanding
/// checkout, that one return completes teardown.
pub proof fn lemma_teardown_waits_for_checkouts<T>(m: PoolModel<T>, elem: T)
    requires
        model_wf(m),
        checked_out(m) >= 1,
    ensures
        ({
            let m1 = spec_drain(m);
            let m2 = spec_give_back(m1, elem);
            &&& m1.count == checked_out(m)
            &&& m1.count > 0
            &&& m2.queue.len() == 0
            &&& m2.count == checked_out(m) - 1
            &&& (checked_out(m) == 1 ==> m2.count == 0)
        }),
{
}

} // verus!
