//! A blocking object pool: callers deposit reusable elements, check one
//! out for exclusive use, and give it back when done; tearing the pool
//! down drains the queue and waits until every checked-out element has
//! been returned or extracted.
//!
//! The crate verifies the pool's logic: the lock discipline, the waiter
//! registry, and the checkout/return/shutdown protocol, stated over the
//! abstract [`model::PoolModel`]. A concurrent shell around it (atomic
//! flags, thread parking, implicit return on drop) is ordinary Rust that
//! drives these verified transitions; here, where every operation holds
//! the lock for its whole body, exclusive access is expressed by `&mut`
//! receivers instead of a shared interior.

pub mod model;
pub mod notifier;
pub mod spin_lock;

use std::collections::VecDeque;

use vstd::prelude::*;

use crate::model::{
    checked_out, model_wf, spec_checkout, spec_deposit, spec_disconnect, spec_drain,
    spec_give_back, PoolModel,
};
use crate::notifier::{notify_one_post, Event, Notifier, Waiter};
use crate::spin_lock::SpinLock;

verus! {

/// The pool state proper, guarded as one unit by the pool's lock: the
/// FIFO queue of available elements, the count of live elements (queued
/// plus checked out), the shutdown flag, and the private notifier that
/// lets the tearing-down caller wait for outstanding elements.
pub struct PoolInner<T> {
    pooled: VecDeque<T>,
    shutting_down: bool,
    count: usize,
    notifier: Notifier,
}

impl<T> View for PoolInner<T> {
    type V = PoolModel<T>;

    closed spec fn view(&self) -> PoolModel<T> {
        PoolModel {
            queue: self.pooled@,
            count: self.count as nat,
            shutting_down: self.shutting_down,
        }
    }
}

impl<T> PoolInner<T> {
    /// The registered waiters of the pool's private notifier.
    pub closed spec fn waiters(self) -> Seq<(Waiter, Event)> {
        self.notifier@
    }

    /// The pool invariant, kept by every operation.
    pub open spec fn wf(self) -> bool {
        model_wf(self@)
    }

    /// An empty pool state; `n` is a pre-allocation hint for the queue,
    /// not a capacity limit.
    pub fn with_capacity(n: usize) -> (inner: PoolInner<T>)
        ensures
            inner.wf(),
            inner@.queue == Seq::<T>::empty(),
            inner@.count == 0,
            !inner@.shutting_down,
            inner.waiters() == Seq::<(Waiter, Event)>::empty(),
    {
        PoolInner {
            pooled: VecDeque::with_capacity(n),
            shutting_down: false,
            count: 0,
            notifier: Notifier::default(),
        }
    }

    /// Deposit `elem`: one more live element, queued at the tail.
    pub fn deposit(&mut self, elem: T)
        requires
            old(self).wf(),
            old(self)@.count < usize::MAX,
        ensures
            final(self).wf(),
            final(self)@ == spec_deposit(old(self)@, elem),
            final(self).waiters() == old(self).waiters(),
    {
        self.count = self.count + 1;
        self.pooled.push_back(elem);
        proof {
            assert(self@ =~= spec_deposit(old(self)@, elem));
        }
    }

    /// Take the queue's head, if any element is available right now.
    ///
    /// Asking a pool whose live count is zero is a programmer error —
    /// there is nothing to wait for — and is excluded here; the caller
    /// facing arbitrary input must test the count and fail before
    /// calling.
    pub fn try_checkout(&mut self) -> (elem: Option<T>)
        requires
            old(self).wf(),
            old(self)@.count > 0,
        ensures
            final(self).wf(),
            final(self).waiters() == old(self).waiters(),
            old(self)@.queue.len() > 0 ==> elem == Some(spec_checkout(old(self)@).1),
            old(self)@.queue.len() > 0 ==> final(self)@ == spec_checkout(old(self)@).0,
            old(self)@.queue.len() == 0 ==> elem is None && final(self)@ == old(self)@,
    {
        let elem = self.pooled.pop_front();
        proof {
            if old(self)@.queue.len() > 0 {
                assert(self@ =~= spec_checkout(old(self)@).0);
            } else {
                assert(self@ =~= old(self)@);
            }
        }
        elem
    }

    /// Take back a checked-out element. While the pool is up it rejoins
    /// the queue; during shutdown it is discarded, the live count drops,
    /// and the first waiter for [`Event::OneElemDisconnected`] — the
    /// tearing-down caller — is handed back to be woken.
    pub fn give_back(&mut self, elem: T) -> (woken: Option<Waiter>)
        requires
            old(self).wf(),
            checked_out(old(self)@) >= 1,
        ensures
            final(self).wf(),
            final(self)@ == spec_give_back(old(self)@, elem),
            old(self)@.shutting_down ==> notify_one_post(
                old(self).waiters(),
                final(self).waiters(),
                Event::OneElemDisconnected,
                woken,
            ),
            !old(self)@.shutting_down ==> woken is None && final(self).waiters() == old(
                self,
            ).waiters(),
    {
        if self.shutting_down {
            self.count = self.count - 1;
            let woken = self.notifier.notify_one(Event::OneElemDisconnected);
            proof {
                assert(self@ =~= spec_give_back(old(self)@, elem));
            }
            woken
        } else {
            self.pooled.push_back(elem);
            proof {
                assert(self@ =~= spec_give_back(old(self)@, elem));
            }
            None
        }
    }

    /// Account for a checked-out element that leaves the pool for good:
    /// the live count drops, and during shutdown the first waiter for
    /// [`Event::OneElemDisconnected`] is handed back to be woken.
    pub fn disconnect(&mut self) -> (woken: Option<Waiter>)
        requires
            old(self).wf(),
            checked_out(old(self)@) >= 1,
        ensures
            final(self).wf(),
            final(self)@ == spec_disconnect(old(self)@),
            old(self)@.shutting_down ==> notify_one_post(
                old(self).waiters(),
                final(self).waiters(),
                Event::OneElemDisconnected,
                woken,
            ),
            !old(self)@.shutting_down ==> woken is None && final(self).waiters() == old(
                self,
            ).waiters(),
    {
        self.count = self.count - 1;
        let woken = if self.shutting_down {
            self.notifier.notify_one(Event::OneElemDisconnected)
        } else {
            None
        };
        proof {
            assert(self@ =~= spec_disconnect(old(self)@));
        }
        woken
    }

    /// One teardown pass: mark the pool as shutting down and discard
    /// every queued element. Teardown is complete when this leaves the
    /// live count at zero; otherwise the caller must wait for the
    /// outstanding checkouts to disconnect and look again.
    pub fn drain(&mut self) -> (done: bool)
        requires
            old(self).wf(),
        ensures
            final(self).wf(),
            final(self)@ == spec_drain(old(self)@),
            done == (final(self)@.count == 0),
            final(self).waiters() == old(self).waiters(),
    {
        self.shutting_down = true;
        let n: usize = self.pooled.len();
        self.pooled.clear();
        self.count = self.count - n;
        proof {
            assert(self@ =~= spec_drain(old(self)@));
        }
        self.count == 0
    }

    /// Register `waiter` with the pool's private notifier; a later
    /// disconnect during shutdown wakes the earliest registered waiter.
    pub fn regist_waiter(&mut self, waiter: Waiter, event: Event)
        requires
            old(self).wf(),
        ensures
            final(self).wf(),
            final(self)@ == old(self)@,
            final(self).waiters() == old(self).waiters().push((waiter, event)),
    {
        self.notifier.regist(waiter, event);
    }

    /// The number of live elements: queued plus checked out.
    pub fn count(&self) -> (n: usize)
        ensures
            n == self@.count,
    {
        self.count
    }

    /// The number of elements available in the queue right now.
    pub fn queued(&self) -> (n: usize)
        ensures
            n == self@.queue.len(),
    {
        self.pooled.len()
    }

    /// Whether teardown has begun.
    pub fn is_shutting_down(&self) -> (b: bool)
        ensures
            b == self@.shutting_down,
    {
        self.shutting_down
    }
}

impl<T> Default for PoolInner<T> {
    /// An empty pool state with no pre-allocation.
    fn default() -> (inner: PoolInner<T>)
        ensures
            inner.wf(),
            inner@.queue == Seq::<T>::empty(),
            inner@.count == 0,
            !inner@.shutting_down,
            inner.waiters() == Seq::<(Waiter, Event)>::empty(),
    {
        PoolInner::with_capacity(0)
    }
}

/// A pool of reusable elements. Callers deposit elements with
/// [`Pool::pool`], check one out with [`Pool::get`] or [`Pool::try_get`],
/// and give it back with [`Pool::back`] or extract it for good with
/// [`Pooled::into_inner`].
///
/// Every operation acquires the pool's [`SpinLock`], works on the
/// [`PoolInner`] state, and releases the lock before returning.
pub struct Pool<T> {
    inner: SpinLock<PoolInner<T>>,
}

impl<T> View for Pool<T> {
    type V = PoolModel<T>;

    closed spec fn view(&self) -> PoolModel<T> {
        self.inner.value_spec()@
    }
}

impl<T> Pool<T> {
    /// The registered waiters of the pool's private notifier.
    pub closed spec fn waiters(self) -> Seq<(Waiter, Event)> {
        self.inner.value_spec().waiters()
    }

    /// The pool invariant: the lock is free between operations and the
    /// guarded state is well formed.
    pub closed spec fn inv(self) -> bool {
        &&& self.inner.wf()
        &&& !self.inner.is_locked()
        &&& self.inner.value_spec().wf()
    }

    /// An empty pool.
    pub fn new() -> (pool: Pool<T>)
        ensures
            pool.inv(),
            pool@.queue == Seq::<T>::empty(),
            pool@.count == 0,
            !pool@.shutting_down,
            pool.waiters() == Seq::<(Waiter, Event)>::empty(),
    {
        Pool { inner: SpinLock::new(PoolInner::default()) }
    }

    /// An empty pool whose queue pre-allocates room for `n` elements;
    /// the hint does not limit how many can be deposited.
    pub fn with_capacity(n: usize) -> (pool: Pool<T>)
        ensures
            pool.inv(),
            pool@.queue == Seq::<T>::empty(),
            pool@.count == 0,
            !pool@.shutting_down,
            pool.waiters() == Seq::<(Waiter, Event)>::empty(),
    {
        Pool { inner: SpinLock::new(PoolInner::with_capacity(n)) }
    }

    /// Deposit `elem`, making it available for checkout. Never fails.
    pub fn pool(&mut self, elem: T)
        requires
            old(self).inv(),
            old(self)@.count < usize::MAX,
        ensures
            final(self).inv(),
            final(self)@ == spec_deposit(old(self)@, elem),
            final(self).waiters() == old(self).waiters(),
    {
        let mut guard = self.inner.lock();
        guard.value.deposit(elem);
        self.inner.unlock(guard);
    }

    /// Check out the queue's head element, or nothing if every live
    /// element is currently checked out.
    ///
    /// Calling this when the live count is zero is a programmer error,
    /// fatal rather than recoverable; that input is excluded here, and
    /// an unverified caller must test the count and abort before
    /// calling.
    pub fn try_get(&mut self) -> (handle: Option<Pooled<T>>)
        requires
            old(self).inv(),
            old(self)@.count > 0,
        ensures
            final(self).inv(),
            final(self).waiters() == old(self).waiters(),
            old(self)@.queue.len() > 0 ==> handle is Some,
            handle matches Some(p) ==> p@ == spec_checkout(old(self)@).1 && final(self)@
                == spec_checkout(old(self)@).0,
            old(self)@.queue.len() == 0 ==> handle is None && final(self)@ == old(self)@,
    {
        let mut guard = self.inner.lock();
        let elem = guard.value.try_checkout();
        self.inner.unlock(guard);
        match elem {
            Some(elem) => Some(Pooled { elem }),
            None => None,
        }
    }

    /// Check out an element, retrying until one is available.
    ///
    /// Polling returns only once the queue is non-empty, and with
    /// exclusive access nothing can refill the queue meanwhile, so a
    /// non-empty queue is required up front.
    pub fn get(&mut self) -> (handle: Pooled<T>)
        requires
            old(self).inv(),
            old(self)@.count > 0,
            old(self)@.queue.len() > 0,
        ensures
            final(self).inv(),
            final(self).waiters() == old(self).waiters(),
            handle@ == spec_checkout(old(self)@).1,
            final(self)@ == spec_checkout(old(self)@).0,
    {
        loop
            invariant
                self.inv(),
                self@.count > 0,
                self@.queue.len() > 0,
                self@ == old(self)@,
                self.waiters() == old(self).waiters(),
            decreases self@.queue.len(),
        {
            if let Some(handle) = self.try_get() {
                return handle;
            }
        }
    }

    /// Give a checked-out element back. While the pool is up it rejoins
    /// the queue; during shutdown it is discarded and the waiter to wake
    /// — the tearing-down caller, parked on
    /// [`Event::OneElemDisconnected`] — is returned.
    pub fn back(&mut self, handle: Pooled<T>) -> (woken: Option<Waiter>)
        requires
            old(self).inv(),
            checked_out(old(self)@) >= 1,
        ensures
            final(self).inv(),
            final(self)@ == spec_give_back(old(self)@, handle@),
            old(self)@.shutting_down ==> notify_one_post(
                old(self).waiters(),
                final(self).waiters(),
                Event::OneElemDisconnected,
                woken,
            ),
            !old(self)@.shutting_down ==> woken is None && final(self).waiters() == old(
                self,
            ).waiters(),
    {
        let mut guard = self.inner.lock();
        let woken = guard.value.give_back(handle.elem);
        self.inner.unlock(guard);
        woken
    }

    /// One teardown pass: mark the pool as shutting down and discard
    /// every queued element. Returns whether teardown is complete — it
    /// is not while elements remain checked out, and the caller must
    /// register a waiter, wait to be woken, and look again.
    pub fn drain(&mut self) -> (done: bool)
        requires
            old(self).inv(),
        ensures
            final(self).inv(),
            final(self)@ == spec_drain(old(self)@),
            done == (final(self)@.count == 0),
            final(self).waiters() == old(self).waiters(),
    {
        let mut guard = self.inner.lock();
        let done = guard.value.drain();
        self.inner.unlock(guard);
        done
    }

    /// Register `waiter` with the pool's private notifier, to be woken
    /// when an element disconnects during shutdown.
    pub fn regist_waiter(&mut self, waiter: Waiter, event: Event)
        requires
            old(self).inv(),
        ensures
            final(self).inv(),
            final(self)@ == old(self)@,
            final(self).waiters() == old(self).waiters().push((waiter, event)),
    {
        let mut guard = self.inner.lock();
        guard.value.regist_waiter(waiter, event);
        self.inner.unlock(guard);
    }

    /// The number of live elements: queued plus checked out.
    pub fn count(&mut self) -> (n: usize)
        requires
            old(self).inv(),
        ensures
            final(self).inv(),
            final(self)@ == old(self)@,
            final(self).waiters() == old(self).waiters(),
            n == old(self)@.count,
    {
        let guard = self.inner.lock();
        let n: usize = guard.value.count();
        self.inner.unlock(guard);
        n
    }

    /// The number of elements available in the queue right now.
    pub fn queued(&mut self) -> (n: usize)
        requires
            old(self).inv(),
        ensures
            final(self).inv(),
            final(self)@ == old(self)@,
            final(self).waiters() == old(self).waiters(),
            n == old(self)@.queue.len(),
    {
        let guard = self.inner.lock();
        let n: usize = guard.value.queued();
        self.inner.unlock(guard);
        n
    }

    /// Whether teardown has begun.
    pub fn is_shutting_down(&mut self) -> (b: bool)
        requires
            old(self).inv(),
        ensures
            final(self).inv(),
            final(self)@ == old(self)@,
            final(self).waiters() == old(self).waiters(),
            b == old(self)@.shutting_down,
    {
        let guard = self.inner.lock();
        let b = guard.value.is_shutting_down();
        self.inner.unlock(guard);
        b
    }
}

/// A checked-out element, owned by the caller until it is given back
/// with [`Pool::back`] or extracted for good with
/// [`Pooled::into_inner`]. Both consume the handle, so a handle either
/// holds its element or no longer exists — ownership stands in for a
/// "disconnected" state, and detaching can only happen once.
#[derive(Debug)]
pub struct Pooled<T> {
    elem: T,
}

impl<T> View for Pooled<T> {
    type V = T;

    closed spec fn view(&self) -> T {
        self.elem
    }
}

impl<T> Pooled<T> {
    /// Read access to the element.
    pub fn get(&self) -> (elem: &T)
        ensures
            *elem == self@,
    {
        &self.elem
    }

    /// Write access to the element: replace it in place, returning the
    /// previous value.
    pub fn set(&mut self, elem: T) -> (prev: T)
        ensures
            final(self)@ == elem,
            prev == old(self)@,
    {
        let mut elem = elem;
        std::mem::swap(&mut self.elem, &mut elem);
        elem
    }

    /// Extract the element, detaching it from `pool` permanently: the
    /// pool's live count drops and the raw element is returned,
    /// bypassing the queue. If the pool is shutting down, the waiter to
    /// wake is returned as well.
    pub fn into_inner(self, pool: &mut Pool<T>) -> (r: (T, Option<Waiter>))
        requires
            old(pool).inv(),
            checked_out(old(pool)@) >= 1,
        ensures
            r.0 == self@,
            final(pool).inv(),
            final(pool)@ == spec_disconnect(old(pool)@),
            old(pool)@.shutting_down ==> notify_one_post(
                old(pool).waiters(),
                final(pool).waiters(),
                Event::OneElemDisconnected,
                r.1,
            ),
            !old(pool)@.shutting_down ==> r.1 is None && final(pool).waiters() == old(
                pool,
            ).waiters(),
    {
        let mut guard = pool.inner.lock();
        let woken = guard.value.disconnect();
        pool.inner.unlock(guard);
        (self.elem, woken)
    }
}

} // verus!
