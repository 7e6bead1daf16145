use vstd::prelude::*;

verus! {

/// A mutual-exclusion primitive guarding a single value.
///
/// Exclusive access is expressed through ownership: `lock` hands the
/// protected value out inside a [`SpinLockGuard`] and flags the lock as
/// held, and `unlock` takes the guard back and clears the flag. While a
/// guard is outstanding the flag is set and `lock` cannot be called
/// again; this mirrors a spinning acquire, which never returns while
/// another holder has the flag set.
pub struct SpinLock<T> {
    flag: bool,
    value: Option<T>,
}

/// Exclusive access to the value guarded by a [`SpinLock`].
pub struct SpinLockGuard<T> {
    /// The protected value, owned for the duration of the critical section.
    pub value: T,
}

impl<T> SpinLock<T> {
    /// Whether the lock is currently held.
    pub closed spec fn is_locked(self) -> bool {
        self.flag
    }

    /// The protected value; meaningful only while the lock is free.
    pub closed spec fn value_spec(self) -> T
        recommends
            !self.is_locked(),
    {
        self.value->Some_0
    }

    /// The flag is set exactly while the value is handed out in a guard.
    pub closed spec fn wf(self) -> bool {
        self.flag <==> self.value is None
    }

    /// A new, unheld lock around `value`.
    pub fn new(value: T) -> (lock: SpinLock<T>)
        ensures
            lock.wf(),
            !lock.is_locked(),
            lock.value_spec() == value,
    {
        SpinLock { flag: false, value: Some(value) }
    }

    /// Acquire the lock, taking exclusive possession of the value.
    ///
    /// Acquiring succeeds only from the unheld state: a holder must give
    /// the guard back through [`SpinLock::unlock`] before the next
    /// acquire, just as a spinning acquire completes only once the
    /// previous holder has cleared the flag.
    pub fn lock(&mut self) -> (guard: SpinLockGuard<T>)
        requires
            old(self).wf(),
            !old(self).is_locked(),
        ensures
            final(self).wf(),
            final(self).is_locked(),
            guard.value == old(self).value_spec(),
    {
        let value = self.value.take();
        self.flag = true;
        SpinLockGuard { value: value.unwrap() }
    }

    /// Release the lock, putting the (possibly updated) value back.
    pub fn unlock(&mut self, guard: SpinLockGuard<T>)
        requires
            old(self).wf(),
            old(self).is_locked(),
        ensures
            final(self).wf(),
            !final(self).is_locked(),
            final(self).value_spec() == guard.value,
    {
        self.value = Some(guard.value);
        self.flag = false;
    }
}

} // verus!
