use objpool::spin_lock::SpinLock;

#[test]
fn lock_hands_out_the_protected_value() {
    let mut lock = SpinLock::new(5u32);
    let guard = lock.lock();
    assert_eq!(guard.value, 5);
    lock.unlock(guard);
}

#[test]
fn updates_made_under_the_lock_persist() {
    let mut lock = SpinLock::new(5u32);

    let mut guard = lock.lock();
    guard.value = 6;
    lock.unlock(guard);

    let guard = lock.lock();
    assert_eq!(guard.value, 6);
    lock.unlock(guard);
}
