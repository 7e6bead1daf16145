use objpool::notifier::Waiter;
use objpool::Pool;

#[test]
fn fifo_order() {
    let mut pool: Pool<u32> = Pool::new();
    pool.pool(1);
    pool.pool(2);
    pool.pool(3);

    let a = pool.get();
    let b = pool.get();
    let c = pool.get();
    assert_eq!(*a.get(), 1);
    assert_eq!(*b.get(), 2);
    assert_eq!(*c.get(), 3);

    pool.back(a);
    pool.back(b);
    pool.back(c);
}

#[test]
fn returned_element_is_available_again() {
    let mut pool: Pool<u32> = Pool::new();
    pool.pool(7);

    let handle = pool.try_get().expect("one element is queued");
    assert_eq!(*handle.get(), 7);
    assert_eq!(pool.queued(), 0);

    let woken = pool.back(handle);
    assert!(woken.is_none());
    assert_eq!(pool.queued(), 1);

    let again = pool.try_get().expect("the element was returned");
    assert_eq!(*again.get(), 7);
    pool.back(again);
}

#[test]
fn extraction_removes_permanently() {
    let mut pool: Pool<String> = Pool::new();
    pool.pool(String::from("a"));
    pool.pool(String::from("b"));

    let handle = pool.get();
    assert_eq!(handle.get(), "a");
    let (elem, woken) = handle.into_inner(&mut pool);
    assert_eq!(elem, "a");
    assert!(woken.is_none());
    assert_eq!(pool.count(), 1);

    let next = pool.try_get().expect("one element is still queued");
    assert_eq!(next.get(), "b");
    pool.back(next);
}

#[test]
fn teardown_drains_queued_elements_immediately() {
    let mut pool: Pool<u32> = Pool::new();
    pool.pool(10);
    pool.pool(20);
    pool.pool(30);

    let done = pool.drain();
    assert!(done);
    assert_eq!(pool.count(), 0);
    assert_eq!(pool.queued(), 0);
    assert!(pool.is_shutting_down());
}

#[test]
fn teardown_waits_for_outstanding_checkout() {
    let mut pool: Pool<u32> = Pool::new();
    pool.pool(5);
    let handle = pool.get();

    let done = pool.drain();
    assert!(!done);
    assert_eq!(pool.count(), 1);

    pool.regist_waiter(
        Waiter::new(42),
        objpool::notifier::Event::OneElemDisconnected,
    );

    let woken = pool.back(handle);
    assert_eq!(woken, Some(Waiter::new(42)));
    assert_eq!(pool.count(), 0);

    let done = pool.drain();
    assert!(done);
}

#[test]
fn try_get_returns_nothing_while_all_checked_out() {
    let mut pool: Pool<u32> = Pool::new();
    pool.pool(9);

    let handle = pool.try_get().expect("one element is queued");
    assert!(pool.try_get().is_none());
    pool.back(handle);
    assert!(pool.try_get().is_some());
}

#[test]
fn count_stays_at_or_above_queue_length() {
    let mut pool: Pool<u32> = Pool::new();
    assert_eq!(pool.count(), 0);
    assert_eq!(pool.queued(), 0);

    pool.pool(1);
    pool.pool(2);
    assert!(pool.count() >= pool.queued());
    assert_eq!(pool.count(), 2);

    let handle = pool.get();
    assert!(pool.count() >= pool.queued());
    assert_eq!(pool.count(), 2);
    assert_eq!(pool.queued(), 1);

    let (_, _) = handle.into_inner(&mut pool);
    assert!(pool.count() >= pool.queued());
    assert_eq!(pool.count(), 1);
}

#[test]
fn handle_gives_read_and_write_access() {
    let mut pool: Pool<u32> = Pool::new();
    pool.pool(1);

    let mut handle = pool.get();
    assert_eq!(*handle.get(), 1);
    let prev = handle.set(11);
    assert_eq!(prev, 1);
    assert_eq!(*handle.get(), 11);

    pool.back(handle);
    let again = pool.get();
    assert_eq!(*again.get(), 11);
    pool.back(again);
}

#[test]
fn with_capacity_starts_empty() {
    let mut pool: Pool<u32> = Pool::with_capacity(16);
    assert_eq!(pool.count(), 0);
    assert_eq!(pool.queued(), 0);
    assert!(!pool.is_shutting_down());

    pool.pool(4);
    let handle = pool.get();
    assert_eq!(*handle.get(), 4);
    pool.back(handle);
}

#[test]
fn return_during_shutdown_discards_element() {
    let mut pool: Pool<u32> = Pool::new();
    pool.pool(1);
    pool.pool(2);
    let handle = pool.get();

    let done = pool.drain();
    assert!(!done);
    assert_eq!(pool.queued(), 0);
    assert_eq!(pool.count(), 1);

    let woken = pool.back(handle);
    assert!(woken.is_none());
    assert_eq!(pool.queued(), 0);
    assert_eq!(pool.count(), 0);
}
