use objpool::notifier::{Event, Notifier, Waiter};

#[test]
fn waiters_are_woken_in_registration_order() {
    let mut notifier = Notifier::default();
    notifier.regist(Waiter::new(1), Event::OneElemDisconnected);
    notifier.regist(Waiter::new(2), Event::OneElemDisconnected);

    assert_eq!(
        notifier.notify_one(Event::OneElemDisconnected),
        Some(Waiter::new(1))
    );
    assert_eq!(
        notifier.notify_one(Event::OneElemDisconnected),
        Some(Waiter::new(2))
    );
    assert_eq!(notifier.notify_one(Event::OneElemDisconnected), None);
}

#[test]
fn notify_on_empty_registry_returns_nothing() {
    let mut notifier = Notifier::default();
    assert_eq!(notifier.notify_one(Event::OneElemDisconnected), None);
}

#[test]
fn same_waiter_can_register_twice() {
    let mut notifier = Notifier::default();
    notifier.regist(Waiter::new(7), Event::OneElemDisconnected);
    notifier.regist(Waiter::new(7), Event::OneElemDisconnected);

    assert_eq!(
        notifier.notify_one(Event::OneElemDisconnected),
        Some(Waiter::new(7))
    );
    assert_eq!(
        notifier.notify_one(Event::OneElemDisconnected),
        Some(Waiter::new(7))
    );
    assert_eq!(notifier.notify_one(Event::OneElemDisconnected), None);
}

#[test]
fn waiter_equality_is_by_identity() {
    assert_eq!(Waiter::new(3), Waiter::new(3));
    assert_ne!(Waiter::new(3), Waiter::new(4));
    assert_eq!(Waiter::new(9).id(), 9);
}
