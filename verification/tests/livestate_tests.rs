use meteo_pipeline::livestate::{LiveState, RecvOutcome};

#[test]
fn get_returns_the_just_set_value() {
    let mut ls = LiveState::new(String::from("initial"), 16);
    assert_eq!(ls.get(), "initial");
    ls.set(String::from("fresh"));
    // Any number of reads after the completed write see the new value.
    assert_eq!(ls.get(), "fresh");
    assert_eq!(ls.get(), "fresh");
    assert_eq!(ls.get(), "fresh");
}

#[test]
fn subscriber_receives_one_notification_per_set() {
    let mut ls = LiveState::new(0u64, 16);
    let id = ls.subscribe();
    ls.set(1);
    ls.set(2);
    ls.set(3);
    assert_eq!(ls.recv(id), RecvOutcome::Notified);
    assert_eq!(ls.recv(id), RecvOutcome::Notified);
    assert_eq!(ls.recv(id), RecvOutcome::Notified);
    assert_eq!(ls.recv(id), RecvOutcome::Pending);
}

#[test]
fn subscriber_sees_nothing_from_before_subscription() {
    let mut ls = LiveState::new(0u64, 16);
    ls.set(1);
    ls.set(2);
    let id = ls.subscribe();
    assert_eq!(ls.recv(id), RecvOutcome::Pending);
    ls.set(3);
    assert_eq!(ls.recv(id), RecvOutcome::Notified);
    assert_eq!(ls.recv(id), RecvOutcome::Pending);
}

#[test]
fn slow_subscriber_lags_and_recovers_via_get() {
    let mut ls = LiveState::new(0u64, 2);
    let id = ls.subscribe();
    for v in 1..=5 {
        ls.set(v);
    }
    // 5 pending against capacity 2: lagged by 3, not a hard failure.
    assert_eq!(ls.recv(id), RecvOutcome::Lagged(3));
    // The subscription stays usable and drains what the buffer kept.
    assert_eq!(ls.recv(id), RecvOutcome::Notified);
    assert_eq!(ls.recv(id), RecvOutcome::Notified);
    assert_eq!(ls.recv(id), RecvOutcome::Pending);
    // Recovery: re-fetch the current state.
    assert_eq!(ls.get(), 5);
}

#[test]
fn several_subscribers_are_notified_independently() {
    let mut ls = LiveState::new(0u64, 16);
    let a = ls.subscribe();
    ls.set(1);
    let b = ls.subscribe();
    ls.set(2);
    assert_eq!(ls.recv(a), RecvOutcome::Notified);
    assert_eq!(ls.recv(a), RecvOutcome::Notified);
    assert_eq!(ls.recv(a), RecvOutcome::Pending);
    assert_eq!(ls.recv(b), RecvOutcome::Notified);
    assert_eq!(ls.recv(b), RecvOutcome::Pending);
}

#[test]
fn only_closure_is_terminal() {
    let mut ls = LiveState::new(0u64, 16);
    let id = ls.subscribe();
    ls.set(1);
    ls.close();
    // Pending notifications still drain after closure.
    assert_eq!(ls.recv(id), RecvOutcome::Notified);
    assert_eq!(ls.recv(id), RecvOutcome::Closed);
    assert_eq!(ls.recv(id), RecvOutcome::Closed);
}
