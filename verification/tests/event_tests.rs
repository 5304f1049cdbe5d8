use minievent::{wait_for_all, wait_for_one, Event, Waitable, WaitableResult, WaitablesResult};
use std::time::Duration;

#[test]
fn manual_reset_signaled_method() {
    let mut e = Event::new_manual(true, None).unwrap(); // Signaled.

    let res = e.wait(Duration::from_secs(1_000_000)).unwrap(); // Still signaled.
    assert!(res == WaitableResult::Signaled);

    let res = e.wait(Duration::from_secs(1_000_000)).unwrap(); // And still signaled.
    assert!(res == WaitableResult::Signaled);

    e.reset().unwrap(); // Not anymore.

    let res = e.wait(Duration::from_millis(1)).unwrap();
    assert!(res == WaitableResult::Timeout);

    e.set().unwrap(); // Signaled again.

    let res = e.wait(Duration::from_secs(1_000_000)).unwrap();
    assert!(res == WaitableResult::Signaled);
}

#[test]
fn manual_reset_signaled_free_function() {
    let e = Event::new_manual(true, None).unwrap(); // Signaled.
    let mut w = vec![e];

    let res = wait_for_all(&mut w, Duration::from_secs(1_000_000)).unwrap(); // Still signaled.
    assert!(res == WaitableResult::Signaled);

    let res = wait_for_all(&mut w, Duration::from_secs(1_000_000)).unwrap(); // And still signaled.
    assert!(res == WaitableResult::Signaled);

    w[0].reset().unwrap(); // Not anymore.

    let res = wait_for_all(&mut w, Duration::from_millis(1)).unwrap();
    assert!(res == WaitableResult::Timeout);

    w[0].set().unwrap(); // Signaled again.

    let res = wait_for_all(&mut w, Duration::from_secs(1_000_000)).unwrap();
    assert!(res == WaitableResult::Signaled);
}

#[test]
fn manual_reset_signaled_free_function_multiple() {
    let e0 = Event::new_manual(true, None).unwrap(); // Signaled.
    let e1 = Event::new_manual(true, None).unwrap(); // Signaled.
    let mut w = vec![e0, e1]; // Signaled.

    let res = wait_for_all(&mut w, Duration::from_secs(1_000_000)).unwrap(); // Still signaled.
    assert!(res == WaitableResult::Signaled);

    let res = wait_for_one(&mut w, Duration::from_secs(1_000_000)).unwrap(); // And still signaled.
    assert!(res == WaitablesResult::OneSignaled(0) || res == WaitablesResult::OneSignaled(1));

    w[0].reset().unwrap(); // One not signaled.

    let res = wait_for_all(&mut w, Duration::from_millis(1)).unwrap();
    assert!(res == WaitableResult::Timeout);

    let res = wait_for_one(&mut w, Duration::from_secs(1_000_000)).unwrap();
    assert!(res == WaitablesResult::OneSignaled(1));

    w[1].reset().unwrap(); // Both not signaled.

    let res = wait_for_all(&mut w, Duration::from_millis(1)).unwrap();
    assert!(res == WaitableResult::Timeout);

    let res = wait_for_one(&mut w, Duration::from_millis(1)).unwrap();
    assert!(res == WaitablesResult::Timeout);

    w[0].set().unwrap(); // Only one signaled.

    let res = wait_for_all(&mut w, Duration::from_millis(1)).unwrap();
    assert!(res == WaitableResult::Timeout);

    let res = wait_for_one(&mut w, Duration::from_secs(1_000_000)).unwrap();
    assert!(res == WaitablesResult::OneSignaled(0));

    w[1].set().unwrap(); // Both signaled again.

    let res = wait_for_all(&mut w, Duration::from_secs(1_000_000)).unwrap();
    assert!(res == WaitableResult::Signaled);

    let res = wait_for_one(&mut w, Duration::from_secs(1_000_000)).unwrap();
    assert!(res == WaitablesResult::OneSignaled(0) || res == WaitablesResult::OneSignaled(1));
}

#[test]
fn manual_reset_unsignaled_method() {
    let mut e = Event::new_manual(false, None).unwrap(); // Not signaled.

    let res = e.wait(Duration::from_millis(1)).unwrap();
    assert!(res == WaitableResult::Timeout);

    e.set().unwrap(); // Now signaled.

    let res = e.wait(Duration::from_secs(1_000_000)).unwrap(); // Still signaled.
    assert!(res == WaitableResult::Signaled);

    let res = e.wait(Duration::from_secs(1_000_000)).unwrap(); // And still signaled.
    assert!(res == WaitableResult::Signaled);

    e.reset().unwrap(); // Not anymore.

    let res = e.wait(Duration::from_millis(1)).unwrap();
    assert!(res == WaitableResult::Timeout);

    e.set().unwrap(); // Signaled again.

    let res = e.wait(Duration::from_secs(1_000_000)).unwrap();
    assert!(res == WaitableResult::Signaled);
}

#[test]
fn auto_reset_signaled() {
    let mut e = Event::new_auto(true, None).unwrap(); // Signaled.

    let res = e.wait(Duration::from_secs(1_000_000)).unwrap(); // Not signaled.
    assert!(res == WaitableResult::Signaled);

    let res = e.wait(Duration::from_millis(1)).unwrap();
    assert!(res == WaitableResult::Timeout);

    e.set().unwrap(); // Signaled again.

    let res = e.wait(Duration::from_secs(1_000_000)).unwrap();
    assert!(res == WaitableResult::Signaled);
}

#[test]
fn auto_reset_unsignaled() {
    let mut e = Event::new_auto(false, None).unwrap(); // Not signaled.

    let res = e.wait(Duration::from_millis(1)).unwrap();
    assert!(res == WaitableResult::Timeout);

    e.set().unwrap(); // Now signaled.

    let res = e.wait(Duration::from_secs(1_000_000)).unwrap(); // Not signaled.
    assert!(res == WaitableResult::Signaled);

    e.set().unwrap(); // Signaled again.

    let res = e.wait(Duration::from_secs(1_000_000)).unwrap();
    assert!(res == WaitableResult::Signaled);
}
