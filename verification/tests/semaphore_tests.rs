use minievent::{wait_for_all, Semaphore, SemaphoreError, Waitable, WaitableResult};
use std::time::Duration;

#[test]
fn signaled_method() {
    let mut s = Semaphore::new(1, 1, None).unwrap(); // Signaled.

    let res = s.wait(Duration::from_secs(1_000_000)).unwrap(); // Not signaled.
    assert!(res == WaitableResult::Signaled);

    let res = s.wait(Duration::from_millis(1)).unwrap(); // Not signaled.
    assert!(res == WaitableResult::Timeout);

    s.increment_one().unwrap(); // Signaled again.

    let res = s.wait(Duration::from_secs(1_000_000)).unwrap(); // Not signaled.
    assert!(res == WaitableResult::Signaled);

    s.increment_one().unwrap(); // Signaled again.

    s.increment_one().err().unwrap(); // Must have failed.
}

#[test]
fn signaled_free_function() {
    let s = Semaphore::new(1, 1, None).unwrap(); // Signaled.
    let mut w = vec![s];

    let res = wait_for_all(&mut w, Duration::from_secs(1_000_000)).unwrap(); // Not signaled.
    assert!(res == WaitableResult::Signaled);

    let res = wait_for_all(&mut w, Duration::from_millis(1)).unwrap(); // Not signaled.
    assert!(res == WaitableResult::Timeout);

    w[0].increment_one().unwrap(); // Signaled again.

    let res = wait_for_all(&mut w, Duration::from_secs(1_000_000)).unwrap(); // Not signaled.
    assert!(res == WaitableResult::Signaled);

    w[0].increment_one().unwrap(); // Signaled again.

    w[0].increment_one().err().unwrap(); // Must have failed.
}

#[test]
fn unsignaled_method() {
    let mut s = Semaphore::new(0, 1, None).unwrap(); // Not signaled.

    let res = s.wait(Duration::from_millis(1)).unwrap();
    assert!(res == WaitableResult::Timeout);

    s.increment_one().unwrap(); // Now signaled.

    let res = s.wait(Duration::from_secs(1_000_000)).unwrap(); // Not signaled.
    assert!(res == WaitableResult::Signaled);

    s.increment_one().unwrap(); // Signaled again.

    let res = s.wait(Duration::from_secs(1_000_000)).unwrap(); // Not signaled.
    assert!(res == WaitableResult::Signaled);

    s.increment(2).err().unwrap(); // Must have failed.
}

#[test]
fn unsignaled_free_function() {
    let s = Semaphore::new(0, 1, None).unwrap(); // Not signaled.
    let mut w = vec![s];

    let res = wait_for_all(&mut w, Duration::from_millis(1)).unwrap(); // Not signaled.
    assert!(res == WaitableResult::Timeout);

    w[0].increment_one().unwrap(); // Now signaled.

    let res = wait_for_all(&mut w, Duration::from_secs(1_000_000)).unwrap(); // Not signaled.
    assert!(res == WaitableResult::Signaled);

    w[0].increment_one().unwrap(); // Signaled again.

    let res = wait_for_all(&mut w, Duration::from_secs(1_000_000)).unwrap(); // Not signaled.
    assert!(res == WaitableResult::Signaled);

    w[0].increment(2).err().unwrap(); // Must have failed.
}

#[test]
fn increment_reports_previous_count_and_overflow() {
    let mut s = Semaphore::new(0, 3, None).unwrap();

    assert_eq!(s.increment(2), Ok(0));
    assert_eq!(s.increment(2), Err(SemaphoreError::WouldOverflow)); // 2 + 2 > 3.
    assert_eq!(s.increment_one(), Ok(2));
    assert_eq!(s.increment(1), Err(SemaphoreError::WouldOverflow)); // At the ceiling.
    assert_eq!(s.increment(0), Ok(3)); // Adding nothing always stays within the ceiling.
}

#[test]
fn init_count_is_clamped_to_max_count() {
    let mut s = Semaphore::new(5, 3, None).unwrap(); // Starts at 3, not 5.

    for _ in 0..3 {
        let res = s.wait(Duration::from_secs(1_000_000)).unwrap();
        assert!(res == WaitableResult::Signaled);
    }
    let res = s.wait(Duration::from_millis(1)).unwrap();
    assert!(res == WaitableResult::Timeout);
}

#[test]
fn wait_for_all_consumes_one_permit_of_each() {
    let s0 = Semaphore::new(2, 2, None).unwrap();
    let s1 = Semaphore::new(2, 2, None).unwrap();
    let mut w = vec![s0, s1];

    let res = wait_for_all(&mut w, Duration::from_secs(1_000_000)).unwrap();
    assert!(res == WaitableResult::Signaled); // Counts are now 1 and 1.

    let res = wait_for_all(&mut w, Duration::from_secs(1_000_000)).unwrap();
    assert!(res == WaitableResult::Signaled); // Counts are now 0 and 0.

    let res = wait_for_all(&mut w, Duration::from_millis(1)).unwrap();
    assert!(res == WaitableResult::Timeout);
}
