use std::time::{Duration, Instant};

use oxidebot::utils::wait::{retry_notice, Wait, WaitError, WaitEvent, WaitStep};

#[test]
fn retries_exhausted_after_max_retries_invalid_inputs() {
    let mut w = Wait::new(0, 60_000, 2);
    assert_eq!(w.on_event(WaitEvent::Invalid), WaitStep::Retry);
    assert_eq!(w.on_event(WaitEvent::Invalid), WaitStep::Retry);
    assert_eq!(w.on_event(WaitEvent::Invalid), WaitStep::Fail(WaitError::MaxRetriesExceeded));
    // the parseable fourth input is never taken
    assert_eq!(w.on_event(WaitEvent::Matched), WaitStep::Finished);
}

#[test]
fn zero_retries_fail_on_first_invalid_input() {
    let mut w = Wait::new(0, 1_000, 0);
    assert_eq!(w.on_event(WaitEvent::Invalid), WaitStep::Fail(WaitError::MaxRetriesExceeded));
}

#[test]
fn valid_input_after_retries_is_accepted() {
    let mut w = Wait::new(0, 1_000, 2);
    assert_eq!(w.on_event(WaitEvent::Invalid), WaitStep::Retry);
    assert_eq!(w.on_event(WaitEvent::Skipped), WaitStep::Continue);
    assert_eq!(w.on_event(WaitEvent::Matched), WaitStep::Accept);
}

#[test]
fn deadline_is_shared_by_all_attempts() {
    let mut w = Wait::new(1_000, 50, 3);
    assert_eq!(w.remaining(1_000), 50);
    assert_eq!(w.on_event(WaitEvent::Invalid), WaitStep::Retry);
    assert_eq!(w.remaining(1_030), 20);
    assert_eq!(w.remaining(1_050), 0);
    assert_eq!(w.remaining(2_000), 0);
    assert_eq!(Wait::new(u64::MAX - 1, 50, 0).deadline, u64::MAX);
}

#[test]
fn lag_closed_and_timeout() {
    let mut w = Wait::new(0, 10, 0);
    assert_eq!(w.on_event(WaitEvent::Lagged), WaitStep::Continue);
    assert_eq!(w.on_event(WaitEvent::Elapsed), WaitStep::Fail(WaitError::Timeout));
    let mut c = Wait::new(0, 10, 0);
    assert_eq!(c.on_event(WaitEvent::Closed), WaitStep::Fail(WaitError::Closed));
}

#[test]
fn never_matching_wait_times_out_near_its_deadline() {
    let rt = tokio::runtime::Builder::new_current_thread().enable_time().build().unwrap();
    let (tx, mut rx) = tokio::sync::broadcast::channel::<u32>(16);
    let start = Instant::now();
    let outcome = rt.block_on(async move {
        tokio::spawn(async move {
            for i in 0..100u32 {
                if tx.send(i).is_err() {
                    break;
                }
                tokio::time::sleep(Duration::from_millis(5)).await;
            }
        });
        let clock = Instant::now();
        let mut wait = Wait::new(0, 50, 0);
        loop {
            let now = clock.elapsed().as_millis() as u64;
            let left = Duration::from_millis(wait.remaining(now));
            let event = match tokio::time::timeout(left, rx.recv()).await {
                Err(_) => WaitEvent::Elapsed,
                Ok(Ok(_never_matches)) => WaitEvent::Skipped,
                Ok(Err(tokio::sync::broadcast::error::RecvError::Lagged(_))) => WaitEvent::Lagged,
                Ok(Err(tokio::sync::broadcast::error::RecvError::Closed)) => WaitEvent::Closed,
            };
            match wait.on_event(event) {
                WaitStep::Continue | WaitStep::Retry => continue,
                other => return other,
            }
        }
    });
    let took = start.elapsed();
    assert_eq!(outcome, WaitStep::Fail(WaitError::Timeout));
    assert!(took >= Duration::from_millis(45));
    assert!(took < Duration::from_millis(500));
}

#[test]
fn retry_notice_texts() {
    assert_eq!(retry_notice("Send a number", "bad digit", false), "Send a number\nError: bad digit");
    assert_eq!(
        retry_notice("Send a number", "bad digit", true),
        "Send a number\nError: bad digit\n\nMax retries exceeded, exited."
    );
}
