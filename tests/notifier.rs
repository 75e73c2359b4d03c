use rand_esdm::error::EsdmError;
use rand_esdm::notifier::{deadline_after, EsdmNotification, NotifierState, Timespec, WaitSignal};

#[test]
fn zero_timeout_without_signal_times_out() {
    let mut n = EsdmNotification::new(0).unwrap();
    let now = Timespec { sec: 1234, nsec: 567 };
    let deadline = n.begin_wait(Some(now), 0, 0).unwrap();
    assert_eq!(deadline, now);
    assert_eq!(n.state(), NotifierState::Waiting);
    assert_eq!(n.end_wait(WaitSignal::TimedOut), Err(EsdmError::TimedOut));
    assert_eq!(n.state(), NotifierState::Created);
    n.finalize();
    assert_eq!(n.state(), NotifierState::Finalized);
}

#[test]
fn woken_wait_goes_on_to_query() {
    let mut n = EsdmNotification::new(0).unwrap();
    let deadline = n.begin_wait(Some(Timespec { sec: 10, nsec: 0 }), 100, 0).unwrap();
    assert_eq!(deadline, Timespec { sec: 110, nsec: 0 });
    assert_eq!(n.end_wait(WaitSignal::Woken), Ok(()));
    let again = n.begin_wait(Some(Timespec { sec: 500, nsec: 1 }), 1, 2).unwrap();
    assert_eq!(again, Timespec { sec: 501, nsec: 3 });
}

#[test]
fn failed_init_gives_no_handle() {
    assert!(EsdmNotification::new(-1).is_none());
    assert!(EsdmNotification::new(1).is_none());
}

#[test]
fn unreadable_clock_fails_the_wait() {
    let mut n = EsdmNotification::new(0).unwrap();
    assert_eq!(n.begin_wait(None, 1, 0), Err(EsdmError::Clock));
    assert_eq!(n.state(), NotifierState::Created);
}

#[test]
fn deadline_carries_nanoseconds() {
    let now = Timespec { sec: 5, nsec: 999_999_999 };
    assert_eq!(deadline_after(now, 0, 1), Some(Timespec { sec: 6, nsec: 0 }));
    assert_eq!(deadline_after(now, 2, 999_999_999), Some(Timespec { sec: 8, nsec: 999_999_998 }));
    assert_eq!(
        deadline_after(Timespec { sec: 0, nsec: 0 }, 0, u32::MAX),
        Some(Timespec { sec: 4, nsec: 294_967_295 })
    );
}

#[test]
fn deadline_out_of_range() {
    assert_eq!(deadline_after(Timespec { sec: i64::MAX, nsec: 0 }, 1, 0), None);
    assert_eq!(deadline_after(Timespec { sec: 0, nsec: 0 }, u64::MAX, 0), None);
    assert_eq!(
        deadline_after(Timespec { sec: -10, nsec: 0 }, i64::MAX as u64 + 5, 0),
        Some(Timespec { sec: i64::MAX - 5, nsec: 0 })
    );
    assert_eq!(deadline_after(Timespec { sec: 1, nsec: -1 }, 0, 0), None);
    assert_eq!(deadline_after(Timespec { sec: 1, nsec: 1_000_000_000 }, 0, 0), None);
}
