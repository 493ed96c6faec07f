use tick_engine::player::timeout::{Lifecycle, Timeout, next_timeout_lifecycle};
use tick_engine::task::{Task, TaskEvent, TaskStatus, Update, update_detection_task};

#[test]
fn timeout_starts_once_then_updates_then_ends() {
    // A fresh timeout starts on the first advance whatever the deadline
    // is, counts both counters up on the next advance, and ends exactly
    // when `current` has reached the deadline.
    let deadline: u32 = 3;
    let lifecycle = next_timeout_lifecycle(Timeout::default(), deadline);
    let started = match lifecycle {
        Lifecycle::Started(t) => t,
        _ => panic!("first advance must start"),
    };
    assert_eq!(started, Timeout { started: true, current: 0, total: 0 });

    let lifecycle = next_timeout_lifecycle(started, deadline);
    let updated = match lifecycle {
        Lifecycle::Updated(t) => t,
        _ => panic!("second advance must update"),
    };
    assert_eq!(updated, Timeout { started: true, current: 1, total: 1 });

    let mut timeout = updated;
    while timeout.current < deadline {
        match next_timeout_lifecycle(timeout, deadline) {
            Lifecycle::Updated(t) => timeout = t,
            _ => panic!("must keep updating below the deadline"),
        }
    }
    assert!(matches!(next_timeout_lifecycle(timeout, deadline), Lifecycle::Ended));
}

#[test]
fn timeout_starts_regardless_of_deadline() {
    for deadline in [0u32, 1, 7, u32::MAX] {
        assert!(matches!(
            next_timeout_lifecycle(Timeout::default(), deadline),
            Lifecycle::Started(Timeout { started: true, current: 0, total: 0 })
        ));
    }
}

#[test]
fn timeout_total_survives_current_reset() {
    // Resetting `current` alone is a supported operation: `total` keeps
    // counting the whole stay in the state.
    let timeout = Timeout { started: true, current: 4, total: 9 };
    let reset = Timeout { current: 0, ..timeout };
    match next_timeout_lifecycle(reset, 5) {
        Lifecycle::Updated(t) => {
            assert_eq!(t.current, 1);
            assert_eq!(t.total, 10);
        },
        _ => panic!("reset timeout must keep updating"),
    }
}

#[test]
fn task_single_perception_call_while_pending() {
    // Polling every tick before completion never issues the underlying
    // perception call more than once: only the first poll fills the
    // empty slot, and the in-flight task is left untouched after that.
    let mut slot: Option<Task<bool>> = None;
    let outcome = update_detection_task(100, &mut slot, TaskEvent::Pending);
    assert!(matches!(outcome, Update::Pending));
    let issued = slot.unwrap();
    assert!(matches!(issued.status, TaskStatus::InFlight));

    for _ in 0..50 {
        let outcome = update_detection_task(100, &mut slot, TaskEvent::Pending);
        assert!(matches!(outcome, Update::Pending));
        assert_eq!(slot.unwrap(), issued);
    }
}

#[test]
fn task_caches_completed_result() {
    let mut slot: Option<Task<bool>> = None;
    let _ = update_detection_task(100, &mut slot, TaskEvent::Pending);
    let outcome = update_detection_task(100, &mut slot, TaskEvent::Completed(true));
    assert!(matches!(outcome, Update::Ready(true)));

    // The cached result keeps being served; the event is ignored.
    let outcome = update_detection_task(100, &mut slot, TaskEvent::Pending);
    assert!(matches!(outcome, Update::Ready(true)));
    assert_eq!(slot.unwrap().age_ticks, 1);
}

#[test]
fn task_stale_result_reissues() {
    let mut slot: Option<Task<bool>> = None;
    let _ = update_detection_task(2, &mut slot, TaskEvent::Pending);
    let _ = update_detection_task(2, &mut slot, TaskEvent::Completed(false));
    let _ = update_detection_task(2, &mut slot, TaskEvent::Pending);
    let _ = update_detection_task(2, &mut slot, TaskEvent::Pending);
    // The cached result is now as old as the budget allows: the next
    // poll abandons it and issues a fresh detection.
    let outcome = update_detection_task(2, &mut slot, TaskEvent::Pending);
    assert!(matches!(outcome, Update::Pending));
    assert!(matches!(slot.unwrap().status, TaskStatus::InFlight));
}

#[test]
fn task_failure_reports_error() {
    let mut slot: Option<Task<bool>> = None;
    let _ = update_detection_task(100, &mut slot, TaskEvent::Pending);
    let outcome = update_detection_task(100, &mut slot, TaskEvent::Failed);
    assert!(matches!(outcome, Update::Error));
    assert!(slot.unwrap().completed());
}

#[test]
fn task_dropped_slot_cancels() {
    let mut slot: Option<Task<bool>> = None;
    let _ = update_detection_task(100, &mut slot, TaskEvent::Pending);
    // Dropping the slot cancels interest; the next poll issues afresh.
    slot = None;
    let outcome = update_detection_task(100, &mut slot, TaskEvent::Pending);
    assert!(matches!(outcome, Update::Pending));
    assert!(matches!(slot.unwrap().status, TaskStatus::InFlight));
}
