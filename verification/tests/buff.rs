use tick_engine::buff::{Buff, BuffKind, BuffState, update_context};
use tick_engine::config::{Character, Settings};
use tick_engine::task::TaskEvent;

/// Drives the detection task of `state` until it delivers `result`, the
/// way the control loop would: spawn on the first poll, then report the
/// perception call finished.
fn advance_task(contextual: Buff, state: &mut BuffState, result: bool) -> Buff {
    let mut buff = update_context(contextual, state, TaskEvent::Pending);
    while !state.task.as_ref().unwrap().completed() {
        buff = update_context(buff, state, TaskEvent::Completed(result));
    }
    buff
}

#[test]
fn buff_no_to_yes() {
    for kind in BuffKind::all() {
        let mut state = BuffState::new(kind);

        let buff = advance_task(Buff::No, &mut state, true);
        let buff = update_context(buff, &mut state, TaskEvent::Pending);
        assert_eq!(state.fail_count, 0);
        assert!(matches!(buff, Buff::Yes));
    }
}

#[test]
fn buff_yes_to_no() {
    for kind in BuffKind::all() {
        let mut state = BuffState::new(kind);
        state.max_fail_count = 2;
        state.fail_count = 0;

        let mut buff = Buff::Yes;

        // First failure: Yes -> Volatile
        buff = advance_task(buff, &mut state, false);
        assert!(matches!(buff, Buff::Volatile));
        assert_eq!(state.fail_count, 0);

        // Second failure: Volatile -> still Volatile
        buff = advance_task(buff, &mut state, false);
        assert!(matches!(buff, Buff::Volatile));
        assert_eq!(state.fail_count, 1);

        // Third failure: Volatile -> No (fail_count reached max)
        buff = advance_task(buff, &mut state, false);
        assert!(matches!(buff, Buff::No));
        assert_eq!(state.fail_count, 2); // Still 2, as No resets it on next tick
    }
}

#[test]
fn buff_volatile_to_yes() {
    for kind in BuffKind::all() {
        let mut state = BuffState::new(kind);
        state.max_fail_count = 3;
        state.fail_count = 2;

        let buff = advance_task(Buff::Volatile, &mut state, true);
        assert!(matches!(buff, Buff::Yes));
        assert_eq!(state.fail_count, 0);
    }
}

#[test]
fn buff_disabled_reset() {
    let kind = BuffKind::Rune;
    let mut state = BuffState::new(kind);
    state.enabled = true;
    state.fail_count = 5;

    let mut settings = Settings::default();
    let config = Character::default();
    settings.enable_rune_solving = false;

    state.update_enabled_state(&config, &settings);
    assert!(!state.enabled);
    assert_eq!(state.fail_count, 0);
    assert!(state.task.is_none());
}

#[test]
fn buff_volatile_stay_before_threshold() {
    for kind in BuffKind::all() {
        let mut state = BuffState::new(kind);
        state.max_fail_count = 3;
        state.fail_count = 1;

        let buff = advance_task(Buff::Volatile, &mut state, false);
        assert!(matches!(buff, Buff::Volatile));
        assert_eq!(state.fail_count, 2);
    }
}

#[test]
fn buff_rune_negative_is_authoritative() {
    // The rune kind's tolerance is exactly one: a single negative
    // detection while the buff reads present downgrades straight to
    // absent, skipping the uncertain classification.
    let mut state = BuffState::new(BuffKind::Rune);
    assert_eq!(state.max_fail_count, 1);

    let buff = advance_task(Buff::Yes, &mut state, false);
    assert!(matches!(buff, Buff::No));
    assert_eq!(state.fail_count, 0);
}

#[test]
fn buff_disabled_never_detects() {
    let mut state = BuffState::new(BuffKind::Familiar);
    state.enabled = false;

    let buff = Buff::Yes.update(&mut state, false, TaskEvent::Pending);
    assert!(matches!(buff, Buff::No));
    assert!(state.task.is_none());
}

#[test]
fn buff_frozen_in_cash_shop() {
    let mut state = BuffState::new(BuffKind::Familiar);

    let buff = Buff::Volatile.update(&mut state, true, TaskEvent::Pending);
    assert!(matches!(buff, Buff::Volatile));
    assert!(state.task.is_none());
}

#[test]
fn buff_tolerance_three_forgives_two_misses() {
    // With a tolerance of three, the third consecutive negative
    // detection still leaves the classification uncertain at a fail
    // count of two; only the fourth miss downgrades to absent.
    let mut state = BuffState::new(BuffKind::Familiar);
    state.max_fail_count = 3;

    let mut buff = Buff::Yes;
    buff = advance_task(buff, &mut state, false);
    assert!(matches!(buff, Buff::Volatile));
    buff = advance_task(buff, &mut state, false);
    assert!(matches!(buff, Buff::Volatile));
    assert_eq!(state.fail_count, 1);
    buff = advance_task(buff, &mut state, false);
    assert!(matches!(buff, Buff::Volatile));
    assert_eq!(state.fail_count, 2);
    buff = advance_task(buff, &mut state, false);
    assert!(matches!(buff, Buff::No));
    assert_eq!(state.fail_count, 3);
}
