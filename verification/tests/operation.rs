use tick_engine::config::CycleRunStopMode;
use tick_engine::ecs::Operation;

#[test]
fn halting_classifies_variants() {
    assert!(Operation::Halting.halting());
    assert!(
        Operation::HaltUntil {
            until_millis: 10,
            run_duration_millis: 5,
            stop_duration_millis: 5,
        }
        .halting()
    );
    assert!(
        Operation::TemporaryHalting {
            resume_millis: 10,
            run_duration_millis: 5,
            stop_duration_millis: 5,
            once: false,
        }
        .halting()
    );
    assert!(!Operation::Running.halting());
    assert!(
        !Operation::RunUntil {
            until_millis: 10,
            run_duration_millis: 5,
            stop_duration_millis: 5,
            once: false,
        }
        .halting()
    );
}

#[test]
fn run_until_flips_to_halt_until_at_deadline() {
    let op = Operation::run_until(1000, 200, 300, false);
    assert_eq!(
        op,
        Operation::RunUntil {
            until_millis: 1200,
            run_duration_millis: 200,
            stop_duration_millis: 300,
            once: false,
        }
    );

    // Before the deadline nothing changes.
    assert_eq!(op.update(1199), op);

    // At the deadline the cycle flips into a timed halt.
    assert_eq!(
        op.update(1200),
        Operation::HaltUntil {
            until_millis: 1500,
            run_duration_millis: 200,
            stop_duration_millis: 300,
        }
    );
}

#[test]
fn run_until_once_halts_for_good() {
    let op = Operation::run_until(0, 100, 50, true);
    assert_eq!(op.update(100), Operation::Halting);
}

#[test]
fn halt_until_flips_back_to_running_cycle() {
    let op = Operation::halt_until(0, 100, 50);
    assert_eq!(op.update(49), op);
    assert_eq!(
        op.update(50),
        Operation::RunUntil {
            until_millis: 150,
            run_duration_millis: 100,
            stop_duration_millis: 50,
            once: false,
        }
    );
}

#[test]
fn update_current_keeps_phase() {
    // Re-seating the operating state on a fresh configuration never
    // silently flips between running and halted.
    let halted = Operation::halt_until(0, 100, 50);
    let reseated = halted.update_current(CycleRunStopMode::Disabled, 10, 20, 5);
    assert!(reseated.halting());
    assert_eq!(reseated, Operation::Halting);

    let running = Operation::Running;
    let reseated = running.update_current(CycleRunStopMode::Once, 100, 50, 5);
    assert!(!reseated.halting());
    assert_eq!(
        reseated,
        Operation::RunUntil {
            until_millis: 105,
            run_duration_millis: 100,
            stop_duration_millis: 50,
            once: true,
        }
    );
}

#[test]
fn update_current_repeat_keeps_matching_halt() {
    let halted = Operation::halt_until(0, 100, 50);
    // The stop duration is unchanged: the current halt phase is kept.
    assert_eq!(halted.update_current(CycleRunStopMode::Repeat, 100, 50, 7), halted);
    // A changed stop duration re-derives the deadline from the clock.
    assert_eq!(
        halted.update_current(CycleRunStopMode::Repeat, 100, 60, 7),
        Operation::HaltUntil {
            until_millis: 67,
            run_duration_millis: 100,
            stop_duration_millis: 60,
        }
    );
}
