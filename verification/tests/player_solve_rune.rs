use tick_engine::bridge::{KeyKind, KeyRequest};
use tick_engine::ecs::Resources;
use tick_engine::player::actions::PlayerAction;
use tick_engine::player::solve_rune::{
    ArrowsCalibrating, ArrowsState, SolvingRune, State, update_find_region, update_press_keys,
    update_solving, update_solving_rune_state,
};
use tick_engine::player::timeout::Timeout;
use tick_engine::player::{Player, PlayerEntity, PlayerState};

#[test]
fn update_solving_rune_precondition_to_find_region_when_stationary_and_keys_cleared() {
    let mut resources = Resources::new();
    resources.keys_cleared = true;

    let mut player = PlayerEntity {
        state: Player::SolvingRune(SolvingRune::default()),
        context: PlayerState::default(),
    };
    player.context.priority_action = Some(PlayerAction::SolveRune); // Avoid cancellation
    player.context.is_stationary = true;

    update_solving_rune_state(&mut resources, &mut player, None);

    assert!(matches!(
        player.state,
        Player::SolvingRune(SolvingRune { state: State::FindRegion(_, _, None, 0) })
    ));
}

#[test]
fn update_find_region_to_solving_on_calibrating() {
    let mut resources = Resources::new();
    let mut solving_rune = SolvingRune {
        state: State::FindRegion(
            ArrowsCalibrating::default(),
            Timeout { started: true, current: 89, total: 0 },
            None,
            0,
        ),
    };

    update_find_region(
        &mut resources,
        &mut solving_rune,
        KeyKind::A,
        Some(ArrowsState::Calibrating(ArrowsCalibrating::default())),
    );

    assert!(matches!(
        solving_rune.state,
        State::Solving(_, Timeout { started: false, current: 0, .. })
    ));
}

#[test]
fn update_find_region_retry_on_timeout() {
    let mut resources = Resources::new();
    let mut solving_rune = SolvingRune {
        state: State::FindRegion(
            ArrowsCalibrating::default(),
            Timeout { started: true, current: 125, total: 0 },
            None,
            0,
        ),
    };

    // The detector would report "rune region not found"; at the attempt's
    // deadline it is not consulted at all and the attempt retries.
    update_find_region(&mut resources, &mut solving_rune, KeyKind::A, None);

    assert!(matches!(
        solving_rune.state,
        State::FindRegion(_, Timeout { started: false, .. }, Some(Timeout { started: false, .. }), 1)
    ));
}

#[test]
fn update_find_region_retry_cooldown_timeout_to_none() {
    let mut resources = Resources::new();
    let mut solving_rune = SolvingRune {
        state: State::FindRegion(
            ArrowsCalibrating::default(),
            Timeout::default(),
            Some(Timeout { started: true, current: 125, total: 0 }),
            1,
        ),
    };

    update_find_region(&mut resources, &mut solving_rune, KeyKind::A, None);

    assert!(matches!(solving_rune.state, State::FindRegion(_, _, None, 1)));
}

#[test]
fn update_solving_to_completed_on_error() {
    let mut solving_rune = SolvingRune {
        state: State::Solving(
            ArrowsCalibrating::default(),
            Timeout { started: true, current: 0, total: 0 },
        ),
    };

    update_solving(&mut solving_rune, None);

    assert!(matches!(solving_rune.state, State::Completed));
}

#[test]
fn update_solving_to_solving_on_incomplete() {
    let mut solving_rune = SolvingRune {
        state: State::Solving(
            ArrowsCalibrating::default(),
            Timeout { started: true, current: 0, total: 0 },
        ),
    };

    update_solving(
        &mut solving_rune,
        Some(ArrowsState::Calibrating(ArrowsCalibrating::default())),
    );

    assert!(matches!(solving_rune.state, State::Solving(_, Timeout { started: true, .. })));
}

#[test]
fn update_solving_to_press_keys_on_complete() {
    let expected_keys = [KeyKind::A, KeyKind::S, KeyKind::D, KeyKind::F];
    let mut solving_rune = SolvingRune {
        state: State::Solving(
            ArrowsCalibrating::default(),
            Timeout { started: true, current: 0, total: 0 },
        ),
    };

    update_solving(&mut solving_rune, Some(ArrowsState::Complete(expected_keys)));

    assert!(matches!(
        solving_rune.state,
        State::PressKeys(
            Timeout { started: false, current: 0, .. },
            [KeyKind::A, KeyKind::S, KeyKind::D, KeyKind::F],
            0
        )
    ));
}

#[test]
fn update_press_keys_to_completed_after_all_keys_sent() {
    let expected_keys = [KeyKind::A, KeyKind::S, KeyKind::D, KeyKind::F];
    let mut solving_rune = SolvingRune {
        state: State::PressKeys(Timeout::default(), expected_keys, 0),
    };

    for idx in 0..expected_keys.len() {
        let mut resources = Resources::new();

        // Start key press
        update_press_keys(&mut resources, &mut solving_rune);
        assert_eq!(resources.input.drain(), vec![KeyRequest::Press(expected_keys[idx])]);

        // Simulate timeout end (advance or complete)
        solving_rune.state = State::PressKeys(
            Timeout { started: true, current: 8, total: 0 },
            expected_keys,
            idx,
        );
        update_press_keys(&mut resources, &mut solving_rune);
    }

    assert!(matches!(solving_rune.state, State::Completed));
}

#[test]
fn update_solving_rune_force_cancels_without_intent() {
    // The state may only run while the rune intent is active: if the
    // intent disappears it force-cancels to Idle whatever stage it is in.
    let mut resources = Resources::new();
    let mut player = PlayerEntity {
        state: Player::SolvingRune(SolvingRune {
            state: State::Solving(ArrowsCalibrating::default(), Timeout::default()),
        }),
        context: PlayerState::default(),
    };

    update_solving_rune_state(&mut resources, &mut player, None);

    assert!(matches!(player.state, Player::Idle));
}

#[test]
fn update_solving_rune_terminal_starts_validation() {
    // Giving up after the retry ceiling resolves to Idle, dequeues the
    // rune intent and starts validating.
    let mut resources = Resources::new();
    let mut player = PlayerEntity {
        state: Player::SolvingRune(SolvingRune {
            state: State::FindRegion(
                ArrowsCalibrating::default(),
                Timeout { started: true, current: 125, total: 0 },
                None,
                2,
            ),
        }),
        context: PlayerState::default(),
    };
    player.context.priority_action = Some(PlayerAction::SolveRune);

    update_solving_rune_state(&mut resources, &mut player, None);

    assert!(matches!(player.state, Player::Idle));
    assert!(player.context.rune_validating);
    assert!(player.context.priority_action.is_none());
}
