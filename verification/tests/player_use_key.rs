use tick_engine::bridge::{InputLog, KeyKind, KeyRequest};
use tick_engine::config::{ActionKeyDirection, ActionKeyWith, KeyBinding, LinkKeyBinding};
use tick_engine::player::timeout::Timeout;
use tick_engine::player::use_key::{UseKey, UseKeyStage, update_use_key_context};
use tick_engine::player::{Player, PlayerState};

fn base_use_key() -> UseKey {
    UseKey {
        key: KeyBinding::A,
        link_key: None,
        count: 1,
        current_count: 0,
        direction: ActionKeyDirection::Any,
        with: ActionKeyWith::Any,
        wait_before_use_ticks: 0,
        wait_after_use_ticks: 0,
        action_info: None,
        stage: UseKeyStage::Precondition,
    }
}

fn unwrap_use_key(player: Player) -> UseKey {
    match player {
        Player::UseKey(use_key) => use_key,
        _ => panic!("expected the use-key state"),
    }
}

#[test]
fn use_key_ensure_use_with() {
    let mut input = InputLog::new();
    let mut state = PlayerState::default();
    let use_key = UseKey { with: ActionKeyWith::Stationary, ..base_use_key() };

    // ensuring use with start
    let player = update_use_key_context(&mut input, &mut state, use_key);
    let use_key = unwrap_use_key(player);
    assert!(matches!(use_key.stage, UseKeyStage::EnsuringUseWith));

    // ensuring use with complete
    state.is_stationary = true;
    let player = update_use_key_context(&mut input, &mut state, use_key);
    assert!(matches!(unwrap_use_key(player).stage, UseKeyStage::Precondition));
}

#[test]
fn use_key_change_direction() {
    let mut input = InputLog::new();
    let mut state = PlayerState::default();
    let use_key = UseKey { direction: ActionKeyDirection::Left, ..base_use_key() };

    // changing direction
    let player = update_use_key_context(&mut input, &mut state, use_key);
    assert!(matches!(state.last_known_direction, ActionKeyDirection::Any));
    let use_key = unwrap_use_key(player);
    assert!(matches!(
        use_key.stage,
        UseKeyStage::ChangingDirection(Timeout { started: false, .. })
    ));

    // changing direction start
    let player = update_use_key_context(&mut input, &mut state, use_key);
    assert!(matches!(state.last_known_direction, ActionKeyDirection::Any));
    assert!(matches!(
        unwrap_use_key(player).stage,
        UseKeyStage::ChangingDirection(Timeout { started: true, .. })
    ));
    assert_eq!(input.drain(), vec![KeyRequest::Down(KeyKind::Left)]);

    // changing direction complete
    let use_key = UseKey {
        stage: UseKeyStage::ChangingDirection(Timeout { started: true, current: 3, total: 3 }),
        direction: ActionKeyDirection::Left,
        ..base_use_key()
    };
    let player = update_use_key_context(&mut input, &mut state, use_key);
    assert!(matches!(state.last_known_direction, ActionKeyDirection::Left));
    assert!(matches!(unwrap_use_key(player).stage, UseKeyStage::Precondition));
    assert_eq!(input.drain(), vec![KeyRequest::Up(KeyKind::Left)]);
}

#[test]
fn use_key_count() {
    let mut input = InputLog::new();
    let mut state = PlayerState::default();
    let use_key = UseKey { count: 100, ..base_use_key() };

    let mut player = Player::UseKey(use_key);
    for i in 0..100 {
        player = update_use_key_context(&mut input, &mut state, unwrap_use_key(player));
        assert!(matches!(unwrap_use_key(player).stage, UseKeyStage::Using(_, _)));
        player = update_use_key_context(&mut input, &mut state, unwrap_use_key(player));
        assert!(matches!(unwrap_use_key(player).stage, UseKeyStage::Postcondition));
        player = update_use_key_context(&mut input, &mut state, unwrap_use_key(player));
        if i == 99 {
            assert!(matches!(player, Player::Idle));
        } else {
            assert!(matches!(unwrap_use_key(player).stage, UseKeyStage::Precondition));
        }
    }
    let sent = input.drain();
    assert_eq!(sent.len(), 100);
    assert!(sent.iter().all(|request| matches!(request, KeyRequest::Press(KeyKind::A))));
}

#[test]
fn use_key_stalling() {
    let mut input = InputLog::new();
    let mut state = PlayerState::default();
    let use_key = UseKey {
        wait_before_use_ticks: 10,
        wait_after_use_ticks: 20,
        ..base_use_key()
    };

    // enter stalling state
    assert!(state.stalling_timeout_state.is_none());
    assert!(matches!(
        update_use_key_context(&mut input, &mut state, use_key),
        Player::Stalling(_, 10)
    ));
    let resumed = match state.stalling_timeout_state.take() {
        Some(Player::UseKey(resumed)) => {
            assert!(matches!(resumed.stage, UseKeyStage::Using(_, false)));
            resumed
        },
        _ => panic!("expected a pending use-key resume"),
    };

    // complete before stalling state and send key
    assert!(matches!(
        update_use_key_context(&mut input, &mut state, resumed),
        Player::Stalling(_, 20)
    ));
    assert_eq!(input.drain(), vec![KeyRequest::Press(KeyKind::A)]);
    let resumed = match state.stalling_timeout_state.take() {
        Some(Player::UseKey(resumed)) => {
            assert!(matches!(resumed.stage, UseKeyStage::Postcondition));
            resumed
        },
        _ => panic!("expected a pending use-key resume"),
    };

    // complete after stalling state and return idle
    assert!(matches!(update_use_key_context(&mut input, &mut state, resumed), Player::Idle));
}

#[test]
fn use_key_link_along() {
    let mut input = InputLog::new();
    let mut state = PlayerState::default();
    let mut use_key = UseKey {
        link_key: Some(LinkKeyBinding::Along(KeyBinding::Alt)),
        stage: UseKeyStage::Using(Timeout::default(), false),
        ..base_use_key()
    };

    // Starts by holding down Alt
    update_use_key_context(&mut input, &mut state, use_key);
    assert_eq!(input.drain(), vec![KeyRequest::Down(KeyKind::Alt)]);

    // Sends A at tick 2
    use_key.stage = UseKeyStage::Using(Timeout { started: true, total: 1, current: 1 }, false);
    assert!(matches!(
        update_use_key_context(&mut input, &mut state, use_key),
        Player::UseKey(UseKey {
            stage: UseKeyStage::Using(Timeout { total: 2, current: 2, .. }, false),
            ..
        })
    ));
    assert_eq!(input.drain(), vec![KeyRequest::Press(KeyKind::A)]);

    // Ends by releasing Alt
    use_key.stage = UseKeyStage::Using(Timeout { started: true, total: 4, current: 4 }, false);
    assert!(matches!(
        update_use_key_context(&mut input, &mut state, use_key),
        Player::UseKey(UseKey {
            stage: UseKeyStage::Using(Timeout { total: 4, current: 4, .. }, true),
            ..
        })
    ));
    assert_eq!(input.drain(), vec![KeyRequest::Up(KeyKind::Alt)]);
}
