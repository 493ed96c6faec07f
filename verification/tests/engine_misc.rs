use tick_engine::bridge::{InputLog, KeyKind, KeyRequest};
use tick_engine::config::{ActionKeyDirection, ActionKeyWith, KeyBinding, Minimap, Position};
use tick_engine::geometry::Point;
use tick_engine::player::actions::{AutoMob, Key, PlayerAction};
use tick_engine::player::use_key::{ActionInfo, UseKey, UseKeyStage};
use tick_engine::rng::random_wait_ticks;

#[test]
fn input_log_preserves_order_and_drains() {
    let mut input = InputLog::new();
    input.send_key_down(KeyKind::Alt);
    input.send_key(KeyKind::A);
    input.send_key_up(KeyKind::Alt);
    assert_eq!(input.len(), 3);
    assert_eq!(
        input.drain(),
        vec![
            KeyRequest::Down(KeyKind::Alt),
            KeyRequest::Press(KeyKind::A),
            KeyRequest::Up(KeyKind::Alt),
        ]
    );
    assert_eq!(input.len(), 0);
}

#[test]
fn random_wait_ticks_stays_in_window() {
    for _ in 0..100 {
        let wait = random_wait_ticks(10, 3);
        assert!((7..=13).contains(&wait));
    }
    assert_eq!(random_wait_ticks(4, 0), 4);
}

#[test]
fn minimap_preset_lookup_finds_by_name() {
    let mut minimap = Minimap::default();
    minimap.actions.push(("alpha".to_string(), Vec::new()));
    minimap.actions.push(("beta".to_string(), Vec::new()));

    assert!(minimap.preset_actions(&"beta".to_string()).is_some());
    assert!(minimap.preset_actions(&"gamma".to_string()).is_none());
}

#[test]
fn from_action_key_copies_the_intent() {
    let action = PlayerAction::Key(Key {
        key: KeyBinding::S,
        link_key: None,
        count: 3,
        direction: ActionKeyDirection::Left,
        with: ActionKeyWith::Stationary,
        wait_before_use_ticks: 5,
        wait_before_use_ticks_random_range: 0,
        wait_after_use_ticks: 6,
        wait_after_use_ticks_random_range: 0,
    });

    let use_key = UseKey::from_action(action);
    assert_eq!(use_key.key, KeyBinding::S);
    assert_eq!(use_key.count, 3);
    assert_eq!(use_key.current_count, 0);
    assert!(matches!(use_key.direction, ActionKeyDirection::Left));
    assert!(matches!(use_key.with, ActionKeyWith::Stationary));
    assert_eq!(use_key.wait_before_use_ticks, 5);
    assert_eq!(use_key.wait_after_use_ticks, 6);
    assert!(use_key.action_info.is_none());
    assert!(matches!(use_key.stage, UseKeyStage::Precondition));
}

#[test]
fn from_action_pos_orients_the_sweep() {
    let action = PlayerAction::AutoMob(AutoMob {
        key: KeyBinding::A,
        link_key: None,
        count: 1,
        with: ActionKeyWith::Any,
        position: Position { x: 50, y: 20 },
        wait_before_ticks: 0,
        wait_before_ticks_random_range: 0,
        wait_after_ticks: 0,
        wait_after_ticks_random_range: 0,
    });

    // The mob is to the right and close enough to terminate the sweep.
    let use_key = UseKey::from_action_pos(action, Some(Point::new(40, 19)));
    assert!(matches!(use_key.direction, ActionKeyDirection::Right));
    assert_eq!(
        use_key.action_info,
        Some(ActionInfo::AutoMobbing { should_terminate: true })
    );

    // Far away to the left: no termination.
    let use_key = UseKey::from_action_pos(action, Some(Point::new(90, 19)));
    assert!(matches!(use_key.direction, ActionKeyDirection::Left));
    assert_eq!(
        use_key.action_info,
        Some(ActionInfo::AutoMobbing { should_terminate: false })
    );
}
