use tick_engine::bridge::{KeyKind, KeyRequest};
use tick_engine::config::{ActionKeyWith, KeyBinding, Position};
use tick_engine::ecs::Resources;
use tick_engine::geometry::{Point, Rect};
use tick_engine::minimap::{Minimap, MinimapIdle};
use tick_engine::player::actions::{AutoMob, PlayerAction};
use tick_engine::player::stall::update_stalling_context;
use tick_engine::player::timeout::Timeout;
use tick_engine::player::unstuck::update_unstucking_state;
use tick_engine::player::{Player, PlayerEntity, PlayerState};

fn auto_mob_action(y: i32) -> PlayerAction {
    PlayerAction::AutoMob(AutoMob {
        key: KeyBinding::A,
        link_key: None,
        count: 1,
        with: ActionKeyWith::Any,
        position: Position { x: 0, y },
        wait_before_ticks: 0,
        wait_before_ticks_random_range: 0,
        wait_after_ticks: 0,
        wait_after_ticks_random_range: 0,
    })
}

#[test]
fn stalling_ticks_until_timeout() {
    let mut state = PlayerState::default();

    // First advance starts the wait.
    let next = update_stalling_context(&mut state, Timeout::default(), 2);
    assert!(matches!(next, Player::Stalling(Timeout { started: true, current: 0, .. }, 2)));

    // Ordinary ticks keep waiting.
    let next = update_stalling_context(
        &mut state,
        Timeout { started: true, current: 0, total: 0 },
        2,
    );
    assert!(matches!(next, Player::Stalling(Timeout { current: 1, .. }, 2)));

    // The deadline resolves to Idle when nothing scheduled the stall.
    let next = update_stalling_context(
        &mut state,
        Timeout { started: true, current: 2, total: 2 },
        2,
    );
    assert!(matches!(next, Player::Idle));
}

#[test]
fn stalling_resumes_scheduling_state() {
    let mut state = PlayerState::default();
    state.stalling_timeout_state = Some(Player::Detecting);

    let next = update_stalling_context(
        &mut state,
        Timeout { started: true, current: 5, total: 5 },
        5,
    );
    assert!(matches!(next, Player::Detecting));
    assert!(state.stalling_timeout_state.is_none());
}

#[test]
fn stalling_terminal_dequeues_intent() {
    let mut state = PlayerState::default();
    state.is_stationary = true;
    state.auto_mob_reachable_y = Some(20);
    state.normal_action = Some(auto_mob_action(20));

    let next = update_stalling_context(
        &mut state,
        Timeout { started: true, current: 3, total: 3 },
        3,
    );
    assert!(matches!(next, Player::Idle));
    assert!(state.normal_action.is_none());
}

#[test]
fn stalling_restalls_when_not_stationary() {
    // A terminal auto-mob stall would record the reachable vertical
    // bound; while the player still moves it re-stalls instead of
    // recording a wrong sample.
    let mut state = PlayerState::default();
    state.is_stationary = false;
    state.normal_action = Some(auto_mob_action(35));

    let next = update_stalling_context(
        &mut state,
        Timeout { started: true, current: 3, total: 3 },
        3,
    );
    assert!(matches!(next, Player::Stalling(Timeout { started: false, .. }, 3)));
    assert!(state.normal_action.is_some());
    assert_eq!(state.auto_mob_reachable_y, None);
}

#[test]
fn stalling_records_reachable_bound_when_stationary() {
    let mut state = PlayerState::default();
    state.is_stationary = true;
    state.normal_action = Some(auto_mob_action(35));

    let next = update_stalling_context(
        &mut state,
        Timeout { started: true, current: 3, total: 3 },
        3,
    );
    assert!(matches!(next, Player::Idle));
    assert_eq!(state.auto_mob_reachable_y, Some(35));
    assert!(state.normal_action.is_none());
}

fn idle_minimap() -> Minimap {
    Minimap::Idle(MinimapIdle {
        bbox: Rect { x: 0, y: 0, width: 100, height: 60 },
        portals: Vec::new(),
    })
}

#[test]
fn unstucking_without_minimap_detects() {
    let mut resources = Resources::new();
    let mut player = PlayerEntity { state: Player::Idle, context: PlayerState::default() };

    update_unstucking_state(
        &mut resources,
        &mut player,
        &Minimap::Detecting,
        Timeout::default(),
        false,
        false,
    );
    assert!(matches!(player.state, Player::Detecting));
}

#[test]
fn unstucking_nudges_right_from_left_half() {
    let mut resources = Resources::new();
    let mut player = PlayerEntity { state: Player::Idle, context: PlayerState::default() };
    player.context.last_known_pos = Some(Point::new(10, 30));

    update_unstucking_state(
        &mut resources,
        &mut player,
        &idle_minimap(),
        Timeout::default(),
        false,
        false,
    );
    assert!(matches!(player.state, Player::Unstucking(Timeout { started: true, .. }, false)));
    assert_eq!(resources.input.drain(), vec![KeyRequest::Down(KeyKind::Right)]);
}

#[test]
fn unstucking_presses_esc_for_dialog() {
    let mut resources = Resources::new();
    let mut player = PlayerEntity { state: Player::Idle, context: PlayerState::default() };
    player.context.last_known_pos = Some(Point::new(80, 30));

    update_unstucking_state(
        &mut resources,
        &mut player,
        &idle_minimap(),
        Timeout::default(),
        false,
        true,
    );
    assert_eq!(
        resources.input.drain(),
        vec![KeyRequest::Press(KeyKind::Esc), KeyRequest::Up(KeyKind::Left)]
    );
}

#[test]
fn unstucking_jumps_on_ordinary_ticks() {
    let mut resources = Resources::new();
    let mut player = PlayerEntity { state: Player::Idle, context: PlayerState::default() };
    player.context.last_known_pos = Some(Point::new(10, 30));

    update_unstucking_state(
        &mut resources,
        &mut player,
        &idle_minimap(),
        Timeout { started: true, current: 0, total: 0 },
        false,
        false,
    );
    assert_eq!(resources.input.drain(), vec![KeyRequest::Press(KeyKind::Space)]);
}

#[test]
fn unstucking_releases_directions_on_timeout() {
    // Every exit path releases the held directional keys, so no stuck
    // input survives the state.
    let mut resources = Resources::new();
    let mut player = PlayerEntity { state: Player::Idle, context: PlayerState::default() };
    player.context.last_known_pos = Some(Point::new(10, 30));

    update_unstucking_state(
        &mut resources,
        &mut player,
        &idle_minimap(),
        Timeout { started: true, current: 5, total: 5 },
        false,
        false,
    );
    assert!(matches!(player.state, Player::Detecting));
    assert_eq!(
        resources.input.drain(),
        vec![KeyRequest::Up(KeyKind::Right), KeyRequest::Up(KeyKind::Left)]
    );
}
