use tick_engine::bridge::{KeyKind, KeyRequest};
use tick_engine::ecs::Resources;
use tick_engine::geometry::Point;
use tick_engine::player::grapple::{
    GRAPPLING_STOPPING_TIMEOUT, GRAPPLING_TIMEOUT, update_grappling_state,
};
use tick_engine::player::moving::Moving;
use tick_engine::player::timeout::Timeout;
use tick_engine::player::{LastMovement, MOVE_TIMEOUT, Player, PlayerEntity, PlayerState};

const POS: Point = Point { x: 100, y: 100 };

fn mock_player_entity_with_grapple(pos: Point) -> PlayerEntity {
    let mut context = PlayerState::default();
    context.last_known_pos = Some(pos);
    context.config.grappling_key = Some(KeyKind::F);
    PlayerEntity { state: Player::Idle, context }
}

fn mock_moving(pos: Point) -> Moving {
    Moving::new(pos, pos, false, None)
}

#[test]
fn update_grappling_state_started() {
    let moving = mock_moving(POS);
    let mut player = mock_player_entity_with_grapple(POS);
    player.state = Player::Grappling(moving);

    let mut resources = Resources::new();

    update_grappling_state(&mut resources, &mut player);

    assert!(matches!(
        player.state,
        Player::Grappling(Moving { timeout: Timeout { started: true, .. }, .. })
    ));
    assert_eq!(player.context.last_movement, Some(LastMovement::Grappling));
    assert_eq!(resources.input.drain(), vec![KeyRequest::Press(KeyKind::F)]);
}

#[test]
fn update_grappling_state_updated_timeout_x_changed() {
    let mut moving = mock_moving(Point::new(POS.x + 10, POS.y)); // x changed
    moving.timeout.current = MOVE_TIMEOUT;
    moving.timeout.started = true;
    let mut player = mock_player_entity_with_grapple(POS);
    player.state = Player::Grappling(moving);

    let mut resources = Resources::new();

    update_grappling_state(&mut resources, &mut player);

    assert!(matches!(
        player.state,
        Player::Grappling(Moving {
            completed: true,
            timeout: Timeout { current: GRAPPLING_TIMEOUT, .. },
            ..
        })
    ));
}

#[test]
fn update_grappling_state_updated_auto_complete_on_stopping_threshold() {
    let mut moving = mock_moving(Point::new(100, 100));
    moving.timeout.started = true;
    moving.timeout.current = GRAPPLING_STOPPING_TIMEOUT;
    let mut player = mock_player_entity_with_grapple(moving.pos);
    player.state = Player::Grappling(moving);

    let mut resources = Resources::new();

    update_grappling_state(&mut resources, &mut player);
    assert!(matches!(player.state, Player::Grappling(Moving { completed: true, .. })));
    assert_eq!(resources.input.drain(), vec![KeyRequest::Press(KeyKind::F)]);

    update_grappling_state(&mut resources, &mut player);
    assert!(matches!(
        player.state,
        Player::Grappling(Moving {
            completed: true,
            timeout: Timeout { current: GRAPPLING_TIMEOUT, .. },
            ..
        })
    ));
}
