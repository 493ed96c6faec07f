use tick_engine::bridge::{KeyKind, KeyRequest};
use tick_engine::ecs::Resources;
use tick_engine::geometry::Point;
use tick_engine::minimap::Minimap;
use tick_engine::player::moving::Moving;
use tick_engine::player::timeout::Timeout;
use tick_engine::player::up_jump::update_up_jumping_context;
use tick_engine::player::{Player, PlayerState, Velocity};

fn mock_moving(pos: Point, dest: Point) -> Moving {
    Moving::new(pos, dest, false, None)
}

#[test]
fn up_jumping_start() {
    let pos = Point::new(5, 5);
    let moving = mock_moving(pos, Point::new(5, 20));
    let mut state = PlayerState::default();
    state.config.jump_key = KeyKind::Space;
    state.last_known_pos = Some(pos);
    state.is_stationary = true;

    // Space + Up only
    let mut resources = Resources::new();
    update_up_jumping_context(&mut resources, &Minimap::Detecting, &mut state, moving);
    assert_eq!(
        resources.input.drain(),
        vec![KeyRequest::Down(KeyKind::Up), KeyRequest::Press(KeyKind::Space)]
    );

    // Up only
    state.config.upjump_key = Some(KeyKind::C);
    let mut resources = Resources::new();
    update_up_jumping_context(&mut resources, &Minimap::Detecting, &mut state, moving);
    assert_eq!(resources.input.drain(), vec![KeyRequest::Down(KeyKind::Up)]);

    // Space + Up
    state.config.teleport_key = Some(KeyKind::Shift);
    let mut resources = Resources::new();
    update_up_jumping_context(&mut resources, &Minimap::Detecting, &mut state, moving);
    assert_eq!(
        resources.input.drain(),
        vec![KeyRequest::Down(KeyKind::Up), KeyRequest::Press(KeyKind::Space)]
    );
}

#[test]
fn up_jumping_update() {
    let moving_pos = Point::new(7, 1);
    let mut moving = mock_moving(moving_pos, Point::new(0, 0));
    moving.timeout.started = true;
    let mut state = PlayerState::default();
    state.last_known_pos = Some(Point::new(7, 7));
    state.velocity = Velocity { x: 0, y: 1360 };
    let mut resources = Resources::new();

    // Up jumped because the upward speed crossed the threshold.
    let next = update_up_jumping_context(&mut resources, &Minimap::Detecting, &mut state, moving);
    assert!(matches!(
        next,
        Player::UpJumping(Moving {
            timeout: Timeout { current: 1, total: 1, .. },
            completed: true,
            ..
        })
    ));
}

#[test]
fn up_jump_demon_slayer() {
    let pos = Point::new(10, 10);
    let dest = Point::new(10, 20);
    let mut moving = mock_moving(pos, dest);
    let mut state = PlayerState::default();
    state.config.upjump_key = Some(KeyKind::Up); // The class up-jumps with Up itself
    state.config.jump_key = KeyKind::Space;
    state.last_known_pos = Some(pos);
    state.is_stationary = true;

    // Start by sending Space only
    let mut resources = Resources::new();
    update_up_jumping_context(&mut resources, &Minimap::Detecting, &mut state, moving);
    assert_eq!(resources.input.drain(), vec![KeyRequest::Press(KeyKind::Space)]);

    // Update by sending Up twice, never Space
    moving.timeout.total = 7; // SPAM_DELAY
    moving.timeout.started = true;
    let mut resources = Resources::new();
    update_up_jumping_context(&mut resources, &Minimap::Detecting, &mut state, moving);
    update_up_jumping_context(&mut resources, &Minimap::Detecting, &mut state, moving);
    assert_eq!(
        resources.input.drain(),
        vec![KeyRequest::Press(KeyKind::Up), KeyRequest::Press(KeyKind::Up)]
    );
}

#[test]
fn up_jump_mage() {
    let pos = Point::new(10, 10);
    let dest = Point::new(10, 30);
    let mut moving = mock_moving(pos, dest);
    let mut state = PlayerState::default();
    // The up-jump key equalling the teleport key means the mage has no
    // dedicated up jump such as Up plus jump.
    state.config.upjump_key = Some(KeyKind::Shift);
    state.config.teleport_key = Some(KeyKind::Shift);
    state.config.jump_key = KeyKind::Space;
    state.last_known_pos = Some(pos);
    state.is_stationary = true;

    // Start by sending Up and Space
    let mut resources = Resources::new();
    update_up_jumping_context(&mut resources, &Minimap::Detecting, &mut state, moving);
    assert_eq!(
        resources.input.drain(),
        vec![KeyRequest::Down(KeyKind::Up), KeyRequest::Press(KeyKind::Space)]
    );

    // Change to started
    moving.timeout.started = true;

    // Not sending any key before the spam delay
    moving.timeout.total = 4;
    let mut resources = Resources::new();
    let next = update_up_jumping_context(&mut resources, &Minimap::Detecting, &mut state, moving);
    assert!(matches!(next, Player::UpJumping(Moving { completed: false, .. })));
    assert_eq!(resources.input.drain(), Vec::<KeyRequest>::new());

    // Send the teleport key after the delay
    moving.timeout.total = 7; // SPAM_DELAY
    let mut resources = Resources::new();
    let next = update_up_jumping_context(&mut resources, &Minimap::Detecting, &mut state, moving);
    assert!(matches!(next, Player::UpJumping(Moving { completed: true, .. })));
    assert_eq!(resources.input.drain(), vec![KeyRequest::Press(KeyKind::Shift)]);
}
