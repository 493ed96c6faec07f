//! The use-key state: a five-stage sub-machine that presses an action key
//! a requested number of times, honouring the action's facing and stance
//! requirements and an optional linked key with class-specific timing.

use vstd::prelude::*;

use crate::bridge::{InputLog, KeyKind, KeyRequest};
use crate::config::{ActionKeyDirection, ActionKeyWith, Class, KeyBinding, LinkKeyBinding};
use crate::geometry::Point;
use crate::player::actions::{AutoMob, Key, PingPong, PingPongDirection, PlayerAction};
use crate::player::double_jump::DoubleJumping;
use crate::player::moving::{Moving, spec_point_in_range};
use crate::player::timeout::{Lifecycle, Timeout, next_timeout_lifecycle, spec_next_timeout_lifecycle};
use crate::player::{MOVE_TIMEOUT, Player, PlayerState};
use crate::rng::random_wait_ticks;

verus! {

/// Ticks a direction change holds the directional key before timing out.
pub const CHANGE_DIRECTION_TIMEOUT: u32 = 3;

/// The tick at which the primary key fires while an `Along` linked key is
/// held down.
pub const LINK_ALONG_PRESS_TICK: u32 = 2;

/// Bookkeeping carried by a use-key entered through an auto-mob intent.
#[derive(Clone, Copy, Debug, PartialEq, Eq, Structural)]
pub enum ActionInfo {
    AutoMobbing { should_terminate: bool },
}

/// The stages of using a key.
#[derive(Clone, Copy, Debug, PartialEq, Eq, Structural)]
pub enum UseKeyStage {
    /// Checks facing and stance requirements, and performs the optional
    /// pre-use wait.
    Precondition,
    /// Holds a directional key to match the required facing; returns to
    /// `Precondition` on timeout.
    ChangingDirection(Timeout),
    /// Waits until the player is stationary, or forks into a double jump
    /// when the requirement asks for one.
    EnsuringUseWith,
    /// Presses the primary key, honouring the linked key, and performs the
    /// optional post-use wait.
    Using(Timeout, bool),
    /// Repeats the whole cycle until the requested count is reached.
    Postcondition,
}

/// Payload of the use-key state.
#[derive(Clone, Copy, Debug, PartialEq, Eq, Structural)]
pub struct UseKey {
    pub key: KeyBinding,
    pub link_key: Option<LinkKeyBinding>,
    pub count: u32,
    pub current_count: u32,
    pub direction: ActionKeyDirection,
    pub with: ActionKeyWith,
    pub wait_before_use_ticks: u32,
    pub wait_after_use_ticks: u32,
    pub action_info: Option<ActionInfo>,
    pub stage: UseKeyStage,
}

impl UseKey {
    /// Builds the payload for an intent that carries no position.
    pub fn from_action(action: PlayerAction) -> (r: UseKey)
        requires
            action is Key || action is PingPong,
        ensures
            spec_from_action_fixed(action, None, r),
    {
        UseKey::from_action_pos(action, None)
    }

    /// Builds the payload for an intent, using `pos` to orient an auto-mob
    /// sweep.  The wait windows are jittered inside the intent's configured
    /// random ranges; every other field is a plain copy of the intent.
    pub fn from_action_pos(action: PlayerAction, pos: Option<Point>) -> (r: UseKey)
        requires
            action is Key || action is PingPong || action is AutoMob,
            action is AutoMob ==> pos is Some,
            action matches PlayerAction::AutoMob(mob) ==> spec_point_in_range(
                Point { x: mob.position.x, y: mob.position.y },
            ) && spec_point_in_range(pos.unwrap()),
        ensures
            spec_from_action_fixed(action, pos, r),
    {
        match action {
            PlayerAction::Key(
                Key {
                    key,
                    link_key,
                    count,
                    direction,
                    with,
                    wait_before_use_ticks,
                    wait_before_use_ticks_random_range,
                    wait_after_use_ticks,
                    wait_after_use_ticks_random_range,
                },
            ) => {
                let wait_before = random_wait_ticks(
                    wait_before_use_ticks,
                    wait_before_use_ticks_random_range,
                );
                let wait_after = random_wait_ticks(
                    wait_after_use_ticks,
                    wait_after_use_ticks_random_range,
                );
                UseKey {
                    key,
                    link_key,
                    count,
                    current_count: 0,
                    direction,
                    with,
                    wait_before_use_ticks: wait_before,
                    wait_after_use_ticks: wait_after,
                    action_info: None,
                    stage: UseKeyStage::Precondition,
                }
            },
            PlayerAction::AutoMob(mob) => {
                let wait_before = random_wait_ticks(
                    mob.wait_before_ticks,
                    mob.wait_before_ticks_random_range,
                );
                let wait_after = random_wait_ticks(
                    mob.wait_after_ticks,
                    mob.wait_after_ticks_random_range,
                );
                let pos = pos.unwrap();
                let direction = if pos.x < mob.position.x {
                    ActionKeyDirection::Right
                } else if pos.x == mob.position.x {
                    ActionKeyDirection::Any
                } else {
                    ActionKeyDirection::Left
                };
                let x_direction = pos.x - mob.position.x;
                let x_distance = if x_direction >= 0 {
                    x_direction
                } else {
                    -x_direction
                };
                let y_direction = pos.y - mob.position.y;
                let y_distance = if y_direction >= 0 {
                    y_direction
                } else {
                    -y_direction
                };
                let should_terminate = x_distance <= crate::player::AUTO_MOB_USE_KEY_X_THRESHOLD
                    && y_distance <= crate::player::AUTO_MOB_USE_KEY_Y_THRESHOLD;
                UseKey {
                    key: mob.key,
                    link_key: mob.link_key,
                    count: mob.count,
                    current_count: 0,
                    direction,
                    with: mob.with,
                    wait_before_use_ticks: wait_before,
                    wait_after_use_ticks: wait_after,
                    action_info: Some(ActionInfo::AutoMobbing { should_terminate }),
                    stage: UseKeyStage::Precondition,
                }
            },
            PlayerAction::PingPong(ping_pong) => {
                let wait_before = random_wait_ticks(
                    ping_pong.wait_before_ticks,
                    ping_pong.wait_before_ticks_random_range,
                );
                let wait_after = random_wait_ticks(
                    ping_pong.wait_after_ticks,
                    ping_pong.wait_after_ticks_random_range,
                );
                let direction = if matches!(ping_pong.direction, PingPongDirection::Left) {
                    ActionKeyDirection::Left
                } else {
                    ActionKeyDirection::Right
                };
                UseKey {
                    key: ping_pong.key,
                    link_key: ping_pong.link_key,
                    count: ping_pong.count,
                    current_count: 0,
                    direction,
                    with: ping_pong.with,
                    wait_before_use_ticks: wait_before,
                    wait_after_use_ticks: wait_after,
                    action_info: None,
                    stage: UseKeyStage::Precondition,
                }
            },
            _ => UseKey {
                // ruled out by the precondition
                key: KeyBinding::A,
                link_key: None,
                count: 0,
                current_count: 0,
                direction: ActionKeyDirection::Any,
                with: ActionKeyWith::Any,
                wait_before_use_ticks: 0,
                wait_after_use_ticks: 0,
                action_info: None,
                stage: UseKeyStage::Precondition,
            },
        }
    }
}

/// The deterministic part of [`UseKey::from_action_pos`]: every field but
/// the jittered wait windows is pinned, and the waits stay inside the
/// intent's configured window.
pub open spec fn spec_from_action_fixed(
    action: PlayerAction,
    pos: Option<Point>,
    r: UseKey,
) -> bool {
    &&& r.current_count == 0
    &&& r.stage is Precondition
    &&& match action {
        PlayerAction::Key(key_action) => {
            &&& r.key == key_action.key
            &&& r.link_key == key_action.link_key
            &&& r.count == key_action.count
            &&& r.direction == key_action.direction
            &&& r.with == key_action.with
            &&& r.action_info is None
            &&& spec_wait_in_window(
                key_action.wait_before_use_ticks,
                key_action.wait_before_use_ticks_random_range,
                r.wait_before_use_ticks,
            )
            &&& spec_wait_in_window(
                key_action.wait_after_use_ticks,
                key_action.wait_after_use_ticks_random_range,
                r.wait_after_use_ticks,
            )
        },
        PlayerAction::AutoMob(mob) => {
            &&& r.key == mob.key
            &&& r.link_key == mob.link_key
            &&& r.count == mob.count
            &&& r.with == mob.with
            &&& r.direction == (if pos.unwrap().x < mob.position.x {
                ActionKeyDirection::Right
            } else if pos.unwrap().x == mob.position.x {
                ActionKeyDirection::Any
            } else {
                ActionKeyDirection::Left
            })
            &&& r.action_info == Some(
                ActionInfo::AutoMobbing {
                    should_terminate: {
                        let xd = pos.unwrap().x - mob.position.x;
                        let yd = pos.unwrap().y - mob.position.y;
                        let xdist = if xd >= 0 { xd } else { -xd };
                        let ydist = if yd >= 0 { yd } else { -yd };
                        xdist <= crate::player::AUTO_MOB_USE_KEY_X_THRESHOLD && ydist
                            <= crate::player::AUTO_MOB_USE_KEY_Y_THRESHOLD
                    },
                },
            )
            &&& spec_wait_in_window(
                mob.wait_before_ticks,
                mob.wait_before_ticks_random_range,
                r.wait_before_use_ticks,
            )
            &&& spec_wait_in_window(
                mob.wait_after_ticks,
                mob.wait_after_ticks_random_range,
                r.wait_after_use_ticks,
            )
        },
        PlayerAction::PingPong(ping_pong) => {
            &&& r.key == ping_pong.key
            &&& r.link_key == ping_pong.link_key
            &&& r.count == ping_pong.count
            &&& r.direction == (if ping_pong.direction is Left {
                ActionKeyDirection::Left
            } else {
                ActionKeyDirection::Right
            })
            &&& r.with == ping_pong.with
            &&& r.action_info is None
            &&& spec_wait_in_window(
                ping_pong.wait_before_ticks,
                ping_pong.wait_before_ticks_random_range,
                r.wait_before_use_ticks,
            )
            &&& spec_wait_in_window(
                ping_pong.wait_after_ticks,
                ping_pong.wait_after_ticks_random_range,
                r.wait_after_use_ticks,
            )
        },
        _ => true,
    }
}

/// A jittered wait stayed inside its configured window.
pub open spec fn spec_wait_in_window(base: u32, range: u32, wait: u32) -> bool {
    &&& base >= range ==> wait >= base - range
    &&& wait <= base + range
}

/// Whether the required facing is already established.
pub open spec fn spec_direction_ensured(state: PlayerState, direction: ActionKeyDirection) -> bool {
    direction is Any || direction == state.last_known_direction
}

pub fn ensure_direction(state: &PlayerState, direction: ActionKeyDirection) -> (r: bool)
    ensures
        r == spec_direction_ensured(*state, direction),
{
    match direction {
        ActionKeyDirection::Any => true,
        ActionKeyDirection::Left | ActionKeyDirection::Right => {
            direction == state.last_known_direction
        },
    }
}

/// Whether the required stance is already established.
pub open spec fn spec_use_with_ensured(state: PlayerState, use_key: UseKey) -> bool {
    match use_key.with {
        ActionKeyWith::Any => true,
        ActionKeyWith::Stationary => state.is_stationary,
        ActionKeyWith::DoubleJump => state.last_movement == Some(
            crate::player::LastMovement::DoubleJumping,
        ),
    }
}

pub fn ensure_use_with(state: &PlayerState, use_key: UseKey) -> (r: bool)
    ensures
        r == spec_use_with_ensured(*state, use_key),
{
    match use_key.with {
        ActionKeyWith::Any => true,
        ActionKeyWith::Stationary => state.is_stationary,
        ActionKeyWith::DoubleJump => {
            matches!(state.last_movement, Some(crate::player::LastMovement::DoubleJumping))
        },
    }
}

/// What the precondition stage resolves to.
pub open spec fn spec_precondition_next(state: PlayerState, use_key: UseKey) -> Player {
    if !spec_direction_ensured(state, use_key.direction) {
        Player::UseKey(
            UseKey { stage: UseKeyStage::ChangingDirection(Timeout::initial()), ..use_key },
        )
    } else if !spec_use_with_ensured(state, use_key) {
        Player::UseKey(UseKey { stage: UseKeyStage::EnsuringUseWith, ..use_key })
    } else if use_key.wait_before_use_ticks > 0 {
        Player::Stalling(Timeout::initial(), use_key.wait_before_use_ticks)
    } else {
        Player::UseKey(UseKey { stage: UseKeyStage::Using(Timeout::initial(), false), ..use_key })
    }
}

/// How the precondition stage changes the context.
pub open spec fn spec_precondition_state(state: PlayerState, use_key: UseKey) -> PlayerState {
    if !spec_direction_ensured(state, use_key.direction) || !spec_use_with_ensured(
        state,
        use_key,
    ) {
        state
    } else if use_key.wait_before_use_ticks > 0 {
        PlayerState {
            stalling_timeout_state: Some(
                Player::UseKey(
                    UseKey { stage: UseKeyStage::Using(Timeout::initial(), false), ..use_key },
                ),
            ),
            ..state
        }
    } else {
        PlayerState { use_immediate_control_flow: true, ..state }
    }
}

/// The precondition stage: establish facing and stance, then either stall
/// for the pre-use wait or move straight on to using the key.
pub fn update_precondition(state: &mut PlayerState, use_key: UseKey) -> (next: Player)
    ensures
        next == spec_precondition_next(*old(state), use_key),
        *final(state) == spec_precondition_state(*old(state), use_key),
{
    if !ensure_direction(state, use_key.direction) {
        return Player::UseKey(
            UseKey { stage: UseKeyStage::ChangingDirection(Timeout::default()), ..use_key },
        );
    }
    if !ensure_use_with(state, use_key) {
        return Player::UseKey(UseKey { stage: UseKeyStage::EnsuringUseWith, ..use_key });
    }
    let next = Player::UseKey(
        UseKey { stage: UseKeyStage::Using(Timeout::default(), false), ..use_key },
    );
    if use_key.wait_before_use_ticks > 0 {
        state.stalling_timeout_state = Some(next);
        Player::Stalling(Timeout::default(), use_key.wait_before_use_ticks)
    } else {
        state.use_immediate_control_flow = true;
        next
    }
}

/// The directional key a facing requirement holds down.
pub open spec fn spec_direction_key(direction: ActionKeyDirection) -> KeyKind {
    match direction {
        ActionKeyDirection::Left => KeyKind::Left,
        ActionKeyDirection::Right => KeyKind::Right,
        ActionKeyDirection::Any => KeyKind::Left,
    }
}

/// The direction-change stage: hold the directional key for a fixed tick
/// count, then record the new facing and return to the precondition.
pub fn update_changing_direction(
    input: &mut InputLog,
    state: &mut PlayerState,
    use_key: UseKey,
    timeout: Timeout,
) -> (next: Player)
    requires
        use_key.direction != ActionKeyDirection::Any,
        timeout.started && timeout.current < CHANGE_DIRECTION_TIMEOUT ==> timeout.total < u32::MAX,
    ensures
        ({
            let key = spec_direction_key(use_key.direction);
            match spec_next_timeout_lifecycle(timeout, CHANGE_DIRECTION_TIMEOUT) {
                Lifecycle::Started(t) => {
                    &&& next == Player::UseKey(
                        UseKey { stage: UseKeyStage::ChangingDirection(t), ..use_key },
                    )
                    &&& final(input)@ == old(input)@.push(KeyRequest::Down(key))
                    &&& *final(state) == *old(state)
                },
                Lifecycle::Ended => {
                    &&& next == Player::UseKey(
                        UseKey { stage: UseKeyStage::Precondition, ..use_key },
                    )
                    &&& final(input)@ == old(input)@.push(KeyRequest::Up(key))
                    &&& *final(state) == (PlayerState {
                        last_known_direction: use_key.direction,
                        ..*old(state)
                    })
                },
                Lifecycle::Updated(t) => {
                    &&& next == Player::UseKey(
                        UseKey { stage: UseKeyStage::ChangingDirection(t), ..use_key },
                    )
                    &&& final(input)@ == old(input)@
                    &&& *final(state) == *old(state)
                },
            }
        }),
{
    let key = match use_key.direction {
        ActionKeyDirection::Left => KeyKind::Left,
        ActionKeyDirection::Right => KeyKind::Right,
        ActionKeyDirection::Any => KeyKind::Left,  // ruled out by the precondition
    };
    match next_timeout_lifecycle(timeout, CHANGE_DIRECTION_TIMEOUT) {
        Lifecycle::Started(t) => {
            input.send_key_down(key);
            Player::UseKey(UseKey { stage: UseKeyStage::ChangingDirection(t), ..use_key })
        },
        Lifecycle::Ended => {
            input.send_key_up(key);
            state.last_known_direction = use_key.direction;
            Player::UseKey(UseKey { stage: UseKeyStage::Precondition, ..use_key })
        },
        Lifecycle::Updated(t) => Player::UseKey(
            UseKey { stage: UseKeyStage::ChangingDirection(t), ..use_key },
        ),
    }
}

/// What the stance-ensuring stage resolves to.
pub open spec fn spec_ensuring_use_with_next(state: PlayerState, use_key: UseKey) -> Player {
    match use_key.with {
        ActionKeyWith::Stationary => if state.is_stationary {
            Player::UseKey(UseKey { stage: UseKeyStage::Precondition, ..use_key })
        } else {
            Player::UseKey(UseKey { stage: UseKeyStage::EnsuringUseWith, ..use_key })
        },
        _ => {
            let pos = state.last_known_pos.unwrap();
            Player::DoubleJumping(
                DoubleJumping {
                    moving: Moving::spec_new(pos, pos, false, None),
                    forced: true,
                    require_stationary: true,
                },
            )
        },
    }
}

/// The stance-ensuring stage: wait for the player to settle, or fork into
/// a double jump when the action demands one.
pub fn update_ensuring_use_with(state: &mut PlayerState, use_key: UseKey) -> (next: Player)
    requires
        use_key.with != ActionKeyWith::Any,
        use_key.with == ActionKeyWith::DoubleJump ==> old(state).last_known_pos is Some,
    ensures
        next == spec_ensuring_use_with_next(*old(state), use_key),
        *final(state) == *old(state),
{
    match use_key.with {
        ActionKeyWith::Stationary => {
            let stage = if state.is_stationary {
                UseKeyStage::Precondition
            } else {
                UseKeyStage::EnsuringUseWith
            };
            Player::UseKey(UseKey { stage, ..use_key })
        },
        ActionKeyWith::Any | ActionKeyWith::DoubleJump => {
            let pos = state.last_known_pos.unwrap();
            Player::DoubleJumping(DoubleJumping::new(Moving::new(pos, pos, false, None), true, true))
        },
    }
}

/// How long the linked key's timing window runs: `Along` always holds for
/// four ticks; otherwise the class decides.
pub open spec fn spec_link_key_timeout(link_key: LinkKeyBinding, class: Class) -> u32 {
    if link_key is Along {
        4
    } else {
        match class {
            Class::Cadena => 4,
            Class::Blaster => 8,
            Class::Ark => 10,
            Class::Generic => 5,
        }
    }
}

/// The key strokes one advance of the linked-key window emits.
pub open spec fn spec_link_key_requests(
    link_key: LinkKeyBinding,
    class: Class,
    primary: KeyBinding,
    jump_key: KeyKind,
    timeout: Timeout,
) -> Seq<KeyRequest> {
    match spec_next_timeout_lifecycle(timeout, spec_link_key_timeout(link_key, class)) {
        Lifecycle::Started(_) => match link_key {
            LinkKeyBinding::Before(key) => seq![KeyRequest::Press(key.spec_to_kind())],
            LinkKeyBinding::Along(key) => seq![KeyRequest::Down(key.spec_to_kind())],
            _ => Seq::empty(),
        },
        Lifecycle::Ended => match link_key {
            LinkKeyBinding::After(key) => if class is Blaster && key.spec_to_kind() != jump_key {
                seq![KeyRequest::Press(key.spec_to_kind()), KeyRequest::Press(jump_key)]
            } else {
                seq![KeyRequest::Press(key.spec_to_kind())]
            },
            LinkKeyBinding::Along(key) => seq![KeyRequest::Up(key.spec_to_kind())],
            _ => Seq::empty(),
        },
        Lifecycle::Updated(t) => if link_key is Along && t.total == LINK_ALONG_PRESS_TICK {
            seq![KeyRequest::Press(primary.spec_to_kind())]
        } else {
            Seq::empty()
        },
    }
}

/// The stage one advance of the linked-key window resolves to.
pub open spec fn spec_link_key_stage(
    link_key: LinkKeyBinding,
    class: Class,
    timeout: Timeout,
    completed: bool,
) -> UseKeyStage {
    match spec_next_timeout_lifecycle(timeout, spec_link_key_timeout(link_key, class)) {
        Lifecycle::Started(t) => UseKeyStage::Using(t, completed),
        Lifecycle::Ended => UseKeyStage::Using(timeout, true),
        Lifecycle::Updated(t) => UseKeyStage::Using(t, completed),
    }
}

/// Runs the linked key's timing window one tick: `Before` and `Along` fire
/// when the window opens, `After` and the `Along` release fire when it
/// closes (a Blaster chases `After` with a jump), and an `Along` hold
/// presses the primary key part-way through.
pub fn update_link_key(
    input: &mut InputLog,
    class: Class,
    jump_key: KeyKind,
    use_key: UseKey,
    timeout: Timeout,
    completed: bool,
) -> (next: Player)
    requires
        use_key.link_key is Some,
        timeout.total < u32::MAX,
    ensures
        ({
            let link_key = use_key.link_key.unwrap();
            &&& next == Player::UseKey(
                UseKey { stage: spec_link_key_stage(link_key, class, timeout, completed), ..use_key },
            )
            &&& final(input)@ == old(input)@ + spec_link_key_requests(
                link_key,
                class,
                use_key.key,
                jump_key,
                timeout,
            )
        }),
{
    let link_key = use_key.link_key.unwrap();
    let link_key_timeout = if matches!(link_key, LinkKeyBinding::Along(_)) {
        4
    } else {
        match class {
            Class::Cadena => 4,
            Class::Blaster => 8,
            Class::Ark => 10,
            Class::Generic => 5,
        }
    };
    match next_timeout_lifecycle(timeout, link_key_timeout) {
        Lifecycle::Started(t) => {
            match link_key {
                LinkKeyBinding::Before(key) => {
                    input.send_key(key.to_kind());
                },
                LinkKeyBinding::Along(key) => {
                    input.send_key_down(key.to_kind());
                },
                LinkKeyBinding::AtTheSame(_) | LinkKeyBinding::After(_) => (),
            }
            proof {
                assert(final(input)@ =~= old(input)@ + spec_link_key_requests(
                    link_key,
                    class,
                    use_key.key,
                    jump_key,
                    timeout,
                ));
            }
            Player::UseKey(UseKey { stage: UseKeyStage::Using(t, completed), ..use_key })
        },
        Lifecycle::Ended => {
            match link_key {
                LinkKeyBinding::After(key) => {
                    input.send_key(key.to_kind());
                    if matches!(class, Class::Blaster) && !key_kinds_equal(key.to_kind(), jump_key)
                    {
                        input.send_key(jump_key);
                    }
                },
                LinkKeyBinding::Along(key) => {
                    input.send_key_up(key.to_kind());
                },
                LinkKeyBinding::AtTheSame(_) | LinkKeyBinding::Before(_) => (),
            }
            proof {
                assert(final(input)@ =~= old(input)@ + spec_link_key_requests(
                    link_key,
                    class,
                    use_key.key,
                    jump_key,
                    timeout,
                ));
            }
            Player::UseKey(UseKey { stage: UseKeyStage::Using(timeout, true), ..use_key })
        },
        Lifecycle::Updated(t) => {
            if matches!(link_key, LinkKeyBinding::Along(_)) && t.total == LINK_ALONG_PRESS_TICK {
                input.send_key(use_key.key.to_kind());
            }
            proof {
                assert(final(input)@ =~= old(input)@ + spec_link_key_requests(
                    link_key,
                    class,
                    use_key.key,
                    jump_key,
                    timeout,
                ));
            }
            Player::UseKey(UseKey { stage: UseKeyStage::Using(t, completed), ..use_key })
        },
    }
}

/// Structural equality of two physical keys.
fn key_kinds_equal(a: KeyKind, b: KeyKind) -> (r: bool)
    ensures
        r == (a == b),
{
    a == b
}

/// What the using stage resolves to once the key strokes are out: move to
/// the postcondition, stalling first when a post-use wait is configured.
pub open spec fn spec_using_done_next(use_key: UseKey) -> Player {
    if use_key.wait_after_use_ticks > 0 {
        Player::Stalling(Timeout::initial(), use_key.wait_after_use_ticks)
    } else {
        Player::UseKey(UseKey { stage: UseKeyStage::Postcondition, ..use_key })
    }
}

/// How the using stage changes the context once the key strokes are out.
pub open spec fn spec_using_done_state(state: PlayerState, use_key: UseKey) -> PlayerState {
    if use_key.wait_after_use_ticks > 0 {
        PlayerState {
            stalling_timeout_state: Some(
                Player::UseKey(UseKey { stage: UseKeyStage::Postcondition, ..use_key }),
            ),
            ..state
        }
    } else {
        state
    }
}

/// Whether this advance of the using stage defers to the linked-key window
/// instead of finishing.
pub open spec fn spec_using_defers_to_link(use_key: UseKey, completed: bool) -> bool {
    match use_key.link_key {
        Some(LinkKeyBinding::After(_)) => !completed,
        Some(LinkKeyBinding::Along(_)) => !completed,
        Some(LinkKeyBinding::Before(_)) => !completed,
        Some(LinkKeyBinding::AtTheSame(_)) => false,
        None => false,
    }
}

/// The key strokes the using stage emits before deferring or finishing.
pub open spec fn spec_using_own_requests(use_key: UseKey, timeout: Timeout, completed: bool) -> Seq<
    KeyRequest,
> {
    match use_key.link_key {
        Some(LinkKeyBinding::After(_)) => if !timeout.started {
            seq![KeyRequest::Press(use_key.key.spec_to_kind())]
        } else {
            Seq::empty()
        },
        Some(LinkKeyBinding::AtTheSame(key)) => seq![
            KeyRequest::Press(key.spec_to_kind()),
            KeyRequest::Press(use_key.key.spec_to_kind()),
        ],
        Some(LinkKeyBinding::Along(_)) => Seq::empty(),
        Some(LinkKeyBinding::Before(_)) => if !completed {
            Seq::empty()
        } else {
            seq![KeyRequest::Press(use_key.key.spec_to_kind())]
        },
        None => seq![KeyRequest::Press(use_key.key.spec_to_kind())],
    }
}

/// The using stage: press the primary key with its linked key.
///
/// An `After` link presses the primary key when its window starts and the
/// linked key when it ends; `AtTheSame` presses both at once; `Along`
/// holds the linked key across the window and presses the primary key
/// part-way through; `Before` presses the linked key first and the primary
/// key once the window closed.  When the strokes are out, the stage moves
/// on to the postcondition, stalling first if a post-use wait is set.
pub fn update_using(
    input: &mut InputLog,
    state: &mut PlayerState,
    use_key: UseKey,
    timeout: Timeout,
    completed: bool,
) -> (next: Player)
    requires
        timeout.total < u32::MAX,
    ensures
        spec_using_defers_to_link(use_key, completed) ==> ({
            let link_key = use_key.link_key.unwrap();
            &&& next == Player::UseKey(
                UseKey { stage: spec_link_key_stage(link_key, old(state).config.class, timeout, completed), ..use_key },
            )
            &&& final(input)@ == old(input)@ + spec_using_own_requests(use_key, timeout, completed)
                + spec_link_key_requests(
                link_key,
                old(state).config.class,
                use_key.key,
                old(state).config.jump_key,
                timeout,
            )
            &&& *final(state) == *old(state)
        }),
        !spec_using_defers_to_link(use_key, completed) ==> ({
            &&& next == spec_using_done_next(use_key)
            &&& final(input)@ == old(input)@ + spec_using_own_requests(use_key, timeout, completed)
            &&& *final(state) == spec_using_done_state(*old(state), use_key)
        }),
{
    match use_key.link_key {
        Some(LinkKeyBinding::After(_)) => {
            if !timeout.started {
                input.send_key(use_key.key.to_kind());
            }
            if !completed {
                let next = update_link_key(
                    input,
                    state.config.class,
                    state.config.jump_key,
                    use_key,
                    timeout,
                    completed,
                );
                proof {
                    assert(final(input)@ =~= old(input)@ + spec_using_own_requests(
                        use_key,
                        timeout,
                        completed,
                    ) + spec_link_key_requests(
                        use_key.link_key.unwrap(),
                        old(state).config.class,
                        use_key.key,
                        old(state).config.jump_key,
                        timeout,
                    ));
                }
                return next;
            }
        },
        Some(LinkKeyBinding::AtTheSame(key)) => {
            input.send_key(key.to_kind());
            input.send_key(use_key.key.to_kind());
            proof {
                assert(final(input)@ =~= old(input)@ + spec_using_own_requests(
                    use_key,
                    timeout,
                    completed,
                ));
            }
        },
        Some(LinkKeyBinding::Along(_)) => {
            if !completed {
                return update_link_key(
                    input,
                    state.config.class,
                    state.config.jump_key,
                    use_key,
                    timeout,
                    completed,
                );
            }
        },
        Some(LinkKeyBinding::Before(_)) => {
            if !completed {
                return update_link_key(
                    input,
                    state.config.class,
                    state.config.jump_key,
                    use_key,
                    timeout,
                    completed,
                );
            }
            input.send_key(use_key.key.to_kind());
        },
        None => {
            input.send_key(use_key.key.to_kind());
        },
    }
    let next = Player::UseKey(UseKey { stage: UseKeyStage::Postcondition, ..use_key });
    if use_key.wait_after_use_ticks > 0 {
        state.stalling_timeout_state = Some(next);
        Player::Stalling(Timeout::default(), use_key.wait_after_use_ticks)
    } else {
        next
    }
}

/// What the postcondition stage resolves to: another cycle while the
/// requested count is not reached, `Idle` once it is.
pub open spec fn spec_post_condition_next(use_key: UseKey) -> Player {
    if use_key.current_count + 1 < use_key.count {
        Player::UseKey(
            UseKey {
                current_count: (use_key.current_count + 1) as u32,
                stage: UseKeyStage::Precondition,
                ..use_key
            },
        )
    } else {
        Player::Idle
    }
}

/// The postcondition stage: count the finished cycle and either start the
/// next one or yield `Idle`.
pub fn update_post_condition(use_key: UseKey) -> (next: Player)
    requires
        use_key.current_count < u32::MAX,
    ensures
        next == spec_post_condition_next(use_key),
{
    if use_key.current_count + 1 < use_key.count {
        Player::UseKey(
            UseKey {
                current_count: use_key.current_count + 1,
                stage: UseKeyStage::Precondition,
                ..use_key
            },
        )
    } else {
        Player::Idle
    }
}


/// What the staged sub-machine resolves to this tick, before the intent
/// layer runs.
pub open spec fn spec_use_key_base_next(state: PlayerState, use_key: UseKey) -> Player {
    match use_key.stage {
        UseKeyStage::Precondition => spec_precondition_next(state, use_key),
        UseKeyStage::ChangingDirection(timeout) => {
            match spec_next_timeout_lifecycle(timeout, CHANGE_DIRECTION_TIMEOUT) {
                Lifecycle::Started(t) => Player::UseKey(
                    UseKey { stage: UseKeyStage::ChangingDirection(t), ..use_key },
                ),
                Lifecycle::Ended => Player::UseKey(
                    UseKey { stage: UseKeyStage::Precondition, ..use_key },
                ),
                Lifecycle::Updated(t) => Player::UseKey(
                    UseKey { stage: UseKeyStage::ChangingDirection(t), ..use_key },
                ),
            }
        },
        UseKeyStage::EnsuringUseWith => spec_ensuring_use_with_next(state, use_key),
        UseKeyStage::Using(timeout, completed) => {
            if spec_using_defers_to_link(use_key, completed) {
                Player::UseKey(
                    UseKey {
                        stage: spec_link_key_stage(
                            use_key.link_key.unwrap(),
                            state.config.class,
                            timeout,
                            completed,
                        ),
                        ..use_key
                    },
                )
            } else {
                spec_using_done_next(use_key)
            }
        },
        UseKeyStage::Postcondition => spec_post_condition_next(use_key),
    }
}

/// How the staged sub-machine changes the context this tick, before the
/// intent layer runs.
pub open spec fn spec_use_key_base_state(state: PlayerState, use_key: UseKey) -> PlayerState {
    match use_key.stage {
        UseKeyStage::Precondition => spec_precondition_state(state, use_key),
        UseKeyStage::ChangingDirection(timeout) => {
            if spec_next_timeout_lifecycle(timeout, CHANGE_DIRECTION_TIMEOUT) is Ended {
                PlayerState { last_known_direction: use_key.direction, ..state }
            } else {
                state
            }
        },
        UseKeyStage::EnsuringUseWith => state,
        UseKeyStage::Using(timeout, completed) => {
            if spec_using_defers_to_link(use_key, completed) {
                state
            } else {
                spec_using_done_state(state, use_key)
            }
        },
        UseKeyStage::Postcondition => state,
    }
}

/// The key strokes the staged sub-machine emits this tick.
pub open spec fn spec_use_key_base_requests(state: PlayerState, use_key: UseKey) -> Seq<
    KeyRequest,
> {
    match use_key.stage {
        UseKeyStage::Precondition => Seq::empty(),
        UseKeyStage::ChangingDirection(timeout) => {
            let key = spec_direction_key(use_key.direction);
            match spec_next_timeout_lifecycle(timeout, CHANGE_DIRECTION_TIMEOUT) {
                Lifecycle::Started(_) => seq![KeyRequest::Down(key)],
                Lifecycle::Ended => seq![KeyRequest::Up(key)],
                Lifecycle::Updated(_) => Seq::empty(),
            }
        },
        UseKeyStage::EnsuringUseWith => Seq::empty(),
        UseKeyStage::Using(timeout, completed) => {
            if spec_using_defers_to_link(use_key, completed) {
                spec_using_own_requests(use_key, timeout, completed) + spec_link_key_requests(
                    use_key.link_key.unwrap(),
                    state.config.class,
                    use_key.key,
                    state.config.jump_key,
                    timeout,
                )
            } else {
                spec_using_own_requests(use_key, timeout, completed)
            }
        },
        UseKeyStage::Postcondition => Seq::empty(),
    }
}

/// The dispatch preconditions the staged sub-machine needs.
pub open spec fn spec_use_key_wf(state: PlayerState, use_key: UseKey) -> bool {
    &&& (use_key.stage matches UseKeyStage::ChangingDirection(t) ==> use_key.direction
        != ActionKeyDirection::Any && t.total < u32::MAX)
    &&& (use_key.stage is EnsuringUseWith ==> use_key.with != ActionKeyWith::Any && (use_key.with
        == ActionKeyWith::DoubleJump ==> state.last_known_pos is Some))
    &&& (use_key.stage matches UseKeyStage::Using(t, _) ==> t.total < u32::MAX)
    &&& (use_key.stage is Postcondition ==> use_key.current_count < u32::MAX)
}

/// Updates the use-key state: runs the stage the payload is in, then lets
/// the active intent decide whether reaching `Idle` is terminal.
///
/// A key intent is dequeued when the cycle ends in `Idle`.  An auto-mob
/// intent is only terminal when the sweep was close enough when it began;
/// a terminal sweep first re-checks the reachable vertical bound and
/// stalls to record it when needed.  A ping-pong intent that ends a cycle
/// resets the unstuck counters and hands over to the double jump that
/// starts the next patrol leg.
pub fn update_use_key_context(
    input: &mut InputLog,
    state: &mut PlayerState,
    use_key: UseKey,
) -> (next: Player)
    requires
        spec_use_key_wf(*old(state), use_key),
        !(old(state).spec_next_action() matches Some(a) && (a is Chat || a is Panic
            || a is FamiliarsSwapping || a is SolveRune)),
        old(state).spec_next_action() matches Some(PlayerAction::PingPong(p)) ==> ({
            &&& old(state).last_known_pos is Some
            &&& spec_point_in_range(old(state).last_known_pos.unwrap())
            &&& -1000000 <= p.bound.x <= 1000000
            &&& 0 <= p.bound.width <= 1000000
        }),
    ensures
        ({
            let base = spec_use_key_base_next(*old(state), use_key);
            let s1 = spec_use_key_base_state(*old(state), use_key);
            let reqs = spec_use_key_base_requests(*old(state), use_key);
            &&& final(input)@ == old(input)@ + reqs
            &&& match old(state).spec_next_action() {
                None => next == base && *final(state) == s1,
                Some(PlayerAction::Move(_)) => next == base && *final(state) == s1,
                Some(PlayerAction::Key(_)) => {
                    if base is Idle {
                        next == base && *final(state) == s1.spec_clear_action_completed()
                    } else {
                        next == base && *final(state) == s1
                    }
                },
                Some(PlayerAction::AutoMob(mob)) => {
                    let should_terminate = use_key.action_info == Some(
                        ActionInfo::AutoMobbing { should_terminate: true },
                    );
                    if should_terminate && base is Idle {
                        if s1.auto_mob_reachable_y != Some(mob.position.y) {
                            next == Player::Stalling(Timeout::initial(), MOVE_TIMEOUT)
                                && *final(state) == s1
                        } else {
                            next == base && *final(state) == s1.spec_clear_action_completed()
                        }
                    } else {
                        next == base && *final(state) == s1
                    }
                },
                Some(PlayerAction::PingPong(p)) => {
                    if base is Idle {
                        let s2 = PlayerState {
                            unstuck_counter: 0,
                            unstuck_consecutive_counter: 0,
                            ..s1
                        };
                        &&& next == crate::player::actions::spec_ping_pong_double_jump(
                            s1.last_known_pos.unwrap(),
                            p.bound,
                            p.direction,
                        )
                        &&& *final(state) == s2.spec_clear_action_completed()
                    } else {
                        next == base && *final(state) == s1
                    }
                },
                Some(_) => true,
            }
        }),
{
    let next = match use_key.stage {
        UseKeyStage::Precondition => update_precondition(state, use_key),
        UseKeyStage::ChangingDirection(timeout) => update_changing_direction(
            input,
            state,
            use_key,
            timeout,
        ),
        UseKeyStage::EnsuringUseWith => update_ensuring_use_with(state, use_key),
        UseKeyStage::Using(timeout, completed) => update_using(
            input,
            state,
            use_key,
            timeout,
            completed,
        ),
        UseKeyStage::Postcondition => update_post_condition(use_key),
    };
    match crate::player::next_action(state) {
        None | Some(PlayerAction::Move(_)) => next,
        Some(PlayerAction::Key(_)) => {
            if matches!(next, Player::Idle) {
                state.clear_action_completed();
            }
            next
        },
        Some(PlayerAction::AutoMob(mob)) => {
            let should_terminate = matches!(
                use_key.action_info,
                Some(ActionInfo::AutoMobbing { should_terminate: true }),
            );
            let is_terminal = should_terminate && matches!(next, Player::Idle);
            if is_terminal {
                if state.auto_mob_reachable_y_require_update(mob.position.y) {
                    return Player::Stalling(Timeout::default(), MOVE_TIMEOUT);
                }
                state.clear_action_completed();
            }
            next
        },
        Some(PlayerAction::PingPong(p)) => {
            if matches!(next, Player::Idle) {
                state.clear_unstucking(true);
                let pos = state.last_known_pos.unwrap();
                let (jump_state, is_terminal) =
                    crate::player::actions::on_ping_pong_double_jump_action(
                    pos,
                    p.bound,
                    p.direction,
                );
                if is_terminal {
                    state.clear_action_completed();
                }
                jump_state
            } else {
                next
            }
        },
        Some(PlayerAction::SolveRune) | Some(PlayerAction::Chat) | Some(PlayerAction::Panic)
            | Some(PlayerAction::FamiliarsSwapping) => next,  // ruled out by the precondition
    }
}


/// A zero-wait key use with no facing, stance or linked-key requirement:
/// the configuration under which one key use is exactly the three-stage
/// cycle precondition, using, postcondition.
pub open spec fn spec_zero_wait_cycle_config(uk: UseKey) -> bool {
    &&& uk.direction is Any
    &&& uk.with is Any
    &&& uk.link_key is None
    &&& uk.wait_before_use_ticks == 0
    &&& uk.wait_after_use_ticks == 0
}

/// The staged sub-machine run `steps` ticks with no intent active and the
/// context held fixed — which a zero-wait cycle never reads or changes.
/// A state other than the key-use state stays put.
pub open spec fn spec_use_key_run(state: PlayerState, p: Player, steps: nat) -> Player
    decreases steps,
{
    if steps == 0 {
        p
    } else {
        let prev = spec_use_key_run(state, p, (steps - 1) as nat);
        match prev {
            Player::UseKey(uk) => spec_use_key_base_next(state, uk),
            _ => prev,
        }
    }
}

/// Running `a + b` ticks is running `a` ticks and then `b` more.
pub proof fn lemma_use_key_run_compose(state: PlayerState, p: Player, a: nat, b: nat)
    ensures
        spec_use_key_run(state, p, a + b) == spec_use_key_run(
            state,
            spec_use_key_run(state, p, a),
            b,
        ),
    decreases b,
{
    if b > 0 {
        lemma_use_key_run_compose(state, p, a, (b - 1) as nat);
    }
}

/// One zero-wait cycle walks exactly precondition, using, postcondition:
/// the precondition stage resolves straight to the using stage, the using
/// stage presses the key and resolves to the postcondition stage, and the
/// postcondition stage either starts the next cycle with the count moved
/// up or yields `Idle` once the requested count is reached.
pub proof fn lemma_zero_wait_cycle(state: PlayerState, uk: UseKey)
    requires
        spec_zero_wait_cycle_config(uk),
        uk.stage is Precondition,
        uk.current_count < uk.count,
    ensures
        spec_use_key_base_next(state, uk) == Player::UseKey(
            UseKey { stage: UseKeyStage::Using(Timeout::initial(), false), ..uk },
        ),
        spec_use_key_base_next(
            state,
            UseKey { stage: UseKeyStage::Using(Timeout::initial(), false), ..uk },
        ) == Player::UseKey(UseKey { stage: UseKeyStage::Postcondition, ..uk }),
        spec_use_key_base_requests(
            state,
            UseKey { stage: UseKeyStage::Using(Timeout::initial(), false), ..uk },
        ) == seq![KeyRequest::Press(uk.key.spec_to_kind())],
        spec_use_key_base_next(state, UseKey { stage: UseKeyStage::Postcondition, ..uk }) == (
        if uk.current_count + 1 < uk.count {
            Player::UseKey(
                UseKey {
                    current_count: (uk.current_count + 1) as u32,
                    stage: UseKeyStage::Precondition,
                    ..uk
                },
            )
        } else {
            Player::Idle
        }),
{
}

/// A zero-wait key use asked for `count` uses runs its three-stage cycle
/// exactly `count - current_count` more times — three ticks per cycle,
/// staying in the key-use state throughout — and only then yields `Idle`.
pub proof fn lemma_zero_wait_counts(state: PlayerState, uk: UseKey)
    requires
        spec_zero_wait_cycle_config(uk),
        uk.stage is Precondition,
        uk.current_count < uk.count,
    ensures
        spec_use_key_run(state, Player::UseKey(uk), 3 * ((uk.count - uk.current_count) as nat))
            == Player::Idle,
        forall|j: nat|
            j < 3 * (uk.count - uk.current_count) ==> (#[trigger] spec_use_key_run(
                state,
                Player::UseKey(uk),
                j,
            )) is UseKey,
    decreases uk.count - uk.current_count,
{
    lemma_zero_wait_cycle(state, uk);
    let using = UseKey { stage: UseKeyStage::Using(Timeout::initial(), false), ..uk };
    let post = UseKey { stage: UseKeyStage::Postcondition, ..uk };
    assert(spec_use_key_run(state, Player::UseKey(uk), 0) == Player::UseKey(uk));
    assert(spec_use_key_run(state, Player::UseKey(uk), 1) == Player::UseKey(using));
    assert(spec_use_key_run(state, Player::UseKey(uk), 2) == Player::UseKey(post));
    if uk.current_count + 1 == uk.count {
        assert(spec_use_key_run(state, Player::UseKey(uk), 3) == Player::Idle);
        assert forall|j: nat| j < 3 implies (#[trigger] spec_use_key_run(
            state,
            Player::UseKey(uk),
            j,
        )) is UseKey by {
            if j == 0 {
            } else if j == 1 {
            } else {
                assert(j == 2);
            }
        }
    } else {
        let uk_next = UseKey {
            current_count: (uk.current_count + 1) as u32,
            stage: UseKeyStage::Precondition,
            ..uk
        };
        assert(spec_use_key_run(state, Player::UseKey(uk), 3) == Player::UseKey(uk_next));
        lemma_zero_wait_counts(state, uk_next);
        let rest = 3 * ((uk.count - uk_next.current_count) as nat);
        lemma_use_key_run_compose(state, Player::UseKey(uk), 3, rest);
        assert(spec_use_key_run(state, Player::UseKey(uk), 3 + rest) == Player::Idle);
        assert(3 + rest == 3 * ((uk.count - uk.current_count) as nat));
        assert forall|j: nat| j < 3 * (uk.count - uk.current_count) implies (
        #[trigger] spec_use_key_run(state, Player::UseKey(uk), j)) is UseKey by {
            if j == 0 {
            } else if j == 1 {
            } else if j == 2 {
            } else {
                lemma_use_key_run_compose(state, Player::UseKey(uk), 3, (j - 3) as nat);
                assert(spec_use_key_run(state, Player::UseKey(uk), j) == spec_use_key_run(
                    state,
                    Player::UseKey(uk_next),
                    (j - 3) as nat,
                ));
            }
        }
    }
}

} // verus!
