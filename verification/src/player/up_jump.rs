//! The up-jumping state: jump straight up toward a destination above,
//! with class-specific key sequencing — a dedicated up-jump key, a spammed
//! jump key until upward speed is reached, or a teleport inside a
//! threshold.

use vstd::prelude::*;

use crate::bridge::{KeyKind, KeyRequest};
use crate::ecs::Resources;
use crate::geometry::{Point, Rect};
use crate::minimap::Minimap;
use crate::player::actions::{
    PlayerAction, on_auto_mob_use_key_action, on_ping_pong_double_jump_action,
    spec_auto_mob_within_reach,
};
use crate::player::moving::{Moving, spec_point_in_range};
use crate::player::timeout::{Lifecycle, Timeout, next_timeout_lifecycle, spec_next_timeout_lifecycle};
use crate::player::use_key::UseKey;
use crate::player::{LastMovement, MOVE_TIMEOUT, Player, PlayerState, next_action};

verus! {

/// Ticks before the jump key is spammed to force the jump.
pub const SPAM_DELAY: u32 = 7;

/// The tick at which a held Up key is released after completion.
pub const STOP_UP_KEY_TICK: u32 = 3;

/// Ticks the whole up jump may run.
pub const UP_JUMP_TIMEOUT: u32 = MOVE_TIMEOUT + 3;

/// Upward speed, in thousandths of a pixel per tick, at which the jump
/// counts as performed.
pub const UP_JUMPED_Y_VELOCITY_THRESHOLD: u32 = 1300;

/// Horizontal speed, in thousandths of a pixel per tick, under which the
/// player counts as settled enough to start the jump.
pub const X_NEAR_STATIONARY_THRESHOLD: u32 = 280;

/// Vertical distance inside which a teleport replaces the jump.
pub const TELEPORT_UP_JUMP_THRESHOLD: i32 = 14;

/// Whether a mage with a teleport key this close to the destination skips
/// the jump key and teleports straight away.
pub open spec fn spec_can_mage_skip_jump_key(
    up_jump_key: Option<KeyKind>,
    has_teleport_key: bool,
    y_distance: int,
) -> bool {
    up_jump_key is Some && has_teleport_key && y_distance <= TELEPORT_UP_JUMP_THRESHOLD
}

/// Whether `pos` stands on one of the minimap's portals.
pub open spec fn spec_on_portal(portals: Seq<Rect>, pos: Point) -> bool {
    exists|i: int|
        0 <= i < portals.len() && #[trigger] spec_portal_contains(portals[i], pos)
}

/// Whether one portal rectangle contains `pos`.
pub open spec fn spec_portal_contains(portal: Rect, pos: Point) -> bool {
    &&& portal.x <= pos.x < portal.x + portal.width
    &&& portal.y >= pos.y
    &&& portal.y - portal.height < pos.y
}

/// The key strokes that start the jump: the Up key is held unless the
/// class up-jumps with Up itself, and the jump key fires unless a mage in
/// teleport range skips it.
pub open spec fn spec_up_jump_start_requests(
    up_jump_key: Option<KeyKind>,
    has_teleport_key: bool,
    jump_key: KeyKind,
    y_distance: int,
) -> Seq<KeyRequest> {
    let hold_up: Seq<KeyRequest> = if up_jump_key != Some(KeyKind::Up) {
        seq![KeyRequest::Down(KeyKind::Up)]
    } else {
        Seq::empty()
    };
    let jump: Seq<KeyRequest> = if (up_jump_key is None || has_teleport_key || up_jump_key == Some(
        KeyKind::Up,
    )) && !spec_can_mage_skip_jump_key(up_jump_key, has_teleport_key, y_distance) {
        seq![KeyRequest::Press(jump_key)]
    } else {
        Seq::empty()
    };
    hold_up + jump
}

/// One ordinary tick of the jump after its timeout advanced to `t1`: the
/// resulting payload and the key strokes.  A class without a dedicated
/// sequence waits for upward speed, spamming the jump key past the spam
/// delay; a dedicated key fires (teleporting early inside its threshold)
/// and completes; a completed jump releases the held Up key at its fixed
/// tick.
pub open spec fn spec_up_jump_updated(
    moving: Moving,
    cur_pos: Point,
    t1: Timeout,
    up_jump_key: Option<KeyKind>,
    has_teleport_key: bool,
    jump_key: KeyKind,
    velocity_y: u32,
    y_distance: int,
) -> (Moving, Seq<KeyRequest>) {
    let m1 = Moving { pos: cur_pos, timeout: t1, ..moving };
    if !m1.completed {
        if up_jump_key is None || up_jump_key == Some(KeyKind::Up) && !has_teleport_key {
            if velocity_y <= UP_JUMPED_Y_VELOCITY_THRESHOLD {
                if t1.total >= SPAM_DELAY {
                    let key = if up_jump_key is Some {
                        up_jump_key.unwrap()
                    } else {
                        jump_key
                    };
                    (m1, seq![KeyRequest::Press(key)])
                } else {
                    (m1, Seq::empty())
                }
            } else {
                (Moving { completed: true, ..m1 }, Seq::empty())
            }
        } else {
            let key = up_jump_key.unwrap();
            if !has_teleport_key || y_distance <= TELEPORT_UP_JUMP_THRESHOLD || t1.total
                >= SPAM_DELAY {
                (Moving { completed: true, ..m1 }, seq![KeyRequest::Press(key)])
            } else {
                (m1, Seq::empty())
            }
        }
    } else {
        if up_jump_key is Some && t1.total == STOP_UP_KEY_TICK {
            (m1, seq![KeyRequest::Up(KeyKind::Up)])
        } else {
            (m1, Seq::empty())
        }
    }
}


/// Whether the player stands on one of the located minimap's portals.
pub fn player_on_portal(idle: &crate::minimap::MinimapIdle, cur_pos: Point) -> (r: bool)
    requires
        spec_point_in_range(cur_pos),
        forall|i: int|
            0 <= i < idle.portals@.len() ==> #[trigger] spec_rect_in_range(idle.portals@[i]),
    ensures
        r == spec_on_portal(idle.portals@, cur_pos),
{
    let mut i: usize = 0;
    while i < idle.portals.len()
        invariant
            0 <= i <= idle.portals@.len(),
            spec_point_in_range(cur_pos),
            forall|j: int|
                0 <= j < idle.portals@.len() ==> #[trigger] spec_rect_in_range(idle.portals@[j]),
            forall|j: int|
                0 <= j < i ==> !#[trigger] spec_portal_contains(idle.portals@[j], cur_pos),
        decreases idle.portals@.len() - i,
    {
        let portal = idle.portals[i];
        proof {
            assert(spec_rect_in_range(idle.portals@[i as int]));
        }
        if portal.x <= cur_pos.x && cur_pos.x < portal.x + portal.width && portal.y >= cur_pos.y
            && portal.y - portal.height < cur_pos.y {
            proof {
                assert(spec_portal_contains(idle.portals@[i as int], cur_pos));
            }
            return true;
        }
        i = i + 1;
    }
    false
}

/// Updates the up-jumping state.
///
/// Before the jump starts, the state waits for the player to settle
/// horizontally, and aborts to `Idle` when the player stands on a portal —
/// jumping there would move maps.  The jump then runs per
/// [`spec_up_jump_start_requests`] and [`spec_up_jump_updated`]; when the
/// timeout ends the held Up key is released and the state hands over to
/// travelling.  An active intent may cut the jump short: an auto-mob
/// intent falls back to travelling at an intermediate hop or hands over to
/// a use-key sweep; a key intent usable with any stance fires once the
/// jump completed at or above the destination; a ping-pong intent may fork
/// into the next patrol leg on a random roll.
#[verifier::rlimit(80)]
pub fn update_up_jumping_context(
    resources: &mut Resources,
    minimap: &Minimap,
    state: &mut PlayerState,
    moving: Moving,
) -> (next: Player)
    requires
        moving.spec_in_range(),
        moving.timeout.total < u32::MAX,
        old(state).last_known_pos is Some,
        spec_point_in_range(old(state).last_known_pos.unwrap()),
        minimap matches Minimap::Idle(idle) ==> forall|i: int|
            0 <= i < idle.portals@.len() ==> #[trigger] spec_rect_in_range(idle.portals@[i]),
        !(old(state).spec_next_action() matches Some(a) && (a is Chat || a is Panic
            || a is FamiliarsSwapping)),
        old(state).spec_next_action() matches Some(PlayerAction::AutoMob(mob))
            ==> spec_point_in_range(Point { x: mob.position.x, y: mob.position.y }),
        old(state).spec_next_action() matches Some(PlayerAction::PingPong(p)) ==> ({
            &&& -1000000 <= p.bound.x <= 1000000
            &&& 0 <= p.bound.width <= 1000000
        }),
    ensures
        up_jump_ensures(
            *old(state),
            *final(state),
            moving,
            *minimap,
            old(resources).input@,
            final(resources).input@,
            next,
        ),
        final(resources).keys_cleared == old(resources).keys_cleared,
        final(resources).operation == old(resources).operation,
        final(resources).tick == old(resources).tick,
{
    let cur_pos = state.last_known_pos.unwrap();
    let (y_distance, y_direction) = moving.y_distance_direction_from(true, cur_pos);
    let up_jump_key = state.config.upjump_key;
    let has_teleport_key = state.config.teleport_key.is_some();
    let jump_key = state.config.jump_key;
    if !moving.timeout.started {
        if state.velocity.x > X_NEAR_STATIONARY_THRESHOLD {
            return Player::UpJumping(moving);
        }
        if let Minimap::Idle(idle) = minimap {
            if player_on_portal(idle, cur_pos) {
                state.clear_action_completed();
                return Player::Idle;
            }
        }
        state.last_movement = Some(LastMovement::UpJumping);
    }
    match next_timeout_lifecycle(moving.timeout, UP_JUMP_TIMEOUT) {
        Lifecycle::Started(t) => {
            if up_jump_key != Some(KeyKind::Up) {
                resources.input.send_key_down(KeyKind::Up);
            }
            match (up_jump_key, has_teleport_key) {
                (None, _) | (Some(_), true) => {
                    if !(up_jump_key.is_some() && has_teleport_key && y_distance
                        <= TELEPORT_UP_JUMP_THRESHOLD) {
                        resources.input.send_key(jump_key);
                    }
                },
                (Some(KeyKind::Up), false) => {
                    resources.input.send_key(jump_key);
                },
                _ => (),
            }
            proof {
                assert(resources.input@ =~= old(resources).input@ + spec_up_jump_start_requests(
                    up_jump_key,
                    has_teleport_key,
                    jump_key,
                    y_distance as int,
                ));
            }
            Player::UpJumping(Moving { pos: cur_pos, timeout: t, ..moving })
        },
        Lifecycle::Ended => {
            resources.input.send_key_up(KeyKind::Up);
            Player::Moving(moving.dest, moving.exact, moving.intermediates)
        },
        Lifecycle::Updated(t1) => {
            let mut m1 = Moving { pos: cur_pos, timeout: t1, ..moving };
            if !m1.completed {
                let dedicated = match up_jump_key {
                    None => true,
                    Some(key) => matches!(key, KeyKind::Up) && !has_teleport_key,
                };
                if dedicated {
                    if state.velocity.y <= UP_JUMPED_Y_VELOCITY_THRESHOLD {
                        if t1.total >= SPAM_DELAY {
                            match up_jump_key {
                                Some(key) => resources.input.send_key(key),
                                None => resources.input.send_key(jump_key),
                            }
                        }
                    } else {
                        m1 = m1.completed(true);
                    }
                } else {
                    let key = up_jump_key.unwrap();
                    if !has_teleport_key || y_distance <= TELEPORT_UP_JUMP_THRESHOLD || t1.total
                        >= SPAM_DELAY {
                        resources.input.send_key(key);
                        m1 = m1.completed(true);
                    }
                }
            } else {
                if up_jump_key.is_some() && t1.total == STOP_UP_KEY_TICK {
                    resources.input.send_key_up(KeyKind::Up);
                }
            }
            proof {
                let expected = spec_up_jump_updated(
                    moving,
                    cur_pos,
                    t1,
                    up_jump_key,
                    has_teleport_key,
                    jump_key,
                    old(state).velocity.y,
                    y_distance as int,
                );
                assert(m1 == expected.0);
                assert(resources.input@ =~= old(resources).input@ + expected.1);
            }
            match next_action(state) {
                Some(PlayerAction::AutoMob(_)) => {
                    let action = next_action(state).unwrap();
                    if m1.completed && m1.is_destination_intermediate() && y_direction <= 0 {
                        resources.input.send_key_up(KeyKind::Up);
                        return Player::Moving(m1.dest, m1.exact, m1.intermediates);
                    }
                    let (x_distance, _) = m1.x_distance_direction_from(false, cur_pos);
                    let (y_distance_final, _) = m1.y_distance_direction_from(false, cur_pos);
                    match on_auto_mob_use_key_action(action, cur_pos, x_distance, y_distance_final)
                    {
                        Some((next, is_terminal)) => {
                            if is_terminal {
                                state.clear_action_completed();
                            }
                            next
                        },
                        None => Player::UpJumping(m1),
                    }
                },
                Some(PlayerAction::Key(k)) => {
                    if matches!(k.with, crate::config::ActionKeyWith::Any) && m1.completed
                        && y_direction <= 0 {
                        Player::UseKey(UseKey::from_action(PlayerAction::Key(k)))
                    } else {
                        Player::UpJumping(m1)
                    }
                },
                Some(PlayerAction::PingPong(p)) => {
                    if m1.completed && t1.total % MOVE_TIMEOUT == 0 && crate::rng::random_ratio_bool(
                        7,
                        10,
                    ) {
                        let (next, is_terminal) = on_ping_pong_double_jump_action(
                            cur_pos,
                            p.bound,
                            p.direction,
                        );
                        if is_terminal {
                            state.clear_action_completed();
                        }
                        next
                    } else {
                        Player::UpJumping(m1)
                    }
                },
                None | Some(_) => Player::UpJumping(m1),
            }
        },
    }
}

/// Whether a rectangle's coordinates are inside the playing field.
pub open spec fn spec_rect_in_range(r: Rect) -> bool {
    &&& -1000000 <= r.x <= 1000000
    &&& -1000000 <= r.y <= 1000000
    &&& 0 <= r.width <= 1000000
    &&& 0 <= r.height <= 1000000
}

/// The full contract of [`update_up_jumping_context`], split out for
/// readability: relates the context before and after, the input log before
/// and after, and the returned state.
pub open spec fn up_jump_ensures(
    s0: PlayerState,
    s1: PlayerState,
    moving: Moving,
    minimap: Minimap,
    log0: Seq<KeyRequest>,
    log1: Seq<KeyRequest>,
    next: Player,
) -> bool {
    let cur_pos = s0.last_known_pos.unwrap();
    let y_direction = moving.spec_dest_of(true).y - cur_pos.y;
    let y_distance = if y_direction >= 0 {
        y_direction
    } else {
        -y_direction
    };
    let up_jump_key = s0.config.upjump_key;
    let has_teleport_key = s0.config.teleport_key is Some;
    let jump_key = s0.config.jump_key;
    if !moving.timeout.started && s0.velocity.x > X_NEAR_STATIONARY_THRESHOLD {
        next == Player::UpJumping(moving) && s1 == s0 && log1 == log0
    } else if !moving.timeout.started && (minimap matches Minimap::Idle(idle)
        && spec_on_portal(idle.portals@, cur_pos)) {
        next == Player::Idle && s1 == s0.spec_clear_action_completed() && log1 == log0
    } else {
        let s_started = if !moving.timeout.started {
            PlayerState { last_movement: Some(LastMovement::UpJumping), ..s0 }
        } else {
            s0
        };
        match spec_next_timeout_lifecycle(moving.timeout, UP_JUMP_TIMEOUT) {
            Lifecycle::Started(t) => {
                &&& next == Player::UpJumping(Moving { pos: cur_pos, timeout: t, ..moving })
                &&& s1 == s_started
                &&& log1 == log0 + spec_up_jump_start_requests(
                    up_jump_key,
                    has_teleport_key,
                    jump_key,
                    y_distance,
                )
            },
            Lifecycle::Ended => {
                &&& next == Player::Moving(moving.dest, moving.exact, moving.intermediates)
                &&& s1 == s_started
                &&& log1 == log0.push(KeyRequest::Up(KeyKind::Up))
            },
            Lifecycle::Updated(t1) => {
                let (m1, reqs) = spec_up_jump_updated(
                    moving,
                    cur_pos,
                    t1,
                    up_jump_key,
                    has_teleport_key,
                    jump_key,
                    s0.velocity.y,
                    y_distance,
                );
                let log_m = log0 + reqs;
                match s0.spec_next_action() {
                    Some(PlayerAction::AutoMob(mob)) => {
                        if m1.completed && m1.intermediates is Some && y_direction <= 0 {
                            &&& next == Player::Moving(m1.dest, m1.exact, m1.intermediates)
                            &&& s1 == s_started
                            &&& log1 == log_m.push(KeyRequest::Up(KeyKind::Up))
                        } else {
                            let final_dest = m1.spec_dest_of(false);
                            let xd = if final_dest.x - cur_pos.x >= 0 {
                                final_dest.x - cur_pos.x
                            } else {
                                -(final_dest.x - cur_pos.x)
                            };
                            let yd = if final_dest.y - cur_pos.y >= 0 {
                                final_dest.y - cur_pos.y
                            } else {
                                -(final_dest.y - cur_pos.y)
                            };
                            &&& log1 == log_m
                            &&& s1 == s_started
                            &&& if spec_auto_mob_within_reach(xd as i32, yd as i32) {
                                next matches Player::UseKey(uk)
                                    && crate::player::use_key::spec_from_action_fixed(
                                    PlayerAction::AutoMob(mob),
                                    Some(cur_pos),
                                    uk,
                                )
                            } else {
                                next == Player::UpJumping(m1)
                            }
                        }
                    },
                    Some(PlayerAction::Key(k)) => {
                        &&& log1 == log_m
                        &&& if k.with is Any && m1.completed && y_direction <= 0 {
                            s1 == s_started && (next matches Player::UseKey(uk)
                                && crate::player::use_key::spec_from_action_fixed(
                                PlayerAction::Key(k),
                                None,
                                uk,
                            ))
                        } else {
                            next == Player::UpJumping(m1) && s1 == s_started
                        }
                    },
                    Some(PlayerAction::PingPong(p)) => {
                        let stayed = next == Player::UpJumping(m1) && s1 == s_started;
                        let forked = m1.completed && t1.total % MOVE_TIMEOUT == 0 && next
                            == crate::player::actions::spec_ping_pong_double_jump(
                            cur_pos,
                            p.bound,
                            p.direction,
                        ) && s1 == s_started.spec_clear_action_completed();
                        &&& log1 == log_m
                        &&& stayed || forked
                    },
                    _ => {
                        &&& next == Player::UpJumping(m1)
                        &&& s1 == s_started
                        &&& log1 == log_m
                    },
                }
            },
        }
    }
}

} // verus!
