//! The grappling state: ride the rope lift toward a destination above.
//!
//! Entered from a travelling state once the player is horizontally at the
//! destination.  Horizontal drift during the maneuver signals that the
//! grapple failed under a double jump, so the state force-completes and
//! pins its timeout rather than hang.

use vstd::prelude::*;

use crate::bridge::KeyRequest;
use crate::ecs::Resources;
use crate::player::actions::{
    PlayerAction, on_auto_mob_use_key_action, on_ping_pong_double_jump_action,
    spec_auto_mob_within_reach,
};
use crate::player::moving::{
    ChangeAxis, Moving, MovingLifecycle, next_moving_lifecycle_with_axis,
    spec_next_moving_lifecycle, spec_point_in_range,
};
use crate::player::timeout::Timeout;
use crate::player::{LastMovement, MOVE_TIMEOUT, Player, PlayerEntity, PlayerState, next_action};

verus! {

/// Minimum vertical distance from the destination required to grapple.
pub const GRAPPLING_THRESHOLD: i32 = 24;

/// Maximum vertical distance from the destination allowed to grapple.
pub const GRAPPLING_MAX_THRESHOLD: i32 = 41;

/// Ticks the whole grapple may run.
pub const GRAPPLING_TIMEOUT: u32 = MOVE_TIMEOUT * 8;

/// Ticks the state keeps ticking after the grapple stopped.
pub const GRAPPLING_STOPPING_TIMEOUT: u32 = MOVE_TIMEOUT + 3;

/// Base vertical closeness at which the grapple is stopped.
pub const GRAPPLING_STOPPING_THRESHOLD: i32 = 3;

/// The stopping threshold widened by the current vertical speed, in
/// thousandths of a pixel per tick: the faster the lift, the earlier the
/// stop key fires.
pub open spec fn spec_stopping_threshold(velocity_y: u32) -> int {
    (3500000 + 1070 * velocity_y) / 1000000
}

/// Converts the vertical velocity estimate to a stopping threshold.
pub fn stopping_threshold(velocity_y: u32) -> (r: i32)
    ensures
        r == spec_stopping_threshold(velocity_y),
{
    ((3500000u64 + 1070u64 * velocity_y as u64) / 1000000u64) as i32
}

/// One ordinary tick of the grapple, after its lifecycle advanced to
/// `m1`: horizontal drift past the no-progress window force-completes and
/// pins the timeout; an incomplete grapple that reached the destination's
/// height (or got within the velocity-widened threshold) presses the key
/// again to stop and completes; a completed one past the stopping window
/// has its timeout pinned so the state ends next tick.  The flag reports
/// whether the stop key fired.
pub open spec fn spec_grapple_updated(
    prev_pos: crate::geometry::Point,
    m1: Moving,
    velocity_y: u32,
) -> (Moving, bool) {
    let cur_pos = m1.pos;
    let x_changed = prev_pos.x != cur_pos.x;
    let m2 = if m1.timeout.current >= MOVE_TIMEOUT && x_changed {
        Moving {
            completed: true,
            timeout: Timeout { current: GRAPPLING_TIMEOUT, ..m1.timeout },
            ..m1
        }
    } else {
        m1
    };
    if !m2.completed {
        let y_direction = m2.dest.y - cur_pos.y;
        let y_distance = if y_direction >= 0 {
            y_direction
        } else {
            -y_direction
        };
        if y_direction <= 0 || y_distance <= spec_stopping_threshold(velocity_y) {
            (Moving { completed: true, ..m2 }, true)
        } else {
            (m2, false)
        }
    } else if m2.timeout.current >= GRAPPLING_STOPPING_TIMEOUT {
        (Moving { timeout: Timeout { current: GRAPPLING_TIMEOUT, ..m2.timeout }, ..m2 }, false)
    } else {
        (m2, false)
    }
}

/// Updates the grappling state.
///
/// On `Started` the state records the movement kind and presses the
/// grappling key.  On `Ended` it hands over to the neutral travelling
/// state.  On ordinary ticks it advances per [`spec_grapple_updated`] and
/// then lets the active intent cut the ride short: an auto-mob intent may
/// fall back to travelling or hand over to a use-key sweep, and a
/// ping-pong intent may (on a random roll, above its bound) fork into the
/// next patrol leg.
pub fn update_grappling_state(resources: &mut Resources, player: &mut PlayerEntity)
    requires
        old(player).state matches Player::Grappling(moving) ==> ({
            &&& moving.spec_in_range()
            &&& moving.timeout.total < u32::MAX
        }),
        old(player).state is Grappling,
        old(player).context.config.grappling_key is Some,
        old(player).context.last_known_pos is Some,
        spec_point_in_range(old(player).context.last_known_pos.unwrap()),
        !(old(player).context.spec_next_action() matches Some(a) && (a is Chat || a is Panic
            || a is FamiliarsSwapping)),
        old(player).context.spec_next_action() matches Some(PlayerAction::AutoMob(mob))
            ==> spec_point_in_range(
            crate::geometry::Point { x: mob.position.x, y: mob.position.y },
        ),
        old(player).context.spec_next_action() matches Some(PlayerAction::PingPong(p)) ==> ({
            &&& -1000000 <= p.bound.x <= 1000000
            &&& 0 <= p.bound.width <= 1000000
        }),
    ensures
        ({
            let moving = old(player).state->Grappling_0;
            let key = old(player).context.config.grappling_key.unwrap();
            let cur_pos = old(player).context.last_known_pos.unwrap();
            match spec_next_moving_lifecycle(moving, cur_pos, GRAPPLING_TIMEOUT, ChangeAxis::Vertical) {
                MovingLifecycle::Started(m) => {
                    &&& final(player).state == Player::Grappling(m)
                    &&& final(player).context == (PlayerState {
                        last_movement: Some(LastMovement::Grappling),
                        ..old(player).context
                    })
                    &&& final(resources).input@ == old(resources).input@.push(
                        KeyRequest::Press(key),
                    )
                },
                MovingLifecycle::Ended(m) => {
                    &&& final(player).state == Player::Moving(m.dest, m.exact, m.intermediates)
                    &&& final(player).context == old(player).context
                    &&& final(resources).input@ == old(resources).input@
                },
                MovingLifecycle::Updated(m1) => {
                    let (m3, pressed) = spec_grapple_updated(moving.pos, m1, old(
                        player,
                    ).context.velocity.y);
                    let log1 = if pressed {
                        old(resources).input@.push(KeyRequest::Press(key))
                    } else {
                        old(resources).input@
                    };
                    &&& (pressed ==> m3.completed)
                    &&& (m1.timeout.current >= MOVE_TIMEOUT && moving.pos.x != m1.pos.x ==> ({
                        &&& m3.completed
                        &&& m3.timeout.current == GRAPPLING_TIMEOUT
                    }))
                    &&& match old(player).context.spec_next_action() {
                        Some(PlayerAction::AutoMob(mob)) => {
                            if !m3.completed {
                                &&& final(player).state == Player::Grappling(m3)
                                &&& final(player).context == old(player).context
                                &&& final(resources).input@ == log1
                            } else if m3.intermediates is Some {
                                &&& final(player).state == Player::Moving(
                                    m3.dest,
                                    m3.exact,
                                    m3.intermediates,
                                )
                                &&& final(player).context == old(player).context
                                &&& final(resources).input@ == log1
                            } else {
                                let xd = if m3.dest.x - m1.pos.x >= 0 {
                                    m3.dest.x - m1.pos.x
                                } else {
                                    -(m3.dest.x - m1.pos.x)
                                };
                                let yd = if m3.dest.y - m1.pos.y >= 0 {
                                    m3.dest.y - m1.pos.y
                                } else {
                                    -(m3.dest.y - m1.pos.y)
                                };
                                &&& final(resources).input@ == log1
                                &&& final(player).context == old(player).context
                                &&& if spec_auto_mob_within_reach(xd as i32, yd as i32) {
                                    final(player).state matches Player::UseKey(uk)
                                        && crate::player::use_key::spec_from_action_fixed(
                                        PlayerAction::AutoMob(mob),
                                        Some(m1.pos),
                                        uk,
                                    )
                                } else {
                                    final(player).state == Player::Grappling(m3)
                                }
                            }
                        },
                        Some(PlayerAction::PingPong(p)) => {
                            let stayed = final(player).state == Player::Grappling(m3)
                                && final(player).context == old(player).context;
                            let forked = m1.pos.y >= p.bound.y && final(player).state
                                == crate::player::actions::spec_ping_pong_double_jump(
                                m1.pos,
                                p.bound,
                                p.direction,
                            ) && final(player).context == old(
                                player,
                            ).context.spec_clear_action_completed();
                            &&& final(resources).input@ == log1
                            &&& stayed || forked
                        },
                        _ => {
                            &&& final(player).state == Player::Grappling(m3)
                            &&& final(player).context == old(player).context
                            &&& final(resources).input@ == log1
                        },
                    }
                },
            }
        }),
        final(resources).keys_cleared == old(resources).keys_cleared,
        final(resources).operation == old(resources).operation,
        final(resources).tick == old(resources).tick,
{
    let moving = match player.state {
        Player::Grappling(m) => m,
        _ => Moving::new(
            crate::geometry::Point { x: 0, y: 0 },
            crate::geometry::Point { x: 0, y: 0 },
            false,
            None,
        ),  // ruled out
    };
    let key = player.context.config.grappling_key.unwrap();
    let prev_pos = moving.pos;
    let cur_pos = player.context.last_known_pos.unwrap();
    match next_moving_lifecycle_with_axis(
        moving,
        cur_pos,
        GRAPPLING_TIMEOUT,
        ChangeAxis::Vertical,
    ) {
        MovingLifecycle::Started(m) => {
            player.context.last_movement = Some(LastMovement::Grappling);
            resources.input.send_key(key);
            player.state = Player::Grappling(m);
        },
        MovingLifecycle::Ended(m) => {
            player.state = Player::Moving(m.dest, m.exact, m.intermediates);
        },
        MovingLifecycle::Updated(m1) => {
            let mut m3 = m1;
            let x_changed = prev_pos.x != m1.pos.x;
            if m3.timeout.current >= MOVE_TIMEOUT && x_changed {
                m3.timeout.current = GRAPPLING_TIMEOUT;
                m3.completed = true;
            }
            if !m3.completed {
                let (y_distance, y_direction) = m3.y_distance_direction_from(true, m1.pos);
                if y_direction <= 0 || y_distance <= stopping_threshold(player.context.velocity.y)
                {
                    resources.input.send_key(key);
                    m3.completed = true;
                }
            } else if m3.timeout.current >= GRAPPLING_STOPPING_TIMEOUT {
                m3.timeout.current = GRAPPLING_TIMEOUT;
            }
            player.state = Player::Grappling(m3);
            match next_action(&player.context) {
                Some(PlayerAction::AutoMob(_)) => {
                    let action = next_action(&player.context).unwrap();
                    if !m3.completed {
                        return ;
                    }
                    if m3.is_destination_intermediate() {
                        player.state = Player::Moving(m3.dest, m3.exact, m3.intermediates);
                        return ;
                    }
                    if player.context.config.teleport_key.is_some() && !m3.completed {
                        return ;
                    }
                    let (x_distance, _) = m3.x_distance_direction_from(false, m1.pos);
                    let (y_distance, _) = m3.y_distance_direction_from(false, m1.pos);
                    match on_auto_mob_use_key_action(action, m1.pos, x_distance, y_distance) {
                        Some((next, is_terminal)) => {
                            if is_terminal {
                                player.context.clear_action_completed();
                            }
                            player.state = next;
                        },
                        None => {},
                    }
                },
                Some(PlayerAction::PingPong(p)) => {
                    if m1.pos.y < p.bound.y || !crate::rng::random_ratio_bool(7, 10) {
                        return ;
                    }
                    let (next, is_terminal) = on_ping_pong_double_jump_action(
                        m1.pos,
                        p.bound,
                        p.direction,
                    );
                    if is_terminal {
                        player.context.clear_action_completed();
                    }
                    player.state = next;
                },
                None | Some(_) => {},
            }
        },
    }
}

/// Horizontal drift while the no-progress window has run out forces the
/// grapple to complete with its timeout pinned, whatever the vertical
/// distance still is.
pub proof fn lemma_grapple_drift_forces_completion(
    prev_pos: crate::geometry::Point,
    m1: Moving,
    velocity_y: u32,
)
    requires
        m1.timeout.current >= MOVE_TIMEOUT,
        prev_pos.x != m1.pos.x,
    ensures
        spec_grapple_updated(prev_pos, m1, velocity_y).0.completed,
        spec_grapple_updated(prev_pos, m1, velocity_y).0.timeout.current == GRAPPLING_TIMEOUT,
{
}

} // verus!
