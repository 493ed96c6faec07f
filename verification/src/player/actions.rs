//! Action intents: immutable requests the rotator hands to the player
//! machine, consumed at most once.

use vstd::prelude::*;

use crate::config::{ActionKeyDirection, ActionKeyWith, Bound, KeyBinding, LinkKeyBinding, Position};
use crate::geometry::Point;
use crate::player::Player;
use crate::player::double_jump::DoubleJumping;
use crate::player::moving::Moving;

verus! {

/// A use-key intent.
#[derive(Clone, Copy, Debug, PartialEq, Eq, Structural)]
pub struct Key {
    pub key: KeyBinding,
    pub link_key: Option<LinkKeyBinding>,
    pub count: u32,
    pub direction: ActionKeyDirection,
    pub with: ActionKeyWith,
    pub wait_before_use_ticks: u32,
    pub wait_before_use_ticks_random_range: u32,
    pub wait_after_use_ticks: u32,
    pub wait_after_use_ticks_random_range: u32,
}

/// An auto-mob sweep intent: move near a mob position and use a key.
#[derive(Clone, Copy, Debug, PartialEq, Eq, Structural)]
pub struct AutoMob {
    pub key: KeyBinding,
    pub link_key: Option<LinkKeyBinding>,
    pub count: u32,
    pub with: ActionKeyWith,
    pub position: Position,
    pub wait_before_ticks: u32,
    pub wait_before_ticks_random_range: u32,
    pub wait_after_ticks: u32,
    pub wait_after_ticks_random_range: u32,
}

/// Which side a ping-pong patrol is currently headed for.
#[derive(Clone, Copy, Debug, PartialEq, Eq, Structural)]
pub enum PingPongDirection {
    Left,
    Right,
}

/// A ping-pong patrol intent: bounce between the bound's edges, using a
/// key on the way.
#[derive(Clone, Copy, Debug, PartialEq, Eq, Structural)]
pub struct PingPong {
    pub key: KeyBinding,
    pub link_key: Option<LinkKeyBinding>,
    pub count: u32,
    pub with: ActionKeyWith,
    pub direction: PingPongDirection,
    pub bound: Bound,
    pub wait_before_ticks: u32,
    pub wait_before_ticks_random_range: u32,
    pub wait_after_ticks: u32,
    pub wait_after_ticks_random_range: u32,
}

/// A plain travel intent.
#[derive(Clone, Copy, Debug, PartialEq, Eq, Structural)]
pub struct Move {
    pub position: Position,
    pub exact: bool,
}

/// An intent the rotator queued for the player machine.
#[derive(Clone, Copy, Debug, PartialEq, Eq, Structural)]
pub enum PlayerAction {
    /// Use a key a number of times, honouring direction and stance.
    Key(Key),
    /// Sweep toward a detected mob and use a key there.
    AutoMob(AutoMob),
    /// Travel to a position.
    Move(Move),
    /// Patrol between two bounds, attacking along the way.
    PingPong(PingPong),
    /// Solve the rune; only valid while the rune intent is active.
    SolveRune,
    /// Type a chat message; handled outside the movement states.
    Chat,
    /// Leave to safety; handled outside the movement states.
    Panic,
    /// Swap familiars; handled outside the movement states.
    FamiliarsSwapping,
}


/// The double jump a ping-pong patrol forks into once a cycle of key use
/// ends: toward the bound edge the patrol is headed for, at the current
/// height, together with the terminal flag handed back to the rotator.
pub open spec fn spec_ping_pong_double_jump(
    cur_pos: Point,
    bound: Bound,
    direction: PingPongDirection,
) -> Player {
    let dest = Point {
        x: if direction is Left {
            bound.x
        } else {
            (bound.x + bound.width) as i32
        },
        y: cur_pos.y,
    };
    Player::DoubleJumping(
        DoubleJumping {
            moving: Moving::spec_new(cur_pos, dest, false, None),
            forced: false,
            require_stationary: false,
        },
    )
}

/// Starts the next leg of a ping-pong patrol: a double jump toward the
/// bound edge the patrol is headed for.  The intent is terminal — the
/// rotator re-injects patrol intents each time the player goes idle.
pub fn on_ping_pong_double_jump_action(
    cur_pos: Point,
    bound: Bound,
    direction: PingPongDirection,
) -> (r: (Player, bool))
    requires
        -1000000 <= bound.x <= 1000000,
        0 <= bound.width <= 1000000,
    ensures
        r.0 == spec_ping_pong_double_jump(cur_pos, bound, direction),
        r.1,
{
    let dest_x = if matches!(direction, PingPongDirection::Left) {
        bound.x
    } else {
        bound.x + bound.width
    };
    let dest = Point { x: dest_x, y: cur_pos.y };
    (
        Player::DoubleJumping(DoubleJumping::new(Moving::new(cur_pos, dest, false, None), false, false)),
        true,
    )
}


/// Whether an auto-mob sweep is close enough to its target to use the key.
pub open spec fn spec_auto_mob_within_reach(x_distance: i32, y_distance: i32) -> bool {
    x_distance <= crate::player::AUTO_MOB_USE_KEY_X_THRESHOLD && y_distance
        <= crate::player::AUTO_MOB_USE_KEY_Y_THRESHOLD
}

/// Decides whether an auto-mob sweep may use its key here: close enough to
/// the mob, the travelling state hands over to a use-key state built from
/// the intent, non-terminally; otherwise the travel continues.
pub fn on_auto_mob_use_key_action(
    action: PlayerAction,
    cur_pos: Point,
    x_distance: i32,
    y_distance: i32,
) -> (r: Option<(Player, bool)>)
    requires
        action matches PlayerAction::AutoMob(mob) ==> crate::player::moving::spec_point_in_range(
            Point { x: mob.position.x, y: mob.position.y },
        ),
        crate::player::moving::spec_point_in_range(cur_pos),
        action is AutoMob,
    ensures
        spec_auto_mob_within_reach(x_distance, y_distance) ==> (r matches Some((p, terminal))
            && !terminal && (p matches Player::UseKey(uk)
            && crate::player::use_key::spec_from_action_fixed(action, Some(cur_pos), uk))),
        !spec_auto_mob_within_reach(x_distance, y_distance) ==> r is None,
{
    if x_distance <= crate::player::AUTO_MOB_USE_KEY_X_THRESHOLD && y_distance
        <= crate::player::AUTO_MOB_USE_KEY_Y_THRESHOLD {
        let use_key = crate::player::use_key::UseKey::from_action_pos(action, Some(cur_pos));
        Some((Player::UseKey(use_key), false))
    } else {
        None
    }
}

} // verus!
