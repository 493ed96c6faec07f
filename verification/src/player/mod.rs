//! The player state machine: a closed set of movement and action states,
//! exactly one of which is active per tick.  Each state's update function
//! reads and mutates the shared player context, records the key strokes it
//! wants performed, and returns the next state — one decision per tick.

pub mod actions;
pub mod double_jump;
pub mod grapple;
pub mod moving;
pub mod solve_rune;
pub mod stall;
pub mod timeout;
pub mod unstuck;
pub mod up_jump;
pub mod use_key;

use vstd::prelude::*;

use crate::bridge::KeyKind;
use crate::config::{ActionKeyDirection, Class};
use crate::geometry::Point;
use crate::player::actions::PlayerAction;
use crate::player::double_jump::DoubleJumping;
use crate::player::moving::{Intermediates, Moving};
use crate::player::solve_rune::SolvingRune;
use crate::player::timeout::Timeout;
use crate::player::use_key::UseKey;

verus! {

/// Ticks a travelling state waits without progress before giving up.
pub const MOVE_TIMEOUT: u32 = 5;

/// Horizontal closeness at which an auto-mob sweep may use its key.
pub const AUTO_MOB_USE_KEY_X_THRESHOLD: i32 = 16;

/// Vertical closeness at which an auto-mob sweep may use its key.
pub const AUTO_MOB_USE_KEY_Y_THRESHOLD: i32 = 8;

/// The movement kind the player last performed.
#[derive(Clone, Copy, Debug, PartialEq, Eq, Structural)]
pub enum LastMovement {
    Moving,
    DoubleJumping,
    UpJumping,
    Grappling,
    Falling,
}

/// The player's key setup for the current class.
#[derive(Clone, Copy, Debug, PartialEq, Eq, Structural)]
pub struct PlayerConfig {
    pub class: Class,
    pub jump_key: KeyKind,
    pub upjump_key: Option<KeyKind>,
    pub teleport_key: Option<KeyKind>,
    pub grappling_key: Option<KeyKind>,
    pub interact_key: KeyKind,
}

impl Default for PlayerConfig {
    fn default() -> (r: PlayerConfig)
        ensures
            r == (PlayerConfig {
                class: Class::Generic,
                jump_key: KeyKind::Space,
                upjump_key: None,
                teleport_key: None,
                grappling_key: None,
                interact_key: KeyKind::Space,
            }),
    {
        PlayerConfig {
            class: Class::Generic,
            jump_key: KeyKind::Space,
            upjump_key: None,
            teleport_key: None,
            grappling_key: None,
            interact_key: KeyKind::Space,
        }
    }
}

/// A velocity estimate in thousandths of a minimap pixel per tick, per
/// axis, as magnitudes.
#[derive(Clone, Copy, Debug, PartialEq, Eq, Structural)]
pub struct Velocity {
    pub x: u32,
    pub y: u32,
}

/// The closed set of player states; exactly one is active at any tick.
#[derive(Clone, Copy, Debug, PartialEq, Eq)]
pub enum Player {
    /// The player has not been located on the minimap yet.
    Detecting,
    /// Nothing to do; the rotator may inject the next intent.
    Idle,
    /// Travelling toward a destination.
    Moving(Point, bool, Option<Intermediates>),
    /// Performing a double jump.
    DoubleJumping(DoubleJumping),
    /// Riding the rope lift upward.
    Grappling(Moving),
    /// Jumping straight up.
    UpJumping(Moving),
    /// Waiting a fixed number of ticks.
    Stalling(Timeout, u32),
    /// Using an action key through its staged sub-machine.
    UseKey(UseKey),
    /// Solving the rune through its staged sub-machine.
    SolvingRune(SolvingRune),
    /// Recovering from being stuck.
    Unstucking(Timeout, bool),
    /// Waiting inside the cash shop before leaving it.
    CashShopThenExit(Timeout, bool),
}

/// The player's persistent context, shared by every state's update pass.
/// The player machine is its single writer; other machines only read it.
#[derive(Clone, Copy, Debug)]
pub struct PlayerState {
    pub config: PlayerConfig,
    /// Where the player was last seen on the minimap.
    pub last_known_pos: Option<Point>,
    /// The facing last established by a direction change.
    pub last_known_direction: ActionKeyDirection,
    /// The movement kind last performed.
    pub last_movement: Option<LastMovement>,
    /// The current velocity estimate.
    pub velocity: Velocity,
    /// Whether the player has been standing still.
    pub is_stationary: bool,
    /// A preempting intent; served before the normal one.
    pub priority_action: Option<PlayerAction>,
    /// The ordinary queued intent.
    pub normal_action: Option<PlayerAction>,
    /// Where stalling returns to when it ends.
    pub stalling_timeout_state: Option<Player>,
    /// Failed-action accumulator that triggers unstucking.
    pub unstuck_counter: u32,
    /// Consecutive unstucking entries; past a threshold the state
    /// escalates to randomized recovery.
    pub unstuck_consecutive_counter: u32,
    /// The last vertical bound recorded as reachable for auto-mob routing.
    pub auto_mob_reachable_y: Option<i32>,
    /// Asks the surrounding loop to run the next state in the same tick.
    pub use_immediate_control_flow: bool,
    /// Whether a solved rune is being validated against the buff.
    pub rune_validating: bool,
}

impl Default for PlayerState {
    fn default() -> (r: PlayerState)
        ensures
            r == PlayerState::spec_default(),
    {
        PlayerState {
            config: PlayerConfig::default(),
            last_known_pos: None,
            last_known_direction: ActionKeyDirection::Any,
            last_movement: None,
            velocity: Velocity { x: 0, y: 0 },
            is_stationary: false,
            priority_action: None,
            normal_action: None,
            stalling_timeout_state: None,
            unstuck_counter: 0,
            unstuck_consecutive_counter: 0,
            auto_mob_reachable_y: None,
            use_immediate_control_flow: false,
            rune_validating: false,
        }
    }
}

impl PlayerState {
    /// The context every fresh player starts with.
    pub open spec fn spec_default() -> PlayerState {
        PlayerState {
            config: PlayerConfig {
                class: Class::Generic,
                jump_key: KeyKind::Space,
                upjump_key: None,
                teleport_key: None,
                grappling_key: None,
                interact_key: KeyKind::Space,
            },
            last_known_pos: None,
            last_known_direction: ActionKeyDirection::Any,
            last_movement: None,
            velocity: Velocity { x: 0, y: 0 },
            is_stationary: false,
            priority_action: None,
            normal_action: None,
            stalling_timeout_state: None,
            unstuck_counter: 0,
            unstuck_consecutive_counter: 0,
            auto_mob_reachable_y: None,
            use_immediate_control_flow: false,
            rune_validating: false,
        }
    }

    /// The intent the machine is currently serving, the priority one first.
    pub open spec fn spec_next_action(self) -> Option<PlayerAction> {
        if self.priority_action is Some {
            self.priority_action
        } else {
            self.normal_action
        }
    }

    /// The context after the active intent is dequeued.
    pub open spec fn spec_clear_action_completed(self) -> PlayerState {
        if self.priority_action is Some {
            PlayerState { priority_action: None, ..self }
        } else {
            PlayerState { normal_action: None, ..self }
        }
    }

    /// Removes the intent that was just served to completion: the priority
    /// intent if one is active, the normal one otherwise.
    pub fn clear_action_completed(&mut self)
        ensures
            *final(self) == old(self).spec_clear_action_completed(),
    {
        if self.priority_action.is_some() {
            self.priority_action = None;
        } else {
            self.normal_action = None;
        }
    }

    /// Resets the failed-action accumulator, and with `consecutive` also
    /// the consecutive-entry escalation counter.
    pub fn clear_unstucking(&mut self, consecutive: bool)
        ensures
            consecutive ==> *final(self) == (PlayerState {
                unstuck_counter: 0,
                unstuck_consecutive_counter: 0,
                ..*old(self)
            }),
            !consecutive ==> *final(self) == (PlayerState { unstuck_counter: 0, ..*old(self) }),
    {
        self.unstuck_counter = 0;
        if consecutive {
            self.unstuck_consecutive_counter = 0;
        }
    }

    /// Whether the reachable-bound sample for `y` still needs recording.
    pub fn auto_mob_reachable_y_require_update(&self, y: i32) -> (r: bool)
        ensures
            r == (self.auto_mob_reachable_y != Some(y)),
    {
        match self.auto_mob_reachable_y {
            Some(tracked_y) => tracked_y != y,
            None => true,
        }
    }

    /// Records `y` as the currently reachable vertical bound.
    pub fn auto_mob_track_reachable_y(&mut self, y: i32)
        ensures
            *final(self) == (PlayerState { auto_mob_reachable_y: Some(y), ..*old(self) }),
    {
        self.auto_mob_reachable_y = Some(y);
    }

    /// Starts checking a just-solved rune against the buff detector.
    pub fn start_validating_rune(&mut self)
        ensures
            *final(self) == (PlayerState { rune_validating: true, ..*old(self) }),
    {
        self.rune_validating = true;
    }
}

/// The player entity: its active state and its persistent context.
#[derive(Clone, Copy, Debug)]
pub struct PlayerEntity {
    pub state: Player,
    pub context: PlayerState,
}

/// The intent the player machine is currently serving.
pub fn next_action(state: &PlayerState) -> (r: Option<PlayerAction>)
    ensures
        r == state.spec_next_action(),
{
    if state.priority_action.is_some() {
        state.priority_action
    } else {
        state.normal_action
    }
}

} // verus!
