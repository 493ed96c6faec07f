//! The stalling state: a pure wait used by other states to insert a delay
//! without busy-looping.

use vstd::prelude::*;

use crate::player::actions::PlayerAction;
use crate::player::timeout::{Lifecycle, Timeout, next_timeout_lifecycle, spec_next_timeout_lifecycle};
use crate::player::{Player, PlayerState, next_action};

verus! {

/// The state the stall resolves to before intent handling: itself while
/// ticking, and on timeout whichever state scheduled the stall, or `Idle`
/// if none did.
pub open spec fn spec_stalling_base(state: PlayerState, timeout: Timeout, max_timeout: u32) -> Player {
    match spec_next_timeout_lifecycle(timeout, max_timeout) {
        Lifecycle::Started(t) => Player::Stalling(t, max_timeout),
        Lifecycle::Updated(t) => Player::Stalling(t, max_timeout),
        Lifecycle::Ended => match state.stalling_timeout_state {
            Some(resume) => resume,
            None => Player::Idle,
        },
    }
}

/// The context after the stall consumed its pending-resume value: taken on
/// timeout, untouched otherwise.
pub open spec fn spec_stalling_state_base(
    state: PlayerState,
    timeout: Timeout,
    max_timeout: u32,
) -> PlayerState {
    if spec_next_timeout_lifecycle(timeout, max_timeout) is Ended {
        PlayerState { stalling_timeout_state: None, ..state }
    } else {
        state
    }
}

/// Updates the stalling state.
///
/// The stall waits `max_timeout` ticks, then returns control to whichever
/// state scheduled it, or to `Idle` if none did; reaching `Idle` is the
/// terminal outcome for the active intent.  An auto-mob intent that is
/// about to end terminally additionally records the currently reachable
/// vertical bound — but only while stationary; otherwise the stall restarts
/// rather than record a wrong sample.
pub fn update_stalling_context(state: &mut PlayerState, timeout: Timeout, max_timeout: u32) -> (next:
    Player)
    requires
        timeout.started && timeout.current < max_timeout ==> timeout.total < u32::MAX,
        !(old(state).spec_next_action() matches Some(a) && (a is Chat || a is Panic
            || a is FamiliarsSwapping)),
    ensures
        ({
            let base = spec_stalling_base(*old(state), timeout, max_timeout);
            let s1 = spec_stalling_state_base(*old(state), timeout, max_timeout);
            match old(state).spec_next_action() {
                None => next == base && *final(state) == s1,
                Some(PlayerAction::SolveRune) => next == base && *final(state) == s1,
                Some(PlayerAction::AutoMob(mob)) => {
                    if base is Idle {
                        if s1.auto_mob_reachable_y != Some(mob.position.y) && !s1.is_stationary {
                            next == Player::Stalling(Timeout::initial(), max_timeout) && *final(state) == s1
                        } else if s1.auto_mob_reachable_y != Some(mob.position.y) {
                            next == base && *final(state) == (PlayerState {
                                auto_mob_reachable_y: Some(mob.position.y),
                                ..s1
                            }).spec_clear_action_completed()
                        } else {
                            next == base && *final(state) == s1.spec_clear_action_completed()
                        }
                    } else {
                        next == base && *final(state) == s1
                    }
                },
                Some(_) => {
                    if base is Idle {
                        next == base && *final(state) == s1.spec_clear_action_completed()
                    } else {
                        next == base && *final(state) == s1
                    }
                },
            }
        }),
{
    let next: Player = match next_timeout_lifecycle(timeout, max_timeout) {
        Lifecycle::Started(t) => Player::Stalling(t, max_timeout),
        Lifecycle::Updated(t) => Player::Stalling(t, max_timeout),
        Lifecycle::Ended => {
            let resume = state.stalling_timeout_state;
            state.stalling_timeout_state = None;
            match resume {
                Some(resume_state) => resume_state,
                None => Player::Idle,
            }
        },
    };
    match next_action(state) {
        None | Some(PlayerAction::SolveRune) => next,
        Some(PlayerAction::AutoMob(mob)) => {
            let is_terminal = matches!(next, Player::Idle);
            if is_terminal && state.auto_mob_reachable_y_require_update(mob.position.y) {
                if !state.is_stationary {
                    return Player::Stalling(Timeout::default(), max_timeout);
                }
                state.auto_mob_track_reachable_y(mob.position.y);
            }
            if is_terminal {
                state.clear_action_completed();
            }
            next
        },
        Some(PlayerAction::Key(_)) | Some(PlayerAction::Move(_)) | Some(
            PlayerAction::PingPong(_),
        ) => {
            if matches!(next, Player::Idle) {
                state.clear_action_completed();
            }
            next
        },
        Some(PlayerAction::Chat) | Some(PlayerAction::Panic) | Some(
            PlayerAction::FamiliarsSwapping,
        ) => next,  // ruled out by the precondition
    }
}

} // verus!
