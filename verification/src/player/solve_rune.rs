//! The rune-solving state: a tick-driven five-stage sub-machine that
//! presses the interact key, calibrates the arrow detector with bounded
//! retries, waits for the full arrow sequence and presses it out.

use vstd::prelude::*;

use crate::bridge::{KeyKind, KeyRequest};
use crate::ecs::Resources;
use crate::player::actions::PlayerAction;
use crate::player::timeout::{Lifecycle, Timeout, next_timeout_lifecycle, spec_next_timeout_lifecycle};
use crate::player::{Player, PlayerEntity, next_action};

verus! {

/// Attempts at finding the arrow region before the state gives up.
pub const MAX_RETRY_COUNT: u32 = 2;

/// Ticks a find-region attempt runs, and ticks the cooldown between
/// attempts waits, matching the in-game rune cooldown.
pub const COOLDOWN_AND_SOLVE_TIMEOUT: u32 = 125;

/// Tick interval at which a find-region attempt consults the detector.
pub const SOLVE_INTERVAL: u32 = 15;

/// Ticks the solving stage waits for the full arrow sequence.
pub const SOLVING_TIMEOUT: u32 = 150;

/// Ticks between the four key presses.
pub const PRESS_KEY_INTERVAL: u32 = 8;

/// Detector-internal calibration state, threaded between calls unchanged.
#[derive(Clone, Copy, Debug, PartialEq, Eq, Structural)]
pub struct ArrowsCalibrating {
    /// An opaque token the detector refines from call to call.
    pub round: u32,
}

impl Default for ArrowsCalibrating {
    fn default() -> (r: ArrowsCalibrating)
        ensures
            r == (ArrowsCalibrating { round: 0 }),
    {
        ArrowsCalibrating { round: 0 }
    }
}

/// What the arrow detector reported this tick.
#[derive(Clone, Copy, Debug, PartialEq, Eq)]
pub enum ArrowsState {
    /// Still calibrating; carries the refined calibration state.
    Calibrating(ArrowsCalibrating),
    /// The complete, ordered key sequence.
    Complete([KeyKind; 4]),
}

/// The stages of solving a rune.
#[derive(Clone, Copy, Debug, PartialEq, Eq)]
pub enum State {
    /// Waits until the player is stationary with no keys held.
    Precondition,
    /// Presses the interact key and looks for the arrow region, with a
    /// cooldown wait between bounded retries.
    FindRegion(ArrowsCalibrating, Timeout, Option<Timeout>, u32),
    /// Polls the detector until the full arrow sequence is known.
    Solving(ArrowsCalibrating, Timeout),
    /// Presses the four keys in order with fixed spacing.
    PressKeys(Timeout, [KeyKind; 4], usize),
    /// Terminal stage.
    Completed,
}

impl Default for State {
    fn default() -> (r: State)
        ensures
            r == State::Precondition,
    {
        State::Precondition
    }
}

/// Payload of the rune-solving state.
#[derive(Clone, Copy, Debug, PartialEq, Eq)]
pub struct SolvingRune {
    pub state: State,
}

impl Default for SolvingRune {
    fn default() -> (r: SolvingRune)
        ensures
            r == (SolvingRune { state: State::Precondition }),
    {
        SolvingRune { state: State::Precondition }
    }
}

/// The precondition stage: move on to finding the region once the player
/// is stationary and the input backend reports every key released.
pub fn update_precondition(
    resources: &Resources,
    is_stationary: bool,
    solving_rune: &mut SolvingRune,
)
    ensures
        is_stationary && resources.keys_cleared ==> final(solving_rune).state == State::FindRegion(
            ArrowsCalibrating { round: 0 },
            Timeout::initial(),
            None,
            0,
        ),
        !(is_stationary && resources.keys_cleared) ==> *final(solving_rune) == *old(solving_rune),
{
    if is_stationary && resources.keys_cleared {
        solving_rune.state = State::FindRegion(
            ArrowsCalibrating::default(),
            Timeout::default(),
            None,
            0,
        );
    }
}

/// What the find-region stage resolves to, and whether it presses the
/// interact key (true exactly when its timeout starts).
pub open spec fn spec_find_region_next(
    calibrating: ArrowsCalibrating,
    timeout: Timeout,
    cooldown_timeout: Option<Timeout>,
    retry_count: u32,
    arrows: Option<ArrowsState>,
) -> (State, bool) {
    if cooldown_timeout is Some {
        let ct = cooldown_timeout.unwrap();
        match spec_next_timeout_lifecycle(ct, COOLDOWN_AND_SOLVE_TIMEOUT) {
            Lifecycle::Started(t) => (
                State::FindRegion(calibrating, timeout, Some(t), retry_count),
                false,
            ),
            Lifecycle::Updated(t) => (
                State::FindRegion(calibrating, timeout, Some(t), retry_count),
                false,
            ),
            Lifecycle::Ended => (State::FindRegion(calibrating, timeout, None, retry_count), false),
        }
    } else {
        match spec_next_timeout_lifecycle(timeout, COOLDOWN_AND_SOLVE_TIMEOUT) {
            Lifecycle::Started(t) => (State::FindRegion(calibrating, t, None, retry_count), true),
            Lifecycle::Ended => if retry_count < MAX_RETRY_COUNT {
                (
                    State::FindRegion(
                        ArrowsCalibrating { round: 0 },
                        Timeout::initial(),
                        Some(Timeout::initial()),
                        (retry_count + 1) as u32,
                    ),
                    false,
                )
            } else {
                (State::Completed, false)
            },
            Lifecycle::Updated(t) => if t.current % SOLVE_INTERVAL == 0 {
                match arrows {
                    None => (
                        State::FindRegion(
                            ArrowsCalibrating { round: 0 },
                            t,
                            None,
                            retry_count,
                        ),
                        false,
                    ),
                    Some(ArrowsState::Calibrating(c)) => (
                        State::Solving(c, Timeout::initial()),
                        false,
                    ),
                    Some(ArrowsState::Complete(_)) => (State::Completed, false),
                }
            } else {
                (State::FindRegion(calibrating, t, None, retry_count), false)
            },
        }
    }
}

/// The find-region stage.
///
/// While a cooldown is pending it only ticks the cooldown down.  Otherwise
/// the attempt's timeout starts by pressing the interact key; every
/// `SOLVE_INTERVAL` ticks the detector is consulted (`arrows` is what it
/// would report): a calibration hands over to the solving stage, an error
/// resets the calibration and keeps looking.  An attempt that times out
/// retries behind a fresh cooldown up to `MAX_RETRY_COUNT` times, then the
/// state gives up and completes.
pub fn update_find_region(
    resources: &mut Resources,
    solving_rune: &mut SolvingRune,
    interact_key: KeyKind,
    arrows: Option<ArrowsState>,
)
    requires
        old(solving_rune).state matches State::FindRegion(_, timeout, cooldown, retry) ==> ({
            &&& (timeout.started && timeout.current < COOLDOWN_AND_SOLVE_TIMEOUT ==> timeout.total
                < u32::MAX)
            &&& (cooldown matches Some(ct) ==> (ct.started && ct.current
                < COOLDOWN_AND_SOLVE_TIMEOUT ==> ct.total < u32::MAX))
            &&& retry < u32::MAX
        }),
        old(solving_rune).state is FindRegion,
        !(arrows matches Some(ArrowsState::Complete(_))),
    ensures
        ({
            let (next, pressed) = match old(solving_rune).state {
                State::FindRegion(calibrating, timeout, cooldown_timeout, retry_count) =>
                    spec_find_region_next(calibrating, timeout, cooldown_timeout, retry_count, arrows),
                _ => (State::Completed, false),
            };
            &&& final(solving_rune).state == next
            &&& (pressed ==> final(resources).input@ == old(resources).input@.push(
                KeyRequest::Press(interact_key),
            ))
            &&& (!pressed ==> final(resources).input@ == old(resources).input@)
        }),
        final(resources).keys_cleared == old(resources).keys_cleared,
        final(resources).operation == old(resources).operation,
        final(resources).tick == old(resources).tick,
{
    let (calibrating, timeout, cooldown_timeout, retry_count) = match solving_rune.state {
        State::FindRegion(c, t, ct, r) => (c, t, ct, r),
        _ => (ArrowsCalibrating::default(), Timeout::default(), None, 0),  // ruled out
    };
    if let Some(ct) = cooldown_timeout {
        match next_timeout_lifecycle(ct, COOLDOWN_AND_SOLVE_TIMEOUT) {
            Lifecycle::Started(t) | Lifecycle::Updated(t) => {
                solving_rune.state = State::FindRegion(calibrating, timeout, Some(t), retry_count);
            },
            Lifecycle::Ended => {
                solving_rune.state = State::FindRegion(calibrating, timeout, None, retry_count);
            },
        }
        return ;
    }
    match next_timeout_lifecycle(timeout, COOLDOWN_AND_SOLVE_TIMEOUT) {
        Lifecycle::Started(t) => {
            resources.input.send_key(interact_key);
            solving_rune.state = State::FindRegion(calibrating, t, None, retry_count);
        },
        Lifecycle::Ended => {
            if retry_count < MAX_RETRY_COUNT {
                solving_rune.state = State::FindRegion(
                    ArrowsCalibrating::default(),
                    Timeout::default(),
                    Some(Timeout::default()),
                    retry_count + 1,
                );
            } else {
                solving_rune.state = State::Completed;
            }
        },
        Lifecycle::Updated(t) => {
            if t.current % SOLVE_INTERVAL == 0 {
                match arrows {
                    None => {
                        solving_rune.state = State::FindRegion(
                            ArrowsCalibrating::default(),
                            t,
                            None,
                            retry_count,
                        );
                    },
                    Some(ArrowsState::Calibrating(c)) => {
                        solving_rune.state = State::Solving(c, Timeout::default());
                    },
                    Some(ArrowsState::Complete(_)) => {
                        solving_rune.state = State::Completed;  // ruled out by the precondition
                    },
                }
            } else {
                solving_rune.state = State::FindRegion(calibrating, t, None, retry_count);
            }
        },
    }
}

/// What the solving stage resolves to.
pub open spec fn spec_solving_next(
    calibrating: ArrowsCalibrating,
    timeout: Timeout,
    arrows: Option<ArrowsState>,
) -> State {
    match spec_next_timeout_lifecycle(timeout, SOLVING_TIMEOUT) {
        Lifecycle::Started(t) => State::Solving(calibrating, t),
        Lifecycle::Ended => State::Completed,
        Lifecycle::Updated(t) => match arrows {
            None => State::Completed,
            Some(ArrowsState::Calibrating(c)) => State::Solving(c, t),
            Some(ArrowsState::Complete(keys)) => State::PressKeys(Timeout::initial(), keys, 0),
        },
    }
}

/// The solving stage: poll the detector every tick until it reports the
/// complete, ordered key sequence.  A detection error or a timeout
/// resolves to `Completed` — giving up is a normal, observable outcome.
pub fn update_solving(solving_rune: &mut SolvingRune, arrows: Option<ArrowsState>)
    requires
        old(solving_rune).state matches State::Solving(_, timeout) ==> (timeout.started
            && timeout.current < SOLVING_TIMEOUT ==> timeout.total < u32::MAX),
        old(solving_rune).state is Solving,
    ensures
        ({
            let next = match old(solving_rune).state {
                State::Solving(calibrating, timeout) => spec_solving_next(
                    calibrating,
                    timeout,
                    arrows,
                ),
                _ => State::Completed,
            };
            final(solving_rune).state == next
        }),
{
    let (calibrating, timeout) = match solving_rune.state {
        State::Solving(c, t) => (c, t),
        _ => (ArrowsCalibrating::default(), Timeout::default()),  // ruled out
    };
    match next_timeout_lifecycle(timeout, SOLVING_TIMEOUT) {
        Lifecycle::Started(t) => {
            solving_rune.state = State::Solving(calibrating, t);
        },
        Lifecycle::Ended => {
            solving_rune.state = State::Completed;
        },
        Lifecycle::Updated(t) => match arrows {
            None => {
                solving_rune.state = State::Completed;
            },
            Some(ArrowsState::Calibrating(c)) => {
                solving_rune.state = State::Solving(c, t);
            },
            Some(ArrowsState::Complete(keys)) => {
                solving_rune.state = State::PressKeys(Timeout::default(), keys, 0);
            },
        },
    }
}

/// What the press-keys stage resolves to, and whether it presses the key
/// at the current index (true exactly when its spacing timeout starts).
pub open spec fn spec_press_keys_next(timeout: Timeout, keys: [KeyKind; 4], key_index: usize) -> (
    State,
    bool,
) {
    match spec_next_timeout_lifecycle(timeout, PRESS_KEY_INTERVAL) {
        Lifecycle::Started(t) => (State::PressKeys(t, keys, key_index), true),
        Lifecycle::Ended => if key_index + 1 < 4 {
            (State::PressKeys(Timeout::initial(), keys, (key_index + 1) as usize), false)
        } else {
            (State::Completed, false)
        },
        Lifecycle::Updated(t) => (State::PressKeys(t, keys, key_index), false),
    }
}

/// The press-keys stage: press each of the four keys in order, with a
/// fixed number of ticks between presses.
pub fn update_press_keys(resources: &mut Resources, solving_rune: &mut SolvingRune)
    requires
        old(solving_rune).state matches State::PressKeys(timeout, _, key_index) ==> ({
            &&& (timeout.started && timeout.current < PRESS_KEY_INTERVAL ==> timeout.total
                < u32::MAX)
            &&& key_index < 4
        }),
        old(solving_rune).state is PressKeys,
    ensures
        ({
            let (next, pressed_key) = match old(solving_rune).state {
                State::PressKeys(timeout, keys, key_index) => {
                    let (next, pressed) = spec_press_keys_next(timeout, keys, key_index);
                    (next, if pressed {
                        Some(keys[key_index as int])
                    } else {
                        None
                    })
                },
                _ => (State::Completed, None),
            };
            &&& final(solving_rune).state == next
            &&& (pressed_key matches Some(k) ==> final(resources).input@ == old(resources).input@.push(KeyRequest::Press(k)))
            &&& (pressed_key is None ==> final(resources).input@ == old(resources).input@)
        }),
        final(resources).keys_cleared == old(resources).keys_cleared,
        final(resources).operation == old(resources).operation,
        final(resources).tick == old(resources).tick,
{
    let (timeout, keys, key_index) = match solving_rune.state {
        State::PressKeys(t, k, i) => (t, k, i),
        _ => (Timeout::default(), [KeyKind::A, KeyKind::A, KeyKind::A, KeyKind::A], 0),  // ruled out
    };
    match next_timeout_lifecycle(timeout, PRESS_KEY_INTERVAL) {
        Lifecycle::Started(t) => {
            resources.input.send_key(keys[key_index]);
            solving_rune.state = State::PressKeys(t, keys, key_index);
        },
        Lifecycle::Ended => {
            if key_index + 1 < 4 {
                solving_rune.state = State::PressKeys(Timeout::default(), keys, key_index + 1);
            } else {
                solving_rune.state = State::Completed;
            }
        },
        Lifecycle::Updated(t) => {
            solving_rune.state = State::PressKeys(t, keys, key_index);
        },
    }
}


/// The stage the sub-machine resolves to this tick, given what the
/// detector would report and whether the input backend reads clear.
pub open spec fn spec_solve_rune_step(
    is_stationary: bool,
    keys_cleared: bool,
    s: State,
    arrows: Option<ArrowsState>,
) -> State {
    match s {
        State::Precondition => if is_stationary && keys_cleared {
            State::FindRegion(ArrowsCalibrating { round: 0 }, Timeout::initial(), None, 0)
        } else {
            State::Precondition
        },
        State::FindRegion(calibrating, timeout, cooldown_timeout, retry_count) =>
            spec_find_region_next(calibrating, timeout, cooldown_timeout, retry_count, arrows).0,
        State::Solving(calibrating, timeout) => spec_solving_next(calibrating, timeout, arrows),
        State::PressKeys(timeout, keys, key_index) => spec_press_keys_next(
            timeout,
            keys,
            key_index,
        ).0,
        State::Completed => State::Completed,
    }
}

/// Updates the rune-solving state.
///
/// The sub-machine may only run while the rune intent is active: if that
/// intent disappears the state force-cancels to `Idle` whatever stage it
/// is in.  Reaching `Completed` resolves to `Idle`, dequeues the intent
/// and starts validating the solved rune against the buff.
pub fn update_solving_rune_state(
    resources: &mut Resources,
    player: &mut PlayerEntity,
    arrows: Option<ArrowsState>,
)
    requires
        old(player).state matches Player::SolvingRune(solving_rune) ==> ({
            &&& !(solving_rune.state is Completed)
            &&& (solving_rune.state matches State::FindRegion(_, timeout, cooldown, retry) ==> ({
                &&& (timeout.started && timeout.current < COOLDOWN_AND_SOLVE_TIMEOUT
                    ==> timeout.total < u32::MAX)
                &&& (cooldown matches Some(ct) ==> (ct.started && ct.current
                    < COOLDOWN_AND_SOLVE_TIMEOUT ==> ct.total < u32::MAX))
                &&& retry < u32::MAX
            }))
            &&& (solving_rune.state matches State::Solving(_, timeout) ==> (timeout.started
                && timeout.current < SOLVING_TIMEOUT ==> timeout.total < u32::MAX))
            &&& (solving_rune.state matches State::PressKeys(timeout, _, key_index) ==> ({
                &&& (timeout.started && timeout.current < PRESS_KEY_INTERVAL ==> timeout.total
                    < u32::MAX)
                &&& key_index < 4
            }))
        }),
        old(player).state is SolvingRune,
        !(arrows matches Some(ArrowsState::Complete(_))) || !(old(player).state matches
            Player::SolvingRune(s) && s.state is FindRegion),
        old(player).context.spec_next_action() is None || old(player).context.spec_next_action()
            == Some(PlayerAction::SolveRune),
    ensures
        old(player).context.spec_next_action() is None ==> final(player).state == Player::Idle
            && final(player).context == old(player).context,
        old(player).context.spec_next_action() == Some(PlayerAction::SolveRune) ==> ({
            let step = spec_solve_rune_step(
                old(player).context.is_stationary,
                old(resources).keys_cleared,
                old(player).state->SolvingRune_0.state,
                arrows,
            );
            if step is Completed {
                &&& final(player).state == Player::Idle
                &&& final(player).context == spec_rune_solved_context(old(player).context)
            } else {
                &&& final(player).state == Player::SolvingRune(SolvingRune { state: step })
                &&& final(player).context == old(player).context
            }
        }),
        final(resources).input@ == old(resources).input@ || (exists|k: KeyKind|
            final(resources).input@ == old(resources).input@.push(KeyRequest::Press(k))),
        final(resources).keys_cleared == old(resources).keys_cleared,
        final(resources).operation == old(resources).operation,
        final(resources).tick == old(resources).tick,
{
    let mut solving_rune = match player.state {
        Player::SolvingRune(s) => s,
        _ => SolvingRune::default(),  // ruled out
    };
    match solving_rune.state {
        State::Precondition => {
            let is_stationary = player.context.is_stationary;
            update_precondition(resources, is_stationary, &mut solving_rune);
        },
        State::FindRegion(_, _, _, _) => {
            let interact_key = player.context.config.interact_key;
            update_find_region(resources, &mut solving_rune, interact_key, arrows);
        },
        State::Solving(_, _) => {
            update_solving(&mut solving_rune, arrows);
        },
        State::PressKeys(_, _, _) => {
            update_press_keys(resources, &mut solving_rune);
        },
        State::Completed => {},  // ruled out by the precondition
    }
    let player_next_state = if matches!(solving_rune.state, State::Completed) {
        Player::Idle
    } else {
        Player::SolvingRune(solving_rune)
    };
    match next_action(&player.context) {
        Some(PlayerAction::SolveRune) => {
            let is_terminal = matches!(player_next_state, Player::Idle);
            if is_terminal {
                player.context.start_validating_rune();
                player.context.clear_action_completed();
            }
            player.state = player_next_state;
        },
        Some(_) | None => {
            // Force-cancel: the rune intent disappeared.
            player.state = Player::Idle;
        },
    }
}

/// The context after a terminal rune solve: validation started and the
/// rune intent dequeued.
pub open spec fn spec_rune_solved_context(
    context: crate::player::PlayerState,
) -> crate::player::PlayerState {
    (crate::player::PlayerState { rune_validating: true, ..context }).spec_clear_action_completed()
}

} // verus!
