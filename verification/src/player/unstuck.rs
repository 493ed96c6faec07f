//! The unstucking state: entered when repeated failed actions accumulate,
//! or when the player drifted into the minimap's edges.  It nudges the
//! player away from the edge and presses Esc to close any dialog; past the
//! consecutive-entry threshold it escalates to a randomized recovery mode.
//! Held directional keys are always released on exit.

use vstd::prelude::*;

use crate::bridge::{KeyKind, KeyRequest};
use crate::ecs::Resources;
use crate::geometry::Point;
use crate::minimap::Minimap;
use crate::player::moving::spec_point_in_range;
use crate::player::timeout::{Lifecycle, Timeout, next_timeout_lifecycle, spec_next_timeout_lifecycle};
use crate::player::{MOVE_TIMEOUT, Player, PlayerEntity};
use crate::rng::random_ratio_bool;

verus! {

/// Vertical position, measured from the minimap's bottom, inside which the
/// player counts as inside the top edge, where jumping is pointless.
pub const Y_IGNORE_THRESHOLD: i32 = 18;

/// The player position measured from the minimap's bottom edge.
pub open spec fn spec_flipped_pos(pos: Point, bbox_height: i32) -> Point {
    Point { x: pos.x, y: (bbox_height - pos.y) as i32 }
}

/// Updates the unstucking state.
///
/// Without a located minimap the state falls back to detecting.  On its
/// first tick it presses Esc when a dialog is up (or on a coin flip in the
/// randomized mode), then starts nudging: toward the right when the player
/// sits in the left half (random in the randomized mode), unless the
/// player is inside the top edge, where no nudge helps.  On ordinary
/// ticks it jumps, except inside the top edge.  When the timeout ends both
/// directional keys are released and the state returns to detecting.
pub fn update_unstucking_state(
    resources: &mut Resources,
    player: &mut PlayerEntity,
    minimap_state: &Minimap,
    timeout: Timeout,
    gamba_mode: bool,
    esc_dialog: bool,
)
    requires
        timeout.started && timeout.current < MOVE_TIMEOUT ==> timeout.total < u32::MAX,
        old(player).context.last_known_pos matches Some(p) ==> spec_point_in_range(p),
        minimap_state matches Minimap::Idle(idle) ==> -1000000 <= idle.bbox.height <= 1000000
            && 0 <= idle.bbox.width <= 1000000,
    ensures
        final(player).context == old(player).context,
        final(resources).keys_cleared == old(resources).keys_cleared,
        final(resources).operation == old(resources).operation,
        final(resources).tick == old(resources).tick,
        ({
            let log0 = old(resources).input@;
            let log1 = final(resources).input@;
            match *minimap_state {
                Minimap::Detecting => final(player).state == Player::Detecting && log1 == log0,
                Minimap::Idle(idle) => {
                    let has_pos = old(player).context.last_known_pos is Some;
                    let gamba = gamba_mode || !has_pos;
                    let pos = spec_flipped_pos(
                        old(player).context.last_known_pos.unwrap(),
                        idle.bbox.height,
                    );
                    match spec_next_timeout_lifecycle(timeout, MOVE_TIMEOUT) {
                        Lifecycle::Started(t) => {
                            &&& final(player).state == Player::Unstucking(t, gamba)
                            &&& if gamba {
                                ||| log1 == log0 + seq![
                                    KeyRequest::Press(KeyKind::Esc),
                                    KeyRequest::Down(KeyKind::Right),
                                ]
                                ||| log1 == log0 + seq![
                                    KeyRequest::Press(KeyKind::Esc),
                                    KeyRequest::Up(KeyKind::Left),
                                ]
                                ||| log1 == log0 + seq![KeyRequest::Down(KeyKind::Right)]
                                ||| log1 == log0 + seq![KeyRequest::Up(KeyKind::Left)]
                            } else {
                                let esc_part: Seq<KeyRequest> = if esc_dialog {
                                    seq![KeyRequest::Press(KeyKind::Esc)]
                                } else {
                                    Seq::empty()
                                };
                                if pos.y <= Y_IGNORE_THRESHOLD {
                                    log1 == log0 + esc_part
                                } else if pos.x <= idle.bbox.width / 2 {
                                    log1 == log0 + esc_part + seq![
                                        KeyRequest::Down(KeyKind::Right),
                                    ]
                                } else {
                                    log1 == log0 + esc_part + seq![KeyRequest::Up(KeyKind::Left)]
                                }
                            }
                        },
                        Lifecycle::Ended => {
                            &&& final(player).state == Player::Detecting
                            &&& log1 == log0 + seq![
                                KeyRequest::Up(KeyKind::Right),
                                KeyRequest::Up(KeyKind::Left),
                            ]
                        },
                        Lifecycle::Updated(t) => {
                            &&& final(player).state == Player::Unstucking(t, gamba)
                            &&& if gamba || pos.y > Y_IGNORE_THRESHOLD {
                                log1 == log0.push(
                                    KeyRequest::Press(
                                        old(player).context.config.jump_key,
                                    ),
                                )
                            } else {
                                log1 == log0
                            }
                        },
                    }
                },
            }
        }),
{
    let idle = match minimap_state {
        Minimap::Idle(idle) => idle,
        Minimap::Detecting => {
            player.state = Player::Detecting;
            return ;
        },
    };
    let pos = match player.context.last_known_pos {
        Some(p) => Some(Point { x: p.x, y: idle.bbox.height - p.y }),
        None => None,
    };
    let gamba = gamba_mode || pos.is_none();
    match next_timeout_lifecycle(timeout, MOVE_TIMEOUT) {
        Lifecycle::Started(t) => {
            let esc_pressed = (!gamba && esc_dialog) || (gamba && random_ratio_bool(1, 2));
            if esc_pressed {
                resources.input.send_key(KeyKind::Esc);
            }
            let to_right: bool;
            if gamba {
                to_right = random_ratio_bool(1, 2);
            } else {
                let p = pos.unwrap();
                if p.y <= Y_IGNORE_THRESHOLD {
                    proof {
                        assert(resources.input@ =~= old(resources).input@ + (if esc_dialog {
                            seq![KeyRequest::Press(KeyKind::Esc)]
                        } else {
                            Seq::<KeyRequest>::empty()
                        }));
                    }
                    player.state = Player::Unstucking(t, gamba);
                    return ;
                }
                to_right = p.x <= idle.bbox.width / 2;
            }
            if to_right {
                resources.input.send_key_down(KeyKind::Right);
            } else {
                resources.input.send_key_up(KeyKind::Left);
            }
            proof {
                let log0 = old(resources).input@;
                let esc_part: Seq<KeyRequest> = if esc_pressed {
                    seq![KeyRequest::Press(KeyKind::Esc)]
                } else {
                    Seq::empty()
                };
                let dir_part: Seq<KeyRequest> = if to_right {
                    seq![KeyRequest::Down(KeyKind::Right)]
                } else {
                    seq![KeyRequest::Up(KeyKind::Left)]
                };
                assert(resources.input@ =~= log0 + esc_part + dir_part);
            }
            player.state = Player::Unstucking(t, gamba);
        },
        Lifecycle::Ended => {
            resources.input.send_key_up(KeyKind::Right);
            resources.input.send_key_up(KeyKind::Left);
            proof {
                assert(resources.input@ =~= old(resources).input@ + seq![
                    KeyRequest::Up(KeyKind::Right),
                    KeyRequest::Up(KeyKind::Left),
                ]);
            }
            player.state = Player::Detecting;
        },
        Lifecycle::Updated(t) => {
            let send_space = if gamba {
                true
            } else {
                pos.unwrap().y > Y_IGNORE_THRESHOLD
            };
            if send_space {
                let jump_key = player.context.config.jump_key;
                resources.input.send_key(jump_key);
            }
            player.state = Player::Unstucking(t, gamba);
        },
    }
}

} // verus!
