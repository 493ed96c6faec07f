//! The buff-presence state machine: one instance per buff kind.
//!
//! Presence is a tri-state classification — the player has the buff, does
//! not have it, or had it and the machine is momentarily unsure.  Each tick
//! the machine polls its detection task and folds the outcome into the
//! classification; a per-kind tolerance decides how many consecutive
//! negative detections are forgiven before `Volatile` downgrades to `No`.

use vstd::prelude::*;

use crate::config::{Character, Settings};
use crate::task::{Task, TaskEvent, Update, spec_poll_outcome, spec_poll_slot, update_detection_task};

verus! {

/// Tolerance for kinds whose on-screen indicator is visually intermittent.
pub const COMMON_FAIL_COUNT: u32 = 5;

/// Tolerance for the familiar buff, whose indicator is steadier.
pub const FAMILIAR_FAIL_COUNT: u32 = 2;

/// Tolerance for the rune buff: a negative detection there is
/// authoritative, because the rune cooldown looks exactly like the buff.
pub const RUNE_FAIL_COUNT: u32 = 1;

/// How many polls a cached detection outcome may serve before the task
/// re-issues the perception call.
pub const BUFF_DETECTION_BUDGET_TICKS: u32 = 150;

/// The buff kinds the engine tracks.
#[derive(Clone, Copy, Debug, PartialEq, Eq, Structural)]
pub enum BuffKind {
    /// The rune buff.  Never independently toggled by the user; it is
    /// detected whenever rune solving is enabled globally.
    Rune,
    Familiar,
    SayramElixir,
    AureliaElixir,
    ExpCouponX3,
    BonusExpCoupon,
    LegionWealth,
    LegionLuck,
    WealthAcquisitionPotion,
    ExpAccumulationPotion,
    ExtremeRedPotion,
    ExtremeBluePotion,
    ExtremeGreenPotion,
    ExtremeGoldPotion,
}

/// Every buff kind, in the fixed order the engine tracks them.
pub open spec fn spec_all_buff_kinds() -> Seq<BuffKind> {
    seq![
        BuffKind::Rune,
        BuffKind::Familiar,
        BuffKind::SayramElixir,
        BuffKind::AureliaElixir,
        BuffKind::ExpCouponX3,
        BuffKind::BonusExpCoupon,
        BuffKind::LegionWealth,
        BuffKind::LegionLuck,
        BuffKind::WealthAcquisitionPotion,
        BuffKind::ExpAccumulationPotion,
        BuffKind::ExtremeRedPotion,
        BuffKind::ExtremeBluePotion,
        BuffKind::ExtremeGreenPotion,
        BuffKind::ExtremeGoldPotion,
    ]
}

impl BuffKind {
    /// Every kind, in a fixed order.
    pub fn all() -> (r: Vec<BuffKind>)
        ensures
            r@ == spec_all_buff_kinds(),
    {
        let mut kinds: Vec<BuffKind> = Vec::new();
        kinds.push(BuffKind::Rune);
        kinds.push(BuffKind::Familiar);
        kinds.push(BuffKind::SayramElixir);
        kinds.push(BuffKind::AureliaElixir);
        kinds.push(BuffKind::ExpCouponX3);
        kinds.push(BuffKind::BonusExpCoupon);
        kinds.push(BuffKind::LegionWealth);
        kinds.push(BuffKind::LegionLuck);
        kinds.push(BuffKind::WealthAcquisitionPotion);
        kinds.push(BuffKind::ExpAccumulationPotion);
        kinds.push(BuffKind::ExtremeRedPotion);
        kinds.push(BuffKind::ExtremeBluePotion);
        kinds.push(BuffKind::ExtremeGreenPotion);
        kinds.push(BuffKind::ExtremeGoldPotion);
        proof {
            assert(kinds@ =~= spec_all_buff_kinds());
        }
        kinds
    }
}

/// The tolerance each kind starts with.
pub open spec fn spec_max_fail_count(kind: BuffKind) -> u32 {
    match kind {
        BuffKind::Rune => RUNE_FAIL_COUNT,
        BuffKind::Familiar => FAMILIAR_FAIL_COUNT,
        _ => COMMON_FAIL_COUNT,
    }
}

/// Persistent per-kind state of the buff machine.
#[derive(Debug)]
pub struct BuffState {
    /// The kind this instance tracks.
    pub kind: BuffKind,
    /// The detection task asking whether the buff is on screen.
    pub task: Option<Task<bool>>,
    /// Consecutive negative detections seen while `Volatile`.
    pub fail_count: u32,
    /// Negative detections forgiven before `Volatile` drops to `No`.
    pub max_fail_count: u32,
    /// Whether the user has this buff enabled; a disabled buff never
    /// detects and is pinned to `No`.
    pub enabled: bool,
}

impl BuffState {
    pub fn new(kind: BuffKind) -> (r: BuffState)
        ensures
            r.kind == kind,
            r.task is None,
            r.fail_count == 0,
            r.max_fail_count == spec_max_fail_count(kind),
            r.enabled,
    {
        BuffState {
            kind,
            task: None,
            fail_count: 0,
            max_fail_count: match kind {
                BuffKind::Rune => RUNE_FAIL_COUNT,
                BuffKind::Familiar => FAMILIAR_FAIL_COUNT,
                BuffKind::SayramElixir
                | BuffKind::AureliaElixir
                | BuffKind::ExpCouponX3
                | BuffKind::BonusExpCoupon
                | BuffKind::LegionWealth
                | BuffKind::LegionLuck
                | BuffKind::WealthAcquisitionPotion
                | BuffKind::ExpAccumulationPotion
                | BuffKind::ExtremeRedPotion
                | BuffKind::ExtremeBluePotion
                | BuffKind::ExtremeGreenPotion
                | BuffKind::ExtremeGoldPotion => COMMON_FAIL_COUNT,
            },
            enabled: true,
        }
    }

    /// Whether this kind counts as enabled under the given configuration.
    pub open spec fn spec_enabled(kind: BuffKind, character: Character, settings: Settings) -> bool {
        match kind {
            BuffKind::Rune => settings.enable_rune_solving,
            BuffKind::Familiar => character.familiar_buff_key.enabled,
            BuffKind::SayramElixir => character.sayram_elixir_key.enabled,
            BuffKind::AureliaElixir => character.aurelia_elixir_key.enabled,
            BuffKind::ExpCouponX3 => character.exp_x3_key.enabled,
            BuffKind::BonusExpCoupon => character.bonus_exp_key.enabled,
            BuffKind::LegionWealth => character.legion_wealth_key.enabled,
            BuffKind::LegionLuck => character.legion_luck_key.enabled,
            BuffKind::WealthAcquisitionPotion => character.wealth_acquisition_potion_key.enabled,
            BuffKind::ExpAccumulationPotion => character.exp_accumulation_potion_key.enabled,
            BuffKind::ExtremeRedPotion => character.extreme_red_potion_key.enabled,
            BuffKind::ExtremeBluePotion => character.extreme_blue_potion_key.enabled,
            BuffKind::ExtremeGreenPotion => character.extreme_green_potion_key.enabled,
            BuffKind::ExtremeGoldPotion => character.extreme_gold_potion_key.enabled,
        }
    }

    /// Refreshes the enable flag from the configuration snapshot.  A buff
    /// that turns out disabled drops its fail count and any in-flight
    /// detection task, whatever they were.
    pub fn update_enabled_state(&mut self, character: &Character, settings: &Settings)
        ensures
            final(self).kind == old(self).kind,
            final(self).max_fail_count == old(self).max_fail_count,
            final(self).enabled == BuffState::spec_enabled(old(self).kind, *character, *settings),
            !final(self).enabled ==> final(self).fail_count == 0 && final(self).task is None,
            final(self).enabled ==> final(self).fail_count == old(self).fail_count
                && final(self).task == old(self).task,
    {
        self.enabled = match self.kind {
            BuffKind::Rune => settings.enable_rune_solving,
            BuffKind::Familiar => character.familiar_buff_key.enabled,
            BuffKind::SayramElixir => character.sayram_elixir_key.enabled,
            BuffKind::AureliaElixir => character.aurelia_elixir_key.enabled,
            BuffKind::ExpCouponX3 => character.exp_x3_key.enabled,
            BuffKind::BonusExpCoupon => character.bonus_exp_key.enabled,
            BuffKind::LegionWealth => character.legion_wealth_key.enabled,
            BuffKind::LegionLuck => character.legion_luck_key.enabled,
            BuffKind::WealthAcquisitionPotion => character.wealth_acquisition_potion_key.enabled,
            BuffKind::ExpAccumulationPotion => character.exp_accumulation_potion_key.enabled,
            BuffKind::ExtremeRedPotion => character.extreme_red_potion_key.enabled,
            BuffKind::ExtremeBluePotion => character.extreme_blue_potion_key.enabled,
            BuffKind::ExtremeGreenPotion => character.extreme_green_potion_key.enabled,
            BuffKind::ExtremeGoldPotion => character.extreme_gold_potion_key.enabled,
        };
        if !self.enabled {
            self.fail_count = 0;
            self.task = None;
        }
    }
}

/// The tri-state presence classification.
#[derive(Clone, Copy, Debug, PartialEq, Eq, Structural)]
pub enum Buff {
    /// The player does not have this buff.
    No,
    /// The player has this buff.
    Yes,
    /// The player did have this buff but the machine is currently unsure.
    Volatile,
}

/// The fail count after folding one detection outcome in: negatives seen
/// while `Volatile` accumulate, everything else resets to zero.
pub open spec fn spec_next_fail_count(contextual: Buff, has_buff: bool, fail_count: u32) -> int {
    if contextual is Volatile && !has_buff {
        fail_count + 1
    } else {
        0
    }
}

/// The presence after folding one detection outcome in.
pub open spec fn spec_next_presence(
    contextual: Buff,
    has_buff: bool,
    next_fail_count: int,
    max_fail_count: u32,
) -> Buff {
    if has_buff {
        Buff::Yes
    } else {
        match contextual {
            Buff::No => Buff::No,
            Buff::Yes => if max_fail_count > 1 {
                Buff::Volatile
            } else {
                Buff::No
            },
            Buff::Volatile => if next_fail_count >= max_fail_count {
                Buff::No
            } else {
                Buff::Volatile
            },
        }
    }
}

/// Advances the presence classification by one tick.
///
/// The detection task is polled first; while it reports nothing, the
/// classification stays as it is.  A delivered outcome updates the fail
/// count and moves the presence by the transition table; a detection error
/// counts as nothing delivered.
pub fn update_context(
    contextual: Buff,
    state: &mut BuffState,
    event: TaskEvent<bool>,
) -> (next: Buff)
    requires
        old(state).fail_count < u32::MAX,
    ensures
        final(state).kind == old(state).kind,
        final(state).max_fail_count == old(state).max_fail_count,
        final(state).enabled == old(state).enabled,
        final(state).task == spec_poll_slot(
            old(state).task,
            BUFF_DETECTION_BUDGET_TICKS,
            event,
        ),
        match spec_poll_outcome(old(state).task, BUFF_DETECTION_BUDGET_TICKS, event) {
            Update::Ready(has_buff) => final(state).fail_count == spec_next_fail_count(
                contextual,
                has_buff,
                old(state).fail_count,
            ) && next == spec_next_presence(
                contextual,
                has_buff,
                final(state).fail_count as int,
                old(state).max_fail_count,
            ),
            _ => final(state).fail_count == old(state).fail_count && next == contextual,
        },
{
    let polled = update_detection_task(BUFF_DETECTION_BUDGET_TICKS, &mut state.task, event);
    let has_buff = match polled {
        Update::Ready(has_buff) => has_buff,
        Update::Error | Update::Pending => {
            return contextual;
        },
    };
    state.fail_count = if matches!(contextual, Buff::Volatile) && !has_buff {
        state.fail_count + 1
    } else {
        0
    };
    match (has_buff, contextual) {
        (true, Buff::Volatile) | (true, Buff::Yes) | (true, Buff::No) => Buff::Yes,
        (false, Buff::No) => Buff::No,
        (false, Buff::Yes) => {
            if state.max_fail_count > 1 {
                Buff::Volatile
            } else {
                Buff::No
            }
        },
        (false, Buff::Volatile) => {
            if state.fail_count >= state.max_fail_count {
                Buff::No
            } else {
                Buff::Volatile
            }
        },
    }
}

impl Buff {
    /// Advances the machine one tick, honouring the enable flag and the
    /// cash-shop freeze: a disabled buff is pinned to `No`, and while the
    /// player sits in the cash shop the classification is left untouched.
    pub fn update(
        self,
        state: &mut BuffState,
        player_in_cash_shop: bool,
        event: TaskEvent<bool>,
    ) -> (next: Buff)
        requires
            old(state).fail_count < u32::MAX,
        ensures
            final(state).kind == old(state).kind,
            final(state).max_fail_count == old(state).max_fail_count,
            final(state).enabled == old(state).enabled,
            !old(state).enabled ==> next == Buff::No && *final(state) == *old(state),
            old(state).enabled && player_in_cash_shop ==> next == self && *final(state) == *old(state),
            old(state).enabled && !player_in_cash_shop ==> ({
                &&& final(state).task == spec_poll_slot(
                    old(state).task,
                    BUFF_DETECTION_BUDGET_TICKS,
                    event,
                )
                &&& match spec_poll_outcome(old(state).task, BUFF_DETECTION_BUDGET_TICKS, event) {
                    Update::Ready(has_buff) => final(state).fail_count == spec_next_fail_count(
                        self,
                        has_buff,
                        old(state).fail_count,
                    ) && next == spec_next_presence(
                        self,
                        has_buff,
                        final(state).fail_count as int,
                        old(state).max_fail_count,
                    ),
                    _ => final(state).fail_count == old(state).fail_count && next == self,
                }
            }),
    {
        if !state.enabled {
            return Buff::No;
        }
        if player_in_cash_shop {
            return self;
        }
        update_context(self, state, event)
    }
}

/// A run of negative detections walks `Yes` down through `Volatile` and out
/// to `No` at the kind's tolerance.  With a tolerance of two, three
/// delivered negatives read: `Yes` to `Volatile` with the fail count reset,
/// `Volatile` staying `Volatile` with the count at one, then `No` with the
/// count at two — and the count only returns to zero once a positive
/// detection re-enters `Yes`.
pub proof fn lemma_consecutive_negatives_downgrade()
    ensures
        spec_next_fail_count(Buff::Yes, false, 0) == 0,
        spec_next_presence(Buff::Yes, false, 0, 2) == Buff::Volatile,
        spec_next_fail_count(Buff::Volatile, false, 0) == 1,
        spec_next_presence(Buff::Volatile, false, 1, 2) == Buff::Volatile,
        spec_next_fail_count(Buff::Volatile, false, 1) == 2,
        spec_next_presence(Buff::Volatile, false, 2, 2) == Buff::No,
        forall|contextual: Buff, fail_count: u32|
            spec_next_fail_count(contextual, true, fail_count) == 0 && spec_next_presence(
                contextual,
                true,
                0,
                2,
            ) == Buff::Yes,
{
}

} // verus!
