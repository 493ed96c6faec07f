//! The rotator service: builds the prioritized action and buff lists the
//! rotator feeds to the player machine, from the character's configured
//! actions, the current map's stored presets and the settings snapshot.

use vstd::prelude::*;

use crate::buff::BuffKind;
use crate::config::{
    Action, ActionConfiguration, ActionConfigurationCondition, ActionCondition, ActionKey,
    ActionKeyDirection, ActionKeyWith, Bound, Character, EliteBossBehavior, FamiliarRarity,
    KeyBinding, Minimap, PotionMode, RotationMode, Settings, SwappableFamiliars,
};

verus! {

/// How the rotator walks its list, with the mobbing key and bound where
/// the mode needs them.
#[derive(Clone, Copy, Debug, PartialEq, Eq, Structural)]
pub enum RotatorMode {
    StartToEnd,
    StartToEndThenReverse,
    AutoMobbing(KeyBinding, Bound),
    PingPong(KeyBinding, Bound),
}

impl Default for RotatorMode {
    fn default() -> (r: RotatorMode)
        ensures
            r == RotatorMode::StartToEnd,
    {
        RotatorMode::StartToEnd
    }
}

/// Everything a rotator needs to rebuild its schedule.
#[derive(Clone, Debug, PartialEq)]
pub struct RotatorBuildArgs {
    pub mode: RotatorMode,
    pub actions: Vec<Action>,
    pub buffs: Vec<(BuffKind, KeyBinding)>,
    pub familiar_essence_key: KeyBinding,
    pub familiar_swappable_slots: SwappableFamiliars,
    pub familiar_swappable_rarities: Vec<FamiliarRarity>,
    pub familiar_swap_check_millis: u64,
    pub elite_boss_behavior: EliteBossBehavior,
    pub elite_boss_behavior_key: KeyBinding,
    pub enable_panic_mode: bool,
    pub enable_rune_solving: bool,
    pub enable_familiars_swapping: bool,
    pub enable_reset_normal_actions_on_erda: bool,
}

/// The rotator proper, implemented by the host: it owns the intent queue
/// that feeds the player machine.
pub trait Rotator {
    /// Rebuilds the rotator's schedule from the given arguments.
    fn build_actions(&mut self, args: RotatorBuildArgs);
}

/// The key action the fixed list runs on a cadence, for pet food and
/// timed potions.
pub open spec fn spec_cadence_key_action(key: KeyBinding, millis: u64, count: u32) -> Action {
    Action::Key(
        ActionKey {
            key,
            link_key: None,
            count,
            condition: ActionCondition::EveryMillis(millis),
            direction: ActionKeyDirection::Any,
            with: ActionKeyWith::Any,
            wait_before_use_millis: 350,
            wait_after_use_millis: 350,
        },
    )
}

/// The configured fixed actions that actually run, walked front to back:
/// an enabled un-linked entry runs together with the linked entries that
/// directly follow it; everything after a disabled leader is skipped.
pub open spec fn spec_enabled_actions(
    cfgs: Seq<ActionConfiguration>,
    prev_enabled: bool,
) -> Seq<Action>
    decreases cfgs.len(),
{
    if cfgs.len() == 0 {
        Seq::empty()
    } else {
        let head = cfgs[0];
        let rest = cfgs.drop_first();
        if head.condition is Linked {
            if prev_enabled {
                seq![head.spec_to_action()] + spec_enabled_actions(rest, prev_enabled)
            } else {
                spec_enabled_actions(rest, prev_enabled)
            }
        } else {
            if head.enabled {
                seq![head.spec_to_action()] + spec_enabled_actions(rest, true)
            } else {
                spec_enabled_actions(rest, false)
            }
        }
    }
}

/// The whole fixed action list a character contributes: pet food on its
/// cadence, a timed potion, then the configured actions that run.
pub open spec fn spec_actions_from(character: Character) -> Seq<Action> {
    let feed: Seq<Action> = if character.feed_pet_key.enabled {
        seq![
            spec_cadence_key_action(
                character.feed_pet_key.key,
                character.feed_pet_millis,
                character.feed_pet_count,
            ),
        ]
    } else {
        Seq::empty()
    };
    let potion: Seq<Action> = if character.potion_key.enabled && character.potion_mode
        is EveryMillis {
        seq![
            spec_cadence_key_action(
                character.potion_key.key,
                character.potion_mode->EveryMillis_0,
                1,
            ),
        ]
    } else {
        Seq::empty()
    };
    feed + potion + spec_enabled_actions(character.actions@, false)
}

/// Builds the fixed action list a character contributes.
pub fn actions_from(character: &Character) -> (r: Vec<Action>)
    ensures
        r@ == spec_actions_from(*character),
{
    let mut out: Vec<Action> = Vec::new();
    if character.feed_pet_key.enabled {
        out.push(
            Action::Key(
                ActionKey {
                    key: character.feed_pet_key.key,
                    link_key: None,
                    count: character.feed_pet_count,
                    condition: ActionCondition::EveryMillis(character.feed_pet_millis),
                    direction: ActionKeyDirection::Any,
                    with: ActionKeyWith::Any,
                    wait_before_use_millis: 350,
                    wait_after_use_millis: 350,
                },
            ),
        );
    }
    if character.potion_key.enabled {
        match character.potion_mode {
            PotionMode::EveryMillis(millis) => {
                out.push(
                    Action::Key(
                        ActionKey {
                            key: character.potion_key.key,
                            link_key: None,
                            count: 1,
                            condition: ActionCondition::EveryMillis(millis),
                            direction: ActionKeyDirection::Any,
                            with: ActionKeyWith::Any,
                            wait_before_use_millis: 350,
                            wait_after_use_millis: 350,
                        },
                    ),
                );
            },
            PotionMode::BelowHealth => {},
        }
    }
    let ghost total = spec_actions_from(*character);
    proof {
        assert(character.actions@.skip(0) =~= character.actions@);
        assert(out@ + spec_enabled_actions(character.actions@, false) =~= total);
    }
    let mut prev_enabled = false;
    let mut i: usize = 0;
    while i < character.actions.len()
        invariant
            0 <= i <= character.actions@.len(),
            out@ + spec_enabled_actions(character.actions@.skip(i as int), prev_enabled) == total,
        decreases character.actions@.len() - i,
    {
        let cfg = character.actions[i];
        proof {
            assert(character.actions@.skip(i as int)[0] == cfg);
            assert(character.actions@.skip(i as int).drop_first() =~= character.actions@.skip(
                i as int + 1,
            ));
        }
        if matches!(cfg.condition, ActionConfigurationCondition::Linked) {
            if prev_enabled {
                out.push(cfg.to_action());
            }
        } else {
            if cfg.enabled {
                out.push(cfg.to_action());
                prev_enabled = true;
            } else {
                prev_enabled = false;
            }
        }
        proof {
            assert(out@ + spec_enabled_actions(character.actions@.skip(i as int + 1), prev_enabled)
                =~= total);
        }
        i = i + 1;
    }
    proof {
        assert(character.actions@.skip(i as int) =~= Seq::<ActionConfiguration>::empty());
        assert(out@ =~= total);
    }
    out
}

/// The per-kind key configuration the buff list is filtered from, in the
/// fixed buff-kind order.  The rune buff contributes nothing: it is
/// engine-internal.
pub open spec fn spec_buff_triples(c: Character) -> Seq<(BuffKind, bool, KeyBinding)> {
    seq![
        (BuffKind::Familiar, c.familiar_buff_key.enabled, c.familiar_buff_key.key),
        (BuffKind::SayramElixir, c.sayram_elixir_key.enabled, c.sayram_elixir_key.key),
        (BuffKind::AureliaElixir, c.aurelia_elixir_key.enabled, c.aurelia_elixir_key.key),
        (BuffKind::ExpCouponX3, c.exp_x3_key.enabled, c.exp_x3_key.key),
        (BuffKind::BonusExpCoupon, c.bonus_exp_key.enabled, c.bonus_exp_key.key),
        (BuffKind::LegionWealth, c.legion_wealth_key.enabled, c.legion_wealth_key.key),
        (BuffKind::LegionLuck, c.legion_luck_key.enabled, c.legion_luck_key.key),
        (BuffKind::WealthAcquisitionPotion, c.wealth_acquisition_potion_key.enabled, c.wealth_acquisition_potion_key.key),
        (BuffKind::ExpAccumulationPotion, c.exp_accumulation_potion_key.enabled, c.exp_accumulation_potion_key.key),
        (BuffKind::ExtremeRedPotion, c.extreme_red_potion_key.enabled, c.extreme_red_potion_key.key),
        (BuffKind::ExtremeBluePotion, c.extreme_blue_potion_key.enabled, c.extreme_blue_potion_key.key),
        (BuffKind::ExtremeGreenPotion, c.extreme_green_potion_key.enabled, c.extreme_green_potion_key.key),
        (BuffKind::ExtremeGoldPotion, c.extreme_gold_potion_key.enabled, c.extreme_gold_potion_key.key),
    ]
}

/// The enabled entries of a per-kind key configuration, in order.
pub open spec fn spec_enabled_buffs(list: Seq<(BuffKind, bool, KeyBinding)>) -> Seq<
    (BuffKind, KeyBinding),
>
    decreases list.len(),
{
    if list.len() == 0 {
        Seq::empty()
    } else {
        let head = list[0];
        let rest = spec_enabled_buffs(list.drop_first());
        if head.1 {
            seq![(head.0, head.2)] + rest
        } else {
            rest
        }
    }
}

/// The buff keys a character has enabled, in the fixed buff-kind order.
pub open spec fn spec_buffs_from(c: Character) -> Seq<(BuffKind, KeyBinding)> {
    spec_enabled_buffs(spec_buff_triples(c))
}

/// Builds the buff list a character contributes.
pub fn buffs_from(character: &Character) -> (r: Vec<(BuffKind, KeyBinding)>)
    ensures
        r@ == spec_buffs_from(*character),
{
    let mut triples: Vec<(BuffKind, bool, KeyBinding)> = Vec::new();
    triples.push((BuffKind::Familiar, character.familiar_buff_key.enabled, character.familiar_buff_key.key));
    triples.push((BuffKind::SayramElixir, character.sayram_elixir_key.enabled, character.sayram_elixir_key.key));
    triples.push((BuffKind::AureliaElixir, character.aurelia_elixir_key.enabled, character.aurelia_elixir_key.key));
    triples.push((BuffKind::ExpCouponX3, character.exp_x3_key.enabled, character.exp_x3_key.key));
    triples.push((BuffKind::BonusExpCoupon, character.bonus_exp_key.enabled, character.bonus_exp_key.key));
    triples.push((BuffKind::LegionWealth, character.legion_wealth_key.enabled, character.legion_wealth_key.key));
    triples.push((BuffKind::LegionLuck, character.legion_luck_key.enabled, character.legion_luck_key.key));
    triples.push((BuffKind::WealthAcquisitionPotion, character.wealth_acquisition_potion_key.enabled, character.wealth_acquisition_potion_key.key));
    triples.push((BuffKind::ExpAccumulationPotion, character.exp_accumulation_potion_key.enabled, character.exp_accumulation_potion_key.key));
    triples.push((BuffKind::ExtremeRedPotion, character.extreme_red_potion_key.enabled, character.extreme_red_potion_key.key));
    triples.push((BuffKind::ExtremeBluePotion, character.extreme_blue_potion_key.enabled, character.extreme_blue_potion_key.key));
    triples.push((BuffKind::ExtremeGreenPotion, character.extreme_green_potion_key.enabled, character.extreme_green_potion_key.key));
    triples.push((BuffKind::ExtremeGoldPotion, character.extreme_gold_potion_key.enabled, character.extreme_gold_potion_key.key));
    proof {
        assert(triples@ =~= spec_buff_triples(*character));
    }
    let mut out: Vec<(BuffKind, KeyBinding)> = Vec::new();
    let mut i: usize = 0;
    proof {
        assert(triples@.skip(0) =~= triples@);
    }
    while i < triples.len()
        invariant
            0 <= i <= triples@.len(),
            out@ + spec_enabled_buffs(triples@.skip(i as int)) == spec_buffs_from(*character),
        decreases triples@.len() - i,
    {
        let entry = triples[i];
        proof {
            assert(triples@.skip(i as int)[0] == entry);
            assert(triples@.skip(i as int).drop_first() =~= triples@.skip(i as int + 1));
        }
        if entry.1 {
            out.push((entry.0, entry.2));
        }
        proof {
            assert(out@ + spec_enabled_buffs(triples@.skip(i as int + 1)) =~= spec_buffs_from(
                *character,
            ));
        }
        i = i + 1;
    }
    proof {
        assert(triples@.skip(i as int) =~= Seq::<(BuffKind, bool, KeyBinding)>::empty());
        assert(out@ =~= spec_buffs_from(*character));
    }
    out
}

/// The rotator mode the current map asks for.
pub open spec fn spec_rotator_mode_from(minimap: Option<Minimap>) -> RotatorMode {
    match minimap {
        None => RotatorMode::StartToEnd,
        Some(m) => match m.rotation_mode {
            RotationMode::StartToEnd => RotatorMode::StartToEnd,
            RotationMode::StartToEndThenReverse => RotatorMode::StartToEndThenReverse,
            RotationMode::AutoMobbing => RotatorMode::AutoMobbing(
                m.rotation_mobbing_key,
                m.rotation_auto_mob_bound,
            ),
            RotationMode::PingPong => RotatorMode::PingPong(
                m.rotation_mobbing_key,
                m.rotation_ping_pong_bound,
            ),
        },
    }
}

/// Maps the map's stored rotation mode to the rotator's mode, carrying the
/// mobbing key and the mode's bound along.
pub fn rotator_mode_from(minimap: Option<&Minimap>) -> (r: RotatorMode)
    ensures
        match minimap {
            Some(m) => r == spec_rotator_mode_from(Some(*m)),
            None => r == RotatorMode::StartToEnd,
        },
{
    match minimap {
        None => RotatorMode::StartToEnd,
        Some(m) => match m.rotation_mode {
            RotationMode::StartToEnd => RotatorMode::StartToEnd,
            RotationMode::StartToEndThenReverse => RotatorMode::StartToEndThenReverse,
            RotationMode::AutoMobbing => RotatorMode::AutoMobbing(
                m.rotation_mobbing_key,
                m.rotation_auto_mob_bound,
            ),
            RotationMode::PingPong => RotatorMode::PingPong(
                m.rotation_mobbing_key,
                m.rotation_ping_pong_bound,
            ),
        },
    }
}

/// Copies a vector of plain values.
fn copy_vec<T: Copy>(v: &Vec<T>) -> (r: Vec<T>)
    ensures
        r@ == v@,
{
    let mut out: Vec<T> = Vec::new();
    let mut i: usize = 0;
    while i < v.len()
        invariant
            0 <= i <= v@.len(),
            out@ == v@.take(i as int),
        decreases v@.len() - i,
    {
        out.push(v[i]);
        proof {
            assert(out@ =~= v@.take(i as int + 1));
        }
        i = i + 1;
    }
    proof {
        assert(out@ =~= v@);
    }
    out
}

/// A service that keeps the in-use action and buff lists and pushes them
/// into a rotator.
pub trait RotatorService {
    /// The action list currently in use.
    spec fn actions_view(&self) -> Seq<Action>;

    /// The buff list currently in use.
    spec fn buffs_view(&self) -> Seq<(BuffKind, KeyBinding)>;

    /// Rebuilds the in-use action list: what the character contributes,
    /// followed by the named preset stored on the current map.
    fn update_actions(
        &mut self,
        minimap: Option<&Minimap>,
        preset: Option<String>,
        character: Option<&Character>,
    )
        requires
            minimap matches Some(m) ==> m.wf(),
        ensures
            final(self).buffs_view() == old(self).buffs_view(),
            ({
                let from_character: Seq<Action> = match character {
                    Some(c) => spec_actions_from(*c),
                    None => Seq::empty(),
                };
                let from_minimap: Seq<Action> = match (minimap, preset) {
                    (Some(m), Some(p)) => match m.spec_preset(p@) {
                        Some(found) => found,
                        None => Seq::empty(),
                    },
                    _ => Seq::empty(),
                };
                final(self).actions_view() == from_character + from_minimap
            }),
    ;

    /// Rebuilds the in-use buff list from the character's enabled keys.
    fn update_buffs(&mut self, character: Option<&Character>)
        ensures
            final(self).actions_view() == old(self).actions_view(),
            final(self).buffs_view() == (match character {
                Some(c) => spec_buffs_from(*c),
                None => Seq::<(BuffKind, KeyBinding)>::empty(),
            }),
    ;

    /// Pushes the in-use lists, the map's rotation mode and the relevant
    /// settings into `rotator` as one rebuild.
    fn apply<R: Rotator>(
        &self,
        rotator: &mut R,
        minimap: Option<&Minimap>,
        character: Option<&Character>,
        settings: &Settings,
    );
}

/// The default [`RotatorService`].
#[derive(Debug, Default)]
pub struct DefaultRotatorService {
    pub actions: Vec<Action>,
    pub buffs: Vec<(BuffKind, KeyBinding)>,
}

impl DefaultRotatorService {
    /// Assembles the rebuild arguments from the in-use lists, the map and
    /// the settings.
    pub fn build_args(
        &self,
        minimap: Option<&Minimap>,
        character: Option<&Character>,
        settings: &Settings,
    ) -> (r: RotatorBuildArgs)
        ensures
            r.mode == spec_rotator_mode_from(
                match minimap {
                    Some(m) => Some(*m),
                    None => None,
                },
            ),
            r.actions@ == self.actions@,
            r.buffs@ == self.buffs@,
            r.familiar_essence_key == (match character {
                Some(c) => c.familiar_essence_key.key,
                None => KeyBinding::A,
            }),
            r.familiar_swappable_slots == settings.familiars.swappable_familiars,
            r.familiar_swappable_rarities@ == settings.familiars.swappable_rarities@,
            r.familiar_swap_check_millis == settings.familiars.swap_check_millis,
            r.elite_boss_behavior == (match character {
                Some(c) => c.elite_boss_behavior,
                None => EliteBossBehavior::UseKey,
            }),
            r.elite_boss_behavior_key == (match character {
                Some(c) => c.elite_boss_behavior_key,
                None => KeyBinding::A,
            }),
            r.enable_panic_mode == settings.enable_panic_mode,
            r.enable_rune_solving == settings.enable_rune_solving,
            r.enable_familiars_swapping == settings.familiars.enable_familiars_swapping,
            r.enable_reset_normal_actions_on_erda == (match minimap {
                Some(m) => m.actions_any_reset_on_erda_condition,
                None => false,
            }),
    {
        let mode = rotator_mode_from(minimap);
        let reset_normal_actions_on_erda = match minimap {
            Some(m) => m.actions_any_reset_on_erda_condition,
            None => false,
        };
        let familiar_essence_key = match character {
            Some(c) => c.familiar_essence_key.key,
            None => KeyBinding::A,
        };
        let elite_boss_behavior = match character {
            Some(c) => c.elite_boss_behavior,
            None => EliteBossBehavior::UseKey,
        };
        let elite_boss_behavior_key = match character {
            Some(c) => c.elite_boss_behavior_key,
            None => KeyBinding::A,
        };
        RotatorBuildArgs {
            mode,
            actions: copy_vec(&self.actions),
            buffs: copy_vec(&self.buffs),
            familiar_essence_key,
            familiar_swappable_slots: settings.familiars.swappable_familiars,
            familiar_swappable_rarities: copy_vec(&settings.familiars.swappable_rarities),
            familiar_swap_check_millis: settings.familiars.swap_check_millis,
            elite_boss_behavior,
            elite_boss_behavior_key,
            enable_panic_mode: settings.enable_panic_mode,
            enable_rune_solving: settings.enable_rune_solving,
            enable_familiars_swapping: settings.familiars.enable_familiars_swapping,
            enable_reset_normal_actions_on_erda: reset_normal_actions_on_erda,
        }
    }
}

impl RotatorService for DefaultRotatorService {
    open spec fn actions_view(&self) -> Seq<Action> {
        self.actions@
    }

    open spec fn buffs_view(&self) -> Seq<(BuffKind, KeyBinding)> {
        self.buffs@
    }

    fn update_actions(
        &mut self,
        minimap: Option<&Minimap>,
        preset: Option<String>,
        character: Option<&Character>,
    ) {
        let character_actions = match character {
            Some(c) => actions_from(c),
            None => Vec::new(),
        };
        let minimap_actions = match (minimap, preset) {
            (Some(m), Some(p)) => match m.preset_actions(&p) {
                Some(found) => copy_vec(found),
                None => Vec::new(),
            },
            _ => Vec::new(),
        };
        let mut combined = character_actions;
        let ghost character_part = combined@;
        let mut i: usize = 0;
        while i < minimap_actions.len()
            invariant
                0 <= i <= minimap_actions@.len(),
                combined@ == character_part + minimap_actions@.take(i as int),
            decreases minimap_actions@.len() - i,
        {
            combined.push(minimap_actions[i]);
            proof {
                assert(combined@ =~= character_part + minimap_actions@.take(i as int + 1));
            }
            i = i + 1;
        }
        proof {
            assert(combined@ =~= character_part + minimap_actions@);
        }
        self.actions = combined;
    }

    fn update_buffs(&mut self, character: Option<&Character>) {
        self.buffs = match character {
            Some(c) => buffs_from(c),
            None => Vec::new(),
        };
    }

    fn apply<R: Rotator>(
        &self,
        rotator: &mut R,
        minimap: Option<&Minimap>,
        character: Option<&Character>,
        settings: &Settings,
    ) {
        let args = self.build_args(minimap, character, settings);
        rotator.build_actions(args);
    }
}

} // verus!
