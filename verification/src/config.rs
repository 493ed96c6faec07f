//! The configuration snapshot the machines read.
//!
//! Configuration is supplied by the host as an immutable snapshot: key
//! bindings per capability, per-buff enable flags, the character's action
//! list, and the map-specific rotation setup.  The engine only ever reads
//! these values; refreshing them is the host's job.

use vstd::prelude::*;

use crate::bridge::KeyKind;

verus! {

/// A key as the user configured it; converted to a [`KeyKind`] when sent.
#[derive(Clone, Copy, Debug, PartialEq, Eq, Structural)]
pub enum KeyBinding {
    A,
    B,
    C,
    D,
    E,
    F,
    S,
    V,
    X,
    Z,
    Space,
    Alt,
    Ctrl,
    Shift,
    Esc,
    Enter,
    Up,
    Down,
    Left,
    Right,
    F1,
    F2,
    F3,
    F4,
}

impl KeyBinding {
    /// The physical key this binding resolves to.
    pub open spec fn spec_to_kind(self) -> KeyKind {
        match self {
            KeyBinding::A => KeyKind::A,
            KeyBinding::B => KeyKind::B,
            KeyBinding::C => KeyKind::C,
            KeyBinding::D => KeyKind::D,
            KeyBinding::E => KeyKind::E,
            KeyBinding::F => KeyKind::F,
            KeyBinding::S => KeyKind::S,
            KeyBinding::V => KeyKind::V,
            KeyBinding::X => KeyKind::X,
            KeyBinding::Z => KeyKind::Z,
            KeyBinding::Space => KeyKind::Space,
            KeyBinding::Alt => KeyKind::Alt,
            KeyBinding::Ctrl => KeyKind::Ctrl,
            KeyBinding::Shift => KeyKind::Shift,
            KeyBinding::Esc => KeyKind::Esc,
            KeyBinding::Enter => KeyKind::Enter,
            KeyBinding::Up => KeyKind::Up,
            KeyBinding::Down => KeyKind::Down,
            KeyBinding::Left => KeyKind::Left,
            KeyBinding::Right => KeyKind::Right,
            KeyBinding::F1 => KeyKind::F1,
            KeyBinding::F2 => KeyKind::F2,
            KeyBinding::F3 => KeyKind::F3,
            KeyBinding::F4 => KeyKind::F4,
        }
    }

    #[verifier::when_used_as_spec(spec_to_kind)]
    pub fn to_kind(self) -> (r: KeyKind)
        ensures
            r == self.spec_to_kind(),
    {
        match self {
            KeyBinding::A => KeyKind::A,
            KeyBinding::B => KeyKind::B,
            KeyBinding::C => KeyKind::C,
            KeyBinding::D => KeyKind::D,
            KeyBinding::E => KeyKind::E,
            KeyBinding::F => KeyKind::F,
            KeyBinding::S => KeyKind::S,
            KeyBinding::V => KeyKind::V,
            KeyBinding::X => KeyKind::X,
            KeyBinding::Z => KeyKind::Z,
            KeyBinding::Space => KeyKind::Space,
            KeyBinding::Alt => KeyKind::Alt,
            KeyBinding::Ctrl => KeyKind::Ctrl,
            KeyBinding::Shift => KeyKind::Shift,
            KeyBinding::Esc => KeyKind::Esc,
            KeyBinding::Enter => KeyKind::Enter,
            KeyBinding::Up => KeyKind::Up,
            KeyBinding::Down => KeyKind::Down,
            KeyBinding::Left => KeyKind::Left,
            KeyBinding::Right => KeyKind::Right,
            KeyBinding::F1 => KeyKind::F1,
            KeyBinding::F2 => KeyKind::F2,
            KeyBinding::F3 => KeyKind::F3,
            KeyBinding::F4 => KeyKind::F4,
        }
    }
}

impl Default for KeyBinding {
    fn default() -> (r: KeyBinding)
        ensures
            r == KeyBinding::A,
    {
        KeyBinding::A
    }
}

/// A key binding together with its user-facing enable flag.
#[derive(Clone, Copy, Debug, PartialEq, Eq, Structural)]
pub struct KeyBindingConfiguration {
    pub key: KeyBinding,
    pub enabled: bool,
}

impl Default for KeyBindingConfiguration {
    fn default() -> (r: KeyBindingConfiguration)
        ensures
            r == (KeyBindingConfiguration { key: KeyBinding::A, enabled: false }),
    {
        KeyBindingConfiguration { key: KeyBinding::A, enabled: false }
    }
}

/// A secondary key fired around the primary key of an action, with
/// class-specific timing.
#[derive(Clone, Copy, Debug, PartialEq, Eq, Structural)]
pub enum LinkKeyBinding {
    /// Pressed before the primary key.
    Before(KeyBinding),
    /// Pressed in the same tick as the primary key.
    AtTheSame(KeyBinding),
    /// Pressed after the primary key.
    After(KeyBinding),
    /// Held down across the primary key press and released afterwards.
    Along(KeyBinding),
}

/// The facing an action requires before its key may be used.
#[derive(Clone, Copy, Debug, PartialEq, Eq, Structural)]
pub enum ActionKeyDirection {
    Any,
    Left,
    Right,
}

impl Default for ActionKeyDirection {
    fn default() -> (r: ActionKeyDirection)
        ensures
            r == ActionKeyDirection::Any,
    {
        ActionKeyDirection::Any
    }
}

/// The movement condition an action requires before its key may be used.
#[derive(Clone, Copy, Debug, PartialEq, Eq, Structural)]
pub enum ActionKeyWith {
    Any,
    Stationary,
    DoubleJump,
}

impl Default for ActionKeyWith {
    fn default() -> (r: ActionKeyWith)
        ensures
            r == ActionKeyWith::Any,
    {
        ActionKeyWith::Any
    }
}

/// The character class, which decides key sequencing details.
#[derive(Clone, Copy, Debug, PartialEq, Eq, Structural)]
pub enum Class {
    Cadena,
    Blaster,
    Ark,
    Generic,
}

impl Default for Class {
    fn default() -> (r: Class)
        ensures
            r == Class::Generic,
    {
        Class::Generic
    }
}

/// A position on the minimap an action is anchored to.
#[derive(Clone, Copy, Debug, PartialEq, Eq, Structural)]
pub struct Position {
    pub x: i32,
    pub y: i32,
}

impl Default for Position {
    fn default() -> (r: Position)
        ensures
            r == (Position { x: 0, y: 0 }),
    {
        Position { x: 0, y: 0 }
    }
}

/// A rectangular bound on the minimap.
#[derive(Clone, Copy, Debug, PartialEq, Eq, Structural)]
pub struct Bound {
    pub x: i32,
    pub y: i32,
    pub width: i32,
    pub height: i32,
}

impl Default for Bound {
    fn default() -> (r: Bound)
        ensures
            r == (Bound { x: 0, y: 0, width: 0, height: 0 }),
    {
        Bound { x: 0, y: 0, width: 0, height: 0 }
    }
}

/// When a rotator action fires.
#[derive(Clone, Copy, Debug, PartialEq, Eq, Structural)]
pub enum ActionCondition {
    /// Whenever the rotator reaches it.
    Any,
    /// On a fixed wall-clock cadence.
    EveryMillis(u64),
    /// Chained to the previous action.
    Linked,
}

impl Default for ActionCondition {
    fn default() -> (r: ActionCondition)
        ensures
            r == ActionCondition::Any,
    {
        ActionCondition::Any
    }
}

/// A key-press action as the rotator queues it.
#[derive(Clone, Copy, Debug, PartialEq, Eq, Structural)]
pub struct ActionKey {
    pub key: KeyBinding,
    pub link_key: Option<LinkKeyBinding>,
    pub count: u32,
    pub condition: ActionCondition,
    pub direction: ActionKeyDirection,
    pub with: ActionKeyWith,
    pub wait_before_use_millis: u64,
    pub wait_after_use_millis: u64,
}

impl Default for ActionKey {
    fn default() -> (r: ActionKey)
        ensures
            r == (ActionKey {
                key: KeyBinding::A,
                link_key: None,
                count: 1,
                condition: ActionCondition::Any,
                direction: ActionKeyDirection::Any,
                with: ActionKeyWith::Any,
                wait_before_use_millis: 0,
                wait_after_use_millis: 0,
            }),
    {
        ActionKey {
            key: KeyBinding::A,
            link_key: None,
            count: 1,
            condition: ActionCondition::Any,
            direction: ActionKeyDirection::Any,
            with: ActionKeyWith::Any,
            wait_before_use_millis: 0,
            wait_after_use_millis: 0,
        }
    }
}

/// A move action as the rotator queues it.
#[derive(Clone, Copy, Debug, PartialEq, Eq, Structural)]
pub struct ActionMove {
    pub position: Position,
    pub condition: ActionCondition,
    pub wait_after_move_millis: u64,
}

/// One entry of the rotator's action list.
#[derive(Clone, Copy, Debug, PartialEq, Eq, Structural)]
pub enum Action {
    Key(ActionKey),
    Move(ActionMove),
}

/// When the configured fixed action list fires.
#[derive(Clone, Copy, Debug, PartialEq, Eq, Structural)]
pub enum ActionConfigurationCondition {
    /// Whenever the rotator reaches it.
    Any,
    /// On a fixed wall-clock cadence.
    EveryMillis(u64),
    /// Chained to the previous configured action.
    Linked,
}

impl Default for ActionConfigurationCondition {
    fn default() -> (r: ActionConfigurationCondition)
        ensures
            r == ActionConfigurationCondition::Any,
    {
        ActionConfigurationCondition::Any
    }
}

/// One entry of the character's configured fixed action list.
#[derive(Clone, Copy, Debug, PartialEq, Eq, Structural)]
pub struct ActionConfiguration {
    pub key: KeyBinding,
    pub count: u32,
    pub condition: ActionConfigurationCondition,
    pub enabled: bool,
    pub wait_before_use_millis: u64,
    pub wait_after_use_millis: u64,
}

impl Default for ActionConfiguration {
    fn default() -> (r: ActionConfiguration)
        ensures
            r == (ActionConfiguration {
                key: KeyBinding::A,
                count: 1,
                condition: ActionConfigurationCondition::Any,
                enabled: false,
                wait_before_use_millis: 0,
                wait_after_use_millis: 0,
            }),
    {
        ActionConfiguration {
            key: KeyBinding::A,
            count: 1,
            condition: ActionConfigurationCondition::Any,
            enabled: false,
            wait_before_use_millis: 0,
            wait_after_use_millis: 0,
        }
    }
}

impl ActionConfiguration {
    /// The rotator action a configured entry turns into.
    pub open spec fn spec_to_action(self) -> Action {
        Action::Key(
            ActionKey {
                key: self.key,
                link_key: None,
                count: self.count,
                condition: match self.condition {
                    ActionConfigurationCondition::Any => ActionCondition::Any,
                    ActionConfigurationCondition::EveryMillis(millis) => ActionCondition::EveryMillis(
                        millis,
                    ),
                    ActionConfigurationCondition::Linked => ActionCondition::Linked,
                },
                direction: ActionKeyDirection::Any,
                with: ActionKeyWith::Any,
                wait_before_use_millis: self.wait_before_use_millis,
                wait_after_use_millis: self.wait_after_use_millis,
            },
        )
    }

    pub fn to_action(self) -> (r: Action)
        ensures
            r == self.spec_to_action(),
    {
        Action::Key(
            ActionKey {
                key: self.key,
                link_key: None,
                count: self.count,
                condition: match self.condition {
                    ActionConfigurationCondition::Any => ActionCondition::Any,
                    ActionConfigurationCondition::EveryMillis(millis) => ActionCondition::EveryMillis(
                        millis,
                    ),
                    ActionConfigurationCondition::Linked => ActionCondition::Linked,
                },
                direction: ActionKeyDirection::Any,
                with: ActionKeyWith::Any,
                wait_before_use_millis: self.wait_before_use_millis,
                wait_after_use_millis: self.wait_after_use_millis,
            },
        )
    }
}

/// How the character uses the configured potion.
#[derive(Clone, Copy, Debug, PartialEq, Eq, Structural)]
pub enum PotionMode {
    /// On a fixed wall-clock cadence.
    EveryMillis(u64),
    /// When health falls below the configured fraction; handled elsewhere.
    BelowHealth,
}

impl Default for PotionMode {
    fn default() -> (r: PotionMode)
        ensures
            r == PotionMode::BelowHealth,
    {
        PotionMode::BelowHealth
    }
}

/// What to do when an elite boss appears.
#[derive(Clone, Copy, Debug, PartialEq, Eq, Structural)]
pub enum EliteBossBehavior {
    UseKey,
    CycleChannel,
}

impl Default for EliteBossBehavior {
    fn default() -> (r: EliteBossBehavior)
        ensures
            r == EliteBossBehavior::UseKey,
    {
        EliteBossBehavior::UseKey
    }
}

/// Rarities of familiars the swapper may replace.
#[derive(Clone, Copy, Debug, PartialEq, Eq, Structural)]
pub enum FamiliarRarity {
    Rare,
    Epic,
}

/// Which familiar slots the swapper may replace.
#[derive(Clone, Copy, Debug, PartialEq, Eq, Structural)]
pub enum SwappableFamiliars {
    All,
    SecondAndLast,
    Last,
}

impl Default for SwappableFamiliars {
    fn default() -> (r: SwappableFamiliars)
        ensures
            r == SwappableFamiliars::All,
    {
        SwappableFamiliars::All
    }
}

/// The familiar-swapping part of the settings snapshot.
#[derive(Clone, Debug)]
pub struct FamiliarsSettings {
    pub swappable_familiars: SwappableFamiliars,
    pub swappable_rarities: Vec<FamiliarRarity>,
    pub swap_check_millis: u64,
    pub enable_familiars_swapping: bool,
}

impl Default for FamiliarsSettings {
    fn default() -> (r: FamiliarsSettings)
        ensures
            r.swappable_familiars == SwappableFamiliars::All,
            r.swappable_rarities@ == Seq::<FamiliarRarity>::empty(),
            r.swap_check_millis == 0,
            !r.enable_familiars_swapping,
    {
        FamiliarsSettings {
            swappable_familiars: SwappableFamiliars::All,
            swappable_rarities: Vec::new(),
            swap_check_millis: 0,
            enable_familiars_swapping: false,
        }
    }
}

/// How the run/stop cycle is configured.
#[derive(Clone, Copy, Debug, PartialEq, Eq, Structural)]
pub enum CycleRunStopMode {
    /// No cycling: run until told to halt.
    Disabled,
    /// Run once for the configured duration, then halt for good.
    Once,
    /// Alternate between running and halting on the configured durations.
    Repeat,
}

impl Default for CycleRunStopMode {
    fn default() -> (r: CycleRunStopMode)
        ensures
            r == CycleRunStopMode::Disabled,
    {
        CycleRunStopMode::Disabled
    }
}

/// The global settings snapshot.
#[derive(Clone, Debug)]
pub struct Settings {
    pub enable_rune_solving: bool,
    pub enable_panic_mode: bool,
    pub familiars: FamiliarsSettings,
    pub cycle_run_stop: CycleRunStopMode,
    pub cycle_run_duration_millis: u64,
    pub cycle_stop_duration_millis: u64,
}

impl Default for Settings {
    fn default() -> (r: Settings)
        ensures
            !r.enable_rune_solving,
            !r.enable_panic_mode,
            r.familiars.swappable_familiars == SwappableFamiliars::All,
            r.familiars.swappable_rarities@ == Seq::<FamiliarRarity>::empty(),
            r.familiars.swap_check_millis == 0,
            !r.familiars.enable_familiars_swapping,
            r.cycle_run_stop == CycleRunStopMode::Disabled,
            r.cycle_run_duration_millis == 0,
            r.cycle_stop_duration_millis == 0,
    {
        Settings {
            enable_rune_solving: false,
            enable_panic_mode: false,
            familiars: FamiliarsSettings::default(),
            cycle_run_stop: CycleRunStopMode::Disabled,
            cycle_run_duration_millis: 0,
            cycle_stop_duration_millis: 0,
        }
    }
}

/// The character snapshot: key bindings and the configured action list.
#[derive(Clone, Debug)]
pub struct Character {
    pub class: Class,
    pub actions: Vec<ActionConfiguration>,
    pub feed_pet_key: KeyBindingConfiguration,
    pub feed_pet_millis: u64,
    pub feed_pet_count: u32,
    pub potion_key: KeyBindingConfiguration,
    pub potion_mode: PotionMode,
    pub familiar_buff_key: KeyBindingConfiguration,
    pub familiar_essence_key: KeyBindingConfiguration,
    pub sayram_elixir_key: KeyBindingConfiguration,
    pub aurelia_elixir_key: KeyBindingConfiguration,
    pub exp_x3_key: KeyBindingConfiguration,
    pub bonus_exp_key: KeyBindingConfiguration,
    pub legion_wealth_key: KeyBindingConfiguration,
    pub legion_luck_key: KeyBindingConfiguration,
    pub wealth_acquisition_potion_key: KeyBindingConfiguration,
    pub exp_accumulation_potion_key: KeyBindingConfiguration,
    pub extreme_red_potion_key: KeyBindingConfiguration,
    pub extreme_blue_potion_key: KeyBindingConfiguration,
    pub extreme_green_potion_key: KeyBindingConfiguration,
    pub extreme_gold_potion_key: KeyBindingConfiguration,
    pub elite_boss_behavior: EliteBossBehavior,
    pub elite_boss_behavior_key: KeyBinding,
}

impl Default for Character {
    fn default() -> (r: Character)
        ensures
            r.class == Class::Generic,
            r.actions@ == Seq::<ActionConfiguration>::empty(),
            r.feed_pet_key == (KeyBindingConfiguration { key: KeyBinding::A, enabled: false }),
            r.feed_pet_millis == 0,
            r.feed_pet_count == 1,
            r.potion_key == (KeyBindingConfiguration { key: KeyBinding::A, enabled: false }),
            r.potion_mode == PotionMode::BelowHealth,
            r.familiar_buff_key == (KeyBindingConfiguration {
                key: KeyBinding::A,
                enabled: false,
            }),
            r.familiar_essence_key == (KeyBindingConfiguration {
                key: KeyBinding::A,
                enabled: false,
            }),
            r.sayram_elixir_key == (KeyBindingConfiguration {
                key: KeyBinding::A,
                enabled: false,
            }),
            r.aurelia_elixir_key == (KeyBindingConfiguration {
                key: KeyBinding::A,
                enabled: false,
            }),
            r.exp_x3_key == (KeyBindingConfiguration { key: KeyBinding::A, enabled: false }),
            r.bonus_exp_key == (KeyBindingConfiguration { key: KeyBinding::A, enabled: false }),
            r.legion_wealth_key == (KeyBindingConfiguration {
                key: KeyBinding::A,
                enabled: false,
            }),
            r.legion_luck_key == (KeyBindingConfiguration {
                key: KeyBinding::A,
                enabled: false,
            }),
            r.wealth_acquisition_potion_key == (KeyBindingConfiguration {
                key: KeyBinding::A,
                enabled: false,
            }),
            r.exp_accumulation_potion_key == (KeyBindingConfiguration {
                key: KeyBinding::A,
                enabled: false,
            }),
            r.extreme_red_potion_key == (KeyBindingConfiguration {
                key: KeyBinding::A,
                enabled: false,
            }),
            r.extreme_blue_potion_key == (KeyBindingConfiguration {
                key: KeyBinding::A,
                enabled: false,
            }),
            r.extreme_green_potion_key == (KeyBindingConfiguration {
                key: KeyBinding::A,
                enabled: false,
            }),
            r.extreme_gold_potion_key == (KeyBindingConfiguration {
                key: KeyBinding::A,
                enabled: false,
            }),
            r.elite_boss_behavior == EliteBossBehavior::UseKey,
            r.elite_boss_behavior_key == KeyBinding::A,
    {
        Character {
            class: Class::Generic,
            actions: Vec::new(),
            feed_pet_key: KeyBindingConfiguration::default(),
            feed_pet_millis: 0,
            feed_pet_count: 1,
            potion_key: KeyBindingConfiguration::default(),
            potion_mode: PotionMode::BelowHealth,
            familiar_buff_key: KeyBindingConfiguration::default(),
            familiar_essence_key: KeyBindingConfiguration::default(),
            sayram_elixir_key: KeyBindingConfiguration::default(),
            aurelia_elixir_key: KeyBindingConfiguration::default(),
            exp_x3_key: KeyBindingConfiguration::default(),
            bonus_exp_key: KeyBindingConfiguration::default(),
            legion_wealth_key: KeyBindingConfiguration::default(),
            legion_luck_key: KeyBindingConfiguration::default(),
            wealth_acquisition_potion_key: KeyBindingConfiguration::default(),
            exp_accumulation_potion_key: KeyBindingConfiguration::default(),
            extreme_red_potion_key: KeyBindingConfiguration::default(),
            extreme_blue_potion_key: KeyBindingConfiguration::default(),
            extreme_green_potion_key: KeyBindingConfiguration::default(),
            extreme_gold_potion_key: KeyBindingConfiguration::default(),
            elite_boss_behavior: EliteBossBehavior::UseKey,
            elite_boss_behavior_key: KeyBinding::A,
        }
    }
}

/// How the rotator walks its action list on the current map.
#[derive(Clone, Copy, Debug, PartialEq, Eq, Structural)]
pub enum RotationMode {
    StartToEnd,
    StartToEndThenReverse,
    AutoMobbing,
    PingPong,
}

impl Default for RotationMode {
    fn default() -> (r: RotationMode)
        ensures
            r == RotationMode::StartToEnd,
    {
        RotationMode::StartToEnd
    }
}

/// The stored per-map setup: rotation mode and named action presets.
#[derive(Clone, Debug)]
pub struct Minimap {
    pub rotation_mode: RotationMode,
    pub rotation_mobbing_key: KeyBinding,
    pub rotation_auto_mob_bound: Bound,
    pub rotation_ping_pong_bound: Bound,
    /// Named action presets; the names are unique.
    pub actions: Vec<(String, Vec<Action>)>,
    pub actions_any_reset_on_erda_condition: bool,
}

impl Minimap {
    /// Preset names occur at most once.
    pub open spec fn wf(self) -> bool {
        forall|i: int, j: int|
            0 <= i < j < self.actions@.len() ==> self.actions@[i].0@ != self.actions@[j].0@
    }

    /// The actions stored under `preset`, if that name exists.
    pub open spec fn spec_preset(self, preset: Seq<char>) -> Option<Seq<Action>> {
        if exists|i: int| 0 <= i < self.actions@.len() && self.actions@[i].0@ == preset {
            let i = choose|i: int| 0 <= i < self.actions@.len() && self.actions@[i].0@ == preset;
            Some(self.actions@[i].1@)
        } else {
            None
        }
    }

    /// Looks up the action preset stored under `preset`.
    pub fn preset_actions<'a>(&'a self, preset: &String) -> (r: Option<&'a Vec<Action>>)
        requires
            self.wf(),
        ensures
            match r {
                Some(v) => self.spec_preset(preset@) == Some(v@),
                None => self.spec_preset(preset@) is None,
            },
    {
        let mut i: usize = 0;
        while i < self.actions.len()
            invariant
                self.wf(),
                0 <= i <= self.actions@.len(),
                forall|j: int| 0 <= j < i ==> self.actions@[j].0@ != preset@,
            decreases self.actions@.len() - i,
        {
            if self.actions[i].0 == *preset {
                proof {
                    let k = choose|k: int|
                        0 <= k < self.actions@.len() && self.actions@[k].0@ == preset@;
                    assert(self.actions@[i as int].0@ == preset@);
                    assert(k == i as int) by {
                        if k < i as int {
                            assert(self.actions@[k].0@ != self.actions@[i as int].0@);
                        }
                        if k > i as int {
                            assert(self.actions@[i as int].0@ != self.actions@[k].0@);
                        }
                    }
                }
                return Some(&self.actions[i].1);
            }
            i = i + 1;
        }
        None
    }
}

impl Default for Minimap {
    fn default() -> (r: Minimap)
        ensures
            r.rotation_mode == RotationMode::StartToEnd,
            r.rotation_mobbing_key == KeyBinding::A,
            r.rotation_auto_mob_bound == (Bound { x: 0, y: 0, width: 0, height: 0 }),
            r.rotation_ping_pong_bound == (Bound { x: 0, y: 0, width: 0, height: 0 }),
            r.actions@ == Seq::<(String, Vec<Action>)>::empty(),
            !r.actions_any_reset_on_erda_condition,
    {
        Minimap {
            rotation_mode: RotationMode::StartToEnd,
            rotation_mobbing_key: KeyBinding::A,
            rotation_auto_mob_bound: Bound::default(),
            rotation_ping_pong_bound: Bound::default(),
            actions: Vec::new(),
            actions_any_reset_on_erda_condition: false,
        }
    }
}

} // verus!
