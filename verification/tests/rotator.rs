use tick_engine::buff::BuffKind;
use tick_engine::config::{
    Action, ActionCondition, ActionConfiguration, ActionConfigurationCondition, ActionKey, Bound,
    Character, EliteBossBehavior, FamiliarRarity, KeyBinding, KeyBindingConfiguration, Minimap,
    RotationMode, Settings, SwappableFamiliars,
};
use tick_engine::rotator::{
    DefaultRotatorService, Rotator, RotatorBuildArgs, RotatorMode, RotatorService,
};

/// Records the last rebuild the service pushed in.
#[derive(Default)]
struct RecordingRotator {
    last_args: Option<RotatorBuildArgs>,
}

impl Rotator for RecordingRotator {
    fn build_actions(&mut self, args: RotatorBuildArgs) {
        self.last_args = Some(args);
    }
}

fn key_action(key: KeyBinding) -> Action {
    Action::Key(ActionKey { key, ..ActionKey::default() })
}

#[test]
fn update_rotator_mode() {
    let mut minimap = Minimap {
        rotation_auto_mob_bound: Bound { x: 1, y: 1, width: 1, height: 1 },
        rotation_ping_pong_bound: Bound { x: 2, y: 2, width: 2, height: 2 },
        ..Minimap::default()
    };
    let character = Character::default();
    let service = DefaultRotatorService::default();

    for mode in [
        RotationMode::StartToEnd,
        RotationMode::StartToEndThenReverse,
        RotationMode::AutoMobbing,
        RotationMode::PingPong,
    ] {
        minimap.rotation_mode = mode;
        let mut rotator = RecordingRotator::default();

        service.apply(&mut rotator, Some(&minimap), Some(&character), &Settings::default());

        let args = rotator.last_args.expect("apply must rebuild the rotator");
        match (mode, args.mode) {
            (RotationMode::StartToEnd, RotatorMode::StartToEnd) => {},
            (RotationMode::StartToEndThenReverse, RotatorMode::StartToEndThenReverse) => {},
            (RotationMode::AutoMobbing, RotatorMode::AutoMobbing(key, bound)) => {
                assert_eq!(key, minimap.rotation_mobbing_key);
                assert_eq!(bound, minimap.rotation_auto_mob_bound);
            },
            (RotationMode::PingPong, RotatorMode::PingPong(key, bound)) => {
                assert_eq!(key, minimap.rotation_mobbing_key);
                assert_eq!(bound, minimap.rotation_ping_pong_bound);
            },
            _ => panic!("rotation mode was not carried over"),
        }
    }
}

#[test]
fn update_with_buffs() {
    let buffs = vec![(BuffKind::SayramElixir, KeyBinding::F1)];

    let mut rotator = RecordingRotator::default();
    let mut service = DefaultRotatorService::default();
    service.buffs = buffs.clone();
    service.apply(&mut rotator, None, None, &Settings::default());

    assert_eq!(rotator.last_args.unwrap().buffs, buffs);
}

#[test]
fn update_with_familiar_essence_key() {
    let character = Character {
        familiar_essence_key: KeyBindingConfiguration { key: KeyBinding::Z, enabled: true },
        ..Character::default()
    };

    let mut rotator = RecordingRotator::default();
    let service = DefaultRotatorService::default();
    service.apply(&mut rotator, None, Some(&character), &Settings::default());

    assert_eq!(rotator.last_args.unwrap().familiar_essence_key, KeyBinding::Z);
}

#[test]
fn update_with_familiar_swap_config() {
    let mut settings = Settings::default();
    settings.familiars.swappable_familiars = SwappableFamiliars::SecondAndLast;
    settings.familiars.swappable_rarities = vec![FamiliarRarity::Epic, FamiliarRarity::Rare];
    settings.familiars.swap_check_millis = 5000;
    settings.familiars.enable_familiars_swapping = true;

    let mut rotator = RecordingRotator::default();
    let service = DefaultRotatorService::default();
    service.apply(&mut rotator, None, None, &settings);

    let args = rotator.last_args.unwrap();
    assert!(matches!(args.familiar_swappable_slots, SwappableFamiliars::SecondAndLast));
    assert_eq!(args.familiar_swappable_rarities, settings.familiars.swappable_rarities);
    assert_eq!(args.familiar_swap_check_millis, 5000);
    assert!(args.enable_familiars_swapping);
}

#[test]
fn update_with_elite_boss_behavior() {
    let character = Character {
        elite_boss_behavior: EliteBossBehavior::CycleChannel,
        elite_boss_behavior_key: KeyBinding::X,
        ..Character::default()
    };

    let mut rotator = RecordingRotator::default();
    let service = DefaultRotatorService::default();
    service.apply(&mut rotator, None, Some(&character), &Settings::default());

    let args = rotator.last_args.unwrap();
    assert!(matches!(args.elite_boss_behavior, EliteBossBehavior::CycleChannel));
    assert_eq!(args.elite_boss_behavior_key, KeyBinding::X);
}

#[test]
fn update_with_reset_normal_actions_on_erda() {
    let minimap = Minimap { actions_any_reset_on_erda_condition: true, ..Minimap::default() };

    let mut rotator = RecordingRotator::default();
    let service = DefaultRotatorService::default();
    service.apply(&mut rotator, Some(&minimap), None, &Settings::default());

    assert!(rotator.last_args.unwrap().enable_reset_normal_actions_on_erda);
}

#[test]
fn update_with_panic_mode_and_rune_solving() {
    let settings = Settings {
        enable_panic_mode: true,
        enable_rune_solving: true,
        ..Settings::default()
    };

    let mut rotator = RecordingRotator::default();
    let service = DefaultRotatorService::default();
    service.apply(&mut rotator, None, None, &settings);

    let args = rotator.last_args.unwrap();
    assert!(args.enable_panic_mode);
    assert!(args.enable_rune_solving);
}

#[test]
fn update_combine_actions_and_fixed_actions() {
    let actions = vec![key_action(KeyBinding::A), key_action(KeyBinding::B)];
    let character = Character {
        actions: vec![
            ActionConfiguration { key: KeyBinding::C, enabled: true, ..ActionConfiguration::default() },
            ActionConfiguration {
                key: KeyBinding::D,
                condition: ActionConfigurationCondition::Linked,
                ..ActionConfiguration::default()
            },
            ActionConfiguration {
                key: KeyBinding::E,
                condition: ActionConfigurationCondition::Linked,
                ..ActionConfiguration::default()
            },
            ActionConfiguration { key: KeyBinding::F, enabled: true, ..ActionConfiguration::default() },
        ],
        ..Character::default()
    };
    let mut minimap = Minimap::default();
    minimap.actions.push(("preset".to_string(), actions));
    let mut service = DefaultRotatorService::default();

    service.update_actions(Some(&minimap), Some("preset".to_string()), Some(&character));

    assert!(matches!(
        service.actions.as_slice(),
        [
            Action::Key(ActionKey { key: KeyBinding::C, .. }),
            Action::Key(ActionKey { key: KeyBinding::D, condition: ActionCondition::Linked, .. }),
            Action::Key(ActionKey { key: KeyBinding::E, condition: ActionCondition::Linked, .. }),
            Action::Key(ActionKey { key: KeyBinding::F, .. }),
            Action::Key(ActionKey { key: KeyBinding::A, .. }),
            Action::Key(ActionKey { key: KeyBinding::B, .. }),
        ]
    ));
}

#[test]
fn update_include_actions_while_fixed_actions_disabled() {
    let actions = vec![key_action(KeyBinding::A), key_action(KeyBinding::B)];
    let character = Character {
        actions: vec![
            ActionConfiguration { key: KeyBinding::C, ..ActionConfiguration::default() },
            ActionConfiguration {
                key: KeyBinding::D,
                condition: ActionConfigurationCondition::Linked,
                ..ActionConfiguration::default()
            },
            ActionConfiguration {
                key: KeyBinding::E,
                condition: ActionConfigurationCondition::Linked,
                ..ActionConfiguration::default()
            },
            ActionConfiguration { key: KeyBinding::F, ..ActionConfiguration::default() },
        ],
        ..Character::default()
    };
    let mut minimap = Minimap::default();
    minimap.actions.push(("preset".to_string(), actions));
    let mut service = DefaultRotatorService::default();

    service.update_actions(Some(&minimap), Some("preset".to_string()), Some(&character));

    assert!(matches!(
        service.actions.as_slice(),
        [
            Action::Key(ActionKey { key: KeyBinding::A, .. }),
            Action::Key(ActionKey { key: KeyBinding::B, .. }),
        ]
    ));
}

#[test]
fn update_character_actions_only() {
    let character = Character {
        actions: vec![
            ActionConfiguration { key: KeyBinding::C, enabled: true, ..ActionConfiguration::default() },
            ActionConfiguration {
                key: KeyBinding::D,
                condition: ActionConfigurationCondition::Linked,
                ..ActionConfiguration::default()
            },
            ActionConfiguration {
                key: KeyBinding::E,
                condition: ActionConfigurationCondition::Linked,
                ..ActionConfiguration::default()
            },
            ActionConfiguration { key: KeyBinding::F, enabled: true, ..ActionConfiguration::default() },
        ],
        ..Character::default()
    };
    let mut service = DefaultRotatorService::default();

    service.update_actions(None, None, Some(&character));

    assert!(matches!(
        service.actions.as_slice(),
        [
            Action::Key(ActionKey { key: KeyBinding::C, .. }),
            Action::Key(ActionKey { key: KeyBinding::D, condition: ActionCondition::Linked, .. }),
            Action::Key(ActionKey { key: KeyBinding::E, condition: ActionCondition::Linked, .. }),
            Action::Key(ActionKey { key: KeyBinding::F, .. }),
        ]
    ));
}

#[test]
fn update_buffs_collects_enabled_keys_in_kind_order() {
    let mut character = Character::default();
    character.sayram_elixir_key = KeyBindingConfiguration { key: KeyBinding::F1, enabled: true };
    character.legion_luck_key = KeyBindingConfiguration { key: KeyBinding::F2, enabled: true };
    // The rune buff never contributes a key: it is engine-internal.
    let mut service = DefaultRotatorService::default();

    service.update_buffs(Some(&character));

    assert_eq!(
        service.buffs,
        vec![
            (BuffKind::SayramElixir, KeyBinding::F1),
            (BuffKind::LegionLuck, KeyBinding::F2),
        ]
    );
}
