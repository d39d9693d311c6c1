use azerrust::conditions::comparison::ComparisonType;
use azerrust::conditions::global::{
    GlobalConditionActiveEvent, GlobalConditionKind, GlobalConditionWorldState,
};
use azerrust::conditions::kind::ConditionKind;
use azerrust::conditions::multi_target::{
    MultiTargetConditionDistanceTo, MultiTargetConditionReactionTo, MultiTargetConditionRelationTo,
};
use azerrust::conditions::player::{
    PlayerConditionDrunkenState, PlayerConditionItem, PlayerConditionKind,
    PlayerConditionPlayerQueuedRandomDungeon, PlayerConditionQuestObjectiveProgress,
    PlayerConditionTeam,
};
use azerrust::conditions::unit::{
    StandStateKind, UnitConditionAura, UnitConditionHpPct, UnitConditionHpVal, UnitConditionKind,
    UnitConditionLevel, UnitConditionStandState,
};
use azerrust::conditions::world_object::{
    WorldObjectConditionAiData, WorldObjectConditionDifficultyId, WorldObjectConditionInstanceInfo,
    WorldObjectConditionNearCreature, WorldObjectConditionNearGameObject,
    WorldObjectConditionObjectEntryGuid, WorldObjectConditionTypeMask,
};
use azerrust::map::Difficulty;
use azerrust::{DrunkenState, InstanceInfo, Relation, Team, TypeId};

fn kind(t: u8, v: (u32, u32, u32)) -> Result<ConditionKind, ()> {
    ConditionKind::try_from(t, v)
}

#[test]
fn unit_types_parse_to_unit_conditions() {
    let unit_types = [1u8, 15, 16, 21, 27, 36, 37, 38, 40, 42, 44, 102, 106];
    for t in 1u8..=255 {
        if let Ok(k) = kind(t, (1, 1, 1)) {
            assert_eq!(matches!(k, ConditionKind::Unit(_)), unit_types.contains(&t), "type {t}");
        }
    }
    for t in unit_types {
        assert!(matches!(kind(t, (1, 1, 1)), Ok(ConditionKind::Unit(_))), "type {t}");
    }
}

#[test]
fn categories_of_types() {
    for t in [4u8, 19, 22, 23, 26, 32, 24, 29, 30, 13, 104] {
        assert!(matches!(kind(t, (1, 1, 1)), Ok(ConditionKind::WorldObject(_))), "type {t}");
    }
    assert!(matches!(kind(49, (0, 0, 0)), Ok(ConditionKind::WorldObject(_))));
    assert!(matches!(kind(31, (3, 0, 0)), Ok(ConditionKind::WorldObject(_))));
    for t in [2u8, 3, 5, 7, 8, 9, 10, 14, 17, 18, 20, 25, 28, 43, 45, 46, 47, 48, 101, 105] {
        assert!(matches!(kind(t, (1, 1, 1)), Ok(ConditionKind::Player(_))), "type {t}");
    }
    assert!(matches!(kind(6, (469, 0, 0)), Ok(ConditionKind::Player(_))));
    for t in [11u8, 12, 39, 103] {
        assert!(matches!(kind(t, (1, 1, 1)), Ok(ConditionKind::Global(_))), "type {t}");
    }
    for t in [33u8, 34, 35] {
        assert!(matches!(kind(t, (1, 1, 1)), Ok(ConditionKind::MultiTarget(_))), "type {t}");
    }
    assert_eq!(kind(0, (1, 1, 1)), Err(()));
    assert_eq!(kind(41, (1, 1, 1)), Err(()));
}

#[test]
fn unit_condition_values() {
    assert_eq!(
        kind(1, (133, 0x102, 5)),
        Ok(ConditionKind::Unit(UnitConditionKind::Aura(UnitConditionAura {
            spell_id: 133,
            eff_index: 2,
            use_target: true
        })))
    );
    assert_eq!(
        UnitConditionAura::try_from((1, 1, 0)),
        Ok(UnitConditionAura { spell_id: 1, eff_index: 1, use_target: false })
    );
    assert_eq!(
        kind(27, (80, 3, 0)),
        Ok(ConditionKind::Unit(UnitConditionKind::Level(UnitConditionLevel {
            level: 80,
            comparison: ComparisonType::HighEq
        })))
    );
    assert_eq!(UnitConditionHpVal::try_from((1, 9, 0)), Err(()));
    assert_eq!(
        UnitConditionHpPct::try_from((35, 2, 0)),
        Ok(UnitConditionHpPct { hp_pct: 35, comparison: ComparisonType::Low })
    );
    assert_eq!(UnitConditionHpPct::try_from((35, 7, 0)), Err(()));
}

#[test]
fn stand_state_values() {
    assert_eq!(
        UnitConditionStandState::try_from((0, 0x108, 0)),
        Ok(UnitConditionStandState { kind: StandStateKind::Exact(8) })
    );
    assert_eq!(
        UnitConditionStandState::try_from((1, 0, 0)),
        Ok(UnitConditionStandState { kind: StandStateKind::Standing })
    );
    assert_eq!(
        UnitConditionStandState::try_from((1, 1, 0)),
        Ok(UnitConditionStandState { kind: StandStateKind::Sitting })
    );
    assert_eq!(UnitConditionStandState::try_from((1, 2, 0)), Err(()));
    assert_eq!(UnitConditionStandState::try_from((2, 0, 0)), Err(()));
    assert_eq!(kind(42, (3, 0, 0)), Err(()));
}

#[test]
fn world_object_condition_values() {
    assert_eq!(
        WorldObjectConditionTypeMask::try_from((0x1_0008, 0, 0)),
        Ok(WorldObjectConditionTypeMask { type_mask: 8 })
    );
    assert_eq!(
        WorldObjectConditionDifficultyId::try_from((3, 0, 0)),
        Ok(WorldObjectConditionDifficultyId { difficulty: Difficulty::Heroic25 })
    );
    // the difficulty is taken from the low byte of value 1
    assert_eq!(
        WorldObjectConditionDifficultyId::try_from((0x102, 0, 0)),
        Ok(WorldObjectConditionDifficultyId { difficulty: Difficulty::Heroic10 })
    );
    assert_eq!(WorldObjectConditionDifficultyId::try_from((4, 0, 0)), Err(()));
    let bits = 10.5f32.to_bits();
    assert_eq!(
        WorldObjectConditionNearCreature::try_from((1234, bits, 0)),
        Ok(WorldObjectConditionNearCreature { entry: 1234, distance_bits: bits, alive: true })
    );
    assert_eq!(
        WorldObjectConditionNearCreature::try_from((1234, bits, 1)),
        Ok(WorldObjectConditionNearCreature { entry: 1234, distance_bits: bits, alive: false })
    );
    assert_eq!(
        WorldObjectConditionNearGameObject::try_from((55, bits, 2)),
        Ok(WorldObjectConditionNearGameObject { entry: 55, distance_bits: bits, go_state: 2 })
    );
    assert_eq!(
        WorldObjectConditionObjectEntryGuid::try_from((5, 100, 7)),
        Ok(WorldObjectConditionObjectEntryGuid { type_id: TypeId::GameObject, entry: 100, value3: 7 })
    );
    assert_eq!(WorldObjectConditionObjectEntryGuid::try_from((8, 100, 7)), Err(()));
    assert_eq!(
        WorldObjectConditionInstanceInfo::try_from((4, 5, 2)),
        Ok(WorldObjectConditionInstanceInfo { data_id: 4, data: 5, info_type: InstanceInfo::BossState })
    );
    assert_eq!(WorldObjectConditionInstanceInfo::try_from((4, 5, 4)), Err(()));
    assert_eq!(
        WorldObjectConditionAiData::try_from((1, 2, 3)),
        Ok(WorldObjectConditionAiData { data_id: 1, expected_value: 2 })
    );
}

#[test]
fn player_condition_values() {
    assert_eq!(
        PlayerConditionItem::try_from((6948, 2, 1)),
        Ok(PlayerConditionItem { item_id: 6948, count: 2, check_bank: true })
    );
    assert_eq!(PlayerConditionTeam::try_from((67, 0, 0)), Ok(PlayerConditionTeam { team: Team::Horde }));
    assert_eq!(
        PlayerConditionTeam::try_from((469, 0, 0)),
        Ok(PlayerConditionTeam { team: Team::Alliance })
    );
    assert_eq!(PlayerConditionTeam::try_from((0, 0, 0)), Ok(PlayerConditionTeam { team: Team::Other }));
    assert_eq!(PlayerConditionTeam::try_from((1, 0, 0)), Err(()));
    assert_eq!(
        PlayerConditionDrunkenState::try_from((2, 0, 0)),
        Ok(PlayerConditionDrunkenState { min_state: DrunkenState::Drunk })
    );
    assert_eq!(PlayerConditionDrunkenState::try_from((4, 0, 0)), Err(()));
    assert_eq!(
        PlayerConditionQuestObjectiveProgress::try_from((10, 1, 8)),
        Ok(PlayerConditionQuestObjectiveProgress { quest_id: 10, objective_index: 1, objective_count: 8 })
    );
    assert_eq!(
        kind(105, (1, 2, 3)),
        Ok(ConditionKind::Player(PlayerConditionKind::PlayerQueuedRandomDungeon(
            PlayerConditionPlayerQueuedRandomDungeon { check_difficulty: 1, difficulty: 2 }
        )))
    );
}

#[test]
fn global_and_multi_target_values() {
    assert_eq!(
        GlobalConditionWorldState::try_from((3000, 1, 9)),
        Ok(GlobalConditionWorldState { index: 3000, value: 1 })
    );
    assert_eq!(
        kind(12, (70000, 0, 0)),
        Ok(ConditionKind::Global(GlobalConditionKind::ActiveEvent(GlobalConditionActiveEvent {
            event_id: 70000
        })))
    );
    assert_eq!(
        MultiTargetConditionRelationTo::try_from((0x101, 3, 0)),
        Ok(MultiTargetConditionRelationTo { target: 1, relation_type: Relation::OwnedBy })
    );
    assert_eq!(MultiTargetConditionRelationTo::try_from((1, 6, 0)), Err(()));
    assert_eq!(
        MultiTargetConditionReactionTo::try_from((1, 0x30, 0)),
        Ok(MultiTargetConditionReactionTo { target: 1, rank_mask: 0x30 })
    );
    let bits = 5.0f32.to_bits();
    assert_eq!(
        MultiTargetConditionDistanceTo::try_from((1, 4, bits)),
        Ok(MultiTargetConditionDistanceTo { target: 1, distance_bits: bits, comparison: ComparisonType::LowEq })
    );
    assert_eq!(MultiTargetConditionDistanceTo::try_from((1, 5, bits)), Err(()));
    let k = kind(35, (2, 0, bits)).unwrap();
    match k {
        ConditionKind::MultiTarget(m) => assert_eq!(m.target(), 2),
        _ => panic!("not a multi-target condition"),
    }
    match kind(34, (3, 1, 0)).unwrap() {
        ConditionKind::MultiTarget(m) => assert_eq!(m.target(), 3),
        _ => panic!("not a multi-target condition"),
    }
    match kind(33, (4, 1, 0)).unwrap() {
        ConditionKind::MultiTarget(m) => assert_eq!(m.target(), 4),
        _ => panic!("not a multi-target condition"),
    }
}

#[test]
fn unit_rows_refused_only_for_bad_values() {
    for t in [1u8, 15, 16, 21, 27, 36, 37, 38, 40, 42, 44, 102, 106] {
        for v0 in 0u32..4 {
            for v1 in 0u32..7 {
                let refused = kind(t, (v0, v1, 0)).is_err();
                let expected = ([27u8, 37, 38].contains(&t) && v1 > 4)
                    || (t == 42 && !(v0 == 0 || (v0 == 1 && v1 <= 1)));
                assert_eq!(refused, expected, "type {t} values {v0} {v1}");
            }
        }
    }
}
