use azerrust::conditions::comparison::ComparisonType;
use azerrust::conditions::global::{GlobalAnswer, GlobalQuery};
use azerrust::conditions::kind::ConditionKind;
use azerrust::conditions::multi_target::{MultiTargetAnswer, MultiTargetQuery};
use azerrust::conditions::player::{PlayerAnswer, PlayerQuery};
use azerrust::conditions::unit::UnitQuery;
use azerrust::conditions::world_object::{
    InstanceScriptAnswer, WorldObjectAnswer, WorldObjectQuery, ENTRY_GUID_SKIP_FLAGS,
};
use azerrust::entities::object::WorldObjectRef;
use azerrust::entities::player::PlayerRef;
use azerrust::entities::unit::UnitRef;
use azerrust::map::MapRef;
use azerrust::InstanceInfo;

fn kind(t: u8, v: (u32, u32, u32)) -> ConditionKind {
    ConditionKind::try_from(t, v).unwrap()
}

fn unit() -> UnitRef {
    UnitRef {
        level: 10,
        class_mask: 1,
        race_mask: 1,
        alive: false,
        health: 5,
        stand_state: 3,
        is_stand_state: false,
        is_sit_state: true,
        in_water: true,
        charmed: false,
        in_combat: false,
    }
}

#[test]
fn unit_queries_and_dispatch() {
    let ConditionKind::Unit(aura) = kind(1, (133, 1, 0)) else { panic!() };
    assert_eq!(aura.query(), UnitQuery::AuraEffect { spell_id: 133, eff_index: 1 });
    assert!(aura.meets(&unit(), true));
    assert!(!aura.meets(&unit(), false));
    let ConditionKind::Unit(state) = kind(21, (8, 0, 0)) else { panic!() };
    assert_eq!(state.query(), UnitQuery::UnitState(8));
    let ConditionKind::Unit(aura_type) = kind(102, (3, 0, 0)) else { panic!() };
    assert_eq!(aura_type.query(), UnitQuery::AuraType(3));
    assert!(aura_type.meets(&unit(), true));
    let ConditionKind::Unit(pct) = kind(38, (50, 2, 0)) else { panic!() };
    assert_eq!(pct.query(), UnitQuery::HealthPct { comparison: ComparisonType::Low, hp_pct: 50 });
    assert!(pct.meets(&unit(), true));
    let ConditionKind::Unit(alive) = kind(36, (0, 0, 0)) else { panic!() };
    assert_eq!(alive.query(), UnitQuery::NoQuery);
    // the view decides; the answer is not consulted
    assert!(!alive.meets(&unit(), true));
    let ConditionKind::Unit(water) = kind(40, (0, 0, 0)) else { panic!() };
    assert!(water.meets(&unit(), false));
    let ConditionKind::Unit(level) = kind(27, (10, 0, 0)) else { panic!() };
    assert!(level.meets(&unit(), false));
}

#[test]
fn world_object_queries_and_dispatch() {
    let o = WorldObjectRef { zone_id: 1, map_id: 2, area_id: 3, phase_mask: 4, entry: 5, raw_type_id: 5 };
    let ConditionKind::WorldObject(zone) = kind(4, (1, 0, 0)) else { panic!() };
    assert_eq!(zone.query(), WorldObjectQuery::NoQuery);
    assert_eq!(zone.meets(&o, WorldObjectAnswer::NoAnswer), Ok(true));
    let ConditionKind::WorldObject(near) = kind(30, (9, 77, 1)) else { panic!() };
    assert_eq!(
        near.query(),
        WorldObjectQuery::NearestGameObject { entry: 9, distance_bits: 77, only_spawned: false }
    );
    assert_eq!(near.meets(&o, WorldObjectAnswer::GameObject(None)), Ok(false));
    let ConditionKind::WorldObject(creature) = kind(29, (9, 77, 0)) else { panic!() };
    assert_eq!(
        creature.query(),
        WorldObjectQuery::NearestCreature { entry: 9, distance_bits: 77, alive: true }
    );
    assert_eq!(creature.meets(&o, WorldObjectAnswer::Flag(true)), Ok(true));
    let ConditionKind::WorldObject(entry) = kind(31, (5, 5, 0)) else { panic!() };
    assert_eq!(entry.query(), WorldObjectQuery::EntryGuid { skip_flags: ENTRY_GUID_SKIP_FLAGS });
    assert_eq!(
        entry.meets(
            &o,
            WorldObjectAnswer::EntryGuid { unit_has_skip_flags: None, creature: None, game_object: None }
        ),
        Ok(true)
    );
    let ConditionKind::WorldObject(spawn) = kind(19, (0b10, 0, 0)) else { panic!() };
    assert_eq!(spawn.query(), WorldObjectQuery::ObjectMap);
    let map = MapRef { spawn_mode: 1, is_dungeon: true };
    assert_eq!(spawn.meets(&o, WorldObjectAnswer::ObjectMap(Some(map))), Ok(true));
    assert_eq!(spawn.meets(&o, WorldObjectAnswer::ObjectMap(None)), Err(()));
    let ConditionKind::WorldObject(instance) = kind(13, (1, 2, 2)) else { panic!() };
    assert_eq!(
        instance.query(),
        WorldObjectQuery::Instance { info_type: InstanceInfo::BossState, data_id: 1, data: 2 }
    );
    assert_eq!(
        instance.meets(
            &o,
            WorldObjectAnswer::Instance { map: Some(map), script: Some(InstanceScriptAnswer::BossState(2)) }
        ),
        Ok(true)
    );
    let ConditionKind::WorldObject(ai) = kind(104, (4, 6, 0)) else { panic!() };
    assert_eq!(ai.query(), WorldObjectQuery::AiData { data_id: 4 });
    assert_eq!(
        ai.meets(&o, WorldObjectAnswer::Ai { creature_ai: None, game_object_ai: Some(Some(6)) }),
        Ok(true)
    );
    let ConditionKind::WorldObject(type_mask) = kind(32, (0x10, 0, 0)) else { panic!() };
    assert_eq!(type_mask.query(), WorldObjectQuery::IsType(0x10));
}

#[test]
fn player_queries_and_dispatch() {
    let p = PlayerRef { raw_team_id: 1, gender: 1, drunk_value: 95, in_flight: false };
    let ConditionKind::Player(item) = kind(2, (6948, 2, 1)) else { panic!() };
    assert_eq!(item.query(), PlayerQuery::ItemCount { item_id: 6948, count: 2, check_bank: true });
    assert_eq!(item.meets(&p, PlayerAnswer::Flag(true)), Ok(true));
    let ConditionKind::Player(equipped) = kind(3, (10, 0, 0)) else { panic!() };
    assert_eq!(equipped.query(), PlayerQuery::ItemEquipped { item_id: 10, count: 1, check_gem: 1 });
    let ConditionKind::Player(objective) = kind(48, (10, 0x101, 4)) else { panic!() };
    assert_eq!(objective.query(), PlayerQuery::QuestObjective { quest_id: 10, objective: 1 });
    assert_eq!(objective.meets(&p, PlayerAnswer::Progress { slot: Some(2), counter: Some(4) }), Ok(true));
    let ConditionKind::Player(state) = kind(47, (10, 0b1000000, 0)) else { panic!() };
    assert_eq!(state.query(), PlayerQuery::QuestStatusAndReward { quest_id: 10 });
    assert_eq!(
        state.meets(&p, PlayerAnswer::StatusAndReward { raw_status: 2, reward_status: true }),
        Ok(true)
    );
    let ConditionKind::Player(drunk) = kind(10, (3, 0, 0)) else { panic!() };
    assert_eq!(drunk.query(), PlayerQuery::NoQuery);
    assert_eq!(drunk.meets(&p, PlayerAnswer::NoAnswer), Ok(true));
    let ConditionKind::Player(team) = kind(6, (67, 0, 0)) else { panic!() };
    assert_eq!(team.meets(&p, PlayerAnswer::NoAnswer), Ok(true));
    let ConditionKind::Player(pet) = kind(45, (0b100, 0, 0)) else { panic!() };
    assert_eq!(pet.query(), PlayerQuery::PetType);
    assert_eq!(pet.meets(&p, PlayerAnswer::Rank(Some(2))), Ok(true));
    let ConditionKind::Player(skill) = kind(7, (164, 300, 0)) else { panic!() };
    assert_eq!(skill.query(), PlayerQuery::Skill { skill_id: 164 });
    assert_eq!(skill.meets(&p, PlayerAnswer::Skill { has_skill: true, base_skill_value: 299 }), Ok(false));
}

#[test]
fn global_and_multi_target_queries() {
    let ConditionKind::Global(event) = kind(12, (0x1_0005, 0, 0)) else { panic!() };
    assert_eq!(event.query(), GlobalQuery::ActiveEvent(5));
    assert!(event.meets(GlobalAnswer::Flag(true)));
    let ConditionKind::Global(script) = kind(103, (3, 4, 0)) else { panic!() };
    assert_eq!(script.query(), GlobalQuery::WorldScript { condition_id: 3, state: 4 });
    let ConditionKind::Global(realm) = kind(39, (457, 0, 0)) else { panic!() };
    assert_eq!(realm.query(), GlobalQuery::RealmAchievement(457));
    assert!(!realm.meets(GlobalAnswer::Completed(None)));
    let ConditionKind::MultiTarget(reaction) = kind(34, (1, 0b10, 0)) else { panic!() };
    assert_eq!(reaction.query(), MultiTargetQuery::Reaction);
    assert_eq!(reaction.meets(MultiTargetAnswer::Reaction(1)), Ok(true));
    let ConditionKind::MultiTarget(distance) = kind(35, (1, 4, 99)) else { panic!() };
    assert_eq!(
        distance.query(),
        MultiTargetQuery::Distance { comparison: ComparisonType::LowEq, distance_bits: 99 }
    );
    assert_eq!(distance.meets(MultiTargetAnswer::Distance(false)), Ok(false));
}
