use azerrust::conditions::world_object::{
    InstanceScriptAnswer, WorldObjectConditionAiData, WorldObjectConditionAreaId,
    WorldObjectConditionCreatureType, WorldObjectConditionDifficultyId, WorldObjectConditionInstanceInfo,
    WorldObjectConditionMapId, WorldObjectConditionNearCreature, WorldObjectConditionNearGameObject,
    WorldObjectConditionObjectEntryGuid, WorldObjectConditionPhaseMask, WorldObjectConditionSpawnMask,
    WorldObjectConditionTypeMask, WorldObjectConditionZoneId, ENTRY_GUID_SKIP_FLAGS,
};
use azerrust::entities::creature::{CreatureRef, CreatureTemplate};
use azerrust::entities::game_object::GameObjectRef;
use azerrust::entities::object::WorldObjectRef;
use azerrust::map::{Difficulty, MapRef};
use azerrust::{InstanceInfo, TypeId};

fn object(raw_type_id: u32, entry: u32) -> WorldObjectRef {
    WorldObjectRef { zone_id: 1519, map_id: 0, area_id: 5148, phase_mask: 0x3, entry, raw_type_id }
}

#[test]
fn places_of_the_object() {
    let o = object(3, 1);
    assert_eq!(WorldObjectConditionZoneId { zone_id: 1519 }.meets(&o), Ok(true));
    assert_eq!(WorldObjectConditionZoneId { zone_id: 12 }.meets(&o), Ok(false));
    assert_eq!(WorldObjectConditionMapId { map_id: 0 }.meets(&o), Ok(true));
    assert_eq!(WorldObjectConditionMapId { map_id: 1 }.meets(&o), Ok(false));
    assert_eq!(WorldObjectConditionAreaId { area_id: 5148 }.meets(&o), Ok(true));
    assert_eq!(WorldObjectConditionAreaId { area_id: 5149 }.meets(&o), Ok(false));
    assert_eq!(WorldObjectConditionPhaseMask { phase_mask: 0x2 }.meets(&o), Ok(true));
    assert_eq!(WorldObjectConditionPhaseMask { phase_mask: 0x4 }.meets(&o), Ok(false));
    assert_eq!(WorldObjectConditionTypeMask { type_mask: 8 }.meets(true), Ok(true));
    assert_eq!(WorldObjectConditionTypeMask { type_mask: 8 }.meets(false), Ok(false));
}

#[test]
fn spawn_mask_and_difficulty() {
    let heroic = MapRef { spawn_mode: 1, is_dungeon: true };
    assert_eq!(WorldObjectConditionSpawnMask { spawn_mask: 0x2 }.meets(Some(heroic)), Ok(true));
    assert_eq!(WorldObjectConditionSpawnMask { spawn_mask: 0x1 }.meets(Some(heroic)), Ok(false));
    assert_eq!(WorldObjectConditionSpawnMask { spawn_mask: 0x1 }.meets(None), Err(()));
    let c = WorldObjectConditionDifficultyId { difficulty: Difficulty::Normal25 };
    assert_eq!(c.meets(Some(heroic)), Ok(true));
    assert_eq!(c.meets(Some(MapRef { spawn_mode: 0, is_dungeon: true })), Ok(false));
    assert_eq!(c.meets(Some(MapRef { spawn_mode: 9, is_dungeon: true })), Err(()));
    assert_eq!(c.meets(None), Err(()));
}

#[test]
fn creature_type() {
    let c = WorldObjectConditionCreatureType { creature_type: 7 };
    let humanoid = CreatureRef { spawn_id: 1, template: Some(CreatureTemplate { creature_type: 7 }) };
    let beast = CreatureRef { spawn_id: 1, template: Some(CreatureTemplate { creature_type: 1 }) };
    assert_eq!(c.meets(Some(humanoid)), Ok(true));
    assert_eq!(c.meets(Some(beast)), Ok(false));
    assert_eq!(c.meets(None), Ok(false));
    assert_eq!(c.meets(Some(CreatureRef { spawn_id: 1, template: None })), Err(()));
}

#[test]
fn near_objects() {
    let c = WorldObjectConditionNearCreature { entry: 1, distance_bits: 5.0f32.to_bits(), alive: true };
    assert_eq!(c.meets(true), Ok(true));
    assert_eq!(c.meets(false), Ok(false));
    let ready = GameObjectRef { raw_go_state: 1, spawn_id: 1 };
    let active = GameObjectRef { raw_go_state: 0, spawn_id: 1 };
    let broken = GameObjectRef { raw_go_state: 9, spawn_id: 1 };
    let any = WorldObjectConditionNearGameObject { entry: 1, distance_bits: 0, go_state: 0 };
    let want_ready = WorldObjectConditionNearGameObject { go_state: 1, ..any };
    let want_not_ready = WorldObjectConditionNearGameObject { go_state: 2, ..any };
    assert_eq!(any.meets(None), Ok(false));
    assert_eq!(any.meets(Some(broken)), Ok(true));
    assert_eq!(want_ready.meets(Some(ready)), Ok(true));
    assert_eq!(want_ready.meets(Some(active)), Ok(false));
    assert_eq!(want_ready.meets(Some(broken)), Err(()));
    assert_eq!(want_not_ready.meets(Some(ready)), Ok(false));
    assert_eq!(want_not_ready.meets(Some(active)), Ok(true));
    assert_eq!(want_not_ready.meets(Some(broken)), Err(()));
    assert_eq!(want_not_ready.meets(None), Ok(false));
}

#[test]
fn object_entry_guid() {
    assert_eq!(ENTRY_GUID_SKIP_FLAGS, 0x0200_0100);
    let unit = object(3, 100);
    let creature = CreatureRef { spawn_id: 42, template: None };
    let any_unit = WorldObjectConditionObjectEntryGuid { type_id: TypeId::Unit, entry: 0, value3: 0 };
    assert_eq!(any_unit.meets(&unit, Some(true), Some(creature), None), Ok(true));
    assert_eq!(any_unit.meets(&object(5, 100), None, None, None), Ok(false));
    assert_eq!(any_unit.meets(&object(11, 100), None, None, None), Err(()));
    let entry = WorldObjectConditionObjectEntryGuid { entry: 100, ..any_unit };
    assert_eq!(entry.meets(&unit, None, None, None), Ok(true));
    assert_eq!(entry.meets(&object(3, 101), None, None, None), Ok(false));
    let skip = WorldObjectConditionObjectEntryGuid { value3: 1, ..entry };
    assert_eq!(skip.meets(&unit, Some(true), None, None), Ok(false));
    assert_eq!(skip.meets(&unit, Some(false), None, None), Ok(true));
    // a skipped unit is refused before its type is looked at
    assert_eq!(skip.meets(&object(11, 100), Some(true), None, None), Ok(false));
    let spawn = WorldObjectConditionObjectEntryGuid { value3: 42, ..entry };
    assert_eq!(spawn.meets(&unit, Some(true), Some(creature), None), Ok(true));
    assert_eq!(
        spawn.meets(&unit, None, Some(CreatureRef { spawn_id: 43, template: None }), None),
        Ok(false)
    );
    assert_eq!(spawn.meets(&unit, None, None, None), Err(()));
    let go_spawn = WorldObjectConditionObjectEntryGuid { type_id: TypeId::GameObject, entry: 0, value3: 7 };
    let go = object(5, 3);
    assert_eq!(go_spawn.meets(&go, None, None, Some(GameObjectRef { raw_go_state: 0, spawn_id: 7 })), Ok(true));
    assert_eq!(go_spawn.meets(&go, None, None, Some(GameObjectRef { raw_go_state: 0, spawn_id: 8 })), Ok(false));
    assert_eq!(go_spawn.meets(&go, None, None, None), Err(()));
    let player_spawn = WorldObjectConditionObjectEntryGuid { type_id: TypeId::Player, entry: 0, value3: 7 };
    assert_eq!(player_spawn.meets(&object(4, 0), None, None, None), Ok(false));
}

#[test]
fn instance_info() {
    let dungeon = MapRef { spawn_mode: 0, is_dungeon: true };
    let world = MapRef { spawn_mode: 0, is_dungeon: false };
    let data = WorldObjectConditionInstanceInfo { data_id: 1, data: 3, info_type: InstanceInfo::Data };
    assert!(WorldObjectConditionInstanceInfo::asks_script(Some(dungeon)));
    assert!(!WorldObjectConditionInstanceInfo::asks_script(Some(world)));
    assert!(!WorldObjectConditionInstanceInfo::asks_script(None));
    assert_eq!(data.meets(Some(dungeon), Some(InstanceScriptAnswer::Data(3))), Ok(true));
    assert_eq!(data.meets(Some(dungeon), Some(InstanceScriptAnswer::Data(4))), Ok(false));
    assert_eq!(data.meets(Some(dungeon), None), Ok(false));
    assert_eq!(data.meets(Some(world), Some(InstanceScriptAnswer::Data(3))), Ok(false));
    assert_eq!(data.meets(None, None), Err(()));
    let guid = WorldObjectConditionInstanceInfo { info_type: InstanceInfo::GuidData, ..data };
    assert_eq!(guid.meets(Some(dungeon), Some(InstanceScriptAnswer::GuidData(true))), Ok(true));
    assert_eq!(guid.meets(Some(dungeon), Some(InstanceScriptAnswer::GuidData(false))), Ok(false));
    let boss = WorldObjectConditionInstanceInfo { info_type: InstanceInfo::BossState, ..data };
    assert_eq!(boss.meets(Some(dungeon), Some(InstanceScriptAnswer::BossState(3))), Ok(true));
    assert_eq!(boss.meets(Some(dungeon), Some(InstanceScriptAnswer::BossState(2))), Ok(false));
    let data64 = WorldObjectConditionInstanceInfo { info_type: InstanceInfo::Data64, ..data };
    assert_eq!(data64.meets(Some(dungeon), Some(InstanceScriptAnswer::Data64(3))), Ok(true));
    assert_eq!(data64.meets(Some(dungeon), Some(InstanceScriptAnswer::Data64(1 << 40 | 3))), Ok(false));
}

#[test]
fn ai_data() {
    let c = WorldObjectConditionAiData { data_id: 1, expected_value: 5 };
    assert_eq!(c.meets(Some(Some(5)), None), Ok(true));
    assert_eq!(c.meets(Some(Some(4)), None), Ok(false));
    assert_eq!(c.meets(Some(None), None), Ok(false));
    // a creature's AI decides; the game-object answer is not looked at
    assert_eq!(c.meets(Some(None), Some(Some(5))), Ok(false));
    assert_eq!(c.meets(None, Some(Some(5))), Ok(true));
    assert_eq!(c.meets(None, Some(None)), Ok(false));
    assert_eq!(c.meets(None, None), Ok(false));
}
