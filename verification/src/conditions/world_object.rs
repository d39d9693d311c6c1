//! Conditions on a world object: where it is, what it is, what is near it.
use vstd::prelude::*;

use crate::bits::{has_bit, lemma_common_bit, lemma_shifted_bit};
use crate::entities::creature::CreatureRef;
use crate::entities::game_object::{GOState, GameObjectRef};
use crate::entities::object::WorldObjectRef;
use crate::map::{Difficulty, MapRef};
use crate::{InstanceInfo, TypeId, UNIT_FLAG_IMMUNE_TO_PC, UNIT_FLAG_NOT_SELECTABLE};

verus! {

/// The unit flags for which an object-entry condition with value 3 equal to 1
/// skips a unit: not attackable by players, not selectable.
pub const ENTRY_GUID_SKIP_FLAGS: u32 = UNIT_FLAG_IMMUNE_TO_PC | UNIT_FLAG_NOT_SELECTABLE;

/// The world-object conditions, one variant per condition type.
#[derive(Debug, Clone, Copy, PartialEq, Eq, Structural)]
pub enum WorldObjectConditionKind {
    ZoneId(WorldObjectConditionZoneId),
    MapId(WorldObjectConditionMapId),
    AreaId(WorldObjectConditionAreaId),
    PhaseMask(WorldObjectConditionPhaseMask),
    TypeMask(WorldObjectConditionTypeMask),
    SpawnMask(WorldObjectConditionSpawnMask),
    DifficultyId(WorldObjectConditionDifficultyId),
    CreatureType(WorldObjectConditionCreatureType),
    NearCreature(WorldObjectConditionNearCreature),
    NearGameObject(WorldObjectConditionNearGameObject),
    ObjectEntryGuid(WorldObjectConditionObjectEntryGuid),
    InstanceInfo(WorldObjectConditionInstanceInfo),
    AiData(WorldObjectConditionAiData),
}

/// The question that a world-object condition puts to the object, beyond its
/// view.
#[derive(Debug, Clone, Copy, PartialEq, Eq, Structural)]
pub enum WorldObjectQuery {
    /// The view decides.
    NoQuery,
    /// `isType(type_mask)`; answered by a flag.
    IsType(u16),
    /// The object's map; answered by `ObjectMap`.
    ObjectMap,
    /// The object as a creature; answered by `Creature`.
    Creature,
    /// Whether `FindNearestCreature(entry, distance, alive)` finds one, the
    /// distance being the 32-bit float whose bits are `distance_bits`;
    /// answered by a flag.
    NearestCreature { entry: u32, distance_bits: u32, alive: bool },
    /// The game object that `FindNearestGameObject(entry, distance,
    /// only_spawned)` finds; answered by `GameObject`.
    NearestGameObject { entry: u32, distance_bits: u32, only_spawned: bool },
    /// The object as a unit asked `HasUnitFlag(skip_flags)`, as a creature and
    /// as a game object; answered by `EntryGuid`.
    EntryGuid { skip_flags: u32 },
    /// The object's map and, on a dungeon map, its instance script asked for
    /// `info_type` of `data_id` (and `data`); answered by `Instance`.
    Instance { info_type: InstanceInfo, data_id: u32, data: u32 },
    /// `GetData(data_id)` of the object's AI as a creature and as a game
    /// object; answered by `Ai`.
    AiData { data_id: u32 },
}

/// The object's answer to a [`WorldObjectQuery`].
#[derive(Debug, Clone, Copy, PartialEq, Eq, Structural)]
pub enum WorldObjectAnswer {
    NoAnswer,
    Flag(bool),
    ObjectMap(Option<MapRef>),
    Creature(Option<CreatureRef>),
    GameObject(Option<GameObjectRef>),
    EntryGuid {
        unit_has_skip_flags: Option<bool>,
        creature: Option<CreatureRef>,
        game_object: Option<GameObjectRef>,
    },
    Instance { map: Option<MapRef>, script: Option<InstanceScriptAnswer> },
    Ai { creature_ai: Option<Option<u32>>, game_object_ai: Option<Option<u32>> },
}

impl WorldObjectAnswer {
    /// The answer has the shape that `query` asks for.
    pub open spec fn fits(self, query: WorldObjectQuery) -> bool {
        match query {
            WorldObjectQuery::NoQuery => true,
            WorldObjectQuery::IsType(_) => self is Flag,
            WorldObjectQuery::ObjectMap => self is ObjectMap,
            WorldObjectQuery::Creature => self is Creature,
            WorldObjectQuery::NearestCreature { .. } => self is Flag,
            WorldObjectQuery::NearestGameObject { .. } => self is GameObject,
            WorldObjectQuery::EntryGuid { .. } => self is EntryGuid,
            WorldObjectQuery::Instance { info_type, .. } => match self {
                WorldObjectAnswer::Instance { script, .. } => script matches Some(a) ==> a.answers(
                    info_type,
                ),
                _ => false,
            },
            WorldObjectQuery::AiData { .. } => self is Ai,
        }
    }
}

impl WorldObjectConditionKind {
    pub open spec fn spec_query(self) -> WorldObjectQuery {
        match self {
            WorldObjectConditionKind::TypeMask(c) => WorldObjectQuery::IsType(c.type_mask),
            WorldObjectConditionKind::SpawnMask(_) => WorldObjectQuery::ObjectMap,
            WorldObjectConditionKind::DifficultyId(_) => WorldObjectQuery::ObjectMap,
            WorldObjectConditionKind::CreatureType(_) => WorldObjectQuery::Creature,
            WorldObjectConditionKind::NearCreature(c) => WorldObjectQuery::NearestCreature {
                entry: c.entry,
                distance_bits: c.distance_bits,
                alive: c.alive,
            },
            WorldObjectConditionKind::NearGameObject(c) => WorldObjectQuery::NearestGameObject {
                entry: c.entry,
                distance_bits: c.distance_bits,
                only_spawned: false,
            },
            WorldObjectConditionKind::ObjectEntryGuid(_) => WorldObjectQuery::EntryGuid {
                skip_flags: ENTRY_GUID_SKIP_FLAGS,
            },
            WorldObjectConditionKind::InstanceInfo(c) => WorldObjectQuery::Instance {
                info_type: c.info_type,
                data_id: c.data_id,
                data: c.data,
            },
            WorldObjectConditionKind::AiData(c) => WorldObjectQuery::AiData { data_id: c.data_id },
            _ => WorldObjectQuery::NoQuery,
        }
    }

    /// The question to put to the object; its answer is handed to `meets`.
    pub fn query(&self) -> (r: WorldObjectQuery)
        ensures
            r == self.spec_query(),
    {
        match self {
            WorldObjectConditionKind::TypeMask(c) => WorldObjectQuery::IsType(c.type_mask),
            WorldObjectConditionKind::SpawnMask(_) => WorldObjectQuery::ObjectMap,
            WorldObjectConditionKind::DifficultyId(_) => WorldObjectQuery::ObjectMap,
            WorldObjectConditionKind::CreatureType(_) => WorldObjectQuery::Creature,
            WorldObjectConditionKind::NearCreature(c) => WorldObjectQuery::NearestCreature {
                entry: c.entry,
                distance_bits: c.distance_bits,
                alive: c.alive,
            },
            WorldObjectConditionKind::NearGameObject(c) => WorldObjectQuery::NearestGameObject {
                entry: c.entry,
                distance_bits: c.distance_bits,
                only_spawned: false,
            },
            WorldObjectConditionKind::ObjectEntryGuid(_) => WorldObjectQuery::EntryGuid {
                skip_flags: ENTRY_GUID_SKIP_FLAGS,
            },
            WorldObjectConditionKind::InstanceInfo(c) => WorldObjectQuery::Instance {
                info_type: c.info_type,
                data_id: c.data_id,
                data: c.data,
            },
            WorldObjectConditionKind::AiData(c) => WorldObjectQuery::AiData { data_id: c.data_id },
            _ => WorldObjectQuery::NoQuery,
        }
    }

    /// The answer fits `query()`, and a spawn mode to be shifted into a mask is
    /// below 32.
    pub open spec fn accepts(self, answer: WorldObjectAnswer) -> bool {
        &&& answer.fits(self.spec_query())
        &&& self is SpawnMask ==> (answer matches WorldObjectAnswer::ObjectMap(Some(m)) ==> m.spawn_mode
            < 32)
    }

    /// Each world-object condition decided by its own `meets`, on the object's
    /// view and its answer to `query()`.
    pub open spec fn spec_meets(self, object: WorldObjectRef, answer: WorldObjectAnswer) -> Result<
        bool,
        (),
    > {
        match (self, answer) {
            (WorldObjectConditionKind::ZoneId(c), _) => c.spec_meets(object),
            (WorldObjectConditionKind::MapId(c), _) => c.spec_meets(object),
            (WorldObjectConditionKind::AreaId(c), _) => c.spec_meets(object),
            (WorldObjectConditionKind::PhaseMask(c), _) => c.spec_meets(object),
            (WorldObjectConditionKind::TypeMask(c), WorldObjectAnswer::Flag(b)) => c.spec_meets(b),
            (WorldObjectConditionKind::SpawnMask(c), WorldObjectAnswer::ObjectMap(m)) => c.spec_meets(m),
            (WorldObjectConditionKind::DifficultyId(c), WorldObjectAnswer::ObjectMap(m)) => c.spec_meets(m),
            (WorldObjectConditionKind::CreatureType(c), WorldObjectAnswer::Creature(k)) => c.spec_meets(
                k,
            ),
            (WorldObjectConditionKind::NearCreature(c), WorldObjectAnswer::Flag(b)) => c.spec_meets(b),
            (WorldObjectConditionKind::NearGameObject(c), WorldObjectAnswer::GameObject(g)) => c.spec_meets(
                g,
            ),
            (
                WorldObjectConditionKind::ObjectEntryGuid(c),
                WorldObjectAnswer::EntryGuid { unit_has_skip_flags, creature, game_object },
            ) => c.spec_meets(object, unit_has_skip_flags, creature, game_object),
            (
                WorldObjectConditionKind::InstanceInfo(c),
                WorldObjectAnswer::Instance { map, script },
            ) => c.spec_meets(map, script),
            (
                WorldObjectConditionKind::AiData(c),
                WorldObjectAnswer::Ai { creature_ai, game_object_ai },
            ) => c.spec_meets(creature_ai, game_object_ai),
            _ => Err(()),
        }
    }

    pub fn meets(&self, object: &WorldObjectRef, answer: WorldObjectAnswer) -> (r: Result<bool, ()>)
        requires
            self.accepts(answer),
        ensures
            r == self.spec_meets(*object, answer),
    {
        match (self, answer) {
            (WorldObjectConditionKind::ZoneId(c), _) => c.meets(object),
            (WorldObjectConditionKind::MapId(c), _) => c.meets(object),
            (WorldObjectConditionKind::AreaId(c), _) => c.meets(object),
            (WorldObjectConditionKind::PhaseMask(c), _) => c.meets(object),
            (WorldObjectConditionKind::TypeMask(c), WorldObjectAnswer::Flag(b)) => c.meets(b),
            (WorldObjectConditionKind::SpawnMask(c), WorldObjectAnswer::ObjectMap(m)) => c.meets(m),
            (WorldObjectConditionKind::DifficultyId(c), WorldObjectAnswer::ObjectMap(m)) => c.meets(m),
            (WorldObjectConditionKind::CreatureType(c), WorldObjectAnswer::Creature(k)) => c.meets(k),
            (WorldObjectConditionKind::NearCreature(c), WorldObjectAnswer::Flag(b)) => c.meets(b),
            (WorldObjectConditionKind::NearGameObject(c), WorldObjectAnswer::GameObject(g)) => c.meets(
                g,
            ),
            (
                WorldObjectConditionKind::ObjectEntryGuid(c),
                WorldObjectAnswer::EntryGuid { unit_has_skip_flags, creature, game_object },
            ) => c.meets(object, unit_has_skip_flags, creature, game_object),
            (
                WorldObjectConditionKind::InstanceInfo(c),
                WorldObjectAnswer::Instance { map, script },
            ) => c.meets(map, script),
            (
                WorldObjectConditionKind::AiData(c),
                WorldObjectAnswer::Ai { creature_ai, game_object_ai },
            ) => c.meets(creature_ai, game_object_ai),
            _ => Err(()),
        }
    }
}

/// The object is in zone `zone_id`.
#[derive(Debug, Clone, Copy, PartialEq, Eq, Structural)]
pub struct WorldObjectConditionZoneId {
    pub zone_id: u32,
}

impl WorldObjectConditionZoneId {
    pub open spec fn spec_try_from(values: (u32, u32, u32)) -> Result<Self, ()> {
        Ok(WorldObjectConditionZoneId { zone_id: values.0 })
    }

    pub fn try_from(values: (u32, u32, u32)) -> (r: Result<Self, ()>)
        ensures
            r == Self::spec_try_from(values),
    {
        Ok(WorldObjectConditionZoneId { zone_id: values.0 })
    }

    pub open spec fn spec_meets(self, object: WorldObjectRef) -> Result<bool, ()> {
        Ok(object.zone_id == self.zone_id)
    }

    pub fn meets(&self, object: &WorldObjectRef) -> (r: Result<bool, ()>)
        ensures
            r == self.spec_meets(*object),
    {
        Ok(object.zone_id == self.zone_id)
    }
}

/// The object is on map `map_id`.
#[derive(Debug, Clone, Copy, PartialEq, Eq, Structural)]
pub struct WorldObjectConditionMapId {
    pub map_id: u32,
}

impl WorldObjectConditionMapId {
    pub open spec fn spec_try_from(values: (u32, u32, u32)) -> Result<Self, ()> {
        Ok(WorldObjectConditionMapId { map_id: values.0 })
    }

    pub fn try_from(values: (u32, u32, u32)) -> (r: Result<Self, ()>)
        ensures
            r == Self::spec_try_from(values),
    {
        Ok(WorldObjectConditionMapId { map_id: values.0 })
    }

    pub open spec fn spec_meets(self, object: WorldObjectRef) -> Result<bool, ()> {
        Ok(object.map_id == self.map_id)
    }

    pub fn meets(&self, object: &WorldObjectRef) -> (r: Result<bool, ()>)
        ensures
            r == self.spec_meets(*object),
    {
        Ok(object.map_id == self.map_id)
    }
}

/// The object is in area `area_id`.
#[derive(Debug, Clone, Copy, PartialEq, Eq, Structural)]
pub struct WorldObjectConditionAreaId {
    pub area_id: u32,
}

impl WorldObjectConditionAreaId {
    pub open spec fn spec_try_from(values: (u32, u32, u32)) -> Result<Self, ()> {
        Ok(WorldObjectConditionAreaId { area_id: values.0 })
    }

    pub fn try_from(values: (u32, u32, u32)) -> (r: Result<Self, ()>)
        ensures
            r == Self::spec_try_from(values),
    {
        Ok(WorldObjectConditionAreaId { area_id: values.0 })
    }

    pub open spec fn spec_meets(self, object: WorldObjectRef) -> Result<bool, ()> {
        Ok(object.area_id == self.area_id)
    }

    pub fn meets(&self, object: &WorldObjectRef) -> (r: Result<bool, ()>)
        ensures
            r == self.spec_meets(*object),
    {
        Ok(object.area_id == self.area_id)
    }
}

/// The object is in one of the phases of `phase_mask`.
#[derive(Debug, Clone, Copy, PartialEq, Eq, Structural)]
pub struct WorldObjectConditionPhaseMask {
    pub phase_mask: u32,
}

impl WorldObjectConditionPhaseMask {
    pub open spec fn spec_try_from(values: (u32, u32, u32)) -> Result<Self, ()> {
        Ok(WorldObjectConditionPhaseMask { phase_mask: values.0 })
    }

    pub fn try_from(values: (u32, u32, u32)) -> (r: Result<Self, ()>)
        ensures
            r == Self::spec_try_from(values),
    {
        Ok(WorldObjectConditionPhaseMask { phase_mask: values.0 })
    }

    pub open spec fn spec_meets(self, object: WorldObjectRef) -> Result<bool, ()> {
        Ok(object.phase_mask & self.phase_mask != 0)
    }

    pub fn meets(&self, object: &WorldObjectRef) -> (r: Result<bool, ()>)
        ensures
            r == self.spec_meets(*object),
    {
        Ok(object.phase_mask & self.phase_mask != 0)
    }
}

/// The object is of one of the types of `type_mask`.
#[derive(Debug, Clone, Copy, PartialEq, Eq, Structural)]
pub struct WorldObjectConditionTypeMask {
    pub type_mask: u16,
}

impl WorldObjectConditionTypeMask {
    pub open spec fn spec_try_from(values: (u32, u32, u32)) -> Result<Self, ()> {
        Ok(WorldObjectConditionTypeMask { type_mask: values.0 as u16 })
    }

    pub fn try_from(values: (u32, u32, u32)) -> (r: Result<Self, ()>)
        ensures
            r == Self::spec_try_from(values),
    {
        Ok(WorldObjectConditionTypeMask { type_mask: values.0 as u16 })
    }

    /// Decides from the object's answer to `isType(type_mask)`.
    pub open spec fn spec_meets(self, is_type: bool) -> Result<bool, ()> {
        Ok(is_type)
    }

    pub fn meets(&self, is_type: bool) -> (r: Result<bool, ()>)
        ensures
            r == self.spec_meets(is_type),
    {
        Ok(is_type)
    }
}

/// The spawn mode of the object's map is one of `spawn_mask`.
#[derive(Debug, Clone, Copy, PartialEq, Eq, Structural)]
pub struct WorldObjectConditionSpawnMask {
    pub spawn_mask: u32,
}

impl WorldObjectConditionSpawnMask {
    pub open spec fn spec_try_from(values: (u32, u32, u32)) -> Result<Self, ()> {
        Ok(WorldObjectConditionSpawnMask { spawn_mask: values.0 })
    }

    pub fn try_from(values: (u32, u32, u32)) -> (r: Result<Self, ()>)
        ensures
            r == Self::spec_try_from(values),
    {
        Ok(WorldObjectConditionSpawnMask { spawn_mask: values.0 })
    }

    /// Decides from the object's map; an error where the object has none.
    pub open spec fn spec_meets(self, map: Option<MapRef>) -> Result<bool, ()> {
        match map {
            Some(m) => Ok((1u32 << (m.spawn_mode as u32)) & self.spawn_mask != 0),
            None => Err(()),
        }
    }

    pub fn meets(&self, map: Option<MapRef>) -> (r: Result<bool, ()>)
        requires
            map matches Some(m) ==> m.spawn_mode < 32,
        ensures
            r == self.spec_meets(map),
    {
        match map {
            Some(m) => Ok((1u32 << (m.spawn_mode as u32)) & self.spawn_mask != 0),
            None => Err(()),
        }
    }
}

/// The difficulty of the object's map is `difficulty`.
#[derive(Debug, Clone, Copy, PartialEq, Eq, Structural)]
pub struct WorldObjectConditionDifficultyId {
    pub difficulty: Difficulty,
}

impl WorldObjectConditionDifficultyId {
    pub open spec fn spec_try_from(values: (u32, u32, u32)) -> Result<Self, ()> {
        match Difficulty::spec_from_repr(values.0 as u8) {
            Some(difficulty) => Ok(WorldObjectConditionDifficultyId { difficulty }),
            None => Err(()),
        }
    }

    pub fn try_from(values: (u32, u32, u32)) -> (r: Result<Self, ()>)
        ensures
            r == Self::spec_try_from(values),
    {
        match Difficulty::from_repr(values.0 as u8) {
            Some(difficulty) => Ok(WorldObjectConditionDifficultyId { difficulty }),
            None => Err(()),
        }
    }

    /// Decides from the object's map; an error where the object has none or
    /// where the map's spawn mode names no difficulty.
    pub open spec fn spec_meets(self, map: Option<MapRef>) -> Result<bool, ()> {
        match map {
            Some(m) => match Difficulty::spec_from_repr(m.spawn_mode) {
                Some(d) => Ok(d == self.difficulty),
                None => Err(()),
            },
            None => Err(()),
        }
    }

    pub fn meets(&self, map: Option<MapRef>) -> (r: Result<bool, ()>)
        ensures
            r == self.spec_meets(map),
    {
        match map {
            Some(m) => {
                let current = m.difficulty()?;
                Ok(current == self.difficulty)
            },
            None => Err(()),
        }
    }
}

/// The object is a creature whose template has creature type `creature_type`.
#[derive(Debug, Clone, Copy, PartialEq, Eq, Structural)]
pub struct WorldObjectConditionCreatureType {
    pub creature_type: u32,
}

impl WorldObjectConditionCreatureType {
    pub open spec fn spec_try_from(values: (u32, u32, u32)) -> Result<Self, ()> {
        Ok(WorldObjectConditionCreatureType { creature_type: values.0 })
    }

    pub fn try_from(values: (u32, u32, u32)) -> (r: Result<Self, ()>)
        ensures
            r == Self::spec_try_from(values),
    {
        Ok(WorldObjectConditionCreatureType { creature_type: values.0 })
    }

    /// Decides from the object as a creature (`None` where it is none); an
    /// error where the creature has no template.
    pub open spec fn spec_meets(self, creature: Option<CreatureRef>) -> Result<bool, ()> {
        match creature {
            None => Ok(false),
            Some(c) => match c.template {
                Some(t) => Ok(t.creature_type == self.creature_type),
                None => Err(()),
            },
        }
    }

    pub fn meets(&self, creature: Option<CreatureRef>) -> (r: Result<bool, ()>)
        ensures
            r == self.spec_meets(creature),
    {
        let creature = match creature {
            Some(c) => c,
            None => return Ok(false),
        };
        let template = creature.creature_template()?;
        Ok(template.creature_type == self.creature_type)
    }
}

/// A creature of entry `entry` is within the distance whose bits are
/// `distance_bits` (alive ones only where `alive`).
#[derive(Debug, Clone, Copy, PartialEq, Eq, Structural)]
pub struct WorldObjectConditionNearCreature {
    pub entry: u32,
    /// Bits of the search radius, a 32-bit float (`f32::from_bits`).
    pub distance_bits: u32,
    pub alive: bool,
}

impl WorldObjectConditionNearCreature {
    pub open spec fn spec_try_from(values: (u32, u32, u32)) -> Result<Self, ()> {
        Ok(WorldObjectConditionNearCreature {
            entry: values.0,
            distance_bits: values.1,
            alive: values.2 == 0,
        })
    }

    pub fn try_from(values: (u32, u32, u32)) -> (r: Result<Self, ()>)
        ensures
            r == Self::spec_try_from(values),
    {
        Ok(WorldObjectConditionNearCreature {
            entry: values.0,
            distance_bits: values.1,
            alive: values.2 == 0,
        })
    }

    /// Decides from whether `FindNearestCreature(entry, distance, alive)` found one.
    pub open spec fn spec_meets(self, found: bool) -> Result<bool, ()> {
        Ok(found)
    }

    pub fn meets(&self, found: bool) -> (r: Result<bool, ()>)
        ensures
            r == self.spec_meets(found),
    {
        Ok(found)
    }
}

/// A game object of entry `entry` is within the distance whose bits are
/// `distance_bits`, in the state that `go_state` asks for (0: any, 1: ready,
/// otherwise: not ready).
#[derive(Debug, Clone, Copy, PartialEq, Eq, Structural)]
pub struct WorldObjectConditionNearGameObject {
    pub entry: u32,
    /// Bits of the search radius, a 32-bit float (`f32::from_bits`).
    pub distance_bits: u32,
    pub go_state: u32,
}

impl WorldObjectConditionNearGameObject {
    pub open spec fn spec_try_from(values: (u32, u32, u32)) -> Result<Self, ()> {
        Ok(WorldObjectConditionNearGameObject {
            entry: values.0,
            distance_bits: values.1,
            go_state: values.2,
        })
    }

    pub fn try_from(values: (u32, u32, u32)) -> (r: Result<Self, ()>)
        ensures
            r == Self::spec_try_from(values),
    {
        Ok(WorldObjectConditionNearGameObject {
            entry: values.0,
            distance_bits: values.1,
            go_state: values.2,
        })
    }

    /// Decides from the nearest such game object (`None` where none was found);
    /// an error where a state is asked for and the object's names none.
    pub open spec fn spec_meets(self, nearest: Option<GameObjectRef>) -> Result<bool, ()> {
        match nearest {
            None => Ok(false),
            Some(o) => if self.go_state == 0 {
                Ok(true)
            } else {
                match GOState::spec_from_repr(o.raw_go_state) {
                    None => Err(()),
                    Some(s) => if self.go_state == 1 {
                        Ok(s == GOState::Ready)
                    } else {
                        Ok(s != GOState::Ready)
                    },
                }
            },
        }
    }

    pub fn meets(&self, nearest: Option<GameObjectRef>) -> (r: Result<bool, ()>)
        ensures
            r == self.spec_meets(nearest),
    {
        let obj = match nearest {
            Some(o) => o,
            None => return Ok(false),
        };
        match self.go_state {
            0 => Ok(true),
            1 => match obj.go_state() {
                Some(s) => Ok(s == GOState::Ready),
                None => Err(()),
            },
            _ => match obj.go_state() {
                Some(s) => Ok(s != GOState::Ready),
                None => Err(()),
            },
        }
    }
}

/// The object is of type `type_id` and entry `entry` (any entry where it is
/// 0); `value3` equal to 1 skips units that are immune to players or not
/// selectable, and `value3` above 1 asks for that spawn id.
#[derive(Debug, Clone, Copy, PartialEq, Eq, Structural)]
pub struct WorldObjectConditionObjectEntryGuid {
    pub type_id: TypeId,
    pub entry: u32,
    pub value3: u32,
}

impl WorldObjectConditionObjectEntryGuid {
    pub open spec fn spec_try_from(values: (u32, u32, u32)) -> Result<Self, ()> {
        match TypeId::spec_from_repr(values.0) {
            Some(type_id) => Ok(
                WorldObjectConditionObjectEntryGuid { type_id, entry: values.1, value3: values.2 },
            ),
            None => Err(()),
        }
    }

    pub fn try_from(values: (u32, u32, u32)) -> (r: Result<Self, ()>)
        ensures
            r == Self::spec_try_from(values),
    {
        match TypeId::from_repr(values.0) {
            Some(type_id) => Ok(
                WorldObjectConditionObjectEntryGuid { type_id, entry: values.1, value3: values.2 },
            ),
            None => Err(()),
        }
    }

    /// The object is skipped: `value3` is 1 and the object is a unit with one of
    /// `ENTRY_GUID_SKIP_FLAGS`.
    pub open spec fn spec_skipped(self, unit_has_skip_flags: Option<bool>) -> bool {
        self.value3 == 1 && unit_has_skip_flags == Some(true)
    }

    /// Where the decision fails: the object is not skipped and its type id
    /// names no type, or it matches type and entry, a spawn id is asked for,
    /// and the object does not come as the creature or game object its type
    /// says.
    pub open spec fn spec_fails(
        self,
        object: WorldObjectRef,
        unit_has_skip_flags: Option<bool>,
        creature: Option<CreatureRef>,
        game_object: Option<GameObjectRef>,
    ) -> bool {
        !self.spec_skipped(unit_has_skip_flags) && (TypeId::spec_from_repr(object.raw_type_id) is None
            || (TypeId::spec_from_repr(object.raw_type_id) == Some(self.type_id) && (self.entry == 0
            || object.entry == self.entry) && self.value3 > 1 && ((self.type_id == TypeId::Unit
            && creature is None) || (self.type_id == TypeId::GameObject && game_object is None))))
    }

    /// Where it does not fail, the condition holds: the object is not skipped,
    /// is of `type_id`, of `entry` where that is not 0, and, where `value3`
    /// above 1 asks for a spawn id, is the creature or game object of that
    /// spawn id.
    pub open spec fn spec_holds(
        self,
        object: WorldObjectRef,
        unit_has_skip_flags: Option<bool>,
        creature: Option<CreatureRef>,
        game_object: Option<GameObjectRef>,
    ) -> bool {
        &&& !self.spec_skipped(unit_has_skip_flags)
        &&& TypeId::spec_from_repr(object.raw_type_id) == Some(self.type_id)
        &&& self.entry == 0 || object.entry == self.entry
        &&& self.value3 > 1 ==> ((self.type_id == TypeId::Unit && spawned_creature(
            creature,
            self.value3,
        )) || (self.type_id == TypeId::GameObject && spawned_game_object(game_object, self.value3)))
    }

    /// The decision, from the object, its answer as a unit to
    /// `HasUnitFlag(ENTRY_GUID_SKIP_FLAGS)` (`None` where it is no unit), and
    /// the object as a creature and as a game object (`None` where it is none).
    pub open spec fn spec_meets(
        self,
        object: WorldObjectRef,
        unit_has_skip_flags: Option<bool>,
        creature: Option<CreatureRef>,
        game_object: Option<GameObjectRef>,
    ) -> Result<bool, ()> {
        if self.spec_fails(object, unit_has_skip_flags, creature, game_object) {
            Err(())
        } else {
            Ok(self.spec_holds(object, unit_has_skip_flags, creature, game_object))
        }
    }

    pub fn meets(
        &self,
        object: &WorldObjectRef,
        unit_has_skip_flags: Option<bool>,
        creature: Option<CreatureRef>,
        game_object: Option<GameObjectRef>,
    ) -> (r: Result<bool, ()>)
        ensures
            r == self.spec_meets(*object, unit_has_skip_flags, creature, game_object),
    {
        if self.value3 == 1 {
            if let Some(true) = unit_has_skip_flags {
                return Ok(false);
            }
        }
        let tid = object.type_id()?;
        if tid != self.type_id {
            return Ok(false);
        }
        if self.entry != 0 && object.entry != self.entry {
            return Ok(false);
        }
        if self.value3 > 1 {
            if tid == TypeId::Unit {
                return match creature {
                    Some(c) => Ok(c.spawn_id == self.value3),
                    None => Err(()),
                };
            }
            if tid == TypeId::GameObject {
                return match game_object {
                    Some(g) => Ok(g.spawn_id == self.value3),
                    None => Err(()),
                };
            }
            return Ok(false);
        }
        Ok(true)
    }
}

/// The object came as a creature of spawn id `spawn_id`.
pub open spec fn spawned_creature(creature: Option<CreatureRef>, spawn_id: u32) -> bool {
    match creature {
        Some(c) => c.spawn_id == spawn_id,
        None => false,
    }
}

/// The object came as a game object of spawn id `spawn_id`.
pub open spec fn spawned_game_object(game_object: Option<GameObjectRef>, spawn_id: u32) -> bool {
    match game_object {
        Some(g) => g.spawn_id == spawn_id,
        None => false,
    }
}

/// What an instance script answers to an instance-info condition.
#[derive(Debug, Clone, Copy, PartialEq, Eq, Structural)]
pub enum InstanceScriptAnswer {
    /// `GetData(data_id)`.
    Data(u32),
    /// Whether the guid data `data_id` matches `data`.
    GuidData(bool),
    /// The state of boss `data_id`.
    BossState(u32),
    /// `GetData64(data_id)`.
    Data64(u64),
}

impl InstanceScriptAnswer {
    /// The answer is the one that `info` asks the script for.
    pub open spec fn answers(self, info: InstanceInfo) -> bool {
        match info {
            InstanceInfo::Data => self is Data,
            InstanceInfo::GuidData => self is GuidData,
            InstanceInfo::BossState => self is BossState,
            InstanceInfo::Data64 => self is Data64,
        }
    }
}

/// The instance script of the object's map reports `data` for `data_id`, in the
/// way that `info_type` names.
#[derive(Debug, Clone, Copy, PartialEq, Eq, Structural)]
pub struct WorldObjectConditionInstanceInfo {
    pub data_id: u32,
    pub data: u32,
    pub info_type: InstanceInfo,
}

impl WorldObjectConditionInstanceInfo {
    pub open spec fn spec_try_from(values: (u32, u32, u32)) -> Result<Self, ()> {
        match InstanceInfo::spec_from_repr(values.2) {
            Some(info_type) => Ok(
                WorldObjectConditionInstanceInfo { data_id: values.0, data: values.1, info_type },
            ),
            None => Err(()),
        }
    }

    pub fn try_from(values: (u32, u32, u32)) -> (r: Result<Self, ()>)
        ensures
            r == Self::spec_try_from(values),
    {
        match InstanceInfo::from_repr(values.2) {
            Some(info_type) => Ok(
                WorldObjectConditionInstanceInfo { data_id: values.0, data: values.1, info_type },
            ),
            None => Err(()),
        }
    }

    /// The instance script is asked only where the object's map is a dungeon.
    pub open spec fn spec_asks_script(map: Option<MapRef>) -> bool {
        map matches Some(m) && m.is_dungeon
    }

    pub fn asks_script(map: Option<MapRef>) -> (r: bool)
        ensures
            r == Self::spec_asks_script(map),
    {
        match map {
            Some(m) => m.is_dungeon,
            None => false,
        }
    }

    pub open spec fn spec_meets(self, map: Option<MapRef>, script: Option<InstanceScriptAnswer>) -> Result<
        bool,
        (),
    > {
        match map {
            None => Err(()),
            Some(m) => if !m.is_dungeon {
                Ok(false)
            } else {
                self.spec_decide(script)
            },
        }
    }

    /// Decides from the object's map (an error where it has none) and, on a
    /// dungeon map, the answer of its instance script (`None` where it has
    /// none; not consulted off a dungeon).
    pub fn meets(&self, map: Option<MapRef>, script: Option<InstanceScriptAnswer>) -> (r: Result<
        bool,
        (),
    >)
        requires
            script matches Some(a) ==> a.answers(self.info_type),
        ensures
            r == self.spec_meets(map, script),
    {
        let m = match map {
            Some(m) => m,
            None => return Err(()),
        };
        if !m.is_dungeon {
            return Ok(false);
        }
        Ok(
            match script {
                None => false,
                Some(InstanceScriptAnswer::Data(v)) => v == self.data,
                Some(InstanceScriptAnswer::GuidData(b)) => b,
                Some(InstanceScriptAnswer::BossState(v)) => v == self.data,
                Some(InstanceScriptAnswer::Data64(v)) => v == self.data as u64,
            },
        )
    }

    /// The decision on a dungeon map, from its instance script's answer.
    pub open spec fn spec_decide(self, answer: Option<InstanceScriptAnswer>) -> Result<bool, ()> {
        match answer {
            None => Ok(false),
            Some(InstanceScriptAnswer::Data(v)) => Ok(v == self.data),
            Some(InstanceScriptAnswer::GuidData(b)) => Ok(b),
            Some(InstanceScriptAnswer::BossState(v)) => Ok(v == self.data),
            Some(InstanceScriptAnswer::Data64(v)) => Ok(v == self.data as u64),
        }
    }
}

/// The AI of the object (a creature or a game object) reports
/// `expected_value` for `data_id`.
#[derive(Debug, Clone, Copy, PartialEq, Eq, Structural)]
pub struct WorldObjectConditionAiData {
    pub data_id: u32,
    pub expected_value: u32,
}

impl WorldObjectConditionAiData {
    pub open spec fn spec_try_from(values: (u32, u32, u32)) -> Result<Self, ()> {
        Ok(WorldObjectConditionAiData { data_id: values.0, expected_value: values.1 })
    }

    pub fn try_from(values: (u32, u32, u32)) -> (r: Result<Self, ()>)
        ensures
            r == Self::spec_try_from(values),
    {
        Ok(WorldObjectConditionAiData { data_id: values.0, expected_value: values.1 })
    }

    /// Decides from the object's AI as a creature and as a game object: the
    /// outer `None` where the object is not such, the inner `None` where it has
    /// no AI, else the AI's `GetData(data_id)`.
    pub open spec fn spec_meets(self, creature_ai: Option<Option<u32>>, game_object_ai: Option<
        Option<u32>,
    >) -> Result<bool, ()> {
        match creature_ai {
            Some(ai) => Ok(ai == Some(self.expected_value)),
            None => match game_object_ai {
                Some(ai) => Ok(ai == Some(self.expected_value)),
                None => Ok(false),
            },
        }
    }

    pub fn meets(&self, creature_ai: Option<Option<u32>>, game_object_ai: Option<Option<u32>>) -> (r:
        Result<bool, ()>)
        ensures
            r == self.spec_meets(creature_ai, game_object_ai),
    {
        if let Some(ai) = creature_ai {
            return Ok(
                match ai {
                    Some(v) => v == self.expected_value,
                    None => false,
                },
            );
        }
        if let Some(ai) = game_object_ai {
            return Ok(
                match ai {
                    Some(v) => v == self.expected_value,
                    None => false,
                },
            );
        }
        Ok(false)
    }
}


/// The zone, map and area conditions hold exactly when the object is in the
/// zone, on the map or in the area that they name.
pub proof fn lemma_place_conditions(
    zone: WorldObjectConditionZoneId,
    map: WorldObjectConditionMapId,
    area: WorldObjectConditionAreaId,
    o: WorldObjectRef,
)
    ensures
        zone.spec_meets(o) == Ok::<bool, ()>(o.zone_id == zone.zone_id),
        map.spec_meets(o) == Ok::<bool, ()>(o.map_id == map.map_id),
        area.spec_meets(o) == Ok::<bool, ()>(o.area_id == area.area_id),
{
}

/// The phase-mask condition holds as soon as the object is in one phase that
/// the mask names, and never when it is in none of them.
pub proof fn lemma_phase_mask_shares_a_phase(c: WorldObjectConditionPhaseMask, o: WorldObjectRef, i: u32)
    ensures
        c.spec_meets(o) is Ok,
        (i < 32 && has_bit(o.phase_mask, i) && has_bit(c.phase_mask, i)) ==> c.spec_meets(o) == Ok::<
            bool,
            (),
        >(true),
        o.phase_mask & c.phase_mask == 0 ==> c.spec_meets(o) == Ok::<bool, ()>(false),
{
    if i < 32 && has_bit(o.phase_mask, i) && has_bit(c.phase_mask, i) {
        lemma_common_bit(o.phase_mask, c.phase_mask, i);
    }
}

/// The spawn-mask condition reads the bit of the map's spawn mode in its mask;
/// an object on no map leaves it undecided.
pub proof fn lemma_spawn_mask_reads_its_bit(c: WorldObjectConditionSpawnMask, m: MapRef)
    ensures
        c.spec_meets(None) is Err,
        m.spawn_mode < 32 ==> c.spec_meets(Some(m)) == Ok::<bool, ()>(
            has_bit(c.spawn_mask, m.spawn_mode as u32),
        ),
{
    if m.spawn_mode < 32 {
        lemma_shifted_bit(c.spawn_mask, m.spawn_mode as u32);
    }
}

/// The difficulty condition holds exactly when the map's spawn mode is the
/// number of its difficulty; a spawn mode that names no difficulty (4 on), or
/// no map, leaves it undecided.
pub proof fn lemma_difficulty_is_spawn_mode(c: WorldObjectConditionDifficultyId, m: MapRef)
    ensures
        c.spec_meets(None) is Err,
        m.spawn_mode >= 4 ==> c.spec_meets(Some(m)) is Err,
        m.spawn_mode < 4 ==> c.spec_meets(Some(m)) == Ok::<bool, ()>(
            Difficulty::spec_from_repr(m.spawn_mode) == Some(c.difficulty),
        ),
{
}

/// The creature-type condition fails on an object that is no creature, holds
/// exactly when the creature's template has the type, and is undecided for a
/// creature without a template.
pub proof fn lemma_creature_type(c: WorldObjectConditionCreatureType, cr: CreatureRef)
    ensures
        c.spec_meets(None) == Ok::<bool, ()>(false),
        cr.template matches Some(t) ==> c.spec_meets(Some(cr)) == Ok::<bool, ()>(
            t.creature_type == c.creature_type,
        ),
        cr.template is None ==> c.spec_meets(Some(cr)) is Err,
{
}

/// The conditions answered by a flag hold exactly when the flag is set: the
/// object is of the type mask, a creature of the entry is near.
pub proof fn lemma_world_object_flags(t: WorldObjectConditionTypeMask, n: WorldObjectConditionNearCreature, b: bool)
    ensures
        t.spec_meets(b) == Ok::<bool, ()>(b),
        n.spec_meets(b) == Ok::<bool, ()>(b),
{
}

/// The near-game-object condition: no game object found fails; with state
/// value 0 any found one holds; with 1 it holds exactly when the found one is
/// ready (state 1), with any other value exactly when it is active or
/// alternative (0 or 2); an unknown state of the found one is undecided.
pub proof fn lemma_near_game_object(c: WorldObjectConditionNearGameObject, g: GameObjectRef)
    ensures
        c.spec_meets(None) == Ok::<bool, ()>(false),
        c.go_state == 0 ==> c.spec_meets(Some(g)) == Ok::<bool, ()>(true),
        (c.go_state == 1 && g.raw_go_state <= 2) ==> c.spec_meets(Some(g)) == Ok::<bool, ()>(
            g.raw_go_state == 1,
        ),
        (c.go_state >= 2 && g.raw_go_state <= 2) ==> c.spec_meets(Some(g)) == Ok::<bool, ()>(
            g.raw_go_state != 1,
        ),
        (c.go_state != 0 && g.raw_go_state > 2) ==> c.spec_meets(Some(g)) is Err,
{
}

/// The object-entry condition, step by step: a unit with the skip flags is
/// skipped (not met) when value 3 is 1; otherwise an object of unknown type is
/// undecided, one of another type or (for a nonzero entry) another entry is
/// not met; with value 3 at most 1 a match holds; above 1 value 3 is a spawn
/// id, which a creature (for units) or a game object (for game objects) must
/// have, undecided where the object is not one, and never met for other types.
pub proof fn lemma_object_entry_guid(
    c: WorldObjectConditionObjectEntryGuid,
    o: WorldObjectRef,
    skip: Option<bool>,
    creature: Option<CreatureRef>,
    game_object: Option<GameObjectRef>,
)
    ensures
        (c.value3 == 1 && skip == Some(true)) ==> c.spec_meets(o, skip, creature, game_object)
            == Ok::<bool, ()>(false),
        ({
            let skipped = c.value3 == 1 && skip == Some(true);
            let r = c.spec_meets(o, skip, creature, game_object);
            let matches_entry = c.entry == 0 || o.entry == c.entry;
            &&& (!skipped && o.raw_type_id > 7) ==> r is Err
            &&& (!skipped && o.raw_type_id <= 7 && TypeId::spec_from_repr(o.raw_type_id) != Some(
                c.type_id,
            )) ==> r == Ok::<bool, ()>(false)
            &&& (!skipped && TypeId::spec_from_repr(o.raw_type_id) == Some(c.type_id)
                && !matches_entry) ==> r == Ok::<bool, ()>(false)
            &&& (!skipped && TypeId::spec_from_repr(o.raw_type_id) == Some(c.type_id) && matches_entry
                && c.value3 <= 1) ==> r == Ok::<bool, ()>(true)
            &&& (!skipped && TypeId::spec_from_repr(o.raw_type_id) == Some(c.type_id) && matches_entry
                && c.value3 > 1) ==> (if c.type_id == TypeId::Unit {
                match creature {
                    Some(cr) => r == Ok::<bool, ()>(cr.spawn_id == c.value3),
                    None => r is Err,
                }
            } else if c.type_id == TypeId::GameObject {
                match game_object {
                    Some(go) => r == Ok::<bool, ()>(go.spawn_id == c.value3),
                    None => r is Err,
                }
            } else {
                r == Ok::<bool, ()>(false)
            })
        }),
{
}

/// The instance-info condition: no map is undecided, a map that is no dungeon
/// or has no instance script fails; otherwise data and boss state hold when
/// they equal `data`, 64-bit data when it equals `data` widened, and guid data
/// by the script's own comparison. The script is asked only on a dungeon.
pub proof fn lemma_instance_info(c: WorldObjectConditionInstanceInfo, m: MapRef, a: InstanceScriptAnswer)
    ensures
        c.spec_meets(None, Some(a)) is Err,
        !m.is_dungeon ==> c.spec_meets(Some(m), Some(a)) == Ok::<bool, ()>(false),
        WorldObjectConditionInstanceInfo::spec_asks_script(Some(m)) == m.is_dungeon,
        !WorldObjectConditionInstanceInfo::spec_asks_script(None),
        m.is_dungeon ==> c.spec_meets(Some(m), None) == Ok::<bool, ()>(false),
        m.is_dungeon ==> c.spec_meets(Some(m), Some(a)) == Ok::<bool, ()>(
            match a {
                InstanceScriptAnswer::Data(v) => v == c.data,
                InstanceScriptAnswer::GuidData(b) => b,
                InstanceScriptAnswer::BossState(v) => v == c.data,
                InstanceScriptAnswer::Data64(v) => v == c.data as u64,
            },
        ),
{
}

/// The AI-data condition compares what the creature's AI (or, for an object
/// that is no creature, the game object's AI) reports for `data_id` with the
/// expected value; an object with neither fails, as does an AI that reports
/// nothing.
pub proof fn lemma_ai_data(c: WorldObjectConditionAiData, creature_ai: Option<Option<u32>>, game_object_ai: Option<Option<u32>>)
    ensures
        creature_ai matches Some(ai) ==> c.spec_meets(creature_ai, game_object_ai) == Ok::<bool, ()>(
            ai == Some(c.expected_value),
        ),
        creature_ai is None ==> (game_object_ai matches Some(ai) ==> c.spec_meets(
            creature_ai,
            game_object_ai,
        ) == Ok::<bool, ()>(ai == Some(c.expected_value))),
        (creature_ai is None && game_object_ai is None) ==> c.spec_meets(creature_ai, game_object_ai)
            == Ok::<bool, ()>(false),
        c.spec_meets(Some(None), game_object_ai) == Ok::<bool, ()>(false),
{
}


/// Each world-object condition asks the object the question that its fields
/// name (the nearest game object among all, spawned or not; the entry check
/// with the skip flags) and is decided by its own `meets` on the object's view
/// and the answer.
pub proof fn lemma_world_object_dispatch(k: WorldObjectConditionKind, o: WorldObjectRef, a: WorldObjectAnswer)
    ensures
        ENTRY_GUID_SKIP_FLAGS == 0x0200_0100u32,
        k matches WorldObjectConditionKind::ZoneId(c) ==> k.spec_query() == WorldObjectQuery::NoQuery
            && k.spec_meets(o, a) == c.spec_meets(o),
        k matches WorldObjectConditionKind::MapId(c) ==> k.spec_query() == WorldObjectQuery::NoQuery
            && k.spec_meets(o, a) == c.spec_meets(o),
        k matches WorldObjectConditionKind::AreaId(c) ==> k.spec_query() == WorldObjectQuery::NoQuery
            && k.spec_meets(o, a) == c.spec_meets(o),
        k matches WorldObjectConditionKind::PhaseMask(c) ==> k.spec_query() == WorldObjectQuery::NoQuery
            && k.spec_meets(o, a) == c.spec_meets(o),
        k matches WorldObjectConditionKind::TypeMask(c) ==> k.spec_query() == WorldObjectQuery::IsType(
            c.type_mask,
        ) && (a matches WorldObjectAnswer::Flag(b) ==> k.spec_meets(o, a) == c.spec_meets(b)),
        k matches WorldObjectConditionKind::SpawnMask(c) ==> k.spec_query() == WorldObjectQuery::ObjectMap
            && (a matches WorldObjectAnswer::ObjectMap(m) ==> k.spec_meets(o, a) == c.spec_meets(m)),
        k matches WorldObjectConditionKind::DifficultyId(c) ==> k.spec_query()
            == WorldObjectQuery::ObjectMap && (a matches WorldObjectAnswer::ObjectMap(m) ==> k.spec_meets(
            o,
            a,
        ) == c.spec_meets(m)),
        k matches WorldObjectConditionKind::CreatureType(c) ==> k.spec_query()
            == WorldObjectQuery::Creature && (a matches WorldObjectAnswer::Creature(cr) ==> k.spec_meets(
            o,
            a,
        ) == c.spec_meets(cr)),
        k matches WorldObjectConditionKind::NearCreature(c) ==> k.spec_query() == (
        WorldObjectQuery::NearestCreature {
            entry: c.entry,
            distance_bits: c.distance_bits,
            alive: c.alive,
        }) && (a matches WorldObjectAnswer::Flag(b) ==> k.spec_meets(o, a) == c.spec_meets(b)),
        k matches WorldObjectConditionKind::NearGameObject(c) ==> k.spec_query() == (
        WorldObjectQuery::NearestGameObject {
            entry: c.entry,
            distance_bits: c.distance_bits,
            only_spawned: false,
        }) && (a matches WorldObjectAnswer::GameObject(g) ==> k.spec_meets(o, a) == c.spec_meets(g)),
        k matches WorldObjectConditionKind::ObjectEntryGuid(c) ==> k.spec_query() == (
        WorldObjectQuery::EntryGuid { skip_flags: UNIT_FLAG_IMMUNE_TO_PC | UNIT_FLAG_NOT_SELECTABLE })
            && (a matches WorldObjectAnswer::EntryGuid { unit_has_skip_flags, creature, game_object }
            ==> k.spec_meets(o, a) == c.spec_meets(o, unit_has_skip_flags, creature, game_object)),
        k matches WorldObjectConditionKind::InstanceInfo(c) ==> k.spec_query() == (
        WorldObjectQuery::Instance { info_type: c.info_type, data_id: c.data_id, data: c.data }) && (
        a matches WorldObjectAnswer::Instance { map, script } ==> k.spec_meets(o, a) == c.spec_meets(
            map,
            script,
        )),
        k matches WorldObjectConditionKind::AiData(c) ==> k.spec_query() == (WorldObjectQuery::AiData {
            data_id: c.data_id,
        }) && (a matches WorldObjectAnswer::Ai { creature_ai, game_object_ai } ==> k.spec_meets(o, a)
            == c.spec_meets(creature_ai, game_object_ai)),
{
    assert(0x0000_0100u32 | 0x0200_0000u32 == 0x0200_0100u32) by (bit_vector);
}

} // verus!
