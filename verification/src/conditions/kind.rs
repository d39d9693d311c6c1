//! The typed condition that a condition row's type number and values stand for.
use vstd::prelude::*;

use crate::map::Difficulty;
use crate::{DrunkenState, InstanceInfo, Relation, Team, TypeId};

use crate::conditions::global::{GlobalConditionActiveEvent, GlobalConditionKind, GlobalConditionRealmAchievement, GlobalConditionWorldScript, GlobalConditionWorldState};
use crate::conditions::multi_target::{MultiTargetConditionDistanceTo, MultiTargetConditionKind, MultiTargetConditionReactionTo, MultiTargetConditionRelationTo};
use crate::conditions::player::{PlayerConditionAchievement, PlayerConditionDailyQuestDone, PlayerConditionDrunkenState, PlayerConditionGender, PlayerConditionItem, PlayerConditionItemEquipped, PlayerConditionKind, PlayerConditionPetType, PlayerConditionPlayerQueuedRandomDungeon, PlayerConditionQuestComplete, PlayerConditionQuestNone, PlayerConditionQuestObjectiveProgress, PlayerConditionQuestRewarded, PlayerConditionQuestSatisfyExclusive, PlayerConditionQuestState, PlayerConditionQuestTaken, PlayerConditionReputationRank, PlayerConditionSkill, PlayerConditionSpell, PlayerConditionTaxi, PlayerConditionTeam, PlayerConditionTitle};
use crate::conditions::comparison::ComparisonType;
use crate::conditions::unit::{StandStateKind, UnitConditionAlive, UnitConditionAura, UnitConditionCharmed, UnitConditionClass, UnitConditionHasAuraType, UnitConditionHpPct, UnitConditionHpVal, UnitConditionInCombat, UnitConditionInWater, UnitConditionKind, UnitConditionLevel, UnitConditionRace, UnitConditionStandState, UnitConditionUnitState};
use crate::conditions::world_object::{WorldObjectConditionAiData, WorldObjectConditionAreaId, WorldObjectConditionCreatureType, WorldObjectConditionDifficultyId, WorldObjectConditionInstanceInfo, WorldObjectConditionKind, WorldObjectConditionMapId, WorldObjectConditionNearCreature, WorldObjectConditionNearGameObject, WorldObjectConditionObjectEntryGuid, WorldObjectConditionPhaseMask, WorldObjectConditionSpawnMask, WorldObjectConditionTypeMask, WorldObjectConditionZoneId};

verus! {

/// A typed condition, grouped by what it is evaluated on.
#[derive(Debug, Clone, Copy, PartialEq, Eq, Structural)]
pub enum ConditionKind {
    Unit(UnitConditionKind),
    WorldObject(WorldObjectConditionKind),
    Player(PlayerConditionKind),
    Global(GlobalConditionKind),
    MultiTarget(MultiTargetConditionKind),
}

/// Wraps a parsed condition of one type as a `ConditionKind`.
pub open spec fn lift_kind<A>(r: Result<A, ()>, wrap: spec_fn(A) -> ConditionKind) -> Result<
    ConditionKind,
    (),
> {
    match r {
        Ok(a) => Ok(wrap(a)),
        Err(e) => Err(e),
    }
}

impl ConditionKind {
    /// The condition that type number `cond` stands for with `values`; an
    /// error for a type number that names no condition and for values that the
    /// type refuses.
    pub open spec fn spec_try_from(cond: u8, values: (u32, u32, u32)) -> Result<ConditionKind, ()> {
        match cond {
            1 => lift_kind(UnitConditionAura::spec_try_from(values), |k: UnitConditionAura| ConditionKind::Unit(UnitConditionKind::Aura(k))),
            15 => lift_kind(UnitConditionClass::spec_try_from(values), |k: UnitConditionClass| ConditionKind::Unit(UnitConditionKind::Class(k))),
            16 => lift_kind(UnitConditionRace::spec_try_from(values), |k: UnitConditionRace| ConditionKind::Unit(UnitConditionKind::Race(k))),
            21 => lift_kind(UnitConditionUnitState::spec_try_from(values), |k: UnitConditionUnitState| ConditionKind::Unit(UnitConditionKind::UnitState(k))),
            27 => lift_kind(UnitConditionLevel::spec_try_from(values), |k: UnitConditionLevel| ConditionKind::Unit(UnitConditionKind::Level(k))),
            36 => lift_kind(UnitConditionAlive::spec_try_from(values), |k: UnitConditionAlive| ConditionKind::Unit(UnitConditionKind::Alive(k))),
            37 => lift_kind(UnitConditionHpVal::spec_try_from(values), |k: UnitConditionHpVal| ConditionKind::Unit(UnitConditionKind::HpVal(k))),
            38 => lift_kind(UnitConditionHpPct::spec_try_from(values), |k: UnitConditionHpPct| ConditionKind::Unit(UnitConditionKind::HpPct(k))),
            40 => lift_kind(UnitConditionInWater::spec_try_from(values), |k: UnitConditionInWater| ConditionKind::Unit(UnitConditionKind::InWater(k))),
            42 => lift_kind(UnitConditionStandState::spec_try_from(values), |k: UnitConditionStandState| ConditionKind::Unit(UnitConditionKind::StandState(k))),
            44 => lift_kind(UnitConditionCharmed::spec_try_from(values), |k: UnitConditionCharmed| ConditionKind::Unit(UnitConditionKind::Charmed(k))),
            102 => lift_kind(UnitConditionHasAuraType::spec_try_from(values), |k: UnitConditionHasAuraType| ConditionKind::Unit(UnitConditionKind::HasAuraType(k))),
            106 => lift_kind(UnitConditionInCombat::spec_try_from(values), |k: UnitConditionInCombat| ConditionKind::Unit(UnitConditionKind::InCombat(k))),
            4 => lift_kind(WorldObjectConditionZoneId::spec_try_from(values), |k: WorldObjectConditionZoneId| ConditionKind::WorldObject(WorldObjectConditionKind::ZoneId(k))),
            19 => lift_kind(WorldObjectConditionSpawnMask::spec_try_from(values), |k: WorldObjectConditionSpawnMask| ConditionKind::WorldObject(WorldObjectConditionKind::SpawnMask(k))),
            22 => lift_kind(WorldObjectConditionMapId::spec_try_from(values), |k: WorldObjectConditionMapId| ConditionKind::WorldObject(WorldObjectConditionKind::MapId(k))),
            23 => lift_kind(WorldObjectConditionAreaId::spec_try_from(values), |k: WorldObjectConditionAreaId| ConditionKind::WorldObject(WorldObjectConditionKind::AreaId(k))),
            26 => lift_kind(WorldObjectConditionPhaseMask::spec_try_from(values), |k: WorldObjectConditionPhaseMask| ConditionKind::WorldObject(WorldObjectConditionKind::PhaseMask(k))),
            32 => lift_kind(WorldObjectConditionTypeMask::spec_try_from(values), |k: WorldObjectConditionTypeMask| ConditionKind::WorldObject(WorldObjectConditionKind::TypeMask(k))),
            2 => lift_kind(PlayerConditionItem::spec_try_from(values), |k: PlayerConditionItem| ConditionKind::Player(PlayerConditionKind::Item(k))),
            3 => lift_kind(PlayerConditionItemEquipped::spec_try_from(values), |k: PlayerConditionItemEquipped| ConditionKind::Player(PlayerConditionKind::ItemEquipped(k))),
            5 => lift_kind(PlayerConditionReputationRank::spec_try_from(values), |k: PlayerConditionReputationRank| ConditionKind::Player(PlayerConditionKind::ReputationRank(k))),
            6 => lift_kind(PlayerConditionTeam::spec_try_from(values), |k: PlayerConditionTeam| ConditionKind::Player(PlayerConditionKind::Team(k))),
            7 => lift_kind(PlayerConditionSkill::spec_try_from(values), |k: PlayerConditionSkill| ConditionKind::Player(PlayerConditionKind::Skill(k))),
            8 => lift_kind(PlayerConditionQuestRewarded::spec_try_from(values), |k: PlayerConditionQuestRewarded| ConditionKind::Player(PlayerConditionKind::QuestRewarded(k))),
            9 => lift_kind(PlayerConditionQuestTaken::spec_try_from(values), |k: PlayerConditionQuestTaken| ConditionKind::Player(PlayerConditionKind::QuestTaken(k))),
            10 => lift_kind(PlayerConditionDrunkenState::spec_try_from(values), |k: PlayerConditionDrunkenState| ConditionKind::Player(PlayerConditionKind::DrunkenState(k))),
            14 => lift_kind(PlayerConditionQuestNone::spec_try_from(values), |k: PlayerConditionQuestNone| ConditionKind::Player(PlayerConditionKind::QuestNone(k))),
            17 => lift_kind(PlayerConditionAchievement::spec_try_from(values), |k: PlayerConditionAchievement| ConditionKind::Player(PlayerConditionKind::Achievement(k))),
            18 => lift_kind(PlayerConditionTitle::spec_try_from(values), |k: PlayerConditionTitle| ConditionKind::Player(PlayerConditionKind::Title(k))),
            20 => lift_kind(PlayerConditionGender::spec_try_from(values), |k: PlayerConditionGender| ConditionKind::Player(PlayerConditionKind::Gender(k))),
            25 => lift_kind(PlayerConditionSpell::spec_try_from(values), |k: PlayerConditionSpell| ConditionKind::Player(PlayerConditionKind::Spell(k))),
            28 => lift_kind(PlayerConditionQuestComplete::spec_try_from(values), |k: PlayerConditionQuestComplete| ConditionKind::Player(PlayerConditionKind::QuestComplete(k))),
            43 => lift_kind(PlayerConditionDailyQuestDone::spec_try_from(values), |k: PlayerConditionDailyQuestDone| ConditionKind::Player(PlayerConditionKind::DailyQuestDone(k))),
            45 => lift_kind(PlayerConditionPetType::spec_try_from(values), |k: PlayerConditionPetType| ConditionKind::Player(PlayerConditionKind::PetType(k))),
            46 => lift_kind(PlayerConditionTaxi::spec_try_from(values), |k: PlayerConditionTaxi| ConditionKind::Player(PlayerConditionKind::Taxi(k))),
            47 => lift_kind(PlayerConditionQuestState::spec_try_from(values), |k: PlayerConditionQuestState| ConditionKind::Player(PlayerConditionKind::QuestState(k))),
            48 => lift_kind(PlayerConditionQuestObjectiveProgress::spec_try_from(values), |k: PlayerConditionQuestObjectiveProgress| ConditionKind::Player(PlayerConditionKind::QuestObjectiveProgress(k))),
            101 => lift_kind(PlayerConditionQuestSatisfyExclusive::spec_try_from(values), |k: PlayerConditionQuestSatisfyExclusive| ConditionKind::Player(PlayerConditionKind::QuestSatisfyExclusive(k))),
            105 => lift_kind(PlayerConditionPlayerQueuedRandomDungeon::spec_try_from(values), |k: PlayerConditionPlayerQueuedRandomDungeon| ConditionKind::Player(PlayerConditionKind::PlayerQueuedRandomDungeon(k))),
            12 => lift_kind(GlobalConditionActiveEvent::spec_try_from(values), |k: GlobalConditionActiveEvent| ConditionKind::Global(GlobalConditionKind::ActiveEvent(k))),
            11 => lift_kind(GlobalConditionWorldState::spec_try_from(values), |k: GlobalConditionWorldState| ConditionKind::Global(GlobalConditionKind::WorldState(k))),
            103 => lift_kind(GlobalConditionWorldScript::spec_try_from(values), |k: GlobalConditionWorldScript| ConditionKind::Global(GlobalConditionKind::WorldScript(k))),
            39 => lift_kind(GlobalConditionRealmAchievement::spec_try_from(values), |k: GlobalConditionRealmAchievement| ConditionKind::Global(GlobalConditionKind::RealmAchievement(k))),
            24 => lift_kind(WorldObjectConditionCreatureType::spec_try_from(values), |k: WorldObjectConditionCreatureType| ConditionKind::WorldObject(WorldObjectConditionKind::CreatureType(k))),
            49 => lift_kind(WorldObjectConditionDifficultyId::spec_try_from(values), |k: WorldObjectConditionDifficultyId| ConditionKind::WorldObject(WorldObjectConditionKind::DifficultyId(k))),
            29 => lift_kind(WorldObjectConditionNearCreature::spec_try_from(values), |k: WorldObjectConditionNearCreature| ConditionKind::WorldObject(WorldObjectConditionKind::NearCreature(k))),
            30 => lift_kind(WorldObjectConditionNearGameObject::spec_try_from(values), |k: WorldObjectConditionNearGameObject| ConditionKind::WorldObject(WorldObjectConditionKind::NearGameObject(k))),
            31 => lift_kind(WorldObjectConditionObjectEntryGuid::spec_try_from(values), |k: WorldObjectConditionObjectEntryGuid| ConditionKind::WorldObject(WorldObjectConditionKind::ObjectEntryGuid(k))),
            13 => lift_kind(WorldObjectConditionInstanceInfo::spec_try_from(values), |k: WorldObjectConditionInstanceInfo| ConditionKind::WorldObject(WorldObjectConditionKind::InstanceInfo(k))),
            104 => lift_kind(WorldObjectConditionAiData::spec_try_from(values), |k: WorldObjectConditionAiData| ConditionKind::WorldObject(WorldObjectConditionKind::AiData(k))),
            33 => lift_kind(MultiTargetConditionRelationTo::spec_try_from(values), |k: MultiTargetConditionRelationTo| ConditionKind::MultiTarget(MultiTargetConditionKind::Relation(k))),
            34 => lift_kind(MultiTargetConditionReactionTo::spec_try_from(values), |k: MultiTargetConditionReactionTo| ConditionKind::MultiTarget(MultiTargetConditionKind::Reaction(k))),
            35 => lift_kind(MultiTargetConditionDistanceTo::spec_try_from(values), |k: MultiTargetConditionDistanceTo| ConditionKind::MultiTarget(MultiTargetConditionKind::Distance(k))),
            _ => Err(()),
        }
    }

    pub fn try_from(cond: u8, values: (u32, u32, u32)) -> (r: Result<ConditionKind, ()>)
        ensures
            r == Self::spec_try_from(cond, values),
    {
        match cond {
            1 => match UnitConditionAura::try_from(values) {
                Ok(k) => Ok(ConditionKind::Unit(UnitConditionKind::Aura(k))),
                Err(e) => Err(e),
            },
            15 => match UnitConditionClass::try_from(values) {
                Ok(k) => Ok(ConditionKind::Unit(UnitConditionKind::Class(k))),
                Err(e) => Err(e),
            },
            16 => match UnitConditionRace::try_from(values) {
                Ok(k) => Ok(ConditionKind::Unit(UnitConditionKind::Race(k))),
                Err(e) => Err(e),
            },
            21 => match UnitConditionUnitState::try_from(values) {
                Ok(k) => Ok(ConditionKind::Unit(UnitConditionKind::UnitState(k))),
                Err(e) => Err(e),
            },
            27 => match UnitConditionLevel::try_from(values) {
                Ok(k) => Ok(ConditionKind::Unit(UnitConditionKind::Level(k))),
                Err(e) => Err(e),
            },
            36 => match UnitConditionAlive::try_from(values) {
                Ok(k) => Ok(ConditionKind::Unit(UnitConditionKind::Alive(k))),
                Err(e) => Err(e),
            },
            37 => match UnitConditionHpVal::try_from(values) {
                Ok(k) => Ok(ConditionKind::Unit(UnitConditionKind::HpVal(k))),
                Err(e) => Err(e),
            },
            38 => match UnitConditionHpPct::try_from(values) {
                Ok(k) => Ok(ConditionKind::Unit(UnitConditionKind::HpPct(k))),
                Err(e) => Err(e),
            },
            40 => match UnitConditionInWater::try_from(values) {
                Ok(k) => Ok(ConditionKind::Unit(UnitConditionKind::InWater(k))),
                Err(e) => Err(e),
            },
            42 => match UnitConditionStandState::try_from(values) {
                Ok(k) => Ok(ConditionKind::Unit(UnitConditionKind::StandState(k))),
                Err(e) => Err(e),
            },
            44 => match UnitConditionCharmed::try_from(values) {
                Ok(k) => Ok(ConditionKind::Unit(UnitConditionKind::Charmed(k))),
                Err(e) => Err(e),
            },
            102 => match UnitConditionHasAuraType::try_from(values) {
                Ok(k) => Ok(ConditionKind::Unit(UnitConditionKind::HasAuraType(k))),
                Err(e) => Err(e),
            },
            106 => match UnitConditionInCombat::try_from(values) {
                Ok(k) => Ok(ConditionKind::Unit(UnitConditionKind::InCombat(k))),
                Err(e) => Err(e),
            },
            4 => match WorldObjectConditionZoneId::try_from(values) {
                Ok(k) => Ok(ConditionKind::WorldObject(WorldObjectConditionKind::ZoneId(k))),
                Err(e) => Err(e),
            },
            19 => match WorldObjectConditionSpawnMask::try_from(values) {
                Ok(k) => Ok(ConditionKind::WorldObject(WorldObjectConditionKind::SpawnMask(k))),
                Err(e) => Err(e),
            },
            22 => match WorldObjectConditionMapId::try_from(values) {
                Ok(k) => Ok(ConditionKind::WorldObject(WorldObjectConditionKind::MapId(k))),
                Err(e) => Err(e),
            },
            23 => match WorldObjectConditionAreaId::try_from(values) {
                Ok(k) => Ok(ConditionKind::WorldObject(WorldObjectConditionKind::AreaId(k))),
                Err(e) => Err(e),
            },
            26 => match WorldObjectConditionPhaseMask::try_from(values) {
                Ok(k) => Ok(ConditionKind::WorldObject(WorldObjectConditionKind::PhaseMask(k))),
                Err(e) => Err(e),
            },
            32 => match WorldObjectConditionTypeMask::try_from(values) {
                Ok(k) => Ok(ConditionKind::WorldObject(WorldObjectConditionKind::TypeMask(k))),
                Err(e) => Err(e),
            },
            2 => match PlayerConditionItem::try_from(values) {
                Ok(k) => Ok(ConditionKind::Player(PlayerConditionKind::Item(k))),
                Err(e) => Err(e),
            },
            3 => match PlayerConditionItemEquipped::try_from(values) {
                Ok(k) => Ok(ConditionKind::Player(PlayerConditionKind::ItemEquipped(k))),
                Err(e) => Err(e),
            },
            5 => match PlayerConditionReputationRank::try_from(values) {
                Ok(k) => Ok(ConditionKind::Player(PlayerConditionKind::ReputationRank(k))),
                Err(e) => Err(e),
            },
            6 => match PlayerConditionTeam::try_from(values) {
                Ok(k) => Ok(ConditionKind::Player(PlayerConditionKind::Team(k))),
                Err(e) => Err(e),
            },
            7 => match PlayerConditionSkill::try_from(values) {
                Ok(k) => Ok(ConditionKind::Player(PlayerConditionKind::Skill(k))),
                Err(e) => Err(e),
            },
            8 => match PlayerConditionQuestRewarded::try_from(values) {
                Ok(k) => Ok(ConditionKind::Player(PlayerConditionKind::QuestRewarded(k))),
                Err(e) => Err(e),
            },
            9 => match PlayerConditionQuestTaken::try_from(values) {
                Ok(k) => Ok(ConditionKind::Player(PlayerConditionKind::QuestTaken(k))),
                Err(e) => Err(e),
            },
            10 => match PlayerConditionDrunkenState::try_from(values) {
                Ok(k) => Ok(ConditionKind::Player(PlayerConditionKind::DrunkenState(k))),
                Err(e) => Err(e),
            },
            14 => match PlayerConditionQuestNone::try_from(values) {
                Ok(k) => Ok(ConditionKind::Player(PlayerConditionKind::QuestNone(k))),
                Err(e) => Err(e),
            },
            17 => match PlayerConditionAchievement::try_from(values) {
                Ok(k) => Ok(ConditionKind::Player(PlayerConditionKind::Achievement(k))),
                Err(e) => Err(e),
            },
            18 => match PlayerConditionTitle::try_from(values) {
                Ok(k) => Ok(ConditionKind::Player(PlayerConditionKind::Title(k))),
                Err(e) => Err(e),
            },
            20 => match PlayerConditionGender::try_from(values) {
                Ok(k) => Ok(ConditionKind::Player(PlayerConditionKind::Gender(k))),
                Err(e) => Err(e),
            },
            25 => match PlayerConditionSpell::try_from(values) {
                Ok(k) => Ok(ConditionKind::Player(PlayerConditionKind::Spell(k))),
                Err(e) => Err(e),
            },
            28 => match PlayerConditionQuestComplete::try_from(values) {
                Ok(k) => Ok(ConditionKind::Player(PlayerConditionKind::QuestComplete(k))),
                Err(e) => Err(e),
            },
            43 => match PlayerConditionDailyQuestDone::try_from(values) {
                Ok(k) => Ok(ConditionKind::Player(PlayerConditionKind::DailyQuestDone(k))),
                Err(e) => Err(e),
            },
            45 => match PlayerConditionPetType::try_from(values) {
                Ok(k) => Ok(ConditionKind::Player(PlayerConditionKind::PetType(k))),
                Err(e) => Err(e),
            },
            46 => match PlayerConditionTaxi::try_from(values) {
                Ok(k) => Ok(ConditionKind::Player(PlayerConditionKind::Taxi(k))),
                Err(e) => Err(e),
            },
            47 => match PlayerConditionQuestState::try_from(values) {
                Ok(k) => Ok(ConditionKind::Player(PlayerConditionKind::QuestState(k))),
                Err(e) => Err(e),
            },
            48 => match PlayerConditionQuestObjectiveProgress::try_from(values) {
                Ok(k) => Ok(ConditionKind::Player(PlayerConditionKind::QuestObjectiveProgress(k))),
                Err(e) => Err(e),
            },
            101 => match PlayerConditionQuestSatisfyExclusive::try_from(values) {
                Ok(k) => Ok(ConditionKind::Player(PlayerConditionKind::QuestSatisfyExclusive(k))),
                Err(e) => Err(e),
            },
            105 => match PlayerConditionPlayerQueuedRandomDungeon::try_from(values) {
                Ok(k) => Ok(ConditionKind::Player(PlayerConditionKind::PlayerQueuedRandomDungeon(k))),
                Err(e) => Err(e),
            },
            12 => match GlobalConditionActiveEvent::try_from(values) {
                Ok(k) => Ok(ConditionKind::Global(GlobalConditionKind::ActiveEvent(k))),
                Err(e) => Err(e),
            },
            11 => match GlobalConditionWorldState::try_from(values) {
                Ok(k) => Ok(ConditionKind::Global(GlobalConditionKind::WorldState(k))),
                Err(e) => Err(e),
            },
            103 => match GlobalConditionWorldScript::try_from(values) {
                Ok(k) => Ok(ConditionKind::Global(GlobalConditionKind::WorldScript(k))),
                Err(e) => Err(e),
            },
            39 => match GlobalConditionRealmAchievement::try_from(values) {
                Ok(k) => Ok(ConditionKind::Global(GlobalConditionKind::RealmAchievement(k))),
                Err(e) => Err(e),
            },
            24 => match WorldObjectConditionCreatureType::try_from(values) {
                Ok(k) => Ok(ConditionKind::WorldObject(WorldObjectConditionKind::CreatureType(k))),
                Err(e) => Err(e),
            },
            49 => match WorldObjectConditionDifficultyId::try_from(values) {
                Ok(k) => Ok(ConditionKind::WorldObject(WorldObjectConditionKind::DifficultyId(k))),
                Err(e) => Err(e),
            },
            29 => match WorldObjectConditionNearCreature::try_from(values) {
                Ok(k) => Ok(ConditionKind::WorldObject(WorldObjectConditionKind::NearCreature(k))),
                Err(e) => Err(e),
            },
            30 => match WorldObjectConditionNearGameObject::try_from(values) {
                Ok(k) => Ok(ConditionKind::WorldObject(WorldObjectConditionKind::NearGameObject(k))),
                Err(e) => Err(e),
            },
            31 => match WorldObjectConditionObjectEntryGuid::try_from(values) {
                Ok(k) => Ok(ConditionKind::WorldObject(WorldObjectConditionKind::ObjectEntryGuid(k))),
                Err(e) => Err(e),
            },
            13 => match WorldObjectConditionInstanceInfo::try_from(values) {
                Ok(k) => Ok(ConditionKind::WorldObject(WorldObjectConditionKind::InstanceInfo(k))),
                Err(e) => Err(e),
            },
            104 => match WorldObjectConditionAiData::try_from(values) {
                Ok(k) => Ok(ConditionKind::WorldObject(WorldObjectConditionKind::AiData(k))),
                Err(e) => Err(e),
            },
            33 => match MultiTargetConditionRelationTo::try_from(values) {
                Ok(k) => Ok(ConditionKind::MultiTarget(MultiTargetConditionKind::Relation(k))),
                Err(e) => Err(e),
            },
            34 => match MultiTargetConditionReactionTo::try_from(values) {
                Ok(k) => Ok(ConditionKind::MultiTarget(MultiTargetConditionKind::Reaction(k))),
                Err(e) => Err(e),
            },
            35 => match MultiTargetConditionDistanceTo::try_from(values) {
                Ok(k) => Ok(ConditionKind::MultiTarget(MultiTargetConditionKind::Distance(k))),
                Err(e) => Err(e),
            },
            _ => Err(()),
        }
    }
}

/// The unit condition types parse to the condition they name, with the row's
/// values in its fields: 1 aura, 15 class, 16 race, 21 unit state, 27 level,
/// 36 alive, 37 health value, 38 health percentage, 40 in water, 42 stand
/// state, 44 charmed, 102 aura type, 106 in combat.
pub proof fn lemma_unit_type_numbers(v: (u32, u32, u32))
    ensures
        ConditionKind::spec_try_from(1, v) == (Ok::<ConditionKind, ()>(ConditionKind::Unit(UnitConditionKind::Aura(UnitConditionAura { spell_id: v.0, eff_index: v.1 as u8, use_target: v.2 != 0 })))),
        ConditionKind::spec_try_from(15, v) == (Ok::<ConditionKind, ()>(ConditionKind::Unit(UnitConditionKind::Class(UnitConditionClass { class_mask: v.0 })))),
        ConditionKind::spec_try_from(16, v) == (Ok::<ConditionKind, ()>(ConditionKind::Unit(UnitConditionKind::Race(UnitConditionRace { race_mask: v.0 })))),
        ConditionKind::spec_try_from(21, v) == (Ok::<ConditionKind, ()>(ConditionKind::Unit(UnitConditionKind::UnitState(UnitConditionUnitState { state: v.0 })))),
        ConditionKind::spec_try_from(27, v) == (match ComparisonType::spec_from_repr(v.1) {
            Some(c) => Ok::<ConditionKind, ()>(ConditionKind::Unit(UnitConditionKind::Level(UnitConditionLevel { level: v.0, comparison: c }))),
            None => Err(()),
        }),
        ConditionKind::spec_try_from(36, v) == (Ok::<ConditionKind, ()>(ConditionKind::Unit(UnitConditionKind::Alive(UnitConditionAlive)))),
        ConditionKind::spec_try_from(37, v) == (match ComparisonType::spec_from_repr(v.1) {
            Some(c) => Ok::<ConditionKind, ()>(ConditionKind::Unit(UnitConditionKind::HpVal(UnitConditionHpVal { hp_val: v.0, comparison: c }))),
            None => Err(()),
        }),
        ConditionKind::spec_try_from(38, v) == (match ComparisonType::spec_from_repr(v.1) {
            Some(c) => Ok::<ConditionKind, ()>(ConditionKind::Unit(UnitConditionKind::HpPct(UnitConditionHpPct { hp_pct: v.0, comparison: c }))),
            None => Err(()),
        }),
        ConditionKind::spec_try_from(40, v) == (Ok::<ConditionKind, ()>(ConditionKind::Unit(UnitConditionKind::InWater(UnitConditionInWater)))),
        v.0 == 0 ==> ConditionKind::spec_try_from(42, v) == (Ok::<ConditionKind, ()>(ConditionKind::Unit(UnitConditionKind::StandState(UnitConditionStandState { kind: StandStateKind::Exact(v.1 as u8) })))),
        (v.0 == 1 && v.1 == 0) ==> ConditionKind::spec_try_from(42, v) == (Ok::<ConditionKind, ()>(ConditionKind::Unit(UnitConditionKind::StandState(UnitConditionStandState { kind: StandStateKind::Standing })))),
        (v.0 == 1 && v.1 == 1) ==> ConditionKind::spec_try_from(42, v) == (Ok::<ConditionKind, ()>(ConditionKind::Unit(UnitConditionKind::StandState(UnitConditionStandState { kind: StandStateKind::Sitting })))),
        (v.0 > 1 || (v.0 == 1 && v.1 > 1)) ==> ConditionKind::spec_try_from(42, v) is Err,
        ConditionKind::spec_try_from(44, v) == (Ok::<ConditionKind, ()>(ConditionKind::Unit(UnitConditionKind::Charmed(UnitConditionCharmed)))),
        ConditionKind::spec_try_from(102, v) == (Ok::<ConditionKind, ()>(ConditionKind::Unit(UnitConditionKind::HasAuraType(UnitConditionHasAuraType { aura_type: v.0 })))),
        ConditionKind::spec_try_from(106, v) == (Ok::<ConditionKind, ()>(ConditionKind::Unit(UnitConditionKind::InCombat(UnitConditionInCombat)))),
{
}

/// The world-object condition types parse to the condition they name, with the
/// row's values in its fields: 4 zone, 19 spawn mask, 22 map, 23 area, 26 phase
/// mask, 32 type mask, 24 creature type, 49 difficulty, 29 near creature, 30
/// near game object, 31 object entry, 13 instance info, 104 AI data.
pub proof fn lemma_world_object_type_numbers(v: (u32, u32, u32))
    ensures
        ConditionKind::spec_try_from(4, v) == (Ok::<ConditionKind, ()>(ConditionKind::WorldObject(WorldObjectConditionKind::ZoneId(WorldObjectConditionZoneId { zone_id: v.0 })))),
        ConditionKind::spec_try_from(19, v) == (Ok::<ConditionKind, ()>(ConditionKind::WorldObject(WorldObjectConditionKind::SpawnMask(WorldObjectConditionSpawnMask { spawn_mask: v.0 })))),
        ConditionKind::spec_try_from(22, v) == (Ok::<ConditionKind, ()>(ConditionKind::WorldObject(WorldObjectConditionKind::MapId(WorldObjectConditionMapId { map_id: v.0 })))),
        ConditionKind::spec_try_from(23, v) == (Ok::<ConditionKind, ()>(ConditionKind::WorldObject(WorldObjectConditionKind::AreaId(WorldObjectConditionAreaId { area_id: v.0 })))),
        ConditionKind::spec_try_from(26, v) == (Ok::<ConditionKind, ()>(ConditionKind::WorldObject(WorldObjectConditionKind::PhaseMask(WorldObjectConditionPhaseMask { phase_mask: v.0 })))),
        ConditionKind::spec_try_from(32, v) == (Ok::<ConditionKind, ()>(ConditionKind::WorldObject(WorldObjectConditionKind::TypeMask(WorldObjectConditionTypeMask { type_mask: v.0 as u16 })))),
        ConditionKind::spec_try_from(24, v) == (Ok::<ConditionKind, ()>(ConditionKind::WorldObject(WorldObjectConditionKind::CreatureType(WorldObjectConditionCreatureType { creature_type: v.0 })))),
        ConditionKind::spec_try_from(49, v) == (match Difficulty::spec_from_repr(v.0 as u8) {
            Some(d) => Ok::<ConditionKind, ()>(ConditionKind::WorldObject(WorldObjectConditionKind::DifficultyId(WorldObjectConditionDifficultyId { difficulty: d }))),
            None => Err(()),
        }),
        ConditionKind::spec_try_from(29, v) == (Ok::<ConditionKind, ()>(ConditionKind::WorldObject(WorldObjectConditionKind::NearCreature(WorldObjectConditionNearCreature { entry: v.0, distance_bits: v.1, alive: v.2 == 0 })))),
        ConditionKind::spec_try_from(30, v) == (Ok::<ConditionKind, ()>(ConditionKind::WorldObject(WorldObjectConditionKind::NearGameObject(WorldObjectConditionNearGameObject { entry: v.0, distance_bits: v.1, go_state: v.2 })))),
        ConditionKind::spec_try_from(31, v) == (match TypeId::spec_from_repr(v.0) {
            Some(t) => Ok::<ConditionKind, ()>(ConditionKind::WorldObject(WorldObjectConditionKind::ObjectEntryGuid(WorldObjectConditionObjectEntryGuid { type_id: t, entry: v.1, value3: v.2 }))),
            None => Err(()),
        }),
        ConditionKind::spec_try_from(13, v) == (match InstanceInfo::spec_from_repr(v.2) {
            Some(i) => Ok::<ConditionKind, ()>(ConditionKind::WorldObject(WorldObjectConditionKind::InstanceInfo(WorldObjectConditionInstanceInfo { data_id: v.0, data: v.1, info_type: i }))),
            None => Err(()),
        }),
        ConditionKind::spec_try_from(104, v) == (Ok::<ConditionKind, ()>(ConditionKind::WorldObject(WorldObjectConditionKind::AiData(WorldObjectConditionAiData { data_id: v.0, expected_value: v.1 })))),
{
}

/// The player condition types parse to the condition they name, with the row's
/// values in its fields: 2 item, 3 item equipped, 5 reputation, 6 team, 7
/// skill, 8 quest rewarded, 9 quest taken, 10 drunken state, 14 quest none, 17
/// achievement, 18 title, 20 gender, 25 spell, 28 quest complete, 43 daily
/// quest, 45 pet type, 46 taxi, 47 quest state, 48 objective progress, 101
/// exclusive group, 105 random dungeon queue.
pub proof fn lemma_player_type_numbers(v: (u32, u32, u32))
    ensures
        ConditionKind::spec_try_from(2, v) == (Ok::<ConditionKind, ()>(ConditionKind::Player(PlayerConditionKind::Item(PlayerConditionItem { item_id: v.0, count: v.1, check_bank: v.2 != 0 })))),
        ConditionKind::spec_try_from(3, v) == (Ok::<ConditionKind, ()>(ConditionKind::Player(PlayerConditionKind::ItemEquipped(PlayerConditionItemEquipped { item_id: v.0 })))),
        ConditionKind::spec_try_from(5, v) == (Ok::<ConditionKind, ()>(ConditionKind::Player(PlayerConditionKind::ReputationRank(PlayerConditionReputationRank { faction_id: v.0, rank_mask: v.1 })))),
        ConditionKind::spec_try_from(6, v) == (match Team::spec_from_repr(v.0) {
            Some(t) => Ok::<ConditionKind, ()>(ConditionKind::Player(PlayerConditionKind::Team(PlayerConditionTeam { team: t }))),
            None => Err(()),
        }),
        ConditionKind::spec_try_from(7, v) == (Ok::<ConditionKind, ()>(ConditionKind::Player(PlayerConditionKind::Skill(PlayerConditionSkill { skill_id: v.0, skill_value: v.1 })))),
        ConditionKind::spec_try_from(8, v) == (Ok::<ConditionKind, ()>(ConditionKind::Player(PlayerConditionKind::QuestRewarded(PlayerConditionQuestRewarded { quest_id: v.0 })))),
        ConditionKind::spec_try_from(9, v) == (Ok::<ConditionKind, ()>(ConditionKind::Player(PlayerConditionKind::QuestTaken(PlayerConditionQuestTaken { quest_id: v.0 })))),
        ConditionKind::spec_try_from(10, v) == (match DrunkenState::spec_from_repr(v.0) {
            Some(s) => Ok::<ConditionKind, ()>(ConditionKind::Player(PlayerConditionKind::DrunkenState(PlayerConditionDrunkenState { min_state: s }))),
            None => Err(()),
        }),
        ConditionKind::spec_try_from(14, v) == (Ok::<ConditionKind, ()>(ConditionKind::Player(PlayerConditionKind::QuestNone(PlayerConditionQuestNone { quest_id: v.0 })))),
        ConditionKind::spec_try_from(17, v) == (Ok::<ConditionKind, ()>(ConditionKind::Player(PlayerConditionKind::Achievement(PlayerConditionAchievement { achievement_id: v.0 })))),
        ConditionKind::spec_try_from(18, v) == (Ok::<ConditionKind, ()>(ConditionKind::Player(PlayerConditionKind::Title(PlayerConditionTitle { title_id: v.0 })))),
        ConditionKind::spec_try_from(20, v) == (Ok::<ConditionKind, ()>(ConditionKind::Player(PlayerConditionKind::Gender(PlayerConditionGender { gender: v.0 })))),
        ConditionKind::spec_try_from(25, v) == (Ok::<ConditionKind, ()>(ConditionKind::Player(PlayerConditionKind::Spell(PlayerConditionSpell { spell_id: v.0 })))),
        ConditionKind::spec_try_from(28, v) == (Ok::<ConditionKind, ()>(ConditionKind::Player(PlayerConditionKind::QuestComplete(PlayerConditionQuestComplete { quest_id: v.0 })))),
        ConditionKind::spec_try_from(43, v) == (Ok::<ConditionKind, ()>(ConditionKind::Player(PlayerConditionKind::DailyQuestDone(PlayerConditionDailyQuestDone { quest_id: v.0 })))),
        ConditionKind::spec_try_from(45, v) == (Ok::<ConditionKind, ()>(ConditionKind::Player(PlayerConditionKind::PetType(PlayerConditionPetType { mask: v.0 })))),
        ConditionKind::spec_try_from(46, v) == (Ok::<ConditionKind, ()>(ConditionKind::Player(PlayerConditionKind::Taxi(PlayerConditionTaxi)))),
        ConditionKind::spec_try_from(47, v) == (Ok::<ConditionKind, ()>(ConditionKind::Player(PlayerConditionKind::QuestState(PlayerConditionQuestState { quest_id: v.0, state_mask: v.1 })))),
        ConditionKind::spec_try_from(48, v) == (Ok::<ConditionKind, ()>(ConditionKind::Player(PlayerConditionKind::QuestObjectiveProgress(PlayerConditionQuestObjectiveProgress { quest_id: v.0, objective_index: v.1, objective_count: v.2 })))),
        ConditionKind::spec_try_from(101, v) == (Ok::<ConditionKind, ()>(ConditionKind::Player(PlayerConditionKind::QuestSatisfyExclusive(PlayerConditionQuestSatisfyExclusive { quest_id: v.0 })))),
        ConditionKind::spec_try_from(105, v) == (Ok::<ConditionKind, ()>(ConditionKind::Player(PlayerConditionKind::PlayerQueuedRandomDungeon(PlayerConditionPlayerQueuedRandomDungeon { check_difficulty: v.0, difficulty: v.1 })))),
{
}

/// The global and two-target condition types parse to the condition they
/// name, with the row's values in its fields: 12 active event, 11 world state,
/// 103 world script, 39 realm achievement; 33 relation, 34 reaction, 35
/// distance.
pub proof fn lemma_global_and_pair_type_numbers(v: (u32, u32, u32))
    ensures
        ConditionKind::spec_try_from(12, v) == (Ok::<ConditionKind, ()>(ConditionKind::Global(GlobalConditionKind::ActiveEvent(GlobalConditionActiveEvent { event_id: v.0 })))),
        ConditionKind::spec_try_from(11, v) == (Ok::<ConditionKind, ()>(ConditionKind::Global(GlobalConditionKind::WorldState(GlobalConditionWorldState { index: v.0, value: v.1 })))),
        ConditionKind::spec_try_from(103, v) == (Ok::<ConditionKind, ()>(ConditionKind::Global(GlobalConditionKind::WorldScript(GlobalConditionWorldScript { condition_id: v.0, state: v.1 })))),
        ConditionKind::spec_try_from(39, v) == (Ok::<ConditionKind, ()>(ConditionKind::Global(GlobalConditionKind::RealmAchievement(GlobalConditionRealmAchievement { achievement_id: v.0 })))),
        ConditionKind::spec_try_from(33, v) == (match Relation::spec_from_repr(v.1) {
            Some(r) => Ok::<ConditionKind, ()>(ConditionKind::MultiTarget(MultiTargetConditionKind::Relation(MultiTargetConditionRelationTo { target: v.0 as u8, relation_type: r }))),
            None => Err(()),
        }),
        ConditionKind::spec_try_from(34, v) == (Ok::<ConditionKind, ()>(ConditionKind::MultiTarget(MultiTargetConditionKind::Reaction(MultiTargetConditionReactionTo { target: v.0 as u8, rank_mask: v.1 })))),
        ConditionKind::spec_try_from(35, v) == (match ComparisonType::spec_from_repr(v.1) {
            Some(c) => Ok::<ConditionKind, ()>(ConditionKind::MultiTarget(MultiTargetConditionKind::Distance(MultiTargetConditionDistanceTo { target: v.0 as u8, distance_bits: v.2, comparison: c }))),
            None => Err(()),
        }),
{
}

} // verus!
