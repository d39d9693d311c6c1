//! Conditions on a unit: its auras, class, race, level, health and state.
use vstd::prelude::*;

use crate::bits::{has_bit, lemma_common_bit};
use crate::conditions::comparison::ComparisonType;
use crate::entities::unit::UnitRef;

verus! {

/// The unit conditions, one variant per condition type.
#[derive(Debug, Clone, Copy, PartialEq, Eq, Structural)]
pub enum UnitConditionKind {
    Aura(UnitConditionAura),
    Class(UnitConditionClass),
    Race(UnitConditionRace),
    Level(UnitConditionLevel),
    Alive(UnitConditionAlive),
    HpVal(UnitConditionHpVal),
    HpPct(UnitConditionHpPct),
    UnitState(UnitConditionUnitState),
    StandState(UnitConditionStandState),
    InWater(UnitConditionInWater),
    Charmed(UnitConditionCharmed),
    InCombat(UnitConditionInCombat),
    HasAuraType(UnitConditionHasAuraType),
}

/// The question that a unit condition puts to the unit, beyond its view.
#[derive(Debug, Clone, Copy, PartialEq, Eq, Structural)]
pub enum UnitQuery {
    /// The view decides.
    NoQuery,
    /// `HasAuraEffect(spell_id, eff_index)`.
    AuraEffect { spell_id: u32, eff_index: u8 },
    /// `HasUnitState(state)`.
    UnitState(u32),
    /// `HasAuraType(aura_type)`.
    AuraType(u32),
    /// Whether `GetHealthPct()` compares as `comparison` with `hp_pct` (as a
    /// 32-bit float).
    HealthPct { comparison: ComparisonType, hp_pct: u32 },
}

impl UnitConditionKind {
    pub open spec fn spec_query(self) -> UnitQuery {
        match self {
            UnitConditionKind::Aura(c) => UnitQuery::AuraEffect {
                spell_id: c.spell_id,
                eff_index: c.eff_index,
            },
            UnitConditionKind::UnitState(c) => UnitQuery::UnitState(c.state),
            UnitConditionKind::HasAuraType(c) => UnitQuery::AuraType(c.aura_type),
            UnitConditionKind::HpPct(c) => UnitQuery::HealthPct {
                comparison: c.comparison,
                hp_pct: c.hp_pct,
            },
            _ => UnitQuery::NoQuery,
        }
    }

    /// The question to put to the unit; its answer is handed to `meets`.
    pub fn query(&self) -> (r: UnitQuery)
        ensures
            r == self.spec_query(),
    {
        match self {
            UnitConditionKind::Aura(c) => UnitQuery::AuraEffect {
                spell_id: c.spell_id,
                eff_index: c.eff_index,
            },
            UnitConditionKind::UnitState(c) => UnitQuery::UnitState(c.state),
            UnitConditionKind::HasAuraType(c) => UnitQuery::AuraType(c.aura_type),
            UnitConditionKind::HpPct(c) => UnitQuery::HealthPct {
                comparison: c.comparison,
                hp_pct: c.hp_pct,
            },
            _ => UnitQuery::NoQuery,
        }
    }

    /// Each unit condition decided by its own `meets`, on the unit's view and on
    /// the unit's answer to `query()` (not consulted where it is `NoQuery`).
    pub open spec fn spec_meets(self, unit: UnitRef, answer: bool) -> bool {
        match self {
            UnitConditionKind::Aura(c) => c.spec_meets(answer),
            UnitConditionKind::Class(c) => c.spec_meets(unit),
            UnitConditionKind::Race(c) => c.spec_meets(unit),
            UnitConditionKind::Level(c) => c.spec_meets(unit),
            UnitConditionKind::Alive(c) => c.spec_meets(unit),
            UnitConditionKind::HpVal(c) => c.spec_meets(unit),
            UnitConditionKind::HpPct(c) => answer,
            UnitConditionKind::UnitState(c) => c.spec_meets(answer),
            UnitConditionKind::StandState(c) => c.spec_meets(unit),
            UnitConditionKind::InWater(c) => c.spec_meets(unit),
            UnitConditionKind::Charmed(c) => c.spec_meets(unit),
            UnitConditionKind::InCombat(c) => c.spec_meets(unit),
            UnitConditionKind::HasAuraType(c) => c.spec_meets(answer),
        }
    }

    pub fn meets(&self, unit: &UnitRef, answer: bool) -> (r: bool)
        ensures
            r == self.spec_meets(*unit, answer),
    {
        match self {
            UnitConditionKind::Aura(c) => c.meets(answer),
            UnitConditionKind::Class(c) => c.meets(unit),
            UnitConditionKind::Race(c) => c.meets(unit),
            UnitConditionKind::Level(c) => c.meets(unit),
            UnitConditionKind::Alive(c) => c.meets(unit),
            UnitConditionKind::HpVal(c) => c.meets(unit),
            UnitConditionKind::HpPct(_) => answer,
            UnitConditionKind::UnitState(c) => c.meets(answer),
            UnitConditionKind::StandState(c) => c.meets(unit),
            UnitConditionKind::InWater(c) => c.meets(unit),
            UnitConditionKind::Charmed(c) => c.meets(unit),
            UnitConditionKind::InCombat(c) => c.meets(unit),
            UnitConditionKind::HasAuraType(c) => c.meets(answer),
        }
    }
}

/// The unit carries the effect `eff_index` of the aura `spell_id`.
#[derive(Debug, Clone, Copy, PartialEq, Eq, Structural)]
pub struct UnitConditionAura {
    pub spell_id: u32,
    pub eff_index: u8,
    pub use_target: bool,
}

impl UnitConditionAura {
    pub open spec fn spec_try_from(values: (u32, u32, u32)) -> Result<Self, ()> {
        Ok(UnitConditionAura {
            spell_id: values.0,
            eff_index: values.1 as u8,
            use_target: values.2 != 0,
        })
    }

    pub fn try_from(values: (u32, u32, u32)) -> (r: Result<Self, ()>)
        ensures
            r == Self::spec_try_from(values),
    {
        Ok(UnitConditionAura {
            spell_id: values.0,
            eff_index: values.1 as u8,
            use_target: values.2 != 0,
        })
    }

    pub open spec fn spec_meets(self, has_aura_effect: bool) -> bool {
        has_aura_effect
    }

    /// Decides from the unit's answer to `HasAuraEffect(spell_id, eff_index)`.
    pub fn meets(&self, has_aura_effect: bool) -> (r: bool)
        ensures
            r == self.spec_meets(has_aura_effect),
    {
        has_aura_effect
    }
}

/// The unit's class is one of `class_mask`.
#[derive(Debug, Clone, Copy, PartialEq, Eq, Structural)]
pub struct UnitConditionClass {
    pub class_mask: u32,
}

impl UnitConditionClass {
    pub open spec fn spec_try_from(values: (u32, u32, u32)) -> Result<Self, ()> {
        Ok(UnitConditionClass { class_mask: values.0 })
    }

    pub fn try_from(values: (u32, u32, u32)) -> (r: Result<Self, ()>)
        ensures
            r == Self::spec_try_from(values),
    {
        Ok(UnitConditionClass { class_mask: values.0 })
    }

    pub open spec fn spec_meets(self, unit: UnitRef) -> bool {
        unit.class_mask & self.class_mask != 0
    }

    pub fn meets(&self, unit: &UnitRef) -> (r: bool)
        ensures
            r == self.spec_meets(*unit),
    {
        unit.class_mask & self.class_mask != 0
    }
}

/// The unit's race is one of `race_mask`.
#[derive(Debug, Clone, Copy, PartialEq, Eq, Structural)]
pub struct UnitConditionRace {
    pub race_mask: u32,
}

impl UnitConditionRace {
    pub open spec fn spec_try_from(values: (u32, u32, u32)) -> Result<Self, ()> {
        Ok(UnitConditionRace { race_mask: values.0 })
    }

    pub fn try_from(values: (u32, u32, u32)) -> (r: Result<Self, ()>)
        ensures
            r == Self::spec_try_from(values),
    {
        Ok(UnitConditionRace { race_mask: values.0 })
    }

    pub open spec fn spec_meets(self, unit: UnitRef) -> bool {
        unit.race_mask & self.race_mask != 0
    }

    pub fn meets(&self, unit: &UnitRef) -> (r: bool)
        ensures
            r == self.spec_meets(*unit),
    {
        unit.race_mask & self.race_mask != 0
    }
}

/// The unit's level compares as `comparison` with `level`.
#[derive(Debug, Clone, Copy, PartialEq, Eq, Structural)]
pub struct UnitConditionLevel {
    pub level: u32,
    pub comparison: ComparisonType,
}

impl UnitConditionLevel {
    pub open spec fn spec_try_from(values: (u32, u32, u32)) -> Result<Self, ()> {
        match ComparisonType::spec_from_repr(values.1) {
            Some(comparison) => Ok(UnitConditionLevel { level: values.0, comparison }),
            None => Err(()),
        }
    }

    pub fn try_from(values: (u32, u32, u32)) -> (r: Result<Self, ()>)
        ensures
            r == Self::spec_try_from(values),
    {
        match ComparisonType::from_repr(values.1) {
            Some(comparison) => Ok(UnitConditionLevel { level: values.0, comparison }),
            None => Err(()),
        }
    }

    pub open spec fn spec_meets(self, unit: UnitRef) -> bool {
        self.comparison.spec_compare(unit.level as int, self.level as int)
    }

    pub fn meets(&self, unit: &UnitRef) -> (r: bool)
        ensures
            r == self.spec_meets(*unit),
    {
        self.comparison.compare(unit.level as u32, self.level)
    }
}

/// The unit is alive.
#[derive(Debug, Clone, Copy, PartialEq, Eq, Structural)]
pub struct UnitConditionAlive;

impl UnitConditionAlive {
    pub open spec fn spec_try_from(values: (u32, u32, u32)) -> Result<Self, ()> {
        Ok(UnitConditionAlive)
    }

    pub fn try_from(values: (u32, u32, u32)) -> (r: Result<Self, ()>)
        ensures
            r == Self::spec_try_from(values),
    {
        Ok(UnitConditionAlive)
    }

    pub open spec fn spec_meets(self, unit: UnitRef) -> bool {
        unit.alive
    }

    pub fn meets(&self, unit: &UnitRef) -> (r: bool)
        ensures
            r == self.spec_meets(*unit),
    {
        unit.alive
    }
}

/// The unit's health compares as `comparison` with `hp_val`.
#[derive(Debug, Clone, Copy, PartialEq, Eq, Structural)]
pub struct UnitConditionHpVal {
    pub hp_val: u32,
    pub comparison: ComparisonType,
}

impl UnitConditionHpVal {
    pub open spec fn spec_try_from(values: (u32, u32, u32)) -> Result<Self, ()> {
        match ComparisonType::spec_from_repr(values.1) {
            Some(comparison) => Ok(UnitConditionHpVal { hp_val: values.0, comparison }),
            None => Err(()),
        }
    }

    pub fn try_from(values: (u32, u32, u32)) -> (r: Result<Self, ()>)
        ensures
            r == Self::spec_try_from(values),
    {
        match ComparisonType::from_repr(values.1) {
            Some(comparison) => Ok(UnitConditionHpVal { hp_val: values.0, comparison }),
            None => Err(()),
        }
    }

    pub open spec fn spec_meets(self, unit: UnitRef) -> bool {
        self.comparison.spec_compare(unit.health as int, self.hp_val as int)
    }

    pub fn meets(&self, unit: &UnitRef) -> (r: bool)
        ensures
            r == self.spec_meets(*unit),
    {
        self.comparison.compare(unit.health, self.hp_val)
    }
}

/// The unit's health percentage compares as `comparison` with `hp_pct`.
///
/// The percentage of a unit is a floating-point number; the comparison is
/// made where the percentage is read.
#[derive(Debug, Clone, Copy, PartialEq, Eq, Structural)]
pub struct UnitConditionHpPct {
    /// The whole percentage of the condition row (compared as a float).
    pub hp_pct: u32,
    pub comparison: ComparisonType,
}

impl UnitConditionHpPct {
    pub open spec fn spec_try_from(values: (u32, u32, u32)) -> Result<Self, ()> {
        match ComparisonType::spec_from_repr(values.1) {
            Some(comparison) => Ok(UnitConditionHpPct { hp_pct: values.0, comparison }),
            None => Err(()),
        }
    }

    pub fn try_from(values: (u32, u32, u32)) -> (r: Result<Self, ()>)
        ensures
            r == Self::spec_try_from(values),
    {
        match ComparisonType::from_repr(values.1) {
            Some(comparison) => Ok(UnitConditionHpPct { hp_pct: values.0, comparison }),
            None => Err(()),
        }
    }
}

/// The unit is in one of the unit states `state`.
#[derive(Debug, Clone, Copy, PartialEq, Eq, Structural)]
pub struct UnitConditionUnitState {
    pub state: u32,
}

impl UnitConditionUnitState {
    pub open spec fn spec_try_from(values: (u32, u32, u32)) -> Result<Self, ()> {
        Ok(UnitConditionUnitState { state: values.0 })
    }

    pub fn try_from(values: (u32, u32, u32)) -> (r: Result<Self, ()>)
        ensures
            r == Self::spec_try_from(values),
    {
        Ok(UnitConditionUnitState { state: values.0 })
    }

    pub open spec fn spec_meets(self, has_unit_state: bool) -> bool {
        has_unit_state
    }

    /// Decides from the unit's answer to `HasUnitState(state)`.
    pub fn meets(&self, has_unit_state: bool) -> (r: bool)
        ensures
            r == self.spec_meets(has_unit_state),
    {
        has_unit_state
    }
}

/// Which stand state a stand-state condition asks for.
#[derive(Debug, Clone, Copy, PartialEq, Eq, Structural)]
pub enum StandStateKind {
    /// The unit's stand state is exactly this one.
    Exact(u8),
    /// The unit stands.
    Standing,
    /// The unit sits.
    Sitting,
}

/// The unit is in the stand state of `kind`.
#[derive(Debug, Clone, Copy, PartialEq, Eq, Structural)]
pub struct UnitConditionStandState {
    pub kind: StandStateKind,
}

impl UnitConditionStandState {
    /// Value 1 is 0 for an exact state (value 2), or 1 for standing (value 2 is 0)
    /// or sitting (value 2 is 1); any other pair is refused.
    pub open spec fn spec_try_from(values: (u32, u32, u32)) -> Result<Self, ()> {
        if values.0 == 0 {
            Ok(UnitConditionStandState { kind: StandStateKind::Exact(values.1 as u8) })
        } else if values.0 == 1 && values.1 == 0 {
            Ok(UnitConditionStandState { kind: StandStateKind::Standing })
        } else if values.0 == 1 && values.1 == 1 {
            Ok(UnitConditionStandState { kind: StandStateKind::Sitting })
        } else {
            Err(())
        }
    }

    pub fn try_from(values: (u32, u32, u32)) -> (r: Result<Self, ()>)
        ensures
            r == Self::spec_try_from(values),
    {
        let kind = match values.0 {
            0 => StandStateKind::Exact(values.1 as u8),
            1 if values.1 == 0 => StandStateKind::Standing,
            1 if values.1 == 1 => StandStateKind::Sitting,
            _ => return Err(()),
        };
        Ok(UnitConditionStandState { kind })
    }

    pub open spec fn spec_meets(self, unit: UnitRef) -> bool {
        match self.kind {
            StandStateKind::Exact(state) => unit.stand_state == state,
            StandStateKind::Standing => unit.is_stand_state,
            StandStateKind::Sitting => unit.is_sit_state,
        }
    }

    pub fn meets(&self, unit: &UnitRef) -> (r: bool)
        ensures
            r == self.spec_meets(*unit),
    {
        match self.kind {
            StandStateKind::Exact(state) => unit.stand_state == state,
            StandStateKind::Standing => unit.is_stand_state,
            StandStateKind::Sitting => unit.is_sit_state,
        }
    }
}

/// The unit is in water.
#[derive(Debug, Clone, Copy, PartialEq, Eq, Structural)]
pub struct UnitConditionInWater;

impl UnitConditionInWater {
    pub open spec fn spec_try_from(values: (u32, u32, u32)) -> Result<Self, ()> {
        Ok(UnitConditionInWater)
    }

    pub fn try_from(values: (u32, u32, u32)) -> (r: Result<Self, ()>)
        ensures
            r == Self::spec_try_from(values),
    {
        Ok(UnitConditionInWater)
    }

    pub open spec fn spec_meets(self, unit: UnitRef) -> bool {
        unit.in_water
    }

    pub fn meets(&self, unit: &UnitRef) -> (r: bool)
        ensures
            r == self.spec_meets(*unit),
    {
        unit.in_water
    }
}

/// The unit is charmed.
#[derive(Debug, Clone, Copy, PartialEq, Eq, Structural)]
pub struct UnitConditionCharmed;

impl UnitConditionCharmed {
    pub open spec fn spec_try_from(values: (u32, u32, u32)) -> Result<Self, ()> {
        Ok(UnitConditionCharmed)
    }

    pub fn try_from(values: (u32, u32, u32)) -> (r: Result<Self, ()>)
        ensures
            r == Self::spec_try_from(values),
    {
        Ok(UnitConditionCharmed)
    }

    pub open spec fn spec_meets(self, unit: UnitRef) -> bool {
        unit.charmed
    }

    pub fn meets(&self, unit: &UnitRef) -> (r: bool)
        ensures
            r == self.spec_meets(*unit),
    {
        unit.charmed
    }
}

/// The unit is in combat.
#[derive(Debug, Clone, Copy, PartialEq, Eq, Structural)]
pub struct UnitConditionInCombat;

impl UnitConditionInCombat {
    pub open spec fn spec_try_from(values: (u32, u32, u32)) -> Result<Self, ()> {
        Ok(UnitConditionInCombat)
    }

    pub fn try_from(values: (u32, u32, u32)) -> (r: Result<Self, ()>)
        ensures
            r == Self::spec_try_from(values),
    {
        Ok(UnitConditionInCombat)
    }

    pub open spec fn spec_meets(self, unit: UnitRef) -> bool {
        unit.in_combat
    }

    pub fn meets(&self, unit: &UnitRef) -> (r: bool)
        ensures
            r == self.spec_meets(*unit),
    {
        unit.in_combat
    }
}

/// The unit carries an aura of type `aura_type`.
#[derive(Debug, Clone, Copy, PartialEq, Eq, Structural)]
pub struct UnitConditionHasAuraType {
    pub aura_type: u32,
}

impl UnitConditionHasAuraType {
    pub open spec fn spec_try_from(values: (u32, u32, u32)) -> Result<Self, ()> {
        Ok(UnitConditionHasAuraType { aura_type: values.0 })
    }

    pub fn try_from(values: (u32, u32, u32)) -> (r: Result<Self, ()>)
        ensures
            r == Self::spec_try_from(values),
    {
        Ok(UnitConditionHasAuraType { aura_type: values.0 })
    }

    pub open spec fn spec_meets(self, has_aura_type: bool) -> bool {
        has_aura_type
    }

    /// Decides from the unit's answer to `HasAuraType(aura_type)`.
    pub fn meets(&self, has_aura_type: bool) -> (r: bool)
        ensures
            r == self.spec_meets(has_aura_type),
    {
        has_aura_type
    }
}


/// The class and race conditions hold as soon as the unit's class (race) is one
/// that the mask names, and never when it is none of them.
pub proof fn lemma_class_race_share_a_bit(
    class: UnitConditionClass,
    race: UnitConditionRace,
    u: UnitRef,
    i: u32,
)
    ensures
        (i < 32 && has_bit(u.class_mask, i) && has_bit(class.class_mask, i)) ==> class.spec_meets(u),
        u.class_mask & class.class_mask == 0 ==> !class.spec_meets(u),
        (i < 32 && has_bit(u.race_mask, i) && has_bit(race.race_mask, i)) ==> race.spec_meets(u),
        u.race_mask & race.race_mask == 0 ==> !race.spec_meets(u),
{
    if i < 32 && has_bit(u.class_mask, i) && has_bit(class.class_mask, i) {
        lemma_common_bit(u.class_mask, class.class_mask, i);
    }
    if i < 32 && has_bit(u.race_mask, i) && has_bit(race.race_mask, i) {
        lemma_common_bit(u.race_mask, race.race_mask, i);
    }
}

/// The level and health-value conditions compare the unit's value (on the
/// left) with the row's value (on the right) by the row's comparison.
pub proof fn lemma_level_and_health_compare(level: UnitConditionLevel, hp: UnitConditionHpVal, u: UnitRef)
    ensures
        level.comparison == ComparisonType::Eq ==> (level.spec_meets(u) <==> u.level as u32 == level.level),
        level.comparison == ComparisonType::High ==> (level.spec_meets(u) <==> u.level as u32 > level.level),
        level.comparison == ComparisonType::Low ==> (level.spec_meets(u) <==> (u.level as u32) < level.level),
        level.comparison == ComparisonType::HighEq ==> (level.spec_meets(u) <==> u.level as u32
            >= level.level),
        level.comparison == ComparisonType::LowEq ==> (level.spec_meets(u) <==> u.level as u32
            <= level.level),
        hp.comparison == ComparisonType::Eq ==> (hp.spec_meets(u) <==> u.health == hp.hp_val),
        hp.comparison == ComparisonType::High ==> (hp.spec_meets(u) <==> u.health > hp.hp_val),
        hp.comparison == ComparisonType::Low ==> (hp.spec_meets(u) <==> u.health < hp.hp_val),
        hp.comparison == ComparisonType::HighEq ==> (hp.spec_meets(u) <==> u.health >= hp.hp_val),
        hp.comparison == ComparisonType::LowEq ==> (hp.spec_meets(u) <==> u.health <= hp.hp_val),
{
}

/// The stand-state condition: an exact state holds exactly when the unit is in
/// it; "standing" and "sitting" hold exactly when the unit stands or sits.
pub proof fn lemma_stand_state(c: UnitConditionStandState, u: UnitRef)
    ensures
        c.kind matches StandStateKind::Exact(s) ==> (c.spec_meets(u) <==> u.stand_state == s),
        c.kind is Standing ==> (c.spec_meets(u) <==> u.is_stand_state),
        c.kind is Sitting ==> (c.spec_meets(u) <==> u.is_sit_state),
{
}

/// The conditions read from the unit's view hold exactly when the unit is
/// alive, in water, charmed or in combat.
pub proof fn lemma_unit_view_conditions(
    alive: UnitConditionAlive,
    water: UnitConditionInWater,
    charmed: UnitConditionCharmed,
    combat: UnitConditionInCombat,
    u: UnitRef,
)
    ensures
        alive.spec_meets(u) == u.alive,
        water.spec_meets(u) == u.in_water,
        charmed.spec_meets(u) == u.charmed,
        combat.spec_meets(u) == u.in_combat,
{
}

/// The conditions answered by one question to the unit hold exactly when the
/// answer is yes: aura effect, unit state, aura type, health percentage.
pub proof fn lemma_unit_flag_conditions(
    aura: UnitConditionAura,
    state: UnitConditionUnitState,
    aura_type: UnitConditionHasAuraType,
    pct: UnitConditionHpPct,
    u: UnitRef,
    b: bool,
)
    ensures
        aura.spec_meets(b) == b,
        state.spec_meets(b) == b,
        aura_type.spec_meets(b) == b,
        UnitConditionKind::HpPct(pct).spec_meets(u, b) == b,
{
}

/// Each unit condition is decided by its own `meets`, and asks the unit the
/// question that its fields name.
pub proof fn lemma_unit_dispatch(k: UnitConditionKind, u: UnitRef, b: bool)
    ensures
        k matches UnitConditionKind::Aura(c) ==> k.spec_meets(u, b) == c.spec_meets(b)
            && k.spec_query() == (UnitQuery::AuraEffect { spell_id: c.spell_id, eff_index: c.eff_index }),
        k matches UnitConditionKind::Class(c) ==> k.spec_meets(u, b) == c.spec_meets(u)
            && k.spec_query() == UnitQuery::NoQuery,
        k matches UnitConditionKind::Race(c) ==> k.spec_meets(u, b) == c.spec_meets(u)
            && k.spec_query() == UnitQuery::NoQuery,
        k matches UnitConditionKind::Level(c) ==> k.spec_meets(u, b) == c.spec_meets(u)
            && k.spec_query() == UnitQuery::NoQuery,
        k matches UnitConditionKind::Alive(c) ==> k.spec_meets(u, b) == c.spec_meets(u)
            && k.spec_query() == UnitQuery::NoQuery,
        k matches UnitConditionKind::HpVal(c) ==> k.spec_meets(u, b) == c.spec_meets(u)
            && k.spec_query() == UnitQuery::NoQuery,
        k matches UnitConditionKind::HpPct(c) ==> k.spec_query() == (UnitQuery::HealthPct {
            comparison: c.comparison,
            hp_pct: c.hp_pct,
        }),
        k matches UnitConditionKind::UnitState(c) ==> k.spec_meets(u, b) == c.spec_meets(b)
            && k.spec_query() == UnitQuery::UnitState(c.state),
        k matches UnitConditionKind::StandState(c) ==> k.spec_meets(u, b) == c.spec_meets(u)
            && k.spec_query() == UnitQuery::NoQuery,
        k matches UnitConditionKind::InWater(c) ==> k.spec_meets(u, b) == c.spec_meets(u)
            && k.spec_query() == UnitQuery::NoQuery,
        k matches UnitConditionKind::Charmed(c) ==> k.spec_meets(u, b) == c.spec_meets(u)
            && k.spec_query() == UnitQuery::NoQuery,
        k matches UnitConditionKind::InCombat(c) ==> k.spec_meets(u, b) == c.spec_meets(u)
            && k.spec_query() == UnitQuery::NoQuery,
        k matches UnitConditionKind::HasAuraType(c) ==> k.spec_meets(u, b) == c.spec_meets(b)
            && k.spec_query() == UnitQuery::AuraType(c.aura_type),
{
}

} // verus!
