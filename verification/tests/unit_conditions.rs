use azerrust::conditions::comparison::ComparisonType;
use azerrust::conditions::unit::{
    StandStateKind, UnitConditionAlive, UnitConditionAura, UnitConditionCharmed, UnitConditionClass,
    UnitConditionHasAuraType, UnitConditionHpVal, UnitConditionInCombat, UnitConditionInWater,
    UnitConditionLevel, UnitConditionRace, UnitConditionStandState, UnitConditionUnitState,
};
use azerrust::entities::unit::UnitRef;

fn unit() -> UnitRef {
    UnitRef {
        level: 70,
        class_mask: 0x4,
        race_mask: 0x2,
        alive: true,
        health: 1500,
        stand_state: 1,
        is_stand_state: false,
        is_sit_state: true,
        in_water: false,
        charmed: true,
        in_combat: false,
    }
}

#[test]
fn class_and_race_masks() {
    let u = unit();
    assert!(UnitConditionClass { class_mask: 0x5 }.meets(&u));
    assert!(!UnitConditionClass { class_mask: 0x8 }.meets(&u));
    assert!(UnitConditionRace { race_mask: 0x3 }.meets(&u));
    assert!(!UnitConditionRace { race_mask: 0x1 }.meets(&u));
    assert!(!UnitConditionRace { race_mask: 0 }.meets(&u));
}

#[test]
fn level_and_health_comparisons() {
    let u = unit();
    assert!(UnitConditionLevel { level: 70, comparison: ComparisonType::Eq }.meets(&u));
    assert!(UnitConditionLevel { level: 60, comparison: ComparisonType::High }.meets(&u));
    assert!(!UnitConditionLevel { level: 70, comparison: ComparisonType::Low }.meets(&u));
    assert!(UnitConditionLevel { level: 80, comparison: ComparisonType::LowEq }.meets(&u));
    assert!(UnitConditionHpVal { hp_val: 1500, comparison: ComparisonType::HighEq }.meets(&u));
    assert!(!UnitConditionHpVal { hp_val: 1501, comparison: ComparisonType::HighEq }.meets(&u));
}

#[test]
fn flags_of_the_unit() {
    let u = unit();
    assert!(UnitConditionAlive.meets(&u));
    assert!(!UnitConditionInWater.meets(&u));
    assert!(UnitConditionCharmed.meets(&u));
    assert!(!UnitConditionInCombat.meets(&u));
    let dead = UnitRef { alive: false, in_combat: true, in_water: true, charmed: false, ..u };
    assert!(!UnitConditionAlive.meets(&dead));
    assert!(UnitConditionInCombat.meets(&dead));
    assert!(UnitConditionInWater.meets(&dead));
    assert!(!UnitConditionCharmed.meets(&dead));
}

#[test]
fn stand_states() {
    let u = unit();
    assert!(UnitConditionStandState { kind: StandStateKind::Exact(1) }.meets(&u));
    assert!(!UnitConditionStandState { kind: StandStateKind::Exact(0) }.meets(&u));
    assert!(!UnitConditionStandState { kind: StandStateKind::Standing }.meets(&u));
    assert!(UnitConditionStandState { kind: StandStateKind::Sitting }.meets(&u));
}

#[test]
fn answers_of_the_unit() {
    let aura = UnitConditionAura { spell_id: 1, eff_index: 0, use_target: false };
    assert!(aura.meets(true));
    assert!(!aura.meets(false));
    assert!(UnitConditionUnitState { state: 4 }.meets(true));
    assert!(!UnitConditionUnitState { state: 4 }.meets(false));
    assert!(UnitConditionHasAuraType { aura_type: 3 }.meets(true));
    assert!(!UnitConditionHasAuraType { aura_type: 3 }.meets(false));
}
