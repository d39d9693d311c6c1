use azerrust::conditions::global::{GlobalAnswer, GlobalConditionKind, GlobalConditionWorldState};
use azerrust::conditions::kind::ConditionKind;
use azerrust::conditions::multi_target::{MultiTargetAnswer, RelationAnswers};
use azerrust::conditions::player::PlayerAnswer;
use azerrust::conditions::unit::{UnitConditionClass, UnitConditionKind};
use azerrust::conditions::world_object::WorldObjectAnswer;
use azerrust::conditions::{meets, result_code, Condition, ConditionRow, Found, TargetNeed};
use azerrust::entities::object::WorldObjectRef;
use azerrust::entities::player::PlayerRef;
use azerrust::entities::unit::UnitRef;

fn row(cond_type: u8, val1: u32, val2: u32, val3: u32, negative: bool) -> ConditionRow {
    ConditionRow { cond_type, val1, val2, val3, negative, target: 0 }
}

fn unit() -> UnitRef {
    UnitRef {
        level: 80,
        class_mask: 0x4,
        race_mask: 0x1,
        alive: true,
        health: 100,
        stand_state: 0,
        is_stand_state: true,
        is_sit_state: false,
        in_water: false,
        charmed: false,
        in_combat: true,
    }
}

fn object() -> WorldObjectRef {
    WorldObjectRef { zone_id: 12, map_id: 0, area_id: 87, phase_mask: 1, entry: 5, raw_type_id: 3 }
}

#[test]
fn empty_condition_always_holds() {
    let r = row(0, 7, 8, 9, false);
    let c = Condition::try_from(r).unwrap();
    assert_eq!(c, Condition { target: 0, kind: None, negative: false });
    assert_eq!(c.need(), TargetNeed::Nothing);
    assert_eq!(c.conclude(Err(())), Ok(true));
    assert_eq!(c.meets(Found::Missing), Ok(true));
    let mut asked = false;
    assert_eq!(meets(r, |_| { asked = true; Found::Missing }), 1);
    assert!(!asked);
}

#[test]
fn negated_empty_condition_never_holds() {
    assert_eq!(meets(row(0, 0, 0, 0, true), |_| Found::Missing), 0);
}

#[test]
fn negation_flips_result() {
    let plain = Condition::try_from(row(15, 4, 0, 0, false)).unwrap();
    let negated = Condition::try_from(row(15, 4, 0, 0, true)).unwrap();
    assert_eq!(plain.conclude(Ok(true)), Ok(true));
    assert_eq!(negated.conclude(Ok(true)), Ok(false));
    assert_eq!(plain.conclude(Err(())), Err(()));
    assert_eq!(negated.conclude(Err(())), Err(()));
    assert_eq!(plain.meets(Found::Unit(unit(), false)), Ok(true));
    assert_eq!(negated.meets(Found::Unit(unit(), false)), Ok(false));
    let other_class = UnitRef { class_mask: 0x8, ..unit() };
    assert_eq!(plain.meets(Found::Unit(other_class, false)), Ok(false));
    assert_eq!(negated.meets(Found::Unit(other_class, false)), Ok(true));
}

#[test]
fn codes_of_results() {
    assert_eq!(result_code(Ok(true)), 1);
    assert_eq!(result_code(Ok(false)), 0);
    assert_eq!(result_code(Err(())), -1);
}

#[test]
fn meets_parses_then_looks() {
    let r = ConditionRow { cond_type: 15, val1: 0x4, val2: 0, val3: 0, negative: false, target: 1 };
    let mut seen = None;
    let code = meets(r, |c| {
        seen = Some(*c);
        Found::Unit(unit(), false)
    });
    assert_eq!(code, 1);
    let c = seen.unwrap();
    assert_eq!(
        c,
        Condition {
            target: 1,
            kind: Some(ConditionKind::Unit(UnitConditionKind::Class(UnitConditionClass {
                class_mask: 4
            }))),
            negative: false,
        }
    );
    assert_eq!(c.need(), TargetNeed::Unit(1));
    assert_eq!(meets(ConditionRow { negative: true, ..r }, |_| Found::Unit(unit(), false)), 0);
}

#[test]
fn targets_needed_by_each_group() {
    let need = |t: u8, v: (u32, u32, u32)| {
        Condition::try_from(ConditionRow { cond_type: t, val1: v.0, val2: v.1, val3: v.2, negative: false, target: 3 })
            .unwrap()
            .need()
    };
    assert_eq!(need(36, (0, 0, 0)), TargetNeed::Unit(3));
    assert_eq!(need(4, (0, 0, 0)), TargetNeed::Object(3));
    assert_eq!(need(8, (0, 0, 0)), TargetNeed::Player(3));
    assert_eq!(need(11, (0, 0, 0)), TargetNeed::Nothing);
    assert_eq!(need(34, (1, 0, 0)), TargetNeed::Pair(3, 1));
}

#[test]
fn unit_conditions_always_decide() {
    // an absent object: not met, negated or not
    assert_eq!(meets(row(36, 0, 0, 0, false), |_| Found::Missing), 0);
    assert_eq!(meets(row(36, 0, 0, 0, true), |_| Found::Missing), 0);
    // an object that is no unit: not met, then negated
    assert_eq!(meets(row(36, 0, 0, 0, false), |_| Found::NotInForm), 0);
    assert_eq!(meets(row(36, 0, 0, 0, true), |_| Found::NotInForm), 1);
}

#[test]
fn other_groups_fall_back_on_absent_targets() {
    assert_eq!(meets(row(4, 12, 0, 0, false), |_| Found::Missing), -1);
    assert_eq!(meets(row(8, 1, 0, 0, false), |_| Found::Missing), -1);
    assert_eq!(meets(row(8, 1, 0, 0, false), |_| Found::NotInForm), -1);
    assert_eq!(meets(row(33, 1, 1, 0, false), |_| Found::Missing), -1);
}

#[test]
fn each_group_decides_on_its_findings() {
    assert_eq!(meets(row(4, 12, 0, 0, false), |_| Found::Object(object(), WorldObjectAnswer::NoAnswer)), 1);
    assert_eq!(meets(row(4, 13, 0, 0, true), |_| Found::Object(object(), WorldObjectAnswer::NoAnswer)), 1);
    let player = PlayerRef { raw_team_id: 0, gender: 0, drunk_value: 0, in_flight: false };
    assert_eq!(meets(row(8, 1, 0, 0, false), |_| Found::Player(player, PlayerAnswer::Flag(true))), 1);
    assert_eq!(meets(row(9, 1, 0, 0, false), |_| Found::Player(player, PlayerAnswer::Status(9))), -1);
    let answers = RelationAnswers {
        same_unit: false,
        in_party: true,
        in_raid: true,
        owned_by: false,
        passenger_of: false,
        created_by: false,
    };
    assert_eq!(meets(row(33, 1, 1, 0, false), |_| Found::Pair(MultiTargetAnswer::Relation(Some(answers)))), 1);
    assert_eq!(meets(row(33, 1, 3, 0, false), |_| Found::Pair(MultiTargetAnswer::Relation(Some(answers)))), 0);
    assert_eq!(meets(row(33, 1, 3, 0, false), |_| Found::Pair(MultiTargetAnswer::Relation(None))), -1);
}

#[test]
fn global_conditions_decide_without_targets() {
    let c = Condition::try_from(row(11, 3000, 5, 0, false)).unwrap();
    assert_eq!(c.need(), TargetNeed::Nothing);
    assert_eq!(
        c.kind,
        Some(ConditionKind::Global(GlobalConditionKind::WorldState(GlobalConditionWorldState {
            index: 3000,
            value: 5
        })))
    );
    assert_eq!(c.meets(Found::Global(GlobalAnswer::Value(5))), Ok(true));
    assert_eq!(c.meets(Found::Global(GlobalAnswer::Value(6))), Ok(false));
    assert_eq!(meets(row(11, 3000, 5, 0, true), |_| Found::Global(GlobalAnswer::Value(5))), 0);
    assert_eq!(meets(row(12, 7, 0, 0, false), |_| Found::Global(GlobalAnswer::Flag(true))), 1);
}

#[test]
fn unknown_types_fall_back_without_asking() {
    for t in [41u8, 50, 77, 100, 107, 200, 255] {
        let mut asked = false;
        assert!(Condition::try_from(row(t, 1, 2, 3, false)).is_err());
        assert_eq!(meets(row(t, 1, 2, 3, false), |_| { asked = true; Found::Missing }), -1);
        assert!(!asked);
    }
}

#[test]
fn refused_values_fall_back() {
    // level condition with comparison 5, which names no comparison
    assert!(Condition::try_from(row(27, 10, 5, 0, false)).is_err());
    assert_eq!(meets(row(27, 10, 5, 0, false), |_| Found::Unit(unit(), false)), -1);
}

#[test]
fn target_is_kept() {
    let c = Condition::try_from(ConditionRow {
        cond_type: 36,
        val1: 0,
        val2: 0,
        val3: 0,
        negative: true,
        target: 2,
    })
    .unwrap();
    assert_eq!(c.target, 2);
    assert!(c.negative);
}
