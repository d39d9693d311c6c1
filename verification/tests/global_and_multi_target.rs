use azerrust::conditions::global::{
    GlobalConditionActiveEvent, GlobalConditionRealmAchievement, GlobalConditionWorldScript,
    GlobalConditionWorldState,
};
use azerrust::conditions::multi_target::{
    MultiTargetConditionReactionTo, MultiTargetConditionRelationTo, RelationAnswers,
};
use azerrust::Relation;

#[test]
fn global_conditions() {
    let event = GlobalConditionActiveEvent { event_id: 0x1_0002 };
    assert_eq!(event.event(), 2);
    assert!(event.meets(true));
    assert!(!event.meets(false));
    let ws = GlobalConditionWorldState { index: 3000, value: 5 };
    assert!(ws.meets(5));
    assert!(!ws.meets(6));
    assert!(!ws.meets((1 << 32) + 5));
    assert!(GlobalConditionWorldScript { condition_id: 1, state: 2 }.meets(true));
    assert!(!GlobalConditionWorldScript { condition_id: 1, state: 2 }.meets(false));
    let realm = GlobalConditionRealmAchievement { achievement_id: 457 };
    assert!(realm.meets(Some(true)));
    assert!(!realm.meets(Some(false)));
    assert!(!realm.meets(None));
}

#[test]
fn relation_and_reaction() {
    let answers = RelationAnswers {
        same_unit: true,
        in_party: false,
        in_raid: true,
        owned_by: false,
        passenger_of: true,
        created_by: false,
    };
    let expect = [
        (Relation::Self_, true),
        (Relation::InParty, false),
        (Relation::InRaidOrParty, true),
        (Relation::OwnedBy, false),
        (Relation::PassengerOf, true),
        (Relation::CreatedBy, false),
    ];
    for (relation_type, holds) in expect {
        let r = MultiTargetConditionRelationTo { target: 1, relation_type };
        assert_eq!(r.meets(Some(answers)), Ok(holds));
        assert_eq!(r.meets(None), Err(()));
        assert_eq!(answers.get(relation_type), holds);
    }
    let hostile_or_unfriendly = MultiTargetConditionReactionTo { target: 1, rank_mask: 0b110 };
    assert_eq!(hostile_or_unfriendly.meets(1), Ok(true));
    assert_eq!(hostile_or_unfriendly.meets(2), Ok(true));
    assert_eq!(hostile_or_unfriendly.meets(0), Ok(false));
    assert_eq!(hostile_or_unfriendly.meets(3), Ok(false));
    assert_eq!(hostile_or_unfriendly.meets(-1), Ok(false));
    assert_eq!(MultiTargetConditionReactionTo { target: 1, rank_mask: u32::MAX }.meets(-128), Ok(false));
}
