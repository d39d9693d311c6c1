use azerrust::conditions::comparison::ComparisonType;
use azerrust::entities::creature::{CreatureRef, CreatureTemplate};
use azerrust::entities::game_object::{GOState, GameObjectRef};
use azerrust::entities::object::WorldObjectRef;
use azerrust::entities::player::PlayerRef;
use azerrust::map::{Difficulty, MapRef};
use azerrust::quests::QuestStatus;
use azerrust::{DrunkenState, InstanceInfo, Relation, Team, TeamId, TypeId};

#[test]
fn compare_each_operator() {
    assert!(ComparisonType::Eq.compare(5, 5));
    assert!(!ComparisonType::Eq.compare(5, 6));
    assert!(ComparisonType::High.compare(6, 5));
    assert!(!ComparisonType::High.compare(5, 5));
    assert!(ComparisonType::Low.compare(4, 5));
    assert!(!ComparisonType::Low.compare(5, 5));
    assert!(ComparisonType::HighEq.compare(5, 5));
    assert!(ComparisonType::HighEq.compare(6, 5));
    assert!(!ComparisonType::HighEq.compare(4, 5));
    assert!(ComparisonType::LowEq.compare(5, 5));
    assert!(ComparisonType::LowEq.compare(4, 5));
    assert!(!ComparisonType::LowEq.compare(6, 5));
}

#[test]
fn compare_laws_on_values() {
    for (a, b) in [(0u32, 0u32), (1, 2), (2, 1), (u32::MAX, 0)] {
        let n = [ComparisonType::Eq, ComparisonType::High, ComparisonType::Low]
            .iter()
            .filter(|c| c.compare(a, b))
            .count();
        assert_eq!(n, 1);
        assert_eq!(
            ComparisonType::HighEq.compare(a, b),
            ComparisonType::High.compare(a, b) || ComparisonType::Eq.compare(a, b)
        );
        assert_eq!(ComparisonType::High.compare(a, b), ComparisonType::Low.compare(b, a));
    }
}

#[test]
fn comparison_from_repr() {
    assert_eq!(ComparisonType::from_repr(0), Some(ComparisonType::Eq));
    assert_eq!(ComparisonType::from_repr(1), Some(ComparisonType::High));
    assert_eq!(ComparisonType::from_repr(2), Some(ComparisonType::Low));
    assert_eq!(ComparisonType::from_repr(3), Some(ComparisonType::HighEq));
    assert_eq!(ComparisonType::from_repr(4), Some(ComparisonType::LowEq));
    assert_eq!(ComparisonType::from_repr(5), None);
}

#[test]
fn drunken_state_thresholds() {
    assert_eq!(DrunkenState::from_value(0), DrunkenState::Sober);
    assert_eq!(DrunkenState::from_value(1), DrunkenState::Tipsy);
    assert_eq!(DrunkenState::from_value(49), DrunkenState::Tipsy);
    assert_eq!(DrunkenState::from_value(50), DrunkenState::Drunk);
    assert_eq!(DrunkenState::from_value(89), DrunkenState::Drunk);
    assert_eq!(DrunkenState::from_value(90), DrunkenState::Smashed);
    assert_eq!(DrunkenState::from_value(255), DrunkenState::Smashed);
}

#[test]
fn drunken_state_is_monotone() {
    for a in 0u8..=255 {
        for b in a..=255 {
            assert!(DrunkenState::from_value(a).rank() <= DrunkenState::from_value(b).rank());
            assert!(DrunkenState::from_value(a) <= DrunkenState::from_value(b));
        }
    }
}

#[test]
fn enum_numbers() {
    assert_eq!(DrunkenState::from_repr(3), Some(DrunkenState::Smashed));
    assert_eq!(DrunkenState::from_repr(4), None);
    assert_eq!(TeamId::from_repr(0), Some(TeamId::Alliance));
    assert_eq!(TeamId::from_repr(2), Some(TeamId::Neutral));
    assert_eq!(TeamId::from_repr(3), None);
    assert_eq!(Team::from_repr(67), Some(Team::Horde));
    assert_eq!(Team::from_repr(469), Some(Team::Alliance));
    assert_eq!(Team::from_repr(0), Some(Team::Other));
    assert_eq!(Team::from_repr(68), None);
    assert_eq!(Relation::from_repr(0), Some(Relation::Self_));
    assert_eq!(Relation::from_repr(5), Some(Relation::CreatedBy));
    assert_eq!(Relation::from_repr(6), None);
    assert_eq!(TypeId::from_repr(4), Some(TypeId::Player));
    assert_eq!(TypeId::from_repr(7), Some(TypeId::Corpse));
    assert_eq!(TypeId::from_repr(8), None);
    assert_eq!(InstanceInfo::from_repr(3), Some(InstanceInfo::Data64));
    assert_eq!(InstanceInfo::from_repr(4), None);
    assert_eq!(QuestStatus::from_repr(0), Some(QuestStatus::StatusNone));
    assert_eq!(QuestStatus::from_repr(3), Some(QuestStatus::Failed));
    assert_eq!(QuestStatus::from_repr(4), None);
    assert_eq!(QuestStatus::from_repr(6), Some(QuestStatus::Rewarded));
    assert_eq!(GOState::from_repr(1), Some(GOState::Ready));
    assert_eq!(GOState::from_repr(3), None);
    assert_eq!(Difficulty::from_repr(1), Some(Difficulty::Normal25));
    assert_eq!(Difficulty::from_repr(4), None);
    assert_eq!(Difficulty::DUNGEON_HEROIC, Difficulty::Normal25);
    assert_eq!(Difficulty::REGULAR, Difficulty::Normal10);
    assert_eq!(Difficulty::DUNGEON_EPIC, Difficulty::Heroic10);
}

#[test]
fn views_decode_reported_numbers() {
    let object = WorldObjectRef { zone_id: 1, map_id: 2, area_id: 3, phase_mask: 1, entry: 9, raw_type_id: 3 };
    assert_eq!(object.type_id(), Ok(TypeId::Unit));
    assert_eq!(WorldObjectRef { raw_type_id: 9, ..object }.type_id(), Err(()));
    let player = PlayerRef { raw_team_id: 1, gender: 0, drunk_value: 0, in_flight: false };
    assert_eq!(player.team_id(), Ok(TeamId::Horde));
    assert_eq!(PlayerRef { raw_team_id: 7, ..player }.team_id(), Err(()));
    let go = GameObjectRef { raw_go_state: 2, spawn_id: 1 };
    assert_eq!(go.go_state(), Some(GOState::Alternative));
    assert_eq!(GameObjectRef { raw_go_state: 200, spawn_id: 1 }.go_state(), None);
    let map = MapRef { spawn_mode: 3, is_dungeon: true };
    assert_eq!(map.difficulty(), Ok(Difficulty::Heroic25));
    assert_eq!(MapRef { spawn_mode: 4, is_dungeon: true }.difficulty(), Err(()));
    let creature = CreatureRef { spawn_id: 5, template: Some(CreatureTemplate { creature_type: 7 }) };
    assert_eq!(creature.creature_template(), Ok(CreatureTemplate { creature_type: 7 }));
    assert_eq!(CreatureRef { spawn_id: 5, template: None }.creature_template(), Err(()));
}
