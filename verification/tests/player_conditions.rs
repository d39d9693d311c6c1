use azerrust::conditions::player::{
    PlayerConditionAchievement, PlayerConditionDailyQuestDone, PlayerConditionDrunkenState,
    PlayerConditionGender, PlayerConditionItem, PlayerConditionItemEquipped, PlayerConditionPetType,
    PlayerConditionPlayerQueuedRandomDungeon, PlayerConditionQuestComplete, PlayerConditionQuestNone,
    PlayerConditionQuestObjectiveProgress, PlayerConditionQuestRewarded,
    PlayerConditionQuestSatisfyExclusive, PlayerConditionQuestState, PlayerConditionQuestTaken,
    PlayerConditionReputationRank, PlayerConditionSkill, PlayerConditionSpell, PlayerConditionTaxi,
    PlayerConditionTeam, PlayerConditionTitle,
};
use azerrust::conditions::player::quest_status;
use azerrust::entities::player::PlayerRef;
use azerrust::quests::QuestStatus;
use azerrust::{DrunkenState, Team};

fn player(raw_team_id: u8) -> PlayerRef {
    PlayerRef { raw_team_id, gender: 1, drunk_value: 60, in_flight: true }
}

#[test]
fn answers_of_the_player() {
    let item = PlayerConditionItem { item_id: 1, count: 1, check_bank: false };
    assert_eq!(item.meets(true), Ok(true));
    assert_eq!(item.meets(false), Ok(false));
    assert_eq!(PlayerConditionItemEquipped { item_id: 1 }.meets(true), Ok(true));
    assert_eq!(PlayerConditionQuestRewarded { quest_id: 1 }.meets(false), Ok(false));
    assert_eq!(PlayerConditionAchievement { achievement_id: 1 }.meets(true), Ok(true));
    assert_eq!(PlayerConditionTitle { title_id: 1 }.meets(false), Ok(false));
    assert_eq!(PlayerConditionSpell { spell_id: 1 }.meets(true), Ok(true));
    assert_eq!(PlayerConditionDailyQuestDone { quest_id: 1 }.meets(true), Ok(true));
    let queued = PlayerConditionPlayerQueuedRandomDungeon { check_difficulty: 0, difficulty: 0 };
    assert_eq!(queued.meets(false), Ok(false));
}

#[test]
fn reputation_rank_mask() {
    let c = PlayerConditionReputationRank { faction_id: 72, rank_mask: 0b1010_0000 };
    assert_eq!(c.meets(Some(5)), Ok(true));
    assert_eq!(c.meets(Some(7)), Ok(true));
    assert_eq!(c.meets(Some(4)), Ok(false));
    assert_eq!(c.meets(None), Ok(false));
}

#[test]
fn team_of_the_player() {
    let alliance = PlayerConditionTeam { team: Team::Alliance };
    let horde = PlayerConditionTeam { team: Team::Horde };
    let other = PlayerConditionTeam { team: Team::Other };
    assert_eq!(alliance.meets(&player(0)), Ok(true));
    assert_eq!(horde.meets(&player(0)), Ok(false));
    assert_eq!(horde.meets(&player(1)), Ok(true));
    // a neutral player counts as horde
    assert_eq!(horde.meets(&player(2)), Ok(true));
    assert_eq!(alliance.meets(&player(2)), Ok(false));
    for t in 0..3 {
        assert_eq!(other.meets(&player(t)), Ok(false));
    }
    assert_eq!(alliance.meets(&player(3)), Err(()));
}

#[test]
fn skill_level() {
    let c = PlayerConditionSkill { skill_id: 164, skill_value: 300 };
    assert_eq!(c.meets(true, 300), Ok(true));
    assert_eq!(c.meets(true, 299), Ok(false));
    assert_eq!(c.meets(false, 450), Ok(false));
}

#[test]
fn quest_statuses() {
    let taken = PlayerConditionQuestTaken { quest_id: 1 };
    assert_eq!(taken.meets(2), Ok(true));
    assert_eq!(taken.meets(1), Ok(false));
    assert_eq!(taken.meets(4), Err(()));
    let none = PlayerConditionQuestNone { quest_id: 1 };
    assert_eq!(none.meets(0), Ok(true));
    assert_eq!(none.meets(6), Ok(false));
    assert_eq!(none.meets(5), Err(()));
    let complete = PlayerConditionQuestComplete { quest_id: 1 };
    assert_eq!(complete.meets(1, false), Ok(true));
    assert_eq!(complete.meets(1, true), Ok(false));
    assert_eq!(complete.meets(2, false), Ok(false));
    assert_eq!(complete.meets(9, false), Err(()));
}

#[test]
fn quest_state_mask() {
    let failed_or_rewarded = PlayerConditionQuestState { quest_id: 1, state_mask: (1 << 3) | (1 << 6) };
    assert_eq!(failed_or_rewarded.meets(3, false), Ok(true));
    assert_eq!(failed_or_rewarded.meets(2, true), Ok(true));
    assert_eq!(failed_or_rewarded.meets(2, false), Ok(false));
    assert_eq!(failed_or_rewarded.meets(7, true), Err(()));
    let none_or_complete = PlayerConditionQuestState { quest_id: 1, state_mask: 0b11 };
    assert_eq!(none_or_complete.meets(0, false), Ok(true));
    assert_eq!(none_or_complete.meets(1, false), Ok(true));
    assert_eq!(none_or_complete.meets(6, true), Ok(false));
    let incomplete = PlayerConditionQuestState { quest_id: 1, state_mask: 0b100 };
    assert_eq!(incomplete.meets(2, false), Ok(true));
    let nothing = PlayerConditionQuestState { quest_id: 1, state_mask: 0 };
    for s in [0u8, 1, 2, 3, 6] {
        assert_eq!(nothing.meets(s, true), Ok(false));
    }
}

#[test]
fn exclusive_group_and_objectives() {
    let c = PlayerConditionQuestSatisfyExclusive { quest_id: 1 };
    assert_eq!(c.meets(false, Some(true)), Ok(true));
    assert_eq!(c.meets(true, Some(true)), Ok(false));
    assert_eq!(c.meets(false, Some(false)), Ok(false));
    assert_eq!(c.meets(false, None), Ok(false));
    let p = PlayerConditionQuestObjectiveProgress { quest_id: 1, objective_index: 0x102, objective_count: 8 };
    assert_eq!(p.objective(), 2);
    assert_eq!(PlayerConditionQuestObjectiveProgress::counter_slot(Some(3)), Some(3));
    assert_eq!(PlayerConditionQuestObjectiveProgress::counter_slot(Some(174)), Some(174));
    assert_eq!(PlayerConditionQuestObjectiveProgress::counter_slot(Some(175)), None);
    assert_eq!(PlayerConditionQuestObjectiveProgress::counter_slot(None), None);
    assert_eq!(p.meets(Some(3), Some(8)), Ok(true));
    assert_eq!(p.meets(Some(3), Some(7)), Ok(false));
    assert_eq!(p.meets(Some(174), Some(8)), Ok(true));
    assert_eq!(p.meets(Some(175), None), Ok(false));
    assert_eq!(p.meets(Some(175), Some(8)), Ok(false));
    assert_eq!(p.meets(None, None), Ok(false));
}

#[test]
fn quest_status_numbers() {
    assert_eq!(quest_status(2), Ok(QuestStatus::Incomplete));
    assert_eq!(quest_status(6), Ok(QuestStatus::Rewarded));
    assert_eq!(quest_status(5), Err(()));
}

#[test]
fn gender_drunkenness_flight() {
    let p = player(0);
    assert_eq!(PlayerConditionGender { gender: 1 }.meets(&p), Ok(true));
    assert_eq!(PlayerConditionGender { gender: 0 }.meets(&p), Ok(false));
    assert_eq!(PlayerConditionDrunkenState { min_state: DrunkenState::Drunk }.meets(&p), Ok(true));
    assert_eq!(PlayerConditionDrunkenState { min_state: DrunkenState::Smashed }.meets(&p), Ok(false));
    assert_eq!(
        PlayerConditionDrunkenState { min_state: DrunkenState::Sober }.meets(&PlayerRef { drunk_value: 0, ..p }),
        Ok(true)
    );
    assert_eq!(PlayerConditionTaxi.meets(&p), Ok(true));
    assert_eq!(PlayerConditionTaxi.meets(&PlayerRef { in_flight: false, ..p }), Ok(false));
}

#[test]
fn pet_type_mask() {
    let c = PlayerConditionPetType { mask: 0b10 };
    assert_eq!(c.meets(Some(1)), Ok(true));
    assert_eq!(c.meets(Some(0)), Ok(false));
    assert_eq!(c.meets(None), Ok(false));
}
