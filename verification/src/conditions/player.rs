//! Conditions on a player: items, reputation, team, skills, quests and more.
use vstd::prelude::*;

use crate::bits::{has_bit, lemma_low_flags, lemma_shifted_bit};
use crate::entities::player::PlayerRef;
use crate::quests::QuestStatus;
use crate::{DrunkenState, Team, TeamId};

verus! {

/// Quest log slots from this one on mean that the quest is not in the log.
pub const QUEST_SLOT_LIMIT: u16 = 175;

/// The player conditions, one variant per condition type.
#[derive(Debug, Clone, Copy, PartialEq, Eq, Structural)]
pub enum PlayerConditionKind {
    Item(PlayerConditionItem),
    ItemEquipped(PlayerConditionItemEquipped),
    ReputationRank(PlayerConditionReputationRank),
    Team(PlayerConditionTeam),
    Skill(PlayerConditionSkill),
    QuestRewarded(PlayerConditionQuestRewarded),
    QuestTaken(PlayerConditionQuestTaken),
    QuestComplete(PlayerConditionQuestComplete),
    QuestNone(PlayerConditionQuestNone),
    QuestSatisfyExclusive(PlayerConditionQuestSatisfyExclusive),
    QuestState(PlayerConditionQuestState),
    QuestObjectiveProgress(PlayerConditionQuestObjectiveProgress),
    Achievement(PlayerConditionAchievement),
    Title(PlayerConditionTitle),
    Gender(PlayerConditionGender),
    Spell(PlayerConditionSpell),
    DrunkenState(PlayerConditionDrunkenState),
    DailyQuestDone(PlayerConditionDailyQuestDone),
    PetType(PlayerConditionPetType),
    Taxi(PlayerConditionTaxi),
    PlayerQueuedRandomDungeon(PlayerConditionPlayerQueuedRandomDungeon),
}

/// The question that a player condition puts to the player, beyond its view.
#[derive(Debug, Clone, Copy, PartialEq, Eq, Structural)]
pub enum PlayerQuery {
    /// The view decides.
    NoQuery,
    /// `HasItemCount(item_id, count, check_bank)`; answered by a flag.
    ItemCount { item_id: u32, count: u32, check_bank: bool },
    /// `HasItemOrGemWithIdEquipped(item_id, count, check_gem)`; answered by a flag.
    ItemEquipped { item_id: u32, count: u32, check_gem: u8 },
    /// The player's reputation rank with the faction (`None` where the faction
    /// is not known), below 32; answered by `Rank`.
    ReputationRank { faction_id: u32 },
    /// `HasSkill(skill_id)` and `GetBaseSkillValue(skill_id)`; answered by `Skill`.
    Skill { skill_id: u32 },
    /// `GetQuestRewardStatus(quest_id)`; answered by a flag.
    QuestRewardStatus { quest_id: u32 },
    /// The quest's status as the core reports it; answered by `Status`.
    QuestStatus { quest_id: u32 },
    /// The quest's status and `GetQuestRewardStatus(quest_id)`; answered by
    /// `StatusAndReward`.
    QuestStatusAndReward { quest_id: u32 },
    /// `IsQuestRewarded(quest_id)` and `SatisfyQuestExclusiveGroup` for the
    /// quest's template (`None` where it is not known); answered by `Exclusive`.
    QuestExclusive { quest_id: u32 },
    /// The log slot of the quest's template (`None` where it is not known) and,
    /// for the slot that `counter_slot` names, `GetQuestSlotCounter(slot,
    /// objective)`; answered by `Progress`.
    QuestObjective { quest_id: u32, objective: u8 },
    /// `HasAchieved(achievement_id)`; answered by a flag.
    Achievement { achievement_id: u32 },
    /// `HasTitle(title_id)`; answered by a flag.
    Title { title_id: u32 },
    /// `HasSpell(spell_id)`; answered by a flag.
    Spell { spell_id: u32 },
    /// `IsDailyQuestDone(quest_id)`; answered by a flag.
    DailyQuestDone { quest_id: u32 },
    /// The type of the player's pet (`None` where it has none), below 32;
    /// answered by `Rank`.
    PetType,
    /// The core's random-dungeon queue check; answered by a flag.
    QueuedRandomDungeon { check_difficulty: u32, difficulty: u32 },
}

/// The player's answer to a [`PlayerQuery`].
#[derive(Debug, Clone, Copy, PartialEq, Eq, Structural)]
pub enum PlayerAnswer {
    NoAnswer,
    Flag(bool),
    Rank(Option<u8>),
    Skill { has_skill: bool, base_skill_value: u16 },
    Status(u8),
    StatusAndReward { raw_status: u8, reward_status: bool },
    Exclusive { rewarded: bool, satisfies: Option<bool> },
    Progress { slot: Option<u16>, counter: Option<u16> },
}

impl PlayerAnswer {
    /// The answer has the shape that `query` asks for, in range.
    pub open spec fn fits(self, query: PlayerQuery) -> bool {
        match query {
            PlayerQuery::NoQuery => true,
            PlayerQuery::ReputationRank { .. } | PlayerQuery::PetType => match self {
                PlayerAnswer::Rank(k) => k matches Some(x) ==> x < 32,
                _ => false,
            },
            PlayerQuery::Skill { .. } => self is Skill,
            PlayerQuery::QuestStatus { .. } => self is Status,
            PlayerQuery::QuestStatusAndReward { .. } => self is StatusAndReward,
            PlayerQuery::QuestExclusive { .. } => self is Exclusive,
            PlayerQuery::QuestObjective { .. } => match self {
                PlayerAnswer::Progress { slot, counter } => PlayerConditionQuestObjectiveProgress::spec_counter_slot(
                    slot,
                ) is Some ==> counter is Some,
                _ => false,
            },
            _ => self is Flag,
        }
    }
}

impl PlayerConditionKind {
    pub open spec fn spec_query(self) -> PlayerQuery {
        match self {
            PlayerConditionKind::Item(c) => PlayerQuery::ItemCount {
                item_id: c.item_id,
                count: c.count,
                check_bank: c.check_bank,
            },
            PlayerConditionKind::ItemEquipped(c) => PlayerQuery::ItemEquipped { item_id: c.item_id, count: 1, check_gem: 1 },
            PlayerConditionKind::ReputationRank(c) => PlayerQuery::ReputationRank { faction_id: c.faction_id },
            PlayerConditionKind::Team(_) => PlayerQuery::NoQuery,
            PlayerConditionKind::Skill(c) => PlayerQuery::Skill { skill_id: c.skill_id },
            PlayerConditionKind::QuestRewarded(c) => PlayerQuery::QuestRewardStatus { quest_id: c.quest_id },
            PlayerConditionKind::QuestTaken(c) => PlayerQuery::QuestStatus { quest_id: c.quest_id },
            PlayerConditionKind::QuestComplete(c) => PlayerQuery::QuestStatusAndReward { quest_id: c.quest_id },
            PlayerConditionKind::QuestNone(c) => PlayerQuery::QuestStatus { quest_id: c.quest_id },
            PlayerConditionKind::QuestSatisfyExclusive(c) => PlayerQuery::QuestExclusive { quest_id: c.quest_id },
            PlayerConditionKind::QuestState(c) => PlayerQuery::QuestStatusAndReward { quest_id: c.quest_id },
            PlayerConditionKind::QuestObjectiveProgress(c) => PlayerQuery::QuestObjective {
                quest_id: c.quest_id,
                objective: c.objective_index as u8,
            },
            PlayerConditionKind::Achievement(c) => PlayerQuery::Achievement { achievement_id: c.achievement_id },
            PlayerConditionKind::Title(c) => PlayerQuery::Title { title_id: c.title_id },
            PlayerConditionKind::Gender(_) => PlayerQuery::NoQuery,
            PlayerConditionKind::Spell(c) => PlayerQuery::Spell { spell_id: c.spell_id },
            PlayerConditionKind::DrunkenState(_) => PlayerQuery::NoQuery,
            PlayerConditionKind::DailyQuestDone(c) => PlayerQuery::DailyQuestDone { quest_id: c.quest_id },
            PlayerConditionKind::PetType(_) => PlayerQuery::PetType,
            PlayerConditionKind::Taxi(_) => PlayerQuery::NoQuery,
            PlayerConditionKind::PlayerQueuedRandomDungeon(c) => PlayerQuery::QueuedRandomDungeon {
                check_difficulty: c.check_difficulty,
                difficulty: c.difficulty,
            },
        }
    }

    /// The question to put to the player; its answer is handed to `meets`.
    pub fn query(&self) -> (r: PlayerQuery)
        ensures
            r == self.spec_query(),
    {
        match self {
            PlayerConditionKind::Item(c) => PlayerQuery::ItemCount {
                item_id: c.item_id,
                count: c.count,
                check_bank: c.check_bank,
            },
            PlayerConditionKind::ItemEquipped(c) => PlayerQuery::ItemEquipped { item_id: c.item_id, count: 1, check_gem: 1 },
            PlayerConditionKind::ReputationRank(c) => PlayerQuery::ReputationRank { faction_id: c.faction_id },
            PlayerConditionKind::Team(_) => PlayerQuery::NoQuery,
            PlayerConditionKind::Skill(c) => PlayerQuery::Skill { skill_id: c.skill_id },
            PlayerConditionKind::QuestRewarded(c) => PlayerQuery::QuestRewardStatus { quest_id: c.quest_id },
            PlayerConditionKind::QuestTaken(c) => PlayerQuery::QuestStatus { quest_id: c.quest_id },
            PlayerConditionKind::QuestComplete(c) => PlayerQuery::QuestStatusAndReward { quest_id: c.quest_id },
            PlayerConditionKind::QuestNone(c) => PlayerQuery::QuestStatus { quest_id: c.quest_id },
            PlayerConditionKind::QuestSatisfyExclusive(c) => PlayerQuery::QuestExclusive { quest_id: c.quest_id },
            PlayerConditionKind::QuestState(c) => PlayerQuery::QuestStatusAndReward { quest_id: c.quest_id },
            PlayerConditionKind::QuestObjectiveProgress(c) => PlayerQuery::QuestObjective {
                quest_id: c.quest_id,
                objective: c.objective(),
            },
            PlayerConditionKind::Achievement(c) => PlayerQuery::Achievement { achievement_id: c.achievement_id },
            PlayerConditionKind::Title(c) => PlayerQuery::Title { title_id: c.title_id },
            PlayerConditionKind::Gender(_) => PlayerQuery::NoQuery,
            PlayerConditionKind::Spell(c) => PlayerQuery::Spell { spell_id: c.spell_id },
            PlayerConditionKind::DrunkenState(_) => PlayerQuery::NoQuery,
            PlayerConditionKind::DailyQuestDone(c) => PlayerQuery::DailyQuestDone { quest_id: c.quest_id },
            PlayerConditionKind::PetType(_) => PlayerQuery::PetType,
            PlayerConditionKind::Taxi(_) => PlayerQuery::NoQuery,
            PlayerConditionKind::PlayerQueuedRandomDungeon(c) => PlayerQuery::QueuedRandomDungeon {
                check_difficulty: c.check_difficulty,
                difficulty: c.difficulty,
            },
        }
    }

    /// Each player condition decided by its own `meets`, on the player's view
    /// and its answer to `query()`.
    pub open spec fn spec_meets(self, player: PlayerRef, answer: PlayerAnswer) -> Result<bool, ()> {
        match (self, answer) {
            (PlayerConditionKind::Item(c), PlayerAnswer::Flag(b)) => c.spec_meets(b),
            (PlayerConditionKind::ItemEquipped(c), PlayerAnswer::Flag(b)) => c.spec_meets(b),
            (PlayerConditionKind::ReputationRank(c), PlayerAnswer::Rank(k)) => c.spec_meets(k),
            (PlayerConditionKind::Team(c), _) => c.spec_meets(player),
            (PlayerConditionKind::Skill(c), PlayerAnswer::Skill { has_skill, base_skill_value }) => c.spec_meets(
                has_skill,
                base_skill_value,
            ),
            (PlayerConditionKind::QuestRewarded(c), PlayerAnswer::Flag(b)) => c.spec_meets(b),
            (PlayerConditionKind::QuestTaken(c), PlayerAnswer::Status(x)) => c.spec_meets(x),
            (PlayerConditionKind::QuestComplete(c), PlayerAnswer::StatusAndReward { raw_status, reward_status }) => c.spec_meets(
                raw_status,
                reward_status,
            ),
            (PlayerConditionKind::QuestNone(c), PlayerAnswer::Status(x)) => c.spec_meets(x),
            (PlayerConditionKind::QuestSatisfyExclusive(c), PlayerAnswer::Exclusive { rewarded, satisfies }) => c.spec_meets(
                rewarded,
                satisfies,
            ),
            (PlayerConditionKind::QuestState(c), PlayerAnswer::StatusAndReward { raw_status, reward_status }) => c.spec_meets(
                raw_status,
                reward_status,
            ),
            (PlayerConditionKind::QuestObjectiveProgress(c), PlayerAnswer::Progress { slot, counter }) => c.spec_meets(
                slot,
                counter,
            ),
            (PlayerConditionKind::Achievement(c), PlayerAnswer::Flag(b)) => c.spec_meets(b),
            (PlayerConditionKind::Title(c), PlayerAnswer::Flag(b)) => c.spec_meets(b),
            (PlayerConditionKind::Gender(c), _) => c.spec_meets(player),
            (PlayerConditionKind::Spell(c), PlayerAnswer::Flag(b)) => c.spec_meets(b),
            (PlayerConditionKind::DrunkenState(c), _) => c.spec_meets(player),
            (PlayerConditionKind::DailyQuestDone(c), PlayerAnswer::Flag(b)) => c.spec_meets(b),
            (PlayerConditionKind::PetType(c), PlayerAnswer::Rank(k)) => c.spec_meets(k),
            (PlayerConditionKind::Taxi(c), _) => c.spec_meets(player),
            (PlayerConditionKind::PlayerQueuedRandomDungeon(c), PlayerAnswer::Flag(b)) => c.spec_meets(b),
            _ => Err(()),
        }
    }

    pub fn meets(&self, player: &PlayerRef, answer: PlayerAnswer) -> (r: Result<bool, ()>)
        requires
            answer.fits(self.spec_query()),
        ensures
            r == self.spec_meets(*player, answer),
    {
        match (self, answer) {
            (PlayerConditionKind::Item(c), PlayerAnswer::Flag(b)) => c.meets(b),
            (PlayerConditionKind::ItemEquipped(c), PlayerAnswer::Flag(b)) => c.meets(b),
            (PlayerConditionKind::ReputationRank(c), PlayerAnswer::Rank(k)) => c.meets(k),
            (PlayerConditionKind::Team(c), _) => c.meets(player),
            (PlayerConditionKind::Skill(c), PlayerAnswer::Skill { has_skill, base_skill_value }) => c.meets(
                has_skill,
                base_skill_value,
            ),
            (PlayerConditionKind::QuestRewarded(c), PlayerAnswer::Flag(b)) => c.meets(b),
            (PlayerConditionKind::QuestTaken(c), PlayerAnswer::Status(x)) => c.meets(x),
            (PlayerConditionKind::QuestComplete(c), PlayerAnswer::StatusAndReward { raw_status, reward_status }) => c.meets(
                raw_status,
                reward_status,
            ),
            (PlayerConditionKind::QuestNone(c), PlayerAnswer::Status(x)) => c.meets(x),
            (PlayerConditionKind::QuestSatisfyExclusive(c), PlayerAnswer::Exclusive { rewarded, satisfies }) => c.meets(
                rewarded,
                satisfies,
            ),
            (PlayerConditionKind::QuestState(c), PlayerAnswer::StatusAndReward { raw_status, reward_status }) => c.meets(
                raw_status,
                reward_status,
            ),
            (PlayerConditionKind::QuestObjectiveProgress(c), PlayerAnswer::Progress { slot, counter }) => c.meets(
                slot,
                counter,
            ),
            (PlayerConditionKind::Achievement(c), PlayerAnswer::Flag(b)) => c.meets(b),
            (PlayerConditionKind::Title(c), PlayerAnswer::Flag(b)) => c.meets(b),
            (PlayerConditionKind::Gender(c), _) => c.meets(player),
            (PlayerConditionKind::Spell(c), PlayerAnswer::Flag(b)) => c.meets(b),
            (PlayerConditionKind::DrunkenState(c), _) => c.meets(player),
            (PlayerConditionKind::DailyQuestDone(c), PlayerAnswer::Flag(b)) => c.meets(b),
            (PlayerConditionKind::PetType(c), PlayerAnswer::Rank(k)) => c.meets(k),
            (PlayerConditionKind::Taxi(c), _) => c.meets(player),
            (PlayerConditionKind::PlayerQueuedRandomDungeon(c), PlayerAnswer::Flag(b)) => c.meets(b),
            _ => Err(()),
        }
    }
}

/// The quest status that the core reports as `raw`, or an error where it names none.
pub open spec fn spec_quest_status(raw: u8) -> Result<QuestStatus, ()> {
    match QuestStatus::spec_from_repr(raw) {
        Some(s) => Ok(s),
        None => Err(()),
    }
}

/// The quest status that the core reports as `raw`; an error where it names none.
pub fn quest_status(raw: u8) -> (r: Result<QuestStatus, ()>)
    ensures
        r == spec_quest_status(raw),
{
    match QuestStatus::from_repr(raw) {
        Some(s) => Ok(s),
        None => Err(()),
    }
}

/// The player's reputation rank with faction `faction_id` is one of `rank_mask`.
#[derive(Debug, Clone, Copy, PartialEq, Eq, Structural)]
pub struct PlayerConditionReputationRank {
    pub faction_id: u32,
    pub rank_mask: u32,
}

impl PlayerConditionReputationRank {
    pub open spec fn spec_try_from(values: (u32, u32, u32)) -> Result<Self, ()> {
        Ok(PlayerConditionReputationRank { faction_id: values.0, rank_mask: values.1 })
    }

    pub fn try_from(values: (u32, u32, u32)) -> (r: Result<Self, ()>)
        ensures
            r == Self::spec_try_from(values),
    {
        Ok(PlayerConditionReputationRank { faction_id: values.0, rank_mask: values.1 })
    }

    /// Decides from the player's reputation rank with the faction (`None` where
    /// the faction is not known).
    pub open spec fn spec_meets(self, rank: Option<u8>) -> Result<bool, ()> {
        Ok(
            match rank {
                Some(k) => self.rank_mask & (1u32 << k) != 0,
                None => false,
            },
        )
    }

    pub fn meets(&self, rank: Option<u8>) -> (r: Result<bool, ()>)
        requires
            rank matches Some(k) ==> k < 32,
        ensures
            r == self.spec_meets(rank),
    {
        Ok(
            match rank {
                Some(k) => self.rank_mask & (1u32 << k) != 0,
                None => false,
            },
        )
    }
}

/// The player belongs to `team`.
#[derive(Debug, Clone, Copy, PartialEq, Eq, Structural)]
pub struct PlayerConditionTeam {
    pub team: Team,
}

impl PlayerConditionTeam {
    pub open spec fn spec_try_from(values: (u32, u32, u32)) -> Result<Self, ()> {
        match Team::spec_from_repr(values.0) {
            Some(team) => Ok(PlayerConditionTeam { team }),
            None => Err(()),
        }
    }

    pub fn try_from(values: (u32, u32, u32)) -> (r: Result<Self, ()>)
        ensures
            r == Self::spec_try_from(values),
    {
        match Team::from_repr(values.0) {
            Some(team) => Ok(PlayerConditionTeam { team }),
            None => Err(()),
        }
    }

    /// An alliance player counts as alliance, every other as horde; an error
    /// where the player's team id names no team.
    pub open spec fn spec_meets(self, player: PlayerRef) -> Result<bool, ()> {
        match TeamId::spec_from_repr(player.raw_team_id) {
            Some(TeamId::Alliance) => Ok(self.team == Team::Alliance),
            Some(_) => Ok(self.team == Team::Horde),
            None => Err(()),
        }
    }

    pub fn meets(&self, player: &PlayerRef) -> (r: Result<bool, ()>)
        ensures
            r == self.spec_meets(*player),
    {
        let team_old = match player.team_id()? {
            TeamId::Alliance => Team::Alliance,
            _ => Team::Horde,
        };
        Ok(team_old == self.team)
    }
}

/// A team condition naming neither alliance nor horde is met by no player:
/// every player counts as one of the two.
pub proof fn lemma_team_other_never_met(c: PlayerConditionTeam, player: PlayerRef)
    requires
        c.team == Team::Other,
    ensures
        c.spec_meets(player) != Ok::<bool, ()>(true),
{
}

/// The player has skill `skill_id` at base value `skill_value` or higher.
#[derive(Debug, Clone, Copy, PartialEq, Eq, Structural)]
pub struct PlayerConditionSkill {
    pub skill_id: u32,
    pub skill_value: u32,
}

impl PlayerConditionSkill {
    pub open spec fn spec_try_from(values: (u32, u32, u32)) -> Result<Self, ()> {
        Ok(PlayerConditionSkill { skill_id: values.0, skill_value: values.1 })
    }

    pub fn try_from(values: (u32, u32, u32)) -> (r: Result<Self, ()>)
        ensures
            r == Self::spec_try_from(values),
    {
        Ok(PlayerConditionSkill { skill_id: values.0, skill_value: values.1 })
    }

    /// Decides from `HasSkill(skill_id)` and `GetBaseSkillValue(skill_id)`.
    pub open spec fn spec_meets(self, has_skill: bool, base_skill_value: u16) -> Result<bool, ()> {
        Ok(has_skill && base_skill_value >= self.skill_value)
    }

    pub fn meets(&self, has_skill: bool, base_skill_value: u16) -> (r: Result<bool, ()>)
        ensures
            r == self.spec_meets(has_skill, base_skill_value),
    {
        Ok(has_skill && (base_skill_value as u32) >= self.skill_value)
    }
}

/// The player has quest `quest_id` in the log, not yet complete.
#[derive(Debug, Clone, Copy, PartialEq, Eq, Structural)]
pub struct PlayerConditionQuestTaken {
    pub quest_id: u32,
}

impl PlayerConditionQuestTaken {
    pub open spec fn spec_try_from(values: (u32, u32, u32)) -> Result<Self, ()> {
        Ok(PlayerConditionQuestTaken { quest_id: values.0 })
    }

    pub fn try_from(values: (u32, u32, u32)) -> (r: Result<Self, ()>)
        ensures
            r == Self::spec_try_from(values),
    {
        Ok(PlayerConditionQuestTaken { quest_id: values.0 })
    }

    /// Decides from the quest's status as the core reports it; an error where
    /// the number names no status.
    pub open spec fn spec_meets(self, raw_status: u8) -> Result<bool, ()> {
        match spec_quest_status(raw_status) {
            Ok(s) => Ok(s == QuestStatus::Incomplete),
            Err(e) => Err(e),
        }
    }

    pub fn meets(&self, raw_status: u8) -> (r: Result<bool, ()>)
        ensures
            r == self.spec_meets(raw_status),
    {
        Ok(quest_status(raw_status)? == QuestStatus::Incomplete)
    }
}

/// The player has completed quest `quest_id` and has not yet been rewarded.
#[derive(Debug, Clone, Copy, PartialEq, Eq, Structural)]
pub struct PlayerConditionQuestComplete {
    pub quest_id: u32,
}

impl PlayerConditionQuestComplete {
    pub open spec fn spec_try_from(values: (u32, u32, u32)) -> Result<Self, ()> {
        Ok(PlayerConditionQuestComplete { quest_id: values.0 })
    }

    pub fn try_from(values: (u32, u32, u32)) -> (r: Result<Self, ()>)
        ensures
            r == Self::spec_try_from(values),
    {
        Ok(PlayerConditionQuestComplete { quest_id: values.0 })
    }

    /// Decides from the quest's status and `GetQuestRewardStatus(quest_id)`.
    pub open spec fn spec_meets(self, raw_status: u8, reward_status: bool) -> Result<bool, ()> {
        match spec_quest_status(raw_status) {
            Ok(s) => Ok(s == QuestStatus::Complete && !reward_status),
            Err(e) => Err(e),
        }
    }

    pub fn meets(&self, raw_status: u8, reward_status: bool) -> (r: Result<bool, ()>)
        ensures
            r == self.spec_meets(raw_status, reward_status),
    {
        Ok(quest_status(raw_status)? == QuestStatus::Complete && !reward_status)
    }
}

/// Quest `quest_id` has no status for the player.
#[derive(Debug, Clone, Copy, PartialEq, Eq, Structural)]
pub struct PlayerConditionQuestNone {
    pub quest_id: u32,
}

impl PlayerConditionQuestNone {
    pub open spec fn spec_try_from(values: (u32, u32, u32)) -> Result<Self, ()> {
        Ok(PlayerConditionQuestNone { quest_id: values.0 })
    }

    pub fn try_from(values: (u32, u32, u32)) -> (r: Result<Self, ()>)
        ensures
            r == Self::spec_try_from(values),
    {
        Ok(PlayerConditionQuestNone { quest_id: values.0 })
    }

    /// Decides from the quest's status as the core reports it.
    pub open spec fn spec_meets(self, raw_status: u8) -> Result<bool, ()> {
        match spec_quest_status(raw_status) {
            Ok(s) => Ok(s == QuestStatus::StatusNone),
            Err(e) => Err(e),
        }
    }

    pub fn meets(&self, raw_status: u8) -> (r: Result<bool, ()>)
        ensures
            r == self.spec_meets(raw_status),
    {
        Ok(quest_status(raw_status)? == QuestStatus::StatusNone)
    }
}

/// The player has not been rewarded for quest `quest_id` and satisfies its
/// exclusive group.
#[derive(Debug, Clone, Copy, PartialEq, Eq, Structural)]
pub struct PlayerConditionQuestSatisfyExclusive {
    pub quest_id: u32,
}

impl PlayerConditionQuestSatisfyExclusive {
    pub open spec fn spec_try_from(values: (u32, u32, u32)) -> Result<Self, ()> {
        Ok(PlayerConditionQuestSatisfyExclusive { quest_id: values.0 })
    }

    pub fn try_from(values: (u32, u32, u32)) -> (r: Result<Self, ()>)
        ensures
            r == Self::spec_try_from(values),
    {
        Ok(PlayerConditionQuestSatisfyExclusive { quest_id: values.0 })
    }

    /// Decides from `IsQuestRewarded(quest_id)` and the answer to
    /// `SatisfyQuestExclusiveGroup` for the quest's template (`None` where the
    /// template is not known).
    pub open spec fn spec_meets(self, rewarded: bool, satisfies: Option<bool>) -> Result<bool, ()> {
        Ok(!rewarded && satisfies == Some(true))
    }

    pub fn meets(&self, rewarded: bool, satisfies: Option<bool>) -> (r: Result<bool, ()>)
        ensures
            r == self.spec_meets(rewarded, satisfies),
    {
        if rewarded {
            return Ok(false);
        }
        Ok(
            match satisfies {
                Some(b) => b,
                None => false,
            },
        )
    }
}

/// The status of quest `quest_id` is one of `state_mask`: bit 0 none, bit 1
/// complete, bit 2 incomplete, bit 3 failed, bit 6 rewarded.
#[derive(Debug, Clone, Copy, PartialEq, Eq, Structural)]
pub struct PlayerConditionQuestState {
    pub quest_id: u32,
    pub state_mask: u32,
}

impl PlayerConditionQuestState {
    pub open spec fn spec_try_from(values: (u32, u32, u32)) -> Result<Self, ()> {
        Ok(PlayerConditionQuestState { quest_id: values.0, state_mask: values.1 })
    }

    pub fn try_from(values: (u32, u32, u32)) -> (r: Result<Self, ()>)
        ensures
            r == Self::spec_try_from(values),
    {
        Ok(PlayerConditionQuestState { quest_id: values.0, state_mask: values.1 })
    }

    pub open spec fn spec_meets(self, raw_status: u8, reward_status: bool) -> Result<bool, ()> {
        match spec_quest_status(raw_status) {
            Ok(s) => Ok(
                (self.state_mask & 1 != 0 && s == QuestStatus::StatusNone) || (self.state_mask & 2 != 0
                    && s == QuestStatus::Complete) || (self.state_mask & 4 != 0 && s
                    == QuestStatus::Incomplete) || (self.state_mask & 8 != 0 && s
                    == QuestStatus::Failed) || (self.state_mask & 64 != 0 && reward_status),
            ),
            Err(e) => Err(e),
        }
    }

    /// Decides from the quest's status and `GetQuestRewardStatus(quest_id)`.
    pub fn meets(&self, raw_status: u8, reward_status: bool) -> (r: Result<bool, ()>)
        ensures
            r == self.spec_meets(raw_status, reward_status),
    {
        let status = quest_status(raw_status)?;
        let mask = self.state_mask;
        if (mask & 1) != 0 && status == QuestStatus::StatusNone {
            return Ok(true);
        }
        if (mask & 2) != 0 && status == QuestStatus::Complete {
            return Ok(true);
        }
        if (mask & 4) != 0 && status == QuestStatus::Incomplete {
            return Ok(true);
        }
        if (mask & 8) != 0 && status == QuestStatus::Failed {
            return Ok(true);
        }
        if (mask & 64) != 0 && reward_status {
            return Ok(true);
        }
        Ok(false)
    }
}

/// The counter of objective `objective_index` of quest `quest_id` in the
/// player's log is `objective_count`.
#[derive(Debug, Clone, Copy, PartialEq, Eq, Structural)]
pub struct PlayerConditionQuestObjectiveProgress {
    pub quest_id: u32,
    pub objective_index: u32,
    pub objective_count: u32,
}

impl PlayerConditionQuestObjectiveProgress {
    pub open spec fn spec_try_from(values: (u32, u32, u32)) -> Result<Self, ()> {
        Ok(
            PlayerConditionQuestObjectiveProgress {
                quest_id: values.0,
                objective_index: values.1,
                objective_count: values.2,
            },
        )
    }

    pub fn try_from(values: (u32, u32, u32)) -> (r: Result<Self, ()>)
        ensures
            r == Self::spec_try_from(values),
    {
        Ok(
            PlayerConditionQuestObjectiveProgress {
                quest_id: values.0,
                objective_index: values.1,
                objective_count: values.2,
            },
        )
    }

    /// The objective number that the quest log is asked about (8 bits wide there).
    pub fn objective(&self) -> (r: u8)
        ensures
            r == self.objective_index as u8,
    {
        self.objective_index as u8
    }

    /// The slot whose counter is asked for: the quest's slot, where it is
    /// inside the log.
    pub open spec fn spec_counter_slot(slot: Option<u16>) -> Option<u16> {
        match slot {
            Some(s) => if s < QUEST_SLOT_LIMIT {
                Some(s)
            } else {
                None
            },
            None => None,
        }
    }

    pub fn counter_slot(slot: Option<u16>) -> (r: Option<u16>)
        ensures
            r == Self::spec_counter_slot(slot),
    {
        match slot {
            Some(s) => if s < QUEST_SLOT_LIMIT {
                Some(s)
            } else {
                None
            },
            None => None,
        }
    }

    pub open spec fn spec_meets(self, slot: Option<u16>, counter: Option<u16>) -> Result<bool, ()> {
        Ok(
            Self::spec_counter_slot(slot) is Some && (counter matches Some(n) && n
                == self.objective_count),
        )
    }

    /// Decides from the log slot of the quest (`None` where the quest's template
    /// is not known) and the counter of objective `objective()` in the slot
    /// that `counter_slot` names (not consulted where it names none).
    pub fn meets(&self, slot: Option<u16>, counter: Option<u16>) -> (r: Result<bool, ()>)
        requires
            Self::spec_counter_slot(slot) is Some ==> counter is Some,
        ensures
            r == self.spec_meets(slot, counter),
    {
        if Self::counter_slot(slot).is_none() {
            return Ok(false);
        }
        Ok(
            match counter {
                Some(n) => n as u32 == self.objective_count,
                None => false,
            },
        )
    }
}

/// The player's gender is `gender`.
#[derive(Debug, Clone, Copy, PartialEq, Eq, Structural)]
pub struct PlayerConditionGender {
    pub gender: u32,
}

impl PlayerConditionGender {
    pub open spec fn spec_try_from(values: (u32, u32, u32)) -> Result<Self, ()> {
        Ok(PlayerConditionGender { gender: values.0 })
    }

    pub fn try_from(values: (u32, u32, u32)) -> (r: Result<Self, ()>)
        ensures
            r == Self::spec_try_from(values),
    {
        Ok(PlayerConditionGender { gender: values.0 })
    }

    pub open spec fn spec_meets(self, player: PlayerRef) -> Result<bool, ()> {
        Ok(player.gender == self.gender)
    }

    pub fn meets(&self, player: &PlayerRef) -> (r: Result<bool, ()>)
        ensures
            r == self.spec_meets(*player),
    {
        Ok(player.gender as u32 == self.gender)
    }
}

/// The player is at least as drunk as `min_state`.
#[derive(Debug, Clone, Copy, PartialEq, Eq, Structural)]
pub struct PlayerConditionDrunkenState {
    pub min_state: DrunkenState,
}

impl PlayerConditionDrunkenState {
    pub open spec fn spec_try_from(values: (u32, u32, u32)) -> Result<Self, ()> {
        match DrunkenState::spec_from_repr(values.0) {
            Some(min_state) => Ok(PlayerConditionDrunkenState { min_state }),
            None => Err(()),
        }
    }

    pub fn try_from(values: (u32, u32, u32)) -> (r: Result<Self, ()>)
        ensures
            r == Self::spec_try_from(values),
    {
        match DrunkenState::from_repr(values.0) {
            Some(min_state) => Ok(PlayerConditionDrunkenState { min_state }),
            None => Err(()),
        }
    }

    pub open spec fn spec_meets(self, player: PlayerRef) -> Result<bool, ()> {
        Ok(DrunkenState::spec_from_value(player.drunk_value).spec_rank() >= self.min_state.spec_rank())
    }

    pub fn meets(&self, player: &PlayerRef) -> (r: Result<bool, ()>)
        ensures
            r == self.spec_meets(*player),
    {
        Ok(DrunkenState::from_value(player.drunk_value).rank() >= self.min_state.rank())
    }
}

/// The player has a pet whose pet type is one of `mask`.
#[derive(Debug, Clone, Copy, PartialEq, Eq, Structural)]
pub struct PlayerConditionPetType {
    pub mask: u32,
}

impl PlayerConditionPetType {
    pub open spec fn spec_try_from(values: (u32, u32, u32)) -> Result<Self, ()> {
        Ok(PlayerConditionPetType { mask: values.0 })
    }

    pub fn try_from(values: (u32, u32, u32)) -> (r: Result<Self, ()>)
        ensures
            r == Self::spec_try_from(values),
    {
        Ok(PlayerConditionPetType { mask: values.0 })
    }

    /// Decides from the type of the player's pet (`None` where it has none).
    pub open spec fn spec_meets(self, pet_type: Option<u8>) -> Result<bool, ()> {
        Ok(
            match pet_type {
                Some(t) => (1u32 << t) & self.mask != 0,
                None => false,
            },
        )
    }

    pub fn meets(&self, pet_type: Option<u8>) -> (r: Result<bool, ()>)
        requires
            pet_type matches Some(t) ==> t < 32,
        ensures
            r == self.spec_meets(pet_type),
    {
        Ok(
            match pet_type {
                Some(t) => (1u32 << t) & self.mask != 0,
                None => false,
            },
        )
    }
}

/// The player is on a taxi flight.
#[derive(Debug, Clone, Copy, PartialEq, Eq, Structural)]
pub struct PlayerConditionTaxi;

impl PlayerConditionTaxi {
    pub open spec fn spec_try_from(values: (u32, u32, u32)) -> Result<Self, ()> {
        Ok(PlayerConditionTaxi)
    }

    pub fn try_from(values: (u32, u32, u32)) -> (r: Result<Self, ()>)
        ensures
            r == Self::spec_try_from(values),
    {
        Ok(PlayerConditionTaxi)
    }

    pub open spec fn spec_meets(self, player: PlayerRef) -> Result<bool, ()> {
        Ok(player.in_flight)
    }

    pub fn meets(&self, player: &PlayerRef) -> (r: Result<bool, ()>)
        ensures
            r == self.spec_meets(*player),
    {
        Ok(player.in_flight)
    }
}

/// The player has `count` of item `item_id` (in the bank too where `check_bank`).
#[derive(Debug, Clone, Copy, PartialEq, Eq, Structural)]
pub struct PlayerConditionItem {
    pub item_id: u32,
    pub count: u32,
    pub check_bank: bool,
}

impl PlayerConditionItem {
    pub open spec fn spec_try_from(values: (u32, u32, u32)) -> Result<Self, ()> {
        Ok(PlayerConditionItem { item_id: values.0, count: values.1, check_bank: values.2 != 0 })
    }

    pub fn try_from(values: (u32, u32, u32)) -> (r: Result<Self, ()>)
        ensures
            r == Self::spec_try_from(values),
    {
        Ok(PlayerConditionItem { item_id: values.0, count: values.1, check_bank: values.2 != 0 })
    }

    pub open spec fn spec_meets(self, has_item_count: bool) -> Result<bool, ()> {
        Ok(has_item_count)
    }

    /// Decides from the player's answer to `HasItemCount(item_id, count, check_bank)`.
    pub fn meets(&self, has_item_count: bool) -> (r: Result<bool, ()>)
        ensures
            r == self.spec_meets(has_item_count),
    {
        Ok(has_item_count)
    }
}

/// The player has item `item_id` equipped (or as a socketed gem).
#[derive(Debug, Clone, Copy, PartialEq, Eq, Structural)]
pub struct PlayerConditionItemEquipped {
    pub item_id: u32,
}

impl PlayerConditionItemEquipped {
    pub open spec fn spec_try_from(values: (u32, u32, u32)) -> Result<Self, ()> {
        Ok(PlayerConditionItemEquipped { item_id: values.0 })
    }

    pub fn try_from(values: (u32, u32, u32)) -> (r: Result<Self, ()>)
        ensures
            r == Self::spec_try_from(values),
    {
        Ok(PlayerConditionItemEquipped { item_id: values.0 })
    }

    pub open spec fn spec_meets(self, equipped: bool) -> Result<bool, ()> {
        Ok(equipped)
    }

    /// Decides from the player's answer to `HasItemOrGemWithIdEquipped(item_id, 1, 1)`.
    pub fn meets(&self, equipped: bool) -> (r: Result<bool, ()>)
        ensures
            r == self.spec_meets(equipped),
    {
        Ok(equipped)
    }
}

/// The player has been rewarded for quest `quest_id`.
#[derive(Debug, Clone, Copy, PartialEq, Eq, Structural)]
pub struct PlayerConditionQuestRewarded {
    pub quest_id: u32,
}

impl PlayerConditionQuestRewarded {
    pub open spec fn spec_try_from(values: (u32, u32, u32)) -> Result<Self, ()> {
        Ok(PlayerConditionQuestRewarded { quest_id: values.0 })
    }

    pub fn try_from(values: (u32, u32, u32)) -> (r: Result<Self, ()>)
        ensures
            r == Self::spec_try_from(values),
    {
        Ok(PlayerConditionQuestRewarded { quest_id: values.0 })
    }

    pub open spec fn spec_meets(self, reward_status: bool) -> Result<bool, ()> {
        Ok(reward_status)
    }

    /// Decides from the player's answer to `GetQuestRewardStatus(quest_id)`.
    pub fn meets(&self, reward_status: bool) -> (r: Result<bool, ()>)
        ensures
            r == self.spec_meets(reward_status),
    {
        Ok(reward_status)
    }
}

/// The player has achievement `achievement_id`.
#[derive(Debug, Clone, Copy, PartialEq, Eq, Structural)]
pub struct PlayerConditionAchievement {
    pub achievement_id: u32,
}

impl PlayerConditionAchievement {
    pub open spec fn spec_try_from(values: (u32, u32, u32)) -> Result<Self, ()> {
        Ok(PlayerConditionAchievement { achievement_id: values.0 })
    }

    pub fn try_from(values: (u32, u32, u32)) -> (r: Result<Self, ()>)
        ensures
            r == Self::spec_try_from(values),
    {
        Ok(PlayerConditionAchievement { achievement_id: values.0 })
    }

    pub open spec fn spec_meets(self, achieved: bool) -> Result<bool, ()> {
        Ok(achieved)
    }

    /// Decides from the player's answer to `HasAchieved(achievement_id)`.
    pub fn meets(&self, achieved: bool) -> (r: Result<bool, ()>)
        ensures
            r == self.spec_meets(achieved),
    {
        Ok(achieved)
    }
}

/// The player has title `title_id`.
#[derive(Debug, Clone, Copy, PartialEq, Eq, Structural)]
pub struct PlayerConditionTitle {
    pub title_id: u32,
}

impl PlayerConditionTitle {
    pub open spec fn spec_try_from(values: (u32, u32, u32)) -> Result<Self, ()> {
        Ok(PlayerConditionTitle { title_id: values.0 })
    }

    pub fn try_from(values: (u32, u32, u32)) -> (r: Result<Self, ()>)
        ensures
            r == Self::spec_try_from(values),
    {
        Ok(PlayerConditionTitle { title_id: values.0 })
    }

    pub open spec fn spec_meets(self, has_title: bool) -> Result<bool, ()> {
        Ok(has_title)
    }

    /// Decides from the player's answer to `HasTitle(title_id)`.
    pub fn meets(&self, has_title: bool) -> (r: Result<bool, ()>)
        ensures
            r == self.spec_meets(has_title),
    {
        Ok(has_title)
    }
}

/// The player knows spell `spell_id`.
#[derive(Debug, Clone, Copy, PartialEq, Eq, Structural)]
pub struct PlayerConditionSpell {
    pub spell_id: u32,
}

impl PlayerConditionSpell {
    pub open spec fn spec_try_from(values: (u32, u32, u32)) -> Result<Self, ()> {
        Ok(PlayerConditionSpell { spell_id: values.0 })
    }

    pub fn try_from(values: (u32, u32, u32)) -> (r: Result<Self, ()>)
        ensures
            r == Self::spec_try_from(values),
    {
        Ok(PlayerConditionSpell { spell_id: values.0 })
    }

    pub open spec fn spec_meets(self, has_spell: bool) -> Result<bool, ()> {
        Ok(has_spell)
    }

    /// Decides from the player's answer to `HasSpell(spell_id)`.
    pub fn meets(&self, has_spell: bool) -> (r: Result<bool, ()>)
        ensures
            r == self.spec_meets(has_spell),
    {
        Ok(has_spell)
    }
}

/// The player has done the daily quest `quest_id` today.
#[derive(Debug, Clone, Copy, PartialEq, Eq, Structural)]
pub struct PlayerConditionDailyQuestDone {
    pub quest_id: u32,
}

impl PlayerConditionDailyQuestDone {
    pub open spec fn spec_try_from(values: (u32, u32, u32)) -> Result<Self, ()> {
        Ok(PlayerConditionDailyQuestDone { quest_id: values.0 })
    }

    pub fn try_from(values: (u32, u32, u32)) -> (r: Result<Self, ()>)
        ensures
            r == Self::spec_try_from(values),
    {
        Ok(PlayerConditionDailyQuestDone { quest_id: values.0 })
    }

    pub open spec fn spec_meets(self, done: bool) -> Result<bool, ()> {
        Ok(done)
    }

    /// Decides from the player's answer to `IsDailyQuestDone(quest_id)`.
    pub fn meets(&self, done: bool) -> (r: Result<bool, ()>)
        ensures
            r == self.spec_meets(done),
    {
        Ok(done)
    }
}

/// The player is queued for a random dungeon (of `difficulty`, where `check_difficulty`).
#[derive(Debug, Clone, Copy, PartialEq, Eq, Structural)]
pub struct PlayerConditionPlayerQueuedRandomDungeon {
    pub check_difficulty: u32,
    pub difficulty: u32,
}

impl PlayerConditionPlayerQueuedRandomDungeon {
    pub open spec fn spec_try_from(values: (u32, u32, u32)) -> Result<Self, ()> {
        Ok(PlayerConditionPlayerQueuedRandomDungeon { check_difficulty: values.0, difficulty: values.1 })
    }

    pub fn try_from(values: (u32, u32, u32)) -> (r: Result<Self, ()>)
        ensures
            r == Self::spec_try_from(values),
    {
        Ok(PlayerConditionPlayerQueuedRandomDungeon { check_difficulty: values.0, difficulty: values.1 })
    }

    pub open spec fn spec_meets(self, queued: bool) -> Result<bool, ()> {
        Ok(queued)
    }

    /// Decides from the player's answer to the core's random-dungeon queue check with `check_difficulty` and `difficulty`.
    pub fn meets(&self, queued: bool) -> (r: Result<bool, ()>)
        ensures
            r == self.spec_meets(queued),
    {
        Ok(queued)
    }
}


/// The objective-progress condition holds exactly when the quest is in the
/// player's log (a slot below 175) and the objective's counter there equals
/// the count; a quest outside the log, or not known, never meets it.
pub proof fn lemma_objective_counter_equals_count(
    c: PlayerConditionQuestObjectiveProgress,
    slot: Option<u16>,
    n: u16,
)
    ensures
        slot matches Some(s) ==> (s < 175 ==> c.spec_meets(slot, Some(n)) == Ok::<bool, ()>(
            n as u32 == c.objective_count,
        )),
        slot matches Some(s) ==> (s >= 175 ==> c.spec_meets(slot, Some(n)) == Ok::<bool, ()>(false)),
        c.spec_meets(None, Some(n)) == Ok::<bool, ()>(false),
        PlayerConditionQuestObjectiveProgress::spec_counter_slot(slot) == (match slot {
            Some(s) => if s < 175 {
                Some(s)
            } else {
                None
            },
            None => None,
        }),
{
}

/// The drunken-state condition is a threshold on the drunk value: every player
/// meets "sober", "tipsy" from drunk value 1, "drunk" from 50 and "smashed"
/// from 90. So it holds for a drunker player whenever for a soberer one, and
/// for a lower minimum state whenever for a higher one.
pub proof fn lemma_drunken_state_threshold(
    c: PlayerConditionDrunkenState,
    lower: PlayerConditionDrunkenState,
    p: PlayerRef,
    q: PlayerRef,
)
    ensures
        c.min_state == DrunkenState::Sober ==> c.spec_meets(p) == Ok::<bool, ()>(true),
        c.min_state == DrunkenState::Tipsy ==> c.spec_meets(p) == Ok::<bool, ()>(p.drunk_value >= 1),
        c.min_state == DrunkenState::Drunk ==> c.spec_meets(p) == Ok::<bool, ()>(p.drunk_value >= 50),
        c.min_state == DrunkenState::Smashed ==> c.spec_meets(p) == Ok::<bool, ()>(
            p.drunk_value >= 90,
        ),
        (p.drunk_value <= q.drunk_value && c.spec_meets(p) == Ok::<bool, ()>(true)) ==> c.spec_meets(q)
            == Ok::<bool, ()>(true),
        (lower.min_state.spec_rank() <= c.min_state.spec_rank() && c.spec_meets(p) == Ok::<bool, ()>(
            true,
        )) ==> lower.spec_meets(p) == Ok::<bool, ()>(true),
{
    if p.drunk_value <= q.drunk_value {
        crate::lemma_drunken_state_monotone(p.drunk_value, q.drunk_value);
    }
}

/// The reputation-rank and pet-type conditions read the bit of the player's
/// rank (or pet type) in their mask; a faction that is not known, or no pet,
/// never meets them.
pub proof fn lemma_rank_masks_read_their_bit(
    r: PlayerConditionReputationRank,
    t: PlayerConditionPetType,
    k: u8,
)
    ensures
        r.spec_meets(None) == Ok::<bool, ()>(false),
        t.spec_meets(None) == Ok::<bool, ()>(false),
        k < 32 ==> r.spec_meets(Some(k)) == Ok::<bool, ()>(has_bit(r.rank_mask, k as u32)),
        k < 32 ==> t.spec_meets(Some(k)) == Ok::<bool, ()>(has_bit(t.mask, k as u32)),
{
    if k < 32 {
        lemma_shifted_bit(r.rank_mask, k as u32);
        lemma_shifted_bit(t.mask, k as u32);
        assert((1u32 << k) == (1u32 << (k as u32)));
    }
}

/// The team condition compares the player's team (Alliance, or else Horde)
/// with the row's team: an Alliance player meets exactly the Alliance row, a
/// Horde or neutral player exactly the Horde row; an unknown team is undecided.
pub proof fn lemma_team_sides(c: PlayerConditionTeam, p: PlayerRef)
    ensures
        p.raw_team_id == 0 ==> c.spec_meets(p) == Ok::<bool, ()>(c.team == Team::Alliance),
        (p.raw_team_id == 1 || p.raw_team_id == 2) ==> c.spec_meets(p) == Ok::<bool, ()>(
            c.team == Team::Horde,
        ),
        p.raw_team_id > 2 ==> c.spec_meets(p) is Err,
{
}

/// The skill condition holds exactly when the player has the skill at a base
/// value of at least the row's value.
pub proof fn lemma_skill_at_least(c: PlayerConditionSkill, has_skill: bool, base: u16)
    ensures
        c.spec_meets(has_skill, base) == Ok::<bool, ()>(has_skill && base as u32 >= c.skill_value),
        !has_skill ==> c.spec_meets(has_skill, base) == Ok::<bool, ()>(false),
{
}

/// The quest-status conditions, by the status number the core reports (0 none,
/// 1 complete, 2 incomplete, 3 failed, 6 rewarded; others undecided): taken is
/// incomplete, none is none, complete is complete and not yet rewarded.
pub proof fn lemma_quest_status_conditions(
    taken: PlayerConditionQuestTaken,
    none: PlayerConditionQuestNone,
    complete: PlayerConditionQuestComplete,
    raw: u8,
    rewarded: bool,
)
    ensures
        QuestStatus::spec_from_repr(raw) is None ==> taken.spec_meets(raw) is Err && none.spec_meets(
            raw,
        ) is Err && complete.spec_meets(raw, rewarded) is Err,
        QuestStatus::spec_from_repr(raw) is Some ==> taken.spec_meets(raw) == Ok::<bool, ()>(raw == 2),
        QuestStatus::spec_from_repr(raw) is Some ==> none.spec_meets(raw) == Ok::<bool, ()>(raw == 0),
        QuestStatus::spec_from_repr(raw) is Some ==> complete.spec_meets(raw, rewarded) == Ok::<
            bool,
            (),
        >(raw == 1 && !rewarded),
        spec_quest_status(raw) == (match QuestStatus::spec_from_repr(raw) {
            Some(s) => Ok::<QuestStatus, ()>(s),
            None => Err(()),
        }),
{
    crate::quests::lemma_quest_status_numbers();
}

/// The quest-state condition holds where the status is one that the mask names
/// (bit 0 none, bit 1 complete, bit 2 incomplete, bit 3 failed) or where bit 6
/// is set and the quest is rewarded; an unknown status is undecided.
pub proof fn lemma_quest_state_mask(c: PlayerConditionQuestState, raw: u8, rewarded: bool)
    ensures
        QuestStatus::spec_from_repr(raw) is None ==> c.spec_meets(raw, rewarded) is Err,
        QuestStatus::spec_from_repr(raw) is Some ==> c.spec_meets(raw, rewarded) == Ok::<bool, ()>(
            (has_bit(c.state_mask, 0) && raw == 0) || (has_bit(c.state_mask, 1) && raw == 1) || (
            has_bit(c.state_mask, 2) && raw == 2) || (has_bit(c.state_mask, 3) && raw == 3) || (
            has_bit(c.state_mask, 6) && rewarded),
        ),
{
    crate::quests::lemma_quest_status_numbers();
    lemma_low_flags(c.state_mask);
}

/// The exclusive-group condition holds exactly when the quest is not rewarded
/// and the player satisfies its exclusive group (a quest not known never does).
pub proof fn lemma_quest_exclusive(c: PlayerConditionQuestSatisfyExclusive, rewarded: bool, satisfies: Option<bool>)
    ensures
        rewarded ==> c.spec_meets(rewarded, satisfies) == Ok::<bool, ()>(false),
        satisfies is None ==> c.spec_meets(rewarded, satisfies) == Ok::<bool, ()>(false),
        (!rewarded && satisfies == Some(true)) ==> c.spec_meets(rewarded, satisfies) == Ok::<
            bool,
            (),
        >(true),
        (satisfies == Some(false)) ==> c.spec_meets(rewarded, satisfies) == Ok::<bool, ()>(false),
{
}

/// Gender and flight are read from the player's view: the gender condition
/// holds exactly for a player of that gender, the taxi condition exactly for
/// a player in flight.
pub proof fn lemma_player_view_conditions(g: PlayerConditionGender, t: PlayerConditionTaxi, p: PlayerRef)
    ensures
        g.spec_meets(p) == Ok::<bool, ()>(p.gender as u32 == g.gender),
        t.spec_meets(p) == Ok::<bool, ()>(p.in_flight),
{
}

/// The conditions answered by one yes-or-no question to the player hold
/// exactly when the answer is yes: item count, item equipped, quest rewarded,
/// achievement, title, spell, daily quest done, queued for a random dungeon.
pub proof fn lemma_player_flag_conditions(
    item: PlayerConditionItem,
    equipped: PlayerConditionItemEquipped,
    rewarded: PlayerConditionQuestRewarded,
    achievement: PlayerConditionAchievement,
    title: PlayerConditionTitle,
    spell: PlayerConditionSpell,
    daily: PlayerConditionDailyQuestDone,
    queued: PlayerConditionPlayerQueuedRandomDungeon,
    b: bool,
)
    ensures
        item.spec_meets(b) == Ok::<bool, ()>(b),
        equipped.spec_meets(b) == Ok::<bool, ()>(b),
        rewarded.spec_meets(b) == Ok::<bool, ()>(b),
        achievement.spec_meets(b) == Ok::<bool, ()>(b),
        title.spec_meets(b) == Ok::<bool, ()>(b),
        spell.spec_meets(b) == Ok::<bool, ()>(b),
        daily.spec_meets(b) == Ok::<bool, ()>(b),
        queued.spec_meets(b) == Ok::<bool, ()>(b),
{
}


/// Each player condition asks the player the question that its fields name
/// (an equipped item is asked for once, gems included) and is decided by its
/// own `meets` on the answer.
pub proof fn lemma_player_dispatch(k: PlayerConditionKind, p: PlayerRef, a: PlayerAnswer)
    ensures
        k matches PlayerConditionKind::Item(c) ==> k.spec_query() == (PlayerQuery::ItemCount {
            item_id: c.item_id,
            count: c.count,
            check_bank: c.check_bank,
        }) && (a matches PlayerAnswer::Flag(b) ==> k.spec_meets(p, a) == c.spec_meets(b)),
        k matches PlayerConditionKind::ItemEquipped(c) ==> k.spec_query() == (PlayerQuery::ItemEquipped {
            item_id: c.item_id,
            count: 1,
            check_gem: 1,
        }) && (a matches PlayerAnswer::Flag(b) ==> k.spec_meets(p, a) == c.spec_meets(b)),
        k matches PlayerConditionKind::ReputationRank(c) ==> k.spec_query() == (PlayerQuery::ReputationRank {
            faction_id: c.faction_id,
        }) && (a matches PlayerAnswer::Rank(r) ==> k.spec_meets(p, a) == c.spec_meets(r)),
        k matches PlayerConditionKind::Team(c) ==> k.spec_query() == PlayerQuery::NoQuery
            && k.spec_meets(p, a) == c.spec_meets(p),
        k matches PlayerConditionKind::Skill(c) ==> k.spec_query() == (PlayerQuery::Skill {
            skill_id: c.skill_id,
        }) && (a matches PlayerAnswer::Skill { has_skill, base_skill_value } ==> k.spec_meets(p, a)
            == c.spec_meets(has_skill, base_skill_value)),
        k matches PlayerConditionKind::QuestRewarded(c) ==> k.spec_query() == (
        PlayerQuery::QuestRewardStatus { quest_id: c.quest_id }) && (a matches PlayerAnswer::Flag(b)
            ==> k.spec_meets(p, a) == c.spec_meets(b)),
        k matches PlayerConditionKind::QuestTaken(c) ==> k.spec_query() == (PlayerQuery::QuestStatus {
            quest_id: c.quest_id,
        }) && (a matches PlayerAnswer::Status(x) ==> k.spec_meets(p, a) == c.spec_meets(x)),
        k matches PlayerConditionKind::QuestComplete(c) ==> k.spec_query() == (
        PlayerQuery::QuestStatusAndReward { quest_id: c.quest_id }) && (
        a matches PlayerAnswer::StatusAndReward { raw_status, reward_status } ==> k.spec_meets(p, a)
            == c.spec_meets(raw_status, reward_status)),
        k matches PlayerConditionKind::QuestNone(c) ==> k.spec_query() == (PlayerQuery::QuestStatus {
            quest_id: c.quest_id,
        }) && (a matches PlayerAnswer::Status(x) ==> k.spec_meets(p, a) == c.spec_meets(x)),
        k matches PlayerConditionKind::QuestSatisfyExclusive(c) ==> k.spec_query() == (
        PlayerQuery::QuestExclusive { quest_id: c.quest_id }) && (
        a matches PlayerAnswer::Exclusive { rewarded, satisfies } ==> k.spec_meets(p, a)
            == c.spec_meets(rewarded, satisfies)),
        k matches PlayerConditionKind::QuestState(c) ==> k.spec_query() == (
        PlayerQuery::QuestStatusAndReward { quest_id: c.quest_id }) && (
        a matches PlayerAnswer::StatusAndReward { raw_status, reward_status } ==> k.spec_meets(p, a)
            == c.spec_meets(raw_status, reward_status)),
        k matches PlayerConditionKind::QuestObjectiveProgress(c) ==> k.spec_query() == (
        PlayerQuery::QuestObjective { quest_id: c.quest_id, objective: c.objective_index as u8 }) && (
        a matches PlayerAnswer::Progress { slot, counter } ==> k.spec_meets(p, a) == c.spec_meets(
            slot,
            counter,
        )),
        k matches PlayerConditionKind::Achievement(c) ==> k.spec_query() == (PlayerQuery::Achievement {
            achievement_id: c.achievement_id,
        }) && (a matches PlayerAnswer::Flag(b) ==> k.spec_meets(p, a) == c.spec_meets(b)),
        k matches PlayerConditionKind::Title(c) ==> k.spec_query() == (PlayerQuery::Title {
            title_id: c.title_id,
        }) && (a matches PlayerAnswer::Flag(b) ==> k.spec_meets(p, a) == c.spec_meets(b)),
        k matches PlayerConditionKind::Gender(c) ==> k.spec_query() == PlayerQuery::NoQuery
            && k.spec_meets(p, a) == c.spec_meets(p),
        k matches PlayerConditionKind::Spell(c) ==> k.spec_query() == (PlayerQuery::Spell {
            spell_id: c.spell_id,
        }) && (a matches PlayerAnswer::Flag(b) ==> k.spec_meets(p, a) == c.spec_meets(b)),
        k matches PlayerConditionKind::DrunkenState(c) ==> k.spec_query() == PlayerQuery::NoQuery
            && k.spec_meets(p, a) == c.spec_meets(p),
        k matches PlayerConditionKind::DailyQuestDone(c) ==> k.spec_query() == (
        PlayerQuery::DailyQuestDone { quest_id: c.quest_id }) && (a matches PlayerAnswer::Flag(b)
            ==> k.spec_meets(p, a) == c.spec_meets(b)),
        k matches PlayerConditionKind::PetType(c) ==> k.spec_query() == PlayerQuery::PetType && (
        a matches PlayerAnswer::Rank(r) ==> k.spec_meets(p, a) == c.spec_meets(r)),
        k matches PlayerConditionKind::Taxi(c) ==> k.spec_query() == PlayerQuery::NoQuery
            && k.spec_meets(p, a) == c.spec_meets(p),
        k matches PlayerConditionKind::PlayerQueuedRandomDungeon(c) ==> k.spec_query() == (
        PlayerQuery::QueuedRandomDungeon {
            check_difficulty: c.check_difficulty,
            difficulty: c.difficulty,
        }) && (a matches PlayerAnswer::Flag(b) ==> k.spec_meets(p, a) == c.spec_meets(b)),
{
}

} // verus!
