//! Quest status values.
use vstd::prelude::*;

verus! {

/// Status of a quest in a player's log.
#[derive(Debug, Clone, Copy, PartialEq, Eq, Structural)]
pub enum QuestStatus {
    StatusNone,
    Complete,
    Incomplete,
    Failed,
    Rewarded,
}

impl QuestStatus {
    pub open spec fn spec_from_repr(raw: u8) -> Option<QuestStatus> {
        if raw == 0 {
            Some(QuestStatus::StatusNone)
        } else if raw == 1 {
            Some(QuestStatus::Complete)
        } else if raw == 2 {
            Some(QuestStatus::Incomplete)
        } else if raw == 3 {
            Some(QuestStatus::Failed)
        } else if raw == 6 {
            Some(QuestStatus::Rewarded)
        } else {
            None
        }
    }

    pub fn from_repr(raw: u8) -> (r: Option<QuestStatus>)
        ensures
            r == Self::spec_from_repr(raw),
    {
        match raw {
            0 => Some(QuestStatus::StatusNone),
            1 => Some(QuestStatus::Complete),
            2 => Some(QuestStatus::Incomplete),
            3 => Some(QuestStatus::Failed),
            6 => Some(QuestStatus::Rewarded),
            _ => None,
        }
    }
}


/// The core numbers quest statuses 0 none, 1 complete, 2 incomplete, 3 failed
/// and 6 rewarded; no other number names a status.
pub proof fn lemma_quest_status_numbers()
    ensures
        QuestStatus::spec_from_repr(0) == Some(QuestStatus::StatusNone),
        QuestStatus::spec_from_repr(1) == Some(QuestStatus::Complete),
        QuestStatus::spec_from_repr(2) == Some(QuestStatus::Incomplete),
        QuestStatus::spec_from_repr(3) == Some(QuestStatus::Failed),
        QuestStatus::spec_from_repr(6) == Some(QuestStatus::Rewarded),
        forall|raw: u8|
            (raw == 4 || raw == 5 || raw > 6) ==> #[trigger] QuestStatus::spec_from_repr(raw) is None,
{
}

} // verus!
