//! What the condition logic reads of a player.
use vstd::prelude::*;
use crate::TeamId;

verus! {

/// The argument-free facts of a player that player conditions compare.
#[derive(Debug, Clone, Copy, PartialEq, Eq, Structural)]
pub struct PlayerRef {
    /// The player's team id as the core reports it (`GetTeamId()`).
    pub raw_team_id: u8,
    /// `Player::getGender()`.
    pub gender: u8,
    /// `Player::GetDrunkValue()`.
    pub drunk_value: u8,
    /// `Player::IsInFlight()`.
    pub in_flight: bool,
}

impl PlayerRef {
    /// The player's team; an error where the reported number names none.
    pub fn team_id(&self) -> (r: Result<TeamId, ()>)
        ensures
            r == (match TeamId::spec_from_repr(self.raw_team_id) {
                Some(t) => Ok::<TeamId, ()>(t),
                None => Err(()),
            }),
    {
        match TeamId::from_repr(self.raw_team_id) {
            Some(t) => Ok(t),
            None => Err(()),
        }
    }
}

} // verus!
