//! What the condition logic reads of a game object.
use vstd::prelude::*;

verus! {

/// State of a game object (door open, closed, ...).
#[derive(Debug, Clone, Copy, PartialEq, Eq, Structural)]
pub enum GOState {
    Active,
    Ready,
    Alternative,
}

impl GOState {
    pub open spec fn spec_from_repr(raw: u8) -> Option<GOState> {
        if raw == 0 {
            Some(GOState::Active)
        } else if raw == 1 {
            Some(GOState::Ready)
        } else if raw == 2 {
            Some(GOState::Alternative)
        } else {
            None
        }
    }

    pub fn from_repr(raw: u8) -> (r: Option<GOState>)
        ensures
            r == Self::spec_from_repr(raw),
    {
        match raw {
            0 => Some(GOState::Active),
            1 => Some(GOState::Ready),
            2 => Some(GOState::Alternative),
            _ => None,
        }
    }
}

/// The argument-free facts of a game object that conditions compare.
#[derive(Debug, Clone, Copy, PartialEq, Eq, Structural)]
pub struct GameObjectRef {
    /// The object's state as the core reports it (`GetGoState()`).
    pub raw_go_state: u8,
    /// `GameObject::GetSpawnId()`.
    pub spawn_id: u32,
}

impl GameObjectRef {
    /// The object's state, where the reported number names one.
    pub fn go_state(&self) -> (r: Option<GOState>)
        ensures
            r == GOState::spec_from_repr(self.raw_go_state),
    {
        GOState::from_repr(self.raw_go_state)
    }
}

/// Game object states are numbered 0 active, 1 ready, 2 alternative; no other
/// number names one.
pub proof fn lemma_go_state_numbers()
    ensures
        GOState::spec_from_repr(0) == Some(GOState::Active),
        GOState::spec_from_repr(1) == Some(GOState::Ready),
        GOState::spec_from_repr(2) == Some(GOState::Alternative),
        forall|raw: u8| raw > 2 ==> #[trigger] GOState::spec_from_repr(raw) is None,
{
}

} // verus!
