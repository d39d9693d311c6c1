//! Maps and their difficulty.
use vstd::prelude::*;

verus! {

/// Difficulty of a map, as numbered by the core (`Difficulty(GetSpawnMode())`).
#[derive(Debug, Clone, Copy, PartialEq, Eq, Structural)]
pub enum Difficulty {
    Normal10,
    Normal25,
    Heroic10,
    Heroic25,
}

impl Difficulty {
    pub const REGULAR: Difficulty = Difficulty::Normal10;
    pub const DUNGEON_NORMAL: Difficulty = Difficulty::Normal10;
    pub const DUNGEON_HEROIC: Difficulty = Difficulty::Normal25;
    pub const DUNGEON_EPIC: Difficulty = Difficulty::Heroic10;

    pub open spec fn spec_from_repr(raw: u8) -> Option<Difficulty> {
        if raw == 0 {
            Some(Difficulty::Normal10)
        } else if raw == 1 {
            Some(Difficulty::Normal25)
        } else if raw == 2 {
            Some(Difficulty::Heroic10)
        } else if raw == 3 {
            Some(Difficulty::Heroic25)
        } else {
            None
        }
    }

    pub fn from_repr(raw: u8) -> (r: Option<Difficulty>)
        ensures
            r == Self::spec_from_repr(raw),
    {
        match raw {
            0 => Some(Difficulty::Normal10),
            1 => Some(Difficulty::Normal25),
            2 => Some(Difficulty::Heroic10),
            3 => Some(Difficulty::Heroic25),
            _ => None,
        }
    }
}

/// What the condition logic reads of the map an object stands on.
#[derive(Debug, Clone, Copy, PartialEq, Eq, Structural)]
pub struct MapRef {
    /// `Map::GetSpawnMode()`.
    pub spawn_mode: u8,
    /// `Map::IsDungeon()`.
    pub is_dungeon: bool,
}

impl MapRef {
    /// The map's difficulty; an error where the spawn mode names none.
    pub fn difficulty(&self) -> (r: Result<Difficulty, ()>)
        ensures
            r == (match Difficulty::spec_from_repr(self.spawn_mode) {
                Some(d) => Ok::<Difficulty, ()>(d),
                None => Err(()),
            }),
    {
        match Difficulty::from_repr(self.spawn_mode) {
            Some(d) => Ok(d),
            None => Err(()),
        }
    }
}

/// Difficulties are numbered 0 normal 10, 1 normal 25, 2 heroic 10, 3 heroic
/// 25; no other number names one. The dungeon names are the raid ones.
pub proof fn lemma_difficulty_numbers()
    ensures
        Difficulty::spec_from_repr(0) == Some(Difficulty::Normal10),
        Difficulty::spec_from_repr(1) == Some(Difficulty::Normal25),
        Difficulty::spec_from_repr(2) == Some(Difficulty::Heroic10),
        Difficulty::spec_from_repr(3) == Some(Difficulty::Heroic25),
        forall|raw: u8| raw > 3 ==> #[trigger] Difficulty::spec_from_repr(raw) is None,
        Difficulty::REGULAR == Difficulty::Normal10,
        Difficulty::DUNGEON_NORMAL == Difficulty::Normal10,
        Difficulty::DUNGEON_HEROIC == Difficulty::Normal25,
        Difficulty::DUNGEON_EPIC == Difficulty::Heroic10,
{
}

} // verus!
