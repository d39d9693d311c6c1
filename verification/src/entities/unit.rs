//! What the condition logic reads of a unit.
use vstd::prelude::*;

verus! {

/// The argument-free facts of a unit that unit conditions compare.
#[derive(Debug, Clone, Copy, PartialEq, Eq, Structural)]
pub struct UnitRef {
    /// `Unit::GetLevel()`.
    pub level: u8,
    /// `Unit::getClassMask()`.
    pub class_mask: u32,
    /// `Unit::getRaceMask()`.
    pub race_mask: u32,
    /// `Unit::IsAlive()`.
    pub alive: bool,
    /// `Unit::GetHealth()`.
    pub health: u32,
    /// `Unit::getStandState()`.
    pub stand_state: u8,
    /// `Unit::IsStandState()`.
    pub is_stand_state: bool,
    /// `Unit::IsSitState()`.
    pub is_sit_state: bool,
    /// `Unit::IsInWater()`.
    pub in_water: bool,
    /// `Unit::IsCharmed()`.
    pub charmed: bool,
    /// `Unit::IsInCombat()`.
    pub in_combat: bool,
}

} // verus!
