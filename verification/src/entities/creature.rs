//! What the condition logic reads of a creature.
use vstd::prelude::*;

verus! {

/// What the condition logic reads of a creature template.
#[derive(Debug, Clone, Copy, PartialEq, Eq, Structural)]
pub struct CreatureTemplate {
    /// The template's creature type.
    pub creature_type: u32,
}

/// The argument-free facts of a creature that conditions compare.
#[derive(Debug, Clone, Copy, PartialEq, Eq, Structural)]
pub struct CreatureRef {
    /// `Creature::GetSpawnId()`.
    pub spawn_id: u32,
    /// The creature's template, where the core has one for it.
    pub template: Option<CreatureTemplate>,
}

impl CreatureRef {
    /// The creature's template; an error where it has none.
    pub fn creature_template(&self) -> (r: Result<CreatureTemplate, ()>)
        ensures
            r == (match self.template {
                Some(t) => Ok::<CreatureTemplate, ()>(t),
                None => Err(()),
            }),
    {
        match self.template {
            Some(t) => Ok(t),
            None => Err(()),
        }
    }
}

} // verus!
