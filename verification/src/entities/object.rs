//! What the condition logic reads of a world object.
use vstd::prelude::*;
use crate::TypeId;

verus! {

/// The argument-free facts of a world object that conditions compare.
#[derive(Debug, Clone, Copy, PartialEq, Eq, Structural)]
pub struct WorldObjectRef {
    /// `WorldObject::GetZoneId()`.
    pub zone_id: u32,
    /// `WorldObject::GetMapId()`.
    pub map_id: u32,
    /// `WorldObject::GetAreaId()`.
    pub area_id: u32,
    /// `WorldObject::GetPhaseMask()`.
    pub phase_mask: u32,
    /// `Object::GetEntry()`.
    pub entry: u32,
    /// The object's type id as the core reports it (`GetTypeId()`).
    pub raw_type_id: u32,
}

impl WorldObjectRef {
    /// The object's type id; an error where the reported number names none.
    pub fn type_id(&self) -> (r: Result<TypeId, ()>)
        ensures
            r == (match TypeId::spec_from_repr(self.raw_type_id) {
                Some(t) => Ok::<TypeId, ()>(t),
                None => Err(()),
            }),
    {
        match TypeId::from_repr(self.raw_type_id) {
            Some(t) => Ok(t),
            None => Err(()),
        }
    }
}

} // verus!
