//! Evaluation of AzerothCore condition rows.
//!
//! A condition row (type, three values, negation flag, target index) is parsed
//! into a typed condition; each typed condition decides from the plain values
//! that the game world reports for its target.
use vstd::prelude::*;

pub mod bits;
pub mod conditions;
pub mod entities;
pub mod map;
pub mod quests;

verus! {

/// Team of a player as the core reports it.
#[derive(Debug, Clone, Copy, PartialEq, Eq, Structural)]
pub enum TeamId {
    Alliance,
    Horde,
    Neutral,
}

impl TeamId {
    /// The team whose numeric representation is `raw`, if any.
    pub open spec fn spec_from_repr(raw: u8) -> Option<TeamId> {
        if raw == 0 {
            Some(TeamId::Alliance)
        } else if raw == 1 {
            Some(TeamId::Horde)
        } else if raw == 2 {
            Some(TeamId::Neutral)
        } else {
            None
        }
    }

    pub fn from_repr(raw: u8) -> (r: Option<TeamId>)
        ensures
            r == Self::spec_from_repr(raw),
    {
        match raw {
            0 => Some(TeamId::Alliance),
            1 => Some(TeamId::Horde),
            2 => Some(TeamId::Neutral),
            _ => None,
        }
    }
}

/// Faction team identifiers as stored in condition rows.
#[derive(Debug, Clone, Copy, PartialEq, Eq, Structural)]
pub enum Team {
    Horde,
    Alliance,
    Other,
}

impl Team {
    pub open spec fn spec_from_repr(raw: u32) -> Option<Team> {
        if raw == 67 {
            Some(Team::Horde)
        } else if raw == 469 {
            Some(Team::Alliance)
        } else if raw == 0 {
            Some(Team::Other)
        } else {
            None
        }
    }

    pub fn from_repr(raw: u32) -> (r: Option<Team>)
        ensures
            r == Self::spec_from_repr(raw),
    {
        match raw {
            67 => Some(Team::Horde),
            469 => Some(Team::Alliance),
            0 => Some(Team::Other),
            _ => None,
        }
    }
}

/// How drunk a player is, from sober to smashed.
#[derive(Debug, Clone, Copy, PartialEq, Eq, PartialOrd, Ord, Structural)]
pub enum DrunkenState {
    Sober,
    Tipsy,
    Drunk,
    Smashed,
}

impl DrunkenState {
    /// The state's position in the order Sober < Tipsy < Drunk < Smashed.
    pub open spec fn spec_rank(self) -> nat {
        match self {
            DrunkenState::Sober => 0,
            DrunkenState::Tipsy => 1,
            DrunkenState::Drunk => 2,
            DrunkenState::Smashed => 3,
        }
    }

    pub fn rank(&self) -> (r: u32)
        ensures
            r == self.spec_rank(),
    {
        match self {
            DrunkenState::Sober => 0,
            DrunkenState::Tipsy => 1,
            DrunkenState::Drunk => 2,
            DrunkenState::Smashed => 3,
        }
    }

    pub open spec fn spec_from_repr(raw: u32) -> Option<DrunkenState> {
        if raw == 0 {
            Some(DrunkenState::Sober)
        } else if raw == 1 {
            Some(DrunkenState::Tipsy)
        } else if raw == 2 {
            Some(DrunkenState::Drunk)
        } else if raw == 3 {
            Some(DrunkenState::Smashed)
        } else {
            None
        }
    }

    pub fn from_repr(raw: u32) -> (r: Option<DrunkenState>)
        ensures
            r == Self::spec_from_repr(raw),
    {
        match raw {
            0 => Some(DrunkenState::Sober),
            1 => Some(DrunkenState::Tipsy),
            2 => Some(DrunkenState::Drunk),
            3 => Some(DrunkenState::Smashed),
            _ => None,
        }
    }

    /// The drunken state that a drunk value (0 to 255) stands for.
    pub open spec fn spec_from_value(value: u8) -> DrunkenState {
        if value >= 90 {
            DrunkenState::Smashed
        } else if value >= 50 {
            DrunkenState::Drunk
        } else if value >= 1 {
            DrunkenState::Tipsy
        } else {
            DrunkenState::Sober
        }
    }

    /// Smashed from 90, drunk from 50, tipsy from 1, sober at 0.
    pub fn from_value(value: u8) -> (r: DrunkenState)
        ensures
            r == Self::spec_from_value(value),
    {
        if value >= 90 {
            DrunkenState::Smashed
        } else if value >= 50 {
            DrunkenState::Drunk
        } else if value >= 1 {
            DrunkenState::Tipsy
        } else {
            DrunkenState::Sober
        }
    }
}

/// A higher drunk value never gives a lower drunken state.
pub proof fn lemma_drunken_state_monotone(a: u8, b: u8)
    requires
        a <= b,
    ensures
        DrunkenState::spec_from_value(a).spec_rank() <= DrunkenState::spec_from_value(b).spec_rank(),
{
}

/// Relations between two units that a condition can ask for.
#[derive(Debug, Clone, Copy, PartialEq, Eq, Structural)]
pub enum Relation {
    Self_,
    InParty,
    InRaidOrParty,
    OwnedBy,
    PassengerOf,
    CreatedBy,
}

impl Relation {
    pub open spec fn spec_from_repr(raw: u32) -> Option<Relation> {
        if raw == 0 {
            Some(Relation::Self_)
        } else if raw == 1 {
            Some(Relation::InParty)
        } else if raw == 2 {
            Some(Relation::InRaidOrParty)
        } else if raw == 3 {
            Some(Relation::OwnedBy)
        } else if raw == 4 {
            Some(Relation::PassengerOf)
        } else if raw == 5 {
            Some(Relation::CreatedBy)
        } else {
            None
        }
    }

    pub fn from_repr(raw: u32) -> (r: Option<Relation>)
        ensures
            r == Self::spec_from_repr(raw),
    {
        match raw {
            0 => Some(Relation::Self_),
            1 => Some(Relation::InParty),
            2 => Some(Relation::InRaidOrParty),
            3 => Some(Relation::OwnedBy),
            4 => Some(Relation::PassengerOf),
            5 => Some(Relation::CreatedBy),
            _ => None,
        }
    }
}

/// Object type identifiers of the core.
#[derive(Debug, Clone, Copy, PartialEq, Eq, Structural)]
pub enum TypeId {
    Object,
    Item,
    Container,
    Unit,
    Player,
    GameObject,
    DynamicObject,
    Corpse,
}

impl TypeId {
    pub open spec fn spec_from_repr(raw: u32) -> Option<TypeId> {
        if raw == 0 {
            Some(TypeId::Object)
        } else if raw == 1 {
            Some(TypeId::Item)
        } else if raw == 2 {
            Some(TypeId::Container)
        } else if raw == 3 {
            Some(TypeId::Unit)
        } else if raw == 4 {
            Some(TypeId::Player)
        } else if raw == 5 {
            Some(TypeId::GameObject)
        } else if raw == 6 {
            Some(TypeId::DynamicObject)
        } else if raw == 7 {
            Some(TypeId::Corpse)
        } else {
            None
        }
    }

    pub fn from_repr(raw: u32) -> (r: Option<TypeId>)
        ensures
            r == Self::spec_from_repr(raw),
    {
        match raw {
            0 => Some(TypeId::Object),
            1 => Some(TypeId::Item),
            2 => Some(TypeId::Container),
            3 => Some(TypeId::Unit),
            4 => Some(TypeId::Player),
            5 => Some(TypeId::GameObject),
            6 => Some(TypeId::DynamicObject),
            7 => Some(TypeId::Corpse),
            _ => None,
        }
    }
}

/// Kinds of instance data an instance-info condition compares.
#[derive(Debug, Clone, Copy, PartialEq, Eq, Structural)]
pub enum InstanceInfo {
    Data,
    GuidData,
    BossState,
    Data64,
}

impl InstanceInfo {
    pub open spec fn spec_from_repr(raw: u32) -> Option<InstanceInfo> {
        if raw == 0 {
            Some(InstanceInfo::Data)
        } else if raw == 1 {
            Some(InstanceInfo::GuidData)
        } else if raw == 2 {
            Some(InstanceInfo::BossState)
        } else if raw == 3 {
            Some(InstanceInfo::Data64)
        } else {
            None
        }
    }

    pub fn from_repr(raw: u32) -> (r: Option<InstanceInfo>)
        ensures
            r == Self::spec_from_repr(raw),
    {
        match raw {
            0 => Some(InstanceInfo::Data),
            1 => Some(InstanceInfo::GuidData),
            2 => Some(InstanceInfo::BossState),
            3 => Some(InstanceInfo::Data64),
            _ => None,
        }
    }
}

// Unit flags of the core (bit values of `UNIT_FLAG_*`).
/// Set only when unit movement is controlled by the server.
pub const UNIT_FLAG_SERVER_CONTROLLED: u32 = 0x00000001;
/// Not attackable.
pub const UNIT_FLAG_NON_ATTACKABLE: u32 = 0x00000002;
/// Movement disabled.
pub const UNIT_FLAG_DISABLE_MOVE: u32 = 0x00000004;
/// Controlled by a player.
pub const UNIT_FLAG_PLAYER_CONTROLLED: u32 = 0x00000008;
pub const UNIT_FLAG_RENAME: u32 = 0x00000010;
pub const UNIT_FLAG_PREPARATION: u32 = 0x00000020;
pub const UNIT_FLAG_UNK_6: u32 = 0x00000040;
pub const UNIT_FLAG_NOT_ATTACKABLE_1: u32 = 0x00000080;
/// Disables combat and assistance with player characters.
pub const UNIT_FLAG_IMMUNE_TO_PC: u32 = 0x00000100;
/// Disables combat and assistance with non-player characters.
pub const UNIT_FLAG_IMMUNE_TO_NPC: u32 = 0x00000200;
pub const UNIT_FLAG_LOOTING: u32 = 0x00000400;
pub const UNIT_FLAG_PET_IN_COMBAT: u32 = 0x00000800;
pub const UNIT_FLAG_PVP: u32 = 0x00001000;
pub const UNIT_FLAG_SILENCED: u32 = 0x00002000;
pub const UNIT_FLAG_CANNOT_SWIM: u32 = 0x00004000;
pub const UNIT_FLAG_SWIMMING: u32 = 0x00008000;
pub const UNIT_FLAG_NON_ATTACKABLE_2: u32 = 0x00010000;
pub const UNIT_FLAG_PACIFIED: u32 = 0x00020000;
pub const UNIT_FLAG_STUNNED: u32 = 0x00040000;
pub const UNIT_FLAG_IN_COMBAT: u32 = 0x00080000;
pub const UNIT_FLAG_TAXI_FLIGHT: u32 = 0x00100000;
pub const UNIT_FLAG_DISARMED: u32 = 0x00200000;
pub const UNIT_FLAG_CONFUSED: u32 = 0x00400000;
pub const UNIT_FLAG_FLEEING: u32 = 0x00800000;
pub const UNIT_FLAG_POSSESSED: u32 = 0x01000000;
pub const UNIT_FLAG_NOT_SELECTABLE: u32 = 0x02000000;
pub const UNIT_FLAG_SKINNABLE: u32 = 0x04000000;
pub const UNIT_FLAG_MOUNT: u32 = 0x08000000;
pub const UNIT_FLAG_UNK_28: u32 = 0x10000000;
pub const UNIT_FLAG_PREVENT_EMOTES_FROM_CHAT_TEXT: u32 = 0x20000000;
pub const UNIT_FLAG_SHEATHE: u32 = 0x40000000;
/// Immune to damage.
pub const UNIT_FLAG_IMMUNE: u32 = 0x80000000;

/// The numbers of the core's enumerations: teams 0 Alliance, 1 Horde, 2
/// neutral; row teams 469 Alliance, 67 Horde, 0 other; drunken states 0 to 3
/// from sober to smashed; relations 0 to 5 in the order self, party, raid or
/// party, owned by, passenger of, created by; object types 0 to 7 from object
/// to corpse; instance information 0 data, 1 guid data, 2 boss state, 3 64-bit
/// data. No other number names one.
pub proof fn lemma_enum_numbers()
    ensures
        TeamId::spec_from_repr(0) == Some(TeamId::Alliance),
        TeamId::spec_from_repr(1) == Some(TeamId::Horde),
        TeamId::spec_from_repr(2) == Some(TeamId::Neutral),
        forall|raw: u8| raw > 2 ==> #[trigger] TeamId::spec_from_repr(raw) is None,
        Team::spec_from_repr(469) == Some(Team::Alliance),
        Team::spec_from_repr(67) == Some(Team::Horde),
        Team::spec_from_repr(0) == Some(Team::Other),
        forall|raw: u32|
            (raw != 469 && raw != 67 && raw != 0) ==> #[trigger] Team::spec_from_repr(raw) is None,
        DrunkenState::spec_from_repr(0) == Some(DrunkenState::Sober),
        DrunkenState::spec_from_repr(1) == Some(DrunkenState::Tipsy),
        DrunkenState::spec_from_repr(2) == Some(DrunkenState::Drunk),
        DrunkenState::spec_from_repr(3) == Some(DrunkenState::Smashed),
        forall|raw: u32| raw > 3 ==> #[trigger] DrunkenState::spec_from_repr(raw) is None,
        DrunkenState::Sober.spec_rank() < DrunkenState::Tipsy.spec_rank(),
        DrunkenState::Tipsy.spec_rank() < DrunkenState::Drunk.spec_rank(),
        DrunkenState::Drunk.spec_rank() < DrunkenState::Smashed.spec_rank(),
        Relation::spec_from_repr(0) == Some(Relation::Self_),
        Relation::spec_from_repr(1) == Some(Relation::InParty),
        Relation::spec_from_repr(2) == Some(Relation::InRaidOrParty),
        Relation::spec_from_repr(3) == Some(Relation::OwnedBy),
        Relation::spec_from_repr(4) == Some(Relation::PassengerOf),
        Relation::spec_from_repr(5) == Some(Relation::CreatedBy),
        forall|raw: u32| raw > 5 ==> #[trigger] Relation::spec_from_repr(raw) is None,
        TypeId::spec_from_repr(0) == Some(TypeId::Object),
        TypeId::spec_from_repr(1) == Some(TypeId::Item),
        TypeId::spec_from_repr(2) == Some(TypeId::Container),
        TypeId::spec_from_repr(3) == Some(TypeId::Unit),
        TypeId::spec_from_repr(4) == Some(TypeId::Player),
        TypeId::spec_from_repr(5) == Some(TypeId::GameObject),
        TypeId::spec_from_repr(6) == Some(TypeId::DynamicObject),
        TypeId::spec_from_repr(7) == Some(TypeId::Corpse),
        forall|raw: u32| raw > 7 ==> #[trigger] TypeId::spec_from_repr(raw) is None,
        InstanceInfo::spec_from_repr(0) == Some(InstanceInfo::Data),
        InstanceInfo::spec_from_repr(1) == Some(InstanceInfo::GuidData),
        InstanceInfo::spec_from_repr(2) == Some(InstanceInfo::BossState),
        InstanceInfo::spec_from_repr(3) == Some(InstanceInfo::Data64),
        forall|raw: u32| raw > 3 ==> #[trigger] InstanceInfo::spec_from_repr(raw) is None,
{
}

/// A drunk value maps to the drunken state of its band: 0 sober, 1 to 49
/// tipsy, 50 to 89 drunk, 90 and above smashed.
pub proof fn lemma_drunk_value_bands(v: u8)
    ensures
        v == 0 ==> DrunkenState::spec_from_value(v) == DrunkenState::Sober,
        1 <= v < 50 ==> DrunkenState::spec_from_value(v) == DrunkenState::Tipsy,
        50 <= v < 90 ==> DrunkenState::spec_from_value(v) == DrunkenState::Drunk,
        90 <= v ==> DrunkenState::spec_from_value(v) == DrunkenState::Smashed,
{
}

} // verus!
