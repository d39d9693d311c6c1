//! Conditions relating the condition's object to a second target.
use vstd::prelude::*;

use crate::conditions::comparison::ComparisonType;
use crate::bits::{has_bit, lemma_shifted_bit};
use crate::Relation;

verus! {

/// The conditions on two targets, one variant per condition type.
#[derive(Debug, Clone, Copy, PartialEq, Eq, Structural)]
pub enum MultiTargetConditionKind {
    Relation(MultiTargetConditionRelationTo),
    Reaction(MultiTargetConditionReactionTo),
    Distance(MultiTargetConditionDistanceTo),
}

/// The question that a condition on two targets puts to the core.
#[derive(Debug, Clone, Copy, PartialEq, Eq, Structural)]
pub enum MultiTargetQuery {
    /// The [`RelationAnswers`] of the two objects as units (`None` where one of
    /// them is no unit).
    Relation,
    /// The object's reaction to the target (`CheckReaction`), a number below 32.
    Reaction,
    /// Whether the distance from the object to the target compares as
    /// `comparison` with the 32-bit float whose bits are `distance_bits`.
    Distance { comparison: ComparisonType, distance_bits: u32 },
}

/// The core's answer to a [`MultiTargetQuery`].
#[derive(Debug, Clone, Copy, PartialEq, Eq, Structural)]
pub enum MultiTargetAnswer {
    Relation(Option<RelationAnswers>),
    Reaction(i8),
    Distance(bool),
}

impl MultiTargetAnswer {
    /// The answer has the shape that `query` asks for, in range.
    pub open spec fn fits(self, query: MultiTargetQuery) -> bool {
        match query {
            MultiTargetQuery::Relation => self is Relation,
            MultiTargetQuery::Reaction => self matches MultiTargetAnswer::Reaction(r) && r < 32,
            MultiTargetQuery::Distance { .. } => self is Distance,
        }
    }
}

impl MultiTargetConditionKind {
    pub open spec fn spec_query(self) -> MultiTargetQuery {
        match self {
            MultiTargetConditionKind::Relation(_) => MultiTargetQuery::Relation,
            MultiTargetConditionKind::Reaction(_) => MultiTargetQuery::Reaction,
            MultiTargetConditionKind::Distance(d) => MultiTargetQuery::Distance {
                comparison: d.comparison,
                distance_bits: d.distance_bits,
            },
        }
    }

    /// The question to put to the core about the two objects.
    pub fn query(&self) -> (r: MultiTargetQuery)
        ensures
            r == self.spec_query(),
    {
        match self {
            MultiTargetConditionKind::Relation(_) => MultiTargetQuery::Relation,
            MultiTargetConditionKind::Reaction(_) => MultiTargetQuery::Reaction,
            MultiTargetConditionKind::Distance(d) => MultiTargetQuery::Distance {
                comparison: d.comparison,
                distance_bits: d.distance_bits,
            },
        }
    }

    /// Each condition decided by its own `meets` on the answer about both
    /// objects; the distance condition by the answer itself.
    pub open spec fn spec_meets(self, answer: MultiTargetAnswer) -> Result<bool, ()> {
        match (self, answer) {
            (MultiTargetConditionKind::Relation(c), MultiTargetAnswer::Relation(a)) => c.spec_meets(a),
            (MultiTargetConditionKind::Reaction(c), MultiTargetAnswer::Reaction(x)) => c.spec_meets(x),
            (MultiTargetConditionKind::Distance(_), MultiTargetAnswer::Distance(b)) => Ok(b),
            _ => Err(()),
        }
    }

    pub fn meets(&self, answer: MultiTargetAnswer) -> (r: Result<bool, ()>)
        requires
            answer.fits(self.spec_query()),
        ensures
            r == self.spec_meets(answer),
    {
        match (self, answer) {
            (MultiTargetConditionKind::Relation(c), MultiTargetAnswer::Relation(a)) => c.meets(a),
            (MultiTargetConditionKind::Reaction(c), MultiTargetAnswer::Reaction(x)) => c.meets(x),
            (MultiTargetConditionKind::Distance(_), MultiTargetAnswer::Distance(b)) => Ok(b),
            _ => Err(()),
        }
    }

    pub open spec fn spec_target(self) -> u8 {
        match self {
            MultiTargetConditionKind::Relation(r) => r.target,
            MultiTargetConditionKind::Reaction(r) => r.target,
            MultiTargetConditionKind::Distance(d) => d.target,
        }
    }

    /// Index of the second target in the condition's source.
    pub fn target(&self) -> (r: u8)
        ensures
            r == self.spec_target(),
    {
        match self {
            MultiTargetConditionKind::Relation(r) => r.target,
            MultiTargetConditionKind::Reaction(r) => r.target,
            MultiTargetConditionKind::Distance(d) => d.target,
        }
    }
}

/// The object stands in `relation_type` to the target `target`.
#[derive(Debug, Clone, Copy, PartialEq, Eq, Structural)]
pub struct MultiTargetConditionRelationTo {
    pub target: u8,
    pub relation_type: Relation,
}

impl MultiTargetConditionRelationTo {
    pub open spec fn spec_try_from(values: (u32, u32, u32)) -> Result<Self, ()> {
        match Relation::spec_from_repr(values.1) {
            Some(relation_type) => Ok(
                MultiTargetConditionRelationTo { target: values.0 as u8, relation_type },
            ),
            None => Err(()),
        }
    }

    pub fn try_from(values: (u32, u32, u32)) -> (r: Result<Self, ()>)
        ensures
            r == Self::spec_try_from(values),
    {
        match Relation::from_repr(values.1) {
            Some(relation_type) => Ok(
                MultiTargetConditionRelationTo { target: values.0 as u8, relation_type },
            ),
            None => Err(()),
        }
    }

    pub open spec fn spec_meets(self, answers: Option<RelationAnswers>) -> Result<bool, ()> {
        match answers {
            None => Err(()),
            Some(a) => Ok(a.spec_get(self.relation_type)),
        }
    }

    /// Decides from the two units' answers (`None`, an error, where one of the
    /// two objects is no unit): the answer that `relation_type` names.
    pub fn meets(&self, answers: Option<RelationAnswers>) -> (r: Result<bool, ()>)
        ensures
            r == self.spec_meets(answers),
    {
        match answers {
            None => Err(()),
            Some(a) => Ok(a.get(self.relation_type)),
        }
    }
}

/// What the core answers about the object (first) and the target (second),
/// both units.
#[derive(Debug, Clone, Copy, PartialEq, Eq, Structural)]
pub struct RelationAnswers {
    /// The two are the same unit.
    pub same_unit: bool,
    /// `object.IsInPartyWith(target)`.
    pub in_party: bool,
    /// `object.IsInRaidWith(target)`.
    pub in_raid: bool,
    /// The target owns the object.
    pub owned_by: bool,
    /// `object.IsOnVehicle(target)`.
    pub passenger_of: bool,
    /// The target created the object.
    pub created_by: bool,
}

impl RelationAnswers {
    /// The answer for `relation`.
    pub open spec fn spec_get(self, relation: Relation) -> bool {
        match relation {
            Relation::Self_ => self.same_unit,
            Relation::InParty => self.in_party,
            Relation::InRaidOrParty => self.in_raid,
            Relation::OwnedBy => self.owned_by,
            Relation::PassengerOf => self.passenger_of,
            Relation::CreatedBy => self.created_by,
        }
    }

    pub fn get(&self, relation: Relation) -> (r: bool)
        ensures
            r == self.spec_get(relation),
    {
        match relation {
            Relation::Self_ => self.same_unit,
            Relation::InParty => self.in_party,
            Relation::InRaidOrParty => self.in_raid,
            Relation::OwnedBy => self.owned_by,
            Relation::PassengerOf => self.passenger_of,
            Relation::CreatedBy => self.created_by,
        }
    }
}

/// The object's reaction to the target `target` is one of `rank_mask`.
#[derive(Debug, Clone, Copy, PartialEq, Eq, Structural)]
pub struct MultiTargetConditionReactionTo {
    pub target: u8,
    pub rank_mask: u32,
}

impl MultiTargetConditionReactionTo {
    pub open spec fn spec_try_from(values: (u32, u32, u32)) -> Result<Self, ()> {
        Ok(MultiTargetConditionReactionTo { target: values.0 as u8, rank_mask: values.1 })
    }

    pub fn try_from(values: (u32, u32, u32)) -> (r: Result<Self, ()>)
        ensures
            r == Self::spec_try_from(values),
    {
        Ok(MultiTargetConditionReactionTo { target: values.0 as u8, rank_mask: values.1 })
    }

    /// Decides from the object's reaction to the target; a negative reaction
    /// matches no rank.
    pub open spec fn spec_meets(self, reaction: i8) -> Result<bool, ()> {
        Ok(reaction >= 0 && (1u32 << (reaction as u32)) & self.rank_mask != 0)
    }

    pub fn meets(&self, reaction: i8) -> (r: Result<bool, ()>)
        requires
            reaction < 32,
        ensures
            r == self.spec_meets(reaction),
    {
        if reaction < 0 {
            return Ok(false);
        }
        Ok((1u32 << (reaction as u32)) & self.rank_mask != 0)
    }
}

/// The distance from the object to the target `target` compares as
/// `comparison` with the distance whose bits are `distance_bits`.
///
/// Distances are floating-point numbers; the comparison is made where the
/// distance is measured.
#[derive(Debug, Clone, Copy, PartialEq, Eq, Structural)]
pub struct MultiTargetConditionDistanceTo {
    pub target: u8,
    /// Bits of the distance, a 32-bit float (`f32::from_bits`).
    pub distance_bits: u32,
    pub comparison: ComparisonType,
}

impl MultiTargetConditionDistanceTo {
    pub open spec fn spec_try_from(values: (u32, u32, u32)) -> Result<Self, ()> {
        match ComparisonType::spec_from_repr(values.1) {
            Some(comparison) => Ok(
                MultiTargetConditionDistanceTo {
                    target: values.0 as u8,
                    distance_bits: values.2,
                    comparison,
                },
            ),
            None => Err(()),
        }
    }

    pub fn try_from(values: (u32, u32, u32)) -> (r: Result<Self, ()>)
        ensures
            r == Self::spec_try_from(values),
    {
        match ComparisonType::from_repr(values.1) {
            Some(comparison) => Ok(
                MultiTargetConditionDistanceTo {
                    target: values.0 as u8,
                    distance_bits: values.2,
                    comparison,
                },
            ),
            None => Err(()),
        }
    }
}

/// Reaction numbers 0 to 31 each name one bit of the rank mask: the condition
/// holds exactly when the bit of the object's reaction is set (reaction 0,
/// hated, is bit 0); a negative reaction matches no rank.
pub proof fn lemma_reaction_reads_its_bit(c: MultiTargetConditionReactionTo, reaction: i8)
    ensures
        0 <= reaction < 32 ==> c.spec_meets(reaction) == Ok::<bool, ()>(
            has_bit(c.rank_mask, reaction as u32),
        ),
        reaction < 0 ==> c.spec_meets(reaction) == Ok::<bool, ()>(false),
{
    if 0 <= reaction < 32 {
        lemma_shifted_bit(c.rank_mask, reaction as u32);
    }
}

/// Each relation reads its own answer about the object and the target: the
/// same unit, party, raid or party, owner, vehicle, creator; where one of the
/// two is no unit nothing is decided.
pub proof fn lemma_relation_reads_its_answer(c: MultiTargetConditionRelationTo, a: RelationAnswers)
    ensures
        c.spec_meets(None) is Err,
        c.relation_type == Relation::Self_ ==> c.spec_meets(Some(a)) == Ok::<bool, ()>(a.same_unit),
        c.relation_type == Relation::InParty ==> c.spec_meets(Some(a)) == Ok::<bool, ()>(a.in_party),
        c.relation_type == Relation::InRaidOrParty ==> c.spec_meets(Some(a)) == Ok::<bool, ()>(
            a.in_raid,
        ),
        c.relation_type == Relation::OwnedBy ==> c.spec_meets(Some(a)) == Ok::<bool, ()>(a.owned_by),
        c.relation_type == Relation::PassengerOf ==> c.spec_meets(Some(a)) == Ok::<bool, ()>(
            a.passenger_of,
        ),
        c.relation_type == Relation::CreatedBy ==> c.spec_meets(Some(a)) == Ok::<bool, ()>(
            a.created_by,
        ),
{
}

/// Each two-target condition is decided by its own `meets` on the answer of
/// its kind; the distance condition is the distance comparison's answer.
pub proof fn lemma_multi_target_dispatch(k: MultiTargetConditionKind, answer: MultiTargetAnswer)
    ensures
        k matches MultiTargetConditionKind::Relation(c) ==> (answer matches MultiTargetAnswer::Relation(
            a,
        ) ==> k.spec_meets(answer) == c.spec_meets(a)),
        k matches MultiTargetConditionKind::Reaction(c) ==> (answer matches MultiTargetAnswer::Reaction(
            r,
        ) ==> k.spec_meets(answer) == c.spec_meets(r)),
        k is Distance ==> (answer matches MultiTargetAnswer::Distance(b) ==> k.spec_meets(answer)
            == Ok::<bool, ()>(b)),
        k matches MultiTargetConditionKind::Relation(c) ==> k.spec_target() == c.target,
        k matches MultiTargetConditionKind::Reaction(c) ==> k.spec_target() == c.target,
        k matches MultiTargetConditionKind::Distance(c) ==> k.spec_target() == c.target,
        k is Relation ==> k.spec_query() == MultiTargetQuery::Relation,
        k is Reaction ==> k.spec_query() == MultiTargetQuery::Reaction,
        k matches MultiTargetConditionKind::Distance(c) ==> k.spec_query() == (MultiTargetQuery::Distance {
            comparison: c.comparison,
            distance_bits: c.distance_bits,
        }),
{
}

} // verus!
