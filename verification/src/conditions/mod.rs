//! Condition rows, their typed forms and their evaluation.
//!
//! The core hands a condition row over; it is parsed into a [`Condition`],
//! which names the targets it needs ([`TargetNeed`]) and, for its kind, the
//! question to put to them. From what was found there ([`Found`]) the
//! condition decides, and the result is answered as a code: 1 met, 0 not met,
//! -1 not decided here (the core then decides by itself).
use vstd::prelude::*;

pub mod comparison;
pub mod global;
pub mod kind;
pub mod multi_target;
pub mod player;
pub mod unit;
pub mod world_object;

use crate::conditions::global::GlobalAnswer;
use crate::conditions::kind::ConditionKind;
use crate::conditions::multi_target::MultiTargetAnswer;
use crate::conditions::player::PlayerAnswer;
use crate::conditions::world_object::WorldObjectAnswer;
use crate::entities::object::WorldObjectRef;
use crate::entities::player::PlayerRef;
use crate::entities::unit::UnitRef;

verus! {

/// A condition row as the core hands it over.
#[derive(Debug, Clone, Copy, PartialEq, Eq, Structural)]
pub struct ConditionRow {
    pub cond_type: u8,
    pub val1: u32,
    pub val2: u32,
    pub val3: u32,
    pub negative: bool,
    pub target: u8,
}

/// A parsed condition: no kind for condition type 0, which always holds.
#[derive(Debug, Clone, Copy, PartialEq, Eq, Structural)]
pub struct Condition {
    /// Index of the object in the condition's source that the condition is on.
    pub target: u8,
    pub kind: Option<ConditionKind>,
    /// The result is negated.
    pub negative: bool,
}

impl Condition {
    /// The condition that `row` stands for; an error where the row's type and
    /// values name none.
    pub open spec fn spec_try_from(row: ConditionRow) -> Result<Condition, ()> {
        if row.cond_type == 0 {
            Ok(Condition { target: row.target, kind: None, negative: row.negative })
        } else {
            match ConditionKind::spec_try_from(row.cond_type, (row.val1, row.val2, row.val3)) {
                Ok(k) => Ok(Condition { target: row.target, kind: Some(k), negative: row.negative }),
                Err(e) => Err(e),
            }
        }
    }

    pub fn try_from(row: ConditionRow) -> (r: Result<Condition, ()>)
        ensures
            r == Self::spec_try_from(row),
    {
        let kind = if row.cond_type == 0 {
            None
        } else {
            match ConditionKind::try_from(row.cond_type, (row.val1, row.val2, row.val3)) {
                Ok(k) => Some(k),
                Err(e) => return Err(e),
            }
        };
        Ok(Condition { kind, negative: row.negative, target: row.target })
    }

    /// The condition's result, given what evaluating its kind on its targets
    /// gave (`kind_result`, not consulted where the condition has no kind).
    pub open spec fn spec_conclude(self, kind_result: Result<bool, ()>) -> Result<bool, ()> {
        let res = match self.kind {
            None => Ok(true),
            Some(_) => kind_result,
        };
        match res {
            Ok(b) => Ok(if self.negative { !b } else { b }),
            Err(e) => Err(e),
        }
    }

    pub fn conclude(&self, kind_result: Result<bool, ()>) -> (r: Result<bool, ()>)
        ensures
            r == self.spec_conclude(kind_result),
    {
        let res = match self.kind {
            None => Ok(true),
            Some(_) => kind_result,
        }?;
        Ok(if self.negative { !res } else { res })
    }

    pub open spec fn spec_need(self) -> TargetNeed {
        match self.kind {
            None => TargetNeed::Nothing,
            Some(ConditionKind::Unit(_)) => TargetNeed::Unit(self.target),
            Some(ConditionKind::WorldObject(_)) => TargetNeed::Object(self.target),
            Some(ConditionKind::Player(_)) => TargetNeed::Player(self.target),
            Some(ConditionKind::Global(_)) => TargetNeed::Nothing,
            Some(ConditionKind::MultiTarget(m)) => TargetNeed::Pair(self.target, m.spec_target()),
        }
    }

    /// The objects of the condition's source to look up, and in which form.
    pub fn need(&self) -> (r: TargetNeed)
        ensures
            r == self.spec_need(),
    {
        match &self.kind {
            None => TargetNeed::Nothing,
            Some(ConditionKind::Unit(_)) => TargetNeed::Unit(self.target),
            Some(ConditionKind::WorldObject(_)) => TargetNeed::Object(self.target),
            Some(ConditionKind::Player(_)) => TargetNeed::Player(self.target),
            Some(ConditionKind::Global(_)) => TargetNeed::Nothing,
            Some(ConditionKind::MultiTarget(m)) => TargetNeed::Pair(self.target, m.target()),
        }
    }

    /// What the kind gives on what was found: each kind decided by its own
    /// `meets` on the object(s) in the needed form; an object that is not a
    /// unit meets no unit condition; otherwise an error.
    pub open spec fn spec_kind_result(self, found: Found) -> Result<bool, ()> {
        match (self.kind, found) {
            (Some(ConditionKind::Unit(k)), Found::Unit(u, a)) => Ok(k.spec_meets(u, a)),
            (Some(ConditionKind::Unit(_)), Found::NotInForm) => Ok(false),
            (Some(ConditionKind::WorldObject(k)), Found::Object(o, a)) => k.spec_meets(o, a),
            (Some(ConditionKind::Player(k)), Found::Player(p, a)) => k.spec_meets(p, a),
            (Some(ConditionKind::Global(k)), Found::Global(a)) => Ok(k.spec_meets(a)),
            (Some(ConditionKind::MultiTarget(k)), Found::Pair(a)) => k.spec_meets(a),
            _ => Err(()),
        }
    }

    /// The condition's result on what was found at its targets. A unit
    /// condition whose object is absent is not met (whether negated or not);
    /// everything else is concluded from the kind's result.
    pub open spec fn spec_meets(self, found: Found) -> Result<bool, ()> {
        if self.kind matches Some(ConditionKind::Unit(_)) && found is Missing {
            Ok(false)
        } else {
            self.spec_conclude(self.spec_kind_result(found))
        }
    }

    pub fn meets(&self, found: Found) -> (r: Result<bool, ()>)
        requires
            found.fits(*self),
        ensures
            r == self.spec_meets(found),
    {
        let kind = match &self.kind {
            None => return self.conclude(Err(())),
            Some(k) => k,
        };
        let kind_result = match (kind, found) {
            (ConditionKind::Unit(_), Found::Missing) => return Ok(false),
            (ConditionKind::Unit(k), Found::Unit(u, a)) => Ok(k.meets(&u, a)),
            (ConditionKind::Unit(_), Found::NotInForm) => Ok(false),
            (ConditionKind::WorldObject(k), Found::Object(o, a)) => k.meets(&o, a),
            (ConditionKind::Player(k), Found::Player(p, a)) => k.meets(&p, a),
            (ConditionKind::Global(k), Found::Global(a)) => Ok(k.meets(a)),
            (ConditionKind::MultiTarget(k), Found::Pair(a)) => k.meets(a),
            _ => Err(()),
        };
        self.conclude(kind_result)
    }
}

/// The objects of a condition's source that a condition needs, by index.
#[derive(Debug, Clone, Copy, PartialEq, Eq, Structural)]
pub enum TargetNeed {
    /// No object (no kind, or a global condition).
    Nothing,
    /// The object, as a unit.
    Unit(u8),
    /// The object.
    Object(u8),
    /// The player that the object is, or that charms or owns it.
    Player(u8),
    /// The object and a second target.
    Pair(u8, u8),
}

/// What was found at the targets that a condition needs, with the answers to
/// its kind's question.
#[derive(Debug, Clone, Copy, PartialEq, Eq, Structural)]
pub enum Found {
    /// An object at a needed index is absent.
    Missing,
    /// The object is not in the needed form: no unit for a unit condition, no
    /// player for a player condition.
    NotInForm,
    /// The unit's view and its answer to the kind's `UnitQuery`.
    Unit(UnitRef, bool),
    /// The object's view and its answer to the kind's `WorldObjectQuery`.
    Object(WorldObjectRef, WorldObjectAnswer),
    /// The player's view and its answer to the kind's `PlayerQuery`.
    Player(PlayerRef, PlayerAnswer),
    /// Both objects are present; the answer to the kind's `MultiTargetQuery`.
    Pair(MultiTargetAnswer),
    /// The world's answer to the kind's `GlobalQuery`.
    Global(GlobalAnswer),
}

impl Found {
    /// The finding is one that condition `c` can be handed: of the form its
    /// need names, with an answer to its kind's question.
    pub open spec fn fits(self, c: Condition) -> bool {
        match c.kind {
            None => true,
            Some(ConditionKind::Unit(_)) => match self {
                Found::Missing | Found::NotInForm | Found::Unit(_, _) => true,
                _ => false,
            },
            Some(ConditionKind::WorldObject(k)) => match self {
                Found::Missing => true,
                Found::Object(_, a) => k.accepts(a),
                _ => false,
            },
            Some(ConditionKind::Player(k)) => match self {
                Found::Missing | Found::NotInForm => true,
                Found::Player(_, a) => a.fits(k.spec_query()),
                _ => false,
            },
            Some(ConditionKind::Global(k)) => match self {
                Found::Global(a) => a.fits(k.spec_query()),
                _ => false,
            },
            Some(ConditionKind::MultiTarget(k)) => match self {
                Found::Missing => true,
                Found::Pair(a) => a.fits(k.spec_query()),
                _ => false,
            },
        }
    }
}

/// The code that answers a result to the core: 1 met, 0 not met, -1 not decided.
pub open spec fn spec_result_code(r: Result<bool, ()>) -> i8 {
    match r {
        Ok(true) => 1,
        Ok(false) => 0,
        Err(_) => -1i8,
    }
}

pub fn result_code(r: Result<bool, ()>) -> (code: i8)
    ensures
        code == spec_result_code(r),
{
    match r {
        Ok(b) => if b { 1 } else { 0 },
        Err(_) => -1,
    }
}

/// The code answered for `row`, given what was found at its targets.
pub open spec fn spec_code(row: ConditionRow, found: Found) -> i8 {
    match Condition::spec_try_from(row) {
        Ok(c) => spec_result_code(c.spec_meets(found)),
        Err(_) => -1i8,
    }
}

/// Answers the code for `row`: parses it and, where it parses to a condition
/// with a kind, has `look` look up the targets that it needs and put its kind's
/// question to them (the world is asked only then), and decides.
pub fn meets<F: FnOnce(&Condition) -> Found>(row: ConditionRow, look: F) -> (code: i8)
    requires
        forall|c: Condition| call_requires(look, (&c,)),
        forall|c: Condition, f: Found| call_ensures(look, (&c,), f) ==> f.fits(c),
    ensures
        match Condition::spec_try_from(row) {
            Err(_) => code == -1,
            Ok(c) => match c.kind {
                None => code == spec_code(row, Found::Missing),
                Some(_) => exists|f: Found|
                    #[trigger] call_ensures(look, (&c,), f) && code == spec_code(row, f),
            },
        },
{
    let c = match Condition::try_from(row) {
        Ok(c) => c,
        Err(_) => return -1,
    };
    if c.kind.is_none() {
        return result_code(c.meets(Found::Missing));
    }
    let f = look(&c);
    let code = result_code(c.meets(f));
    assert(call_ensures(look, (&c,), f) && code == spec_code(row, f));
    code
}

/// Negating a condition turns a met condition into an unmet one and back, and
/// leaves an undecided one undecided; the one exception is a unit condition
/// whose object is absent, which is not met either way.
pub proof fn lemma_negation_flips(c: Condition, found: Found)
    requires
        !(c.kind matches Some(ConditionKind::Unit(_)) && found is Missing),
    ensures
        ({
            let flipped = Condition { negative: !c.negative, ..c };
            &&& c.spec_meets(found) is Err <==> flipped.spec_meets(found) is Err
            &&& c.spec_meets(found) matches Ok(b) ==> flipped.spec_meets(found) == Ok::<bool, ()>(!b)
        }),
{
}

/// A row of condition type 0 parses whatever its values, looks up nothing, and
/// holds (or, negated, fails) whatever the world is like.
pub proof fn lemma_empty_condition(row: ConditionRow, found: Found)
    requires
        row.cond_type == 0,
    ensures
        Condition::spec_try_from(row) == Ok::<Condition, ()>(
            Condition { target: row.target, kind: None, negative: row.negative },
        ),
        Condition::spec_try_from(row).unwrap().spec_need() == TargetNeed::Nothing,
        spec_code(row, found) == if row.negative { 0i8 } else { 1i8 },
{
}

/// A global condition looks up no object and always decides: met exactly where
/// its own `meets` on the world's answer differs from the negation flag.
pub proof fn lemma_global_decides(c: Condition, found: Found)
    requires
        c.kind matches Some(ConditionKind::Global(_)),
        found.fits(c),
    ensures
        c.spec_need() == TargetNeed::Nothing,
        c.spec_meets(found) is Ok,
        match (c.kind, found) {
            (Some(ConditionKind::Global(k)), Found::Global(a)) => c.spec_meets(found) == Ok::<
                bool,
                (),
            >(k.spec_meets(a) != c.negative),
            _ => false,
        },
{
}

/// A world-object, player or two-target condition is undecided where an object
/// it needs is absent, and a player condition is undecided where the object
/// yields no player; a unit condition is not met where its object is absent,
/// and decides as unmet (then negated) where the object is no unit.
pub proof fn lemma_absent_targets(c: Condition)
    ensures
        (c.kind matches Some(ConditionKind::WorldObject(_))) ==> c.spec_meets(Found::Missing) is Err,
        (c.kind matches Some(ConditionKind::Player(_))) ==> c.spec_meets(Found::Missing) is Err
            && c.spec_meets(Found::NotInForm) is Err,
        (c.kind matches Some(ConditionKind::MultiTarget(_))) ==> c.spec_meets(Found::Missing) is Err,
        (c.kind matches Some(ConditionKind::Unit(_))) ==> c.spec_meets(Found::Missing) == Ok::<
            bool,
            (),
        >(false) && c.spec_meets(Found::NotInForm) == Ok::<bool, ()>(c.negative),
{
}

/// The code is -1, 0 or 1; it is -1 exactly where the row does not parse or
/// where the kind's result on what was found is an error (except for a unit
/// condition whose object is absent), so that the core decides by itself.
pub proof fn lemma_code_falls_back(row: ConditionRow, found: Found)
    ensures
        -1 <= spec_code(row, found) <= 1,
        spec_code(row, found) == -1 <==> (Condition::spec_try_from(row) is Err || (
        Condition::spec_try_from(row) matches Ok(c) && c.kind is Some && !(c.kind matches Some(
            ConditionKind::Unit(_),
        ) && found is Missing) && c.spec_kind_result(found) is Err)),
{
}

/// Condition types this library does not evaluate (41, 50 to 100, from 107 on)
/// are refused, so that the core evaluates them itself.
pub proof fn lemma_unknown_types_refused(row: ConditionRow, found: Found)
    requires
        row.cond_type == 41 || (50 <= row.cond_type <= 100) || row.cond_type >= 107,
    ensures
        Condition::spec_try_from(row) is Err,
        spec_code(row, found) == -1,
{
}

/// The condition types evaluated on a unit: aura, class, race, unit state,
/// level, alive, health value and percentage, in water, stand state, charmed,
/// aura type, in combat.
pub open spec fn is_unit_type(cond: u8) -> bool {
    cond == 1 || cond == 15 || cond == 16 || cond == 21 || cond == 27 || cond == 36 || cond == 37
        || cond == 38 || cond == 40 || cond == 42 || cond == 44 || cond == 102 || cond == 106
}

/// Every unit condition type parses to a unit condition, and nothing else does.
pub proof fn lemma_unit_types(cond: u8, values: (u32, u32, u32))
    ensures
        ConditionKind::spec_try_from(cond, values) matches Ok(k) ==> (k is Unit <==> is_unit_type(
            cond,
        )),
{
}

/// A row of a unit condition type is refused only where it names a comparison
/// that does not exist (level, health value, health percentage) or a stand
/// state pair that does not exist; every other unit row parses.
pub proof fn lemma_unit_rows_refused(cond: u8, values: (u32, u32, u32))
    requires
        is_unit_type(cond),
    ensures
        ConditionKind::spec_try_from(cond, values) is Err <==> (((cond == 27 || cond == 37 || cond
            == 38) && values.1 > 4) || (cond == 42 && !(values.0 == 0 || (values.0 == 1
            && values.1 <= 1)))),
{
}

/// A row of a unit condition type that parses is always decided here (1 or
/// 0), whatever was found at its target; it is never left to the core.
pub proof fn lemma_unit_rows_decide(row: ConditionRow, found: Found)
    requires
        is_unit_type(row.cond_type),
        Condition::spec_try_from(row) is Ok,
        found.fits(Condition::spec_try_from(row).unwrap()),
    ensures
        spec_code(row, found) == 0 || spec_code(row, found) == 1,
{
    lemma_unit_types(row.cond_type, (row.val1, row.val2, row.val3));
}


/// A row of a nonzero type becomes the condition of its kind, on the row's
/// target and with the row's negation flag, or is refused with its kind.
pub proof fn lemma_row_fields_carried(row: ConditionRow)
    ensures
        row.cond_type != 0 ==> Condition::spec_try_from(row) == (match ConditionKind::spec_try_from(
            row.cond_type,
            (row.val1, row.val2, row.val3),
        ) {
            Ok(k) => Ok::<Condition, ()>(Condition { target: row.target, kind: Some(k), negative: row.negative }),
            Err(_) => Err(()),
        }),
{
}

/// A condition needs its own target in the form of its kind (unit, object,
/// player), both its target and the kind's second target for a two-target
/// condition, and nothing for a global condition or none.
pub proof fn lemma_need_names_targets(c: Condition)
    ensures
        c.kind is None ==> c.spec_need() == TargetNeed::Nothing,
        (c.kind matches Some(ConditionKind::Unit(_))) ==> c.spec_need() == TargetNeed::Unit(c.target),
        (c.kind matches Some(ConditionKind::WorldObject(_))) ==> c.spec_need() == TargetNeed::Object(
            c.target,
        ),
        (c.kind matches Some(ConditionKind::Player(_))) ==> c.spec_need() == TargetNeed::Player(
            c.target,
        ),
        (c.kind matches Some(ConditionKind::Global(_))) ==> c.spec_need() == TargetNeed::Nothing,
        c.kind matches Some(ConditionKind::MultiTarget(m)) ==> c.spec_need() == TargetNeed::Pair(
            c.target,
            m.spec_target(),
        ),
{
}

/// What was found decides through the kind's own `meets`, negated where the
/// condition is negated: a unit on the unit, an object on the object, a player
/// on the player, two objects on their answer.
pub proof fn lemma_found_decides_by_kind(c: Condition, found: Found)
    ensures
        c.kind matches Some(ConditionKind::Unit(k)) ==> (found matches Found::Unit(u, a)
            ==> c.spec_meets(found) == Ok::<bool, ()>(k.spec_meets(u, a) != c.negative)),
        c.kind matches Some(ConditionKind::WorldObject(k)) ==> (found matches Found::Object(o, a)
            ==> c.spec_meets(found) == (match k.spec_meets(o, a) {
            Ok(b) => Ok::<bool, ()>(b != c.negative),
            Err(_) => Err(()),
        })),
        c.kind matches Some(ConditionKind::Player(k)) ==> (found matches Found::Player(p, a)
            ==> c.spec_meets(found) == (match k.spec_meets(p, a) {
            Ok(b) => Ok::<bool, ()>(b != c.negative),
            Err(_) => Err(()),
        })),
        c.kind matches Some(ConditionKind::MultiTarget(k)) ==> (found matches Found::Pair(a)
            ==> c.spec_meets(found) == (match k.spec_meets(a) {
            Ok(b) => Ok::<bool, ()>(b != c.negative),
            Err(_) => Err(()),
        })),
{
}

/// Results are answered as 1 for met, 0 for not met and -1 for undecided.
pub proof fn lemma_result_codes()
    ensures
        spec_result_code(Ok(true)) == 1,
        spec_result_code(Ok(false)) == 0,
        spec_result_code(Err(())) == -1,
{
}

} // verus!
