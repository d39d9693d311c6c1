//! Conditions on the state of the world as a whole.
use vstd::prelude::*;

verus! {

/// The global conditions, one variant per condition type.
#[derive(Debug, Clone, Copy, PartialEq, Eq, Structural)]
pub enum GlobalConditionKind {
    ActiveEvent(GlobalConditionActiveEvent),
    WorldState(GlobalConditionWorldState),
    WorldScript(GlobalConditionWorldScript),
    RealmAchievement(GlobalConditionRealmAchievement),
}

/// The question that a global condition puts to the world.
#[derive(Debug, Clone, Copy, PartialEq, Eq, Structural)]
pub enum GlobalQuery {
    /// The game event manager's `IsActiveEvent(event)`; answered by a flag.
    ActiveEvent(u16),
    /// The world state's `getWorldState(index)`; answered by a value.
    WorldState(u32),
    /// The world state's `IsConditionFulfilled(condition_id, state)`; answered
    /// by a flag.
    WorldScript { condition_id: u32, state: u32 },
    /// `IsRealmCompleted` of the achievement; answered by `Completed` (`None`
    /// where the achievement or the achievement manager is not found).
    RealmAchievement(u32),
}

/// The world's answer to a [`GlobalQuery`].
#[derive(Debug, Clone, Copy, PartialEq, Eq, Structural)]
pub enum GlobalAnswer {
    Flag(bool),
    Value(u64),
    Completed(Option<bool>),
}

impl GlobalAnswer {
    /// The answer has the shape that `query` asks for.
    pub open spec fn fits(self, query: GlobalQuery) -> bool {
        match query {
            GlobalQuery::ActiveEvent(_) => self is Flag,
            GlobalQuery::WorldState(_) => self is Value,
            GlobalQuery::WorldScript { .. } => self is Flag,
            GlobalQuery::RealmAchievement(_) => self is Completed,
        }
    }
}

impl GlobalConditionKind {
    pub open spec fn spec_query(self) -> GlobalQuery {
        match self {
            GlobalConditionKind::ActiveEvent(c) => GlobalQuery::ActiveEvent(c.event_id as u16),
            GlobalConditionKind::WorldState(c) => GlobalQuery::WorldState(c.index),
            GlobalConditionKind::WorldScript(c) => GlobalQuery::WorldScript {
                condition_id: c.condition_id,
                state: c.state,
            },
            GlobalConditionKind::RealmAchievement(c) => GlobalQuery::RealmAchievement(
                c.achievement_id,
            ),
        }
    }

    /// The question to put to the world; its answer is handed to `meets`.
    pub fn query(&self) -> (r: GlobalQuery)
        ensures
            r == self.spec_query(),
    {
        match self {
            GlobalConditionKind::ActiveEvent(c) => GlobalQuery::ActiveEvent(c.event()),
            GlobalConditionKind::WorldState(c) => GlobalQuery::WorldState(c.index),
            GlobalConditionKind::WorldScript(c) => GlobalQuery::WorldScript {
                condition_id: c.condition_id,
                state: c.state,
            },
            GlobalConditionKind::RealmAchievement(c) => GlobalQuery::RealmAchievement(
                c.achievement_id,
            ),
        }
    }

    /// Each global condition decided by its own `meets` on the world's answer.
    pub open spec fn spec_meets(self, answer: GlobalAnswer) -> bool {
        match (self, answer) {
            (GlobalConditionKind::ActiveEvent(c), GlobalAnswer::Flag(b)) => c.spec_meets(b),
            (GlobalConditionKind::WorldState(c), GlobalAnswer::Value(v)) => c.spec_meets(v),
            (GlobalConditionKind::WorldScript(c), GlobalAnswer::Flag(b)) => c.spec_meets(b),
            (GlobalConditionKind::RealmAchievement(c), GlobalAnswer::Completed(o)) => c.spec_meets(
                o,
            ),
            _ => false,
        }
    }

    pub fn meets(&self, answer: GlobalAnswer) -> (r: bool)
        requires
            answer.fits(self.spec_query()),
        ensures
            r == self.spec_meets(answer),
    {
        match (self, answer) {
            (GlobalConditionKind::ActiveEvent(c), GlobalAnswer::Flag(b)) => c.meets(b),
            (GlobalConditionKind::WorldState(c), GlobalAnswer::Value(v)) => c.meets(v),
            (GlobalConditionKind::WorldScript(c), GlobalAnswer::Flag(b)) => c.meets(b),
            (GlobalConditionKind::RealmAchievement(c), GlobalAnswer::Completed(o)) => c.meets(o),
            _ => false,
        }
    }
}

/// The game event `event_id` is active.
#[derive(Debug, Clone, Copy, PartialEq, Eq, Structural)]
pub struct GlobalConditionActiveEvent {
    pub event_id: u32,
}

impl GlobalConditionActiveEvent {
    pub open spec fn spec_try_from(values: (u32, u32, u32)) -> Result<Self, ()> {
        Ok(GlobalConditionActiveEvent { event_id: values.0 })
    }

    pub fn try_from(values: (u32, u32, u32)) -> (r: Result<Self, ()>)
        ensures
            r == Self::spec_try_from(values),
    {
        Ok(GlobalConditionActiveEvent { event_id: values.0 })
    }

    /// The event number that the game event manager is asked about (event ids
    /// are 16 bits wide there).
    pub fn event(&self) -> (r: u16)
        ensures
            r == self.event_id as u16,
    {
        self.event_id as u16
    }

    pub open spec fn spec_meets(self, active: bool) -> bool {
        active
    }

    /// Decides from the game event manager's answer to `IsActiveEvent(event())`.
    pub fn meets(&self, active: bool) -> (r: bool)
        ensures
            r == self.spec_meets(active),
    {
        active
    }
}

/// World state `index` holds `value`.
#[derive(Debug, Clone, Copy, PartialEq, Eq, Structural)]
pub struct GlobalConditionWorldState {
    pub index: u32,
    pub value: u32,
}

impl GlobalConditionWorldState {
    pub open spec fn spec_try_from(values: (u32, u32, u32)) -> Result<Self, ()> {
        Ok(GlobalConditionWorldState { index: values.0, value: values.1 })
    }

    pub fn try_from(values: (u32, u32, u32)) -> (r: Result<Self, ()>)
        ensures
            r == Self::spec_try_from(values),
    {
        Ok(GlobalConditionWorldState { index: values.0, value: values.1 })
    }

    /// Decides from `getWorldState(index)`.
    pub open spec fn spec_meets(self, world_state: u64) -> bool {
        world_state == self.value as u64
    }

    pub fn meets(&self, world_state: u64) -> (r: bool)
        ensures
            r == self.spec_meets(world_state),
    {
        world_state == self.value as u64
    }
}

/// The world script condition `condition_id` is fulfilled in state `state`.
#[derive(Debug, Clone, Copy, PartialEq, Eq, Structural)]
pub struct GlobalConditionWorldScript {
    pub condition_id: u32,
    pub state: u32,
}

impl GlobalConditionWorldScript {
    pub open spec fn spec_try_from(values: (u32, u32, u32)) -> Result<Self, ()> {
        Ok(GlobalConditionWorldScript { condition_id: values.0, state: values.1 })
    }

    pub fn try_from(values: (u32, u32, u32)) -> (r: Result<Self, ()>)
        ensures
            r == Self::spec_try_from(values),
    {
        Ok(GlobalConditionWorldScript { condition_id: values.0, state: values.1 })
    }

    /// Decides from `IsConditionFulfilled(condition_id, state)`.
    pub open spec fn spec_meets(self, fulfilled: bool) -> bool {
        fulfilled
    }

    pub fn meets(&self, fulfilled: bool) -> (r: bool)
        ensures
            r == self.spec_meets(fulfilled),
    {
        fulfilled
    }
}

/// The realm-first achievement `achievement_id` has been completed.
#[derive(Debug, Clone, Copy, PartialEq, Eq, Structural)]
pub struct GlobalConditionRealmAchievement {
    pub achievement_id: u32,
}

impl GlobalConditionRealmAchievement {
    pub open spec fn spec_try_from(values: (u32, u32, u32)) -> Result<Self, ()> {
        Ok(GlobalConditionRealmAchievement { achievement_id: values.0 })
    }

    pub fn try_from(values: (u32, u32, u32)) -> (r: Result<Self, ()>)
        ensures
            r == Self::spec_try_from(values),
    {
        Ok(GlobalConditionRealmAchievement { achievement_id: values.0 })
    }

    /// Decides from `IsRealmCompleted` for the achievement (`None` where the
    /// achievement or the achievement manager is not found).
    pub open spec fn spec_meets(self, completed: Option<bool>) -> bool {
        completed == Some(true)
    }

    pub fn meets(&self, completed: Option<bool>) -> (r: bool)
        ensures
            r == self.spec_meets(completed),
    {
        match completed {
            Some(b) => b,
            None => false,
        }
    }
}


/// The global conditions: an active event and a fulfilled world-script
/// condition hold exactly when the world says so, a world state exactly when
/// its value equals the row's value, a realm achievement exactly when it is
/// known and completed.
pub proof fn lemma_global_conditions(
    event: GlobalConditionActiveEvent,
    state: GlobalConditionWorldState,
    script: GlobalConditionWorldScript,
    realm: GlobalConditionRealmAchievement,
    b: bool,
    v: u64,
    completed: Option<bool>,
)
    ensures
        event.spec_meets(b) == b,
        state.spec_meets(v) == (v == state.value as u64),
        script.spec_meets(b) == b,
        realm.spec_meets(completed) == (completed == Some(true)),
{
}

/// Each global condition is decided by its own `meets` on the world's answer,
/// and asks the world the question that its fields name.
pub proof fn lemma_global_dispatch(k: GlobalConditionKind, a: GlobalAnswer)
    ensures
        k matches GlobalConditionKind::ActiveEvent(c) ==> k.spec_query() == GlobalQuery::ActiveEvent(
            c.event_id as u16,
        ) && (a matches GlobalAnswer::Flag(b) ==> k.spec_meets(a) == c.spec_meets(b)),
        k matches GlobalConditionKind::WorldState(c) ==> k.spec_query() == GlobalQuery::WorldState(
            c.index,
        ) && (a matches GlobalAnswer::Value(v) ==> k.spec_meets(a) == c.spec_meets(v)),
        k matches GlobalConditionKind::WorldScript(c) ==> k.spec_query() == (GlobalQuery::WorldScript {
            condition_id: c.condition_id,
            state: c.state,
        }) && (a matches GlobalAnswer::Flag(b) ==> k.spec_meets(a) == c.spec_meets(b)),
        k matches GlobalConditionKind::RealmAchievement(c) ==> k.spec_query()
            == GlobalQuery::RealmAchievement(c.achievement_id) && (a matches GlobalAnswer::Completed(o)
            ==> k.spec_meets(a) == c.spec_meets(o)),
{
}

} // verus!
