use vstd::prelude::*;
use crate::cache_key::{Namespace, key_of, cache_key};

verus! {

/// Failures of the authoritative store; they end the operation and reach the caller.
#[derive(Clone, Copy, Debug, PartialEq, Eq, Structural)]
pub enum StoreError {
    NotFound,
    Conflict,
    IOError,
}

/// Failures of the cache backend; they are recorded and never reach the caller.
#[derive(Clone, Copy, Debug, PartialEq, Eq, Structural)]
pub enum CacheError {
    IOError,
    SerializationError,
}

/// A record kept in the store and mirrored in the cache.
pub trait Entity: Sized {
    spec fn spec_id(&self) -> u128;

    fn id(&self) -> (r: u128)
        ensures
            r == self.spec_id(),
    ;

    fn duplicate(&self) -> (r: Self)
        ensures
            r == *self,
    ;
}

/// What a cache read came to, once its bytes were decoded.
pub enum CacheLookup<E> {
    Hit(E),
    Miss,
    Undecodable,
    Failed(CacheError),
}

/// The four operations offered to request handlers.
#[derive(Clone, Copy, Debug, PartialEq, Eq, Structural)]
pub enum Operation {
    Create,
    Get(u128),
    Update(u128),
    Delete(u128),
}

/// Where an operation stands.
pub enum Stage<E> {
    ReadingCache,
    CallingStore,
    /// The store mutation committed; the cache step runs and then this is the reply.
    UpdatingCache(Option<E>),
    Done,
}

/// What the outside world reports back.
pub enum Event<E> {
    CacheRead(CacheLookup<E>),
    StoreReplied(Result<E, StoreError>),
    StoreDeleted(Result<(), StoreError>),
    CacheDone(Result<(), CacheError>),
}

/// What the outside world is asked to do next.
pub enum Action<E> {
    ReadCache { key: String },
    CallStore,
    WriteCache { key: String, value: E },
    DeleteCache { key: String },
    Reply(Result<Option<E>, StoreError>),
}

pub enum ActionView<E> {
    ReadCache { key: Seq<char> },
    CallStore,
    WriteCache { key: Seq<char>, value: E },
    DeleteCache { key: Seq<char> },
    Reply(Result<Option<E>, StoreError>),
}

impl<E> View for Action<E> {
    type V = ActionView<E>;

    open spec fn view(&self) -> ActionView<E> {
        match self {
            Action::ReadCache { key } => ActionView::ReadCache { key: key@ },
            Action::CallStore => ActionView::CallStore,
            Action::WriteCache { key, value } => ActionView::WriteCache { key: key@, value: *value },
            Action::DeleteCache { key } => ActionView::DeleteCache { key: key@ },
            Action::Reply(r) => ActionView::Reply(*r),
        }
    }
}

/// One run of one operation on entities of one namespace. The store is always asked
/// before the cache is changed, and cache outcomes never decide the reply.
pub struct Flow<E> {
    pub op: Operation,
    pub ns: Namespace,
    pub stage: Stage<E>,
}

/// The first stage and action of `op`: a get reads the cache, the others go to the store.
pub open spec fn start_spec<E>(op: Operation, ns: Namespace) -> (Flow<E>, ActionView<E>) {
    match op {
        Operation::Get(id) => (
            Flow { op, ns, stage: Stage::ReadingCache },
            ActionView::ReadCache { key: key_of(ns, id) },
        ),
        _ => (Flow { op, ns, stage: Stage::CallingStore }, ActionView::CallStore),
    }
}

/// The events that a flow waits for in its current stage.
pub open spec fn accepts_spec<E>(flow: Flow<E>, event: Event<E>) -> bool {
    match (flow.stage, event) {
        (Stage::ReadingCache, Event::CacheRead(_)) => true,
        (Stage::CallingStore, Event::StoreReplied(_)) => !(flow.op is Delete),
        (Stage::CallingStore, Event::StoreDeleted(_)) => flow.op is Delete,
        (Stage::UpdatingCache(_), Event::CacheDone(_)) => true,
        _ => false,
    }
}

/// The identifier whose cache entry `op` touches once the store answered with `e`.
pub open spec fn target_id<E: Entity>(op: Operation, e: E) -> u128 {
    match op {
        Operation::Create => e.spec_id(),
        Operation::Get(id) => id,
        Operation::Update(id) => id,
        Operation::Delete(id) => id,
    }
}

/// The next stage and action after `event`.
pub open spec fn step_spec<E: Entity>(flow: Flow<E>, event: Event<E>) -> (Flow<E>, ActionView<E>) {
    let Flow { op, ns, stage } = flow;
    match event {
        Event::CacheRead(CacheLookup::Hit(e)) => (
            Flow { op, ns, stage: Stage::Done },
            ActionView::Reply(Ok(Some(e))),
        ),
        Event::CacheRead(_) => (Flow { op, ns, stage: Stage::CallingStore }, ActionView::CallStore),
        Event::StoreReplied(Ok(e)) => (
            Flow { op, ns, stage: Stage::UpdatingCache(Some(e)) },
            ActionView::WriteCache { key: key_of(ns, target_id(op, e)), value: e },
        ),
        Event::StoreReplied(Err(k)) => (
            Flow { op, ns, stage: Stage::Done },
            ActionView::Reply(Err(k)),
        ),
        Event::StoreDeleted(Ok(())) => (
            Flow { op, ns, stage: Stage::UpdatingCache(None) },
            ActionView::DeleteCache { key: key_of(ns, op->Delete_0) },
        ),
        Event::StoreDeleted(Err(k)) => (
            Flow { op, ns, stage: Stage::Done },
            ActionView::Reply(Err(k)),
        ),
        Event::CacheDone(_) => match stage {
            Stage::UpdatingCache(reply) => (
                Flow { op, ns, stage: Stage::Done },
                ActionView::Reply(Ok(reply)),
            ),
            _ => (flow, ActionView::CallStore),
        },
    }
}

/// What the outside world reports, stage by stage, during one run of an operation.
pub struct Reports<E> {
    pub cache_read: CacheLookup<E>,
    pub stored: Result<E, StoreError>,
    pub deleted: Result<(), StoreError>,
    pub cache_done: Result<(), CacheError>,
}

/// The event the outside world feeds to `flow` in its current stage.
pub open spec fn event_for<E>(flow: Flow<E>, rep: Reports<E>) -> Event<E> {
    match flow.stage {
        Stage::ReadingCache => Event::CacheRead(rep.cache_read),
        Stage::CallingStore => if flow.op is Delete {
            Event::StoreDeleted(rep.deleted)
        } else {
            Event::StoreReplied(rep.stored)
        },
        _ => Event::CacheDone(rep.cache_done),
    }
}

/// The cache change an operation asked for, if any, and its reply.
pub struct Outcome<E> {
    pub cache_change: Option<ActionView<E>>,
    pub reply: Option<Result<Option<E>, StoreError>>,
}

/// Feeds `flow` its events until it replies, taking at most `fuel` steps.
pub open spec fn drive<E: Entity>(
    flow: Flow<E>,
    action: ActionView<E>,
    rep: Reports<E>,
    fuel: nat,
    change: Option<ActionView<E>>,
) -> Outcome<E>
    decreases fuel,
{
    if action is Reply {
        Outcome { cache_change: change, reply: Some(action->Reply_0) }
    } else if fuel == 0 {
        Outcome { cache_change: change, reply: None }
    } else {
        let (next, act) = step_spec(flow, event_for(flow, rep));
        let change2 = if act is WriteCache || act is DeleteCache {
            Some(act)
        } else {
            change
        };
        drive(next, act, rep, (fuel - 1) as nat, change2)
    }
}

/// A whole run of `op`: every operation replies within three steps.
pub open spec fn run<E: Entity>(op: Operation, ns: Namespace, rep: Reports<E>) -> Outcome<E> {
    let (flow, action) = start_spec::<E>(op, ns);
    drive(flow, action, rep, 3, None)
}

impl<E: Entity> Flow<E> {
    /// Starts `op` on entities of namespace `ns`.
    pub fn start(op: Operation, ns: Namespace) -> (r: (Flow<E>, Action<E>))
        ensures
            (r.0, r.1@) == start_spec::<E>(op, ns),
    {
        match op {
            Operation::Get(id) => (
                Flow { op, ns, stage: Stage::ReadingCache },
                Action::ReadCache { key: cache_key(ns, id) },
            ),
            _ => (Flow { op, ns, stage: Stage::CallingStore }, Action::CallStore),
        }
    }

    /// Whether the flow waits for `event` now.
    pub fn accepts(&self, event: &Event<E>) -> (r: bool)
        ensures
            r == accepts_spec(*self, *event),
    {
        match (&self.stage, event) {
            (Stage::ReadingCache, Event::CacheRead(_)) => true,
            (Stage::CallingStore, Event::StoreReplied(_)) => !matches!(self.op, Operation::Delete(_)),
            (Stage::CallingStore, Event::StoreDeleted(_)) => matches!(self.op, Operation::Delete(_)),
            (Stage::UpdatingCache(_), Event::CacheDone(_)) => true,
            _ => false,
        }
    }

    /// Takes in what the outside world reported and says what to do next.
    pub fn step(self, event: Event<E>) -> (r: (Flow<E>, Action<E>))
        requires
            accepts_spec(self, event),
        ensures
            (r.0, r.1@) == step_spec(self, event),
    {
        let Flow { op, ns, stage } = self;
        match event {
            Event::CacheRead(CacheLookup::Hit(e)) => (
                Flow { op, ns, stage: Stage::Done },
                Action::Reply(Ok(Some(e))),
            ),
            Event::CacheRead(_) => (Flow { op, ns, stage: Stage::CallingStore }, Action::CallStore),
            Event::StoreReplied(Ok(e)) => {
                let id: u128 = match op {
                    Operation::Create => e.id(),
                    Operation::Get(id) => id,
                    Operation::Update(id) => id,
                    Operation::Delete(id) => id,
                };
                let value = e.duplicate();
                (
                    Flow { op, ns, stage: Stage::UpdatingCache(Some(e)) },
                    Action::WriteCache { key: cache_key(ns, id), value },
                )
            },
            Event::StoreReplied(Err(k)) => (Flow { op, ns, stage: Stage::Done }, Action::Reply(Err(k))),
            Event::StoreDeleted(Ok(())) => {
                let id: u128 = match op {
                    Operation::Delete(id) => id,
                    _ => 0,
                };
                (
                    Flow { op, ns, stage: Stage::UpdatingCache(None) },
                    Action::DeleteCache { key: cache_key(ns, id) },
                )
            },
            Event::StoreDeleted(Err(k)) => (Flow { op, ns, stage: Stage::Done }, Action::Reply(Err(k))),
            Event::CacheDone(_) => match stage {
                Stage::UpdatingCache(reply) => (
                    Flow { op, ns, stage: Stage::Done },
                    Action::Reply(Ok(reply)),
                ),
                _ => (Flow { op, ns, stage }, Action::CallStore),
            },
        }
    }
}

} // verus!
