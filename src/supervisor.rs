use vstd::prelude::*;

use crate::errors::{OOBError, ThreadJoinError};
use crate::MAX_THREADS;

verus! {

/// The background services that the supervisor launches.
#[derive(Debug, Clone, Copy, PartialEq, Eq, Structural)]
pub enum TaskId {
    /// The Discord client task.
    Discord,
    /// The Matrix client task.
    Matrix,
}

/// What registering one more task does, by the number of slots already filled.
pub open spec fn registration_of(occupancy: nat) -> Result<Option<TaskId>, OOBError> {
    if occupancy == MAX_THREADS as nat {
        Err(OOBError)
    } else if occupancy == 0 {
        Ok(Some(TaskId::Discord))
    } else if occupancy == 1 {
        Ok(Some(TaskId::Matrix))
    } else if occupancy == 2 {
        Ok(None)
    } else {
        Err(OOBError)
    }
}

/// Decides which task, if any, fills the next slot of a list holding `occupancy` slots.
pub fn registration_for(occupancy: usize) -> (r: Result<Option<TaskId>, OOBError>)
    ensures
        r == registration_of(occupancy as nat),
{
    if occupancy == MAX_THREADS {
        Err(OOBError)
    } else if occupancy == 0 {
        Ok(Some(TaskId::Discord))
    } else if occupancy == 1 {
        Ok(Some(TaskId::Matrix))
    } else if occupancy == 2 {
        Ok(None)
    } else {
        Err(OOBError)
    }
}

/// The bounded list of tasks whose handles are awaited, in registration order.
pub struct SlotList {
    slots: Vec<TaskId>,
}

impl View for SlotList {
    type V = Seq<TaskId>;

    closed spec fn view(&self) -> Seq<TaskId> {
        self.slots@
    }
}

impl SlotList {
    /// The list never holds more than `MAX_THREADS` slots.
    pub open spec fn wf(&self) -> bool {
        self@.len() <= MAX_THREADS as nat
    }

    /// An empty list.
    pub fn new() -> (r: SlotList)
        ensures
            r@ == Seq::<TaskId>::empty(),
            r.wf(),
    {
        SlotList { slots: Vec::new() }
    }

    /// A list holding `slots`, refused when they exceed the capacity.
    pub fn from_slots(slots: Vec<TaskId>) -> (r: Result<SlotList, OOBError>)
        ensures
            slots@.len() <= MAX_THREADS as nat <==> r is Ok,
            r matches Ok(l) ==> l@ == slots@ && l.wf(),
    {
        if slots.len() <= MAX_THREADS {
            Ok(SlotList { slots })
        } else {
            Err(OOBError)
        }
    }

    /// The number of filled slots.
    pub fn len(&self) -> (r: usize)
        ensures
            r as nat == self@.len(),
    {
        self.slots.len()
    }

    /// The task in slot `i`.
    pub fn get(&self, i: usize) -> (r: TaskId)
        requires
            i < self@.len(),
        ensures
            r == self@[i as int],
    {
        self.slots[i]
    }

    /// Registers the next task by the current occupancy. On an error, and where
    /// the occupancy calls for no task, the list is left as it was.
    pub fn register(&mut self) -> (r: Result<(), OOBError>)
        requires
            old(self).wf(),
        ensures
            final(self).wf(),
            match registration_of(old(self)@.len()) {
                Err(e) => r == Err::<(), OOBError>(e) && final(self)@ == old(self)@,
                Ok(Some(t)) => r is Ok && final(self)@ == old(self)@.push(t),
                Ok(None) => r is Ok && final(self)@ == old(self)@,
            },
    {
        match registration_for(self.slots.len()) {
            Err(e) => Err(e),
            Ok(Some(t)) => {
                self.slots.push(t);
                Ok(())
            },
            Ok(None) => Ok(()),
        }
    }
}

/// Registers the Discord task and then the Matrix task into an empty list.
pub fn plan_registration() -> (r: Result<SlotList, OOBError>)
    ensures
        r matches Ok(l) && l@ == seq![TaskId::Discord, TaskId::Matrix] && l.wf(),
{
    let mut slots = SlotList::new();
    let first = slots.register();
    if let Err(e) = first {
        return Err(e);
    }
    let second = slots.register();
    if let Err(e) = second {
        return Err(e);
    }
    assert(slots@ =~= seq![TaskId::Discord, TaskId::Matrix]);
    Ok(slots)
}

/// What the caller reports to the supervisor before asking for its next request.
#[derive(Debug, Clone, Copy, PartialEq, Eq, Structural)]
pub enum JoinEvent {
    /// All tasks have been spawned and registered; nothing was awaited yet.
    Started,
    /// The task last asked for was joined.
    Joined,
    /// The task last asked for could not be joined (it was aborted or panicked).
    JoinFailed,
}

/// What the supervisor asks the caller to do next.
#[derive(Debug, Clone, Copy, PartialEq, Eq, Structural)]
pub enum SupervisorAction {
    /// Wait for the given background task to complete.
    Await(TaskId),
    /// Stop waiting: every registered task completed.
    Succeed,
    /// Stop waiting and fail with this error.
    Fail(ThreadJoinError),
}

/// Where the supervisor stands in joining its slots.
#[derive(Debug, Clone, Copy, PartialEq, Eq, Structural)]
pub enum Phase {
    /// Slots before this index have been handed out to be awaited.
    Joining(usize),
    /// Every slot was joined.
    Succeeded,
    /// A join failed; later slots are never awaited.
    Failed,
}

/// One transition of the join protocol: slots are awaited in registration order,
/// and the first join failure ends the wait.
pub open spec fn step_of(slots: Seq<TaskId>, phase: Phase, ev: JoinEvent) -> (Phase, SupervisorAction) {
    match phase {
        Phase::Succeeded => (phase, SupervisorAction::Succeed),
        Phase::Failed => (phase, SupervisorAction::Fail(ThreadJoinError)),
        Phase::Joining(i) => {
            if ev == JoinEvent::JoinFailed {
                (Phase::Failed, SupervisorAction::Fail(ThreadJoinError))
            } else if (i as nat) < slots.len() {
                (Phase::Joining((i + 1) as usize), SupervisorAction::Await(slots[i as int]))
            } else {
                (Phase::Succeeded, SupervisorAction::Succeed)
            }
        },
    }
}

/// The requests the supervisor makes for a sequence of reported events.
pub open spec fn actions_of(slots: Seq<TaskId>, phase: Phase, events: Seq<JoinEvent>) -> Seq<SupervisorAction>
    decreases events.len(),
{
    if events.len() == 0 {
        Seq::empty()
    } else {
        let (next, a) = step_of(slots, phase, events[0]);
        seq![a] + actions_of(slots, next, events.drop_first())
    }
}

/// After a failure every further request repeats that failure.
proof fn lemma_failed_stays_failed(slots: Seq<TaskId>, events: Seq<JoinEvent>)
    ensures
        actions_of(slots, Phase::Failed, events) == Seq::new(
            events.len(),
            |_k: int| SupervisorAction::Fail(ThreadJoinError),
        ),
    decreases events.len(),
{
    if events.len() > 0 {
        lemma_failed_stays_failed(slots, events.drop_first());
    }
    assert(actions_of(slots, Phase::Failed, events) =~= Seq::new(
        events.len(),
        |_k: int| SupervisorAction::Fail(ThreadJoinError),
    ));
}

/// From slot `i` on, successful joins walk the remaining slots in order and then succeed.
proof fn lemma_joined_from(slots: Seq<TaskId>, i: nat, events: Seq<JoinEvent>)
    requires
        slots.len() <= MAX_THREADS as nat,
        i <= slots.len(),
        events.len() == slots.len() - i + 1,
        forall|k: int| 0 <= k < events.len() ==> events[k] != JoinEvent::JoinFailed,
    ensures
        actions_of(slots, Phase::Joining(i as usize), events) == slots.subrange(
            i as int,
            slots.len() as int,
        ).map_values(|t: TaskId| SupervisorAction::Await(t)) + seq![SupervisorAction::Succeed],
    decreases slots.len() - i,
{
    let rest = events.drop_first();
    assert(events[0] != JoinEvent::JoinFailed);
    if i < slots.len() {
        assert(forall|k: int| 0 <= k < rest.len() ==> rest[k] == events[k + 1]);
        lemma_joined_from(slots, i + 1, rest);
        assert(step_of(slots, Phase::Joining(i as usize), events[0]) == (
            Phase::Joining((i + 1) as usize),
            SupervisorAction::Await(slots[i as int]),
        ));
        assert(actions_of(slots, Phase::Joining(i as usize), events) == seq![
            SupervisorAction::Await(slots[i as int]),
        ] + actions_of(slots, Phase::Joining((i + 1) as usize), rest));
        assert(slots.subrange(i as int, slots.len() as int).map_values(
            |t: TaskId| SupervisorAction::Await(t),
        ) =~= seq![SupervisorAction::Await(slots[i as int])] + slots.subrange(
            (i + 1) as int,
            slots.len() as int,
        ).map_values(|t: TaskId| SupervisorAction::Await(t)));
    } else {
        assert(rest.len() == 0);
        assert(actions_of(slots, Phase::Joining(i as usize), events) == seq![
            SupervisorAction::Succeed,
        ] + actions_of(slots, Phase::Succeeded, rest));
        assert(actions_of(slots, Phase::Succeeded, rest) =~= Seq::empty());
        assert(slots.subrange(i as int, slots.len() as int).map_values(
            |t: TaskId| SupervisorAction::Await(t),
        ) =~= Seq::empty());
    }
    assert(actions_of(slots, Phase::Joining(i as usize), events) =~= slots.subrange(
        i as int,
        slots.len() as int,
    ).map_values(|t: TaskId| SupervisorAction::Await(t)) + seq![SupervisorAction::Succeed]);
}

/// When the caller reports the start and then a successful join after every
/// request, the supervisor asks for each registered task once, in registration
/// order, and then succeeds.
pub proof fn lemma_all_joined_in_order(slots: Seq<TaskId>)
    requires
        slots.len() <= MAX_THREADS as nat,
    ensures
        actions_of(
            slots,
            Phase::Joining(0),
            seq![JoinEvent::Started] + Seq::new(slots.len(), |_k: int| JoinEvent::Joined),
        ) == slots.map_values(|t: TaskId| SupervisorAction::Await(t)) + seq![SupervisorAction::Succeed],
{
    let events = seq![JoinEvent::Started] + Seq::new(slots.len(), |_k: int| JoinEvent::Joined);
    assert forall|k: int| 0 <= k < events.len() implies events[k] != JoinEvent::JoinFailed by {
        if k > 0 {
            assert(events[k] == JoinEvent::Joined);
        }
    }
    lemma_joined_from(slots, 0, events);
    assert(slots.subrange(0, slots.len() as int) =~= slots);
}

/// When the first awaited task cannot be joined, the supervisor fails with a
/// thread-join error and asks for no other task, whatever is reported after.
pub proof fn lemma_first_join_failure_ends_wait(slots: Seq<TaskId>, rest: Seq<JoinEvent>)
    requires
        1 <= slots.len() <= MAX_THREADS as nat,
    ensures
        actions_of(slots, Phase::Joining(0), seq![JoinEvent::Started, JoinEvent::JoinFailed] + rest)
            == seq![SupervisorAction::Await(slots[0])] + Seq::new(
            rest.len() + 1,
            |_k: int| SupervisorAction::Fail(ThreadJoinError),
        ),
{
    let events = seq![JoinEvent::Started, JoinEvent::JoinFailed] + rest;
    lemma_failed_stays_failed(slots, rest);
    assert(events.drop_first() =~= seq![JoinEvent::JoinFailed] + rest);
    assert((seq![JoinEvent::JoinFailed] + rest).drop_first() =~= rest);
    assert(actions_of(slots, Phase::Joining(0), events) == seq![SupervisorAction::Await(slots[0])]
        + actions_of(slots, Phase::Joining(1), seq![JoinEvent::JoinFailed] + rest));
    assert(actions_of(slots, Phase::Joining(1), seq![JoinEvent::JoinFailed] + rest) == seq![
        SupervisorAction::Fail(ThreadJoinError),
    ] + actions_of(slots, Phase::Failed, rest));
    assert(actions_of(slots, Phase::Joining(0), events) =~= seq![SupervisorAction::Await(slots[0])]
        + Seq::new(rest.len() + 1, |_k: int| SupervisorAction::Fail(ThreadJoinError)));
}

/// Drives the joining of registered task handles.
pub struct Supervisor {
    slots: SlotList,
    phase: Phase,
}

impl Supervisor {
    /// The registered slots.
    pub closed spec fn slots_view(&self) -> Seq<TaskId> {
        self.slots@
    }

    /// The current phase.
    pub closed spec fn phase_view(&self) -> Phase {
        self.phase
    }

    /// The slot list is within capacity and the join index within the list.
    pub closed spec fn wf(&self) -> bool {
        &&& self.slots.wf()
        &&& self.phase matches Phase::Joining(i) ==> i as nat <= self.slots@.len()
    }

    /// A supervisor that has awaited nothing yet.
    pub fn new(slots: SlotList) -> (r: Supervisor)
        requires
            slots.wf(),
        ensures
            r.wf(),
            r.slots_view() == slots@,
            r.phase_view() == Phase::Joining(0),
    {
        Supervisor { slots, phase: Phase::Joining(0) }
    }

    /// Takes the caller's report and returns the next request.
    pub fn step(&mut self, ev: JoinEvent) -> (r: SupervisorAction)
        requires
            old(self).wf(),
        ensures
            final(self).wf(),
            final(self).slots_view() == old(self).slots_view(),
            (final(self).phase_view(), r) == step_of(old(self).slots_view(), old(self).phase_view(), ev),
    {
        match self.phase {
            Phase::Succeeded => SupervisorAction::Succeed,
            Phase::Failed => SupervisorAction::Fail(ThreadJoinError),
            Phase::Joining(i) => {
                if ev == JoinEvent::JoinFailed {
                    self.phase = Phase::Failed;
                    SupervisorAction::Fail(ThreadJoinError)
                } else if i < self.slots.len() {
                    let t = self.slots.get(i);
                    self.phase = Phase::Joining(i + 1);
                    SupervisorAction::Await(t)
                } else {
                    self.phase = Phase::Succeeded;
                    SupervisorAction::Succeed
                }
            },
        }
    }
}

} // verus!
