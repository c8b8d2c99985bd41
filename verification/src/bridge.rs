//! The render bridge: a task that a worker hands to the host, which runs it
//! once on the render thread during a frame, while the worker waits for its
//! result without blocking.
//!
//! The host's list of callbacks is outside this library. Here stands the
//! task itself: whether it still may run, whether its result is there, and
//! whether the host's list must still hold it.

use vstd::prelude::*;

verus! {

/// Where a render task stands.
#[derive(Clone, Copy, Debug, PartialEq, Eq, Structural)]
pub enum BridgeState {
    /// Handed to the host; it has not run.
    Pending,
    /// It has run and its result waits to be fetched.
    Executed,
    /// Its result was fetched.
    Completed,
    /// Whoever waited for it has gone away.
    Canceled,
}

/// What can happen to a render task.
#[derive(Clone, Copy, Debug, PartialEq, Eq, Structural)]
pub enum BridgeEvent {
    /// The host calls the task during a frame.
    Frame,
    /// The waiting side looks for the result.
    Poll,
    /// The waiting side goes away.
    Drop,
}

/// The state after an event. A task runs in the first frame in which the
/// host finds it pending; its result is handed out to the first poll that
/// finds it; and a task whose waiting side has gone away is canceled for
/// good.
pub open spec fn next_state(state: BridgeState, event: BridgeEvent) -> BridgeState {
    match (state, event) {
        (BridgeState::Pending, BridgeEvent::Frame) => BridgeState::Executed,
        (BridgeState::Executed, BridgeEvent::Poll) => BridgeState::Completed,
        (BridgeState::Pending, BridgeEvent::Drop) => BridgeState::Canceled,
        (BridgeState::Executed, BridgeEvent::Drop) => BridgeState::Canceled,
        _ => state,
    }
}

/// Whether the task's closure runs at an event: only in a frame that finds
/// it pending.
pub open spec fn runs_at(state: BridgeState, event: BridgeEvent) -> bool {
    state == BridgeState::Pending && event == BridgeEvent::Frame
}

/// Whether the host's list of callbacks must hold the task: from the moment
/// it is handed over until its result is fetched or its waiting side goes
/// away.
pub open spec fn registered(state: BridgeState) -> bool {
    state == BridgeState::Pending || state == BridgeState::Executed
}

/// The state after a run of events, oldest first.
pub open spec fn state_after(state: BridgeState, events: Seq<BridgeEvent>) -> BridgeState
    decreases events.len(),
{
    if events.len() == 0 {
        state
    } else {
        next_state(state_after(state, events.drop_last()), events.last())
    }
}

/// How often the closure runs during a run of events.
pub open spec fn runs_during(state: BridgeState, events: Seq<BridgeEvent>) -> nat
    decreases events.len(),
{
    if events.len() == 0 {
        0
    } else {
        let earlier = events.drop_last();
        let ran: nat = if runs_at(state_after(state, earlier), events.last()) {
            1
        } else {
            0
        };
        runs_during(state, earlier) + ran
    }
}

/// Something that the host can call during a frame, with the size of the
/// frame.
pub trait RenderCallback {
    /// Called by the host on the render thread.
    fn execute(&mut self, cx: u32, cy: u32);
}

/// A task that runs at most once, and the place where its result waits.
#[verifier::reject_recursive_types(R)]
pub struct RunOnce<T: FnOnce(u32, u32) -> R, R> {
    state: BridgeState,
    task: Option<T>,
    outcome: Option<R>,
}

impl<T: FnOnce(u32, u32) -> R, R> RunOnce<T, R> {
    /// Where the task stands.
    pub closed spec fn state(&self) -> BridgeState {
        self.state
    }

    /// The closure, while the task is pending.
    pub closed spec fn task(&self) -> Option<T> {
        self.task
    }

    /// The result, while it waits to be fetched.
    pub closed spec fn outcome(&self) -> Option<R> {
        self.outcome
    }

    /// What holds of every task: it keeps its closure exactly while it is
    /// pending, and a result exactly while one waits to be fetched; and the
    /// closure can be called with every frame size.
    pub open spec fn wf(&self) -> bool {
        &&& self.task().is_some() <==> self.state() == BridgeState::Pending
        &&& self.outcome().is_some() <==> self.state() == BridgeState::Executed
        &&& self.task() matches Some(task) ==> forall|cx: u32, cy: u32|
            call_requires(task, (cx, cy))
    }

    #[verifier::type_invariant]
    spec fn well_formed(self) -> bool {
        self.wf()
    }

    /// Where the task stands.
    pub fn current(&self) -> (state: BridgeState)
        ensures
            state == self.state(),
            self.wf(),
    {
        proof {
            use_type_invariant(self);
        }
        self.state
    }

    /// Whether the host's list of callbacks must hold the task.
    pub fn is_registered(&self) -> (held: bool)
        ensures
            held == registered(self.state()),
    {
        match self.state {
            BridgeState::Pending | BridgeState::Executed => true,
            _ => false,
        }
    }

    /// The waiting side looks for the result: it gets it if the task has
    /// run and the result was not fetched before. From then on the host's
    /// list need not hold the task.
    pub fn poll(&mut self) -> (result: Option<R>)
        ensures
            final(self).wf(),
            final(self).state() == next_state(old(self).state(), BridgeEvent::Poll),
            result == (if old(self).state() == BridgeState::Executed {
                old(self).outcome()
            } else {
                None
            }),
            old(self).state() == BridgeState::Executed ==> result.is_some(),
            final(self).task() == old(self).task(),
            final(self).outcome() == (if old(self).state() == BridgeState::Executed {
                None
            } else {
                old(self).outcome()
            }),
    {
        proof {
            use_type_invariant(&*self);
        }
        match self.state {
            BridgeState::Executed => {
                let mut fetched = RunOnce {
                    state: BridgeState::Completed,
                    task: None,
                    outcome: None,
                };
                core::mem::swap(self, &mut fetched);
                fetched.outcome
            },
            _ => None,
        }
    }

    /// The waiting side goes away. A pending task will never run: its
    /// closure is dropped here. A result that waits is dropped too. The
    /// host's list need not hold the task any more.
    pub fn cancel(&mut self)
        ensures
            final(self).wf(),
            final(self).state() == next_state(old(self).state(), BridgeEvent::Drop),
            final(self).task().is_none(),
            final(self).outcome().is_none(),
    {
        proof {
            use_type_invariant(&*self);
        }
        match self.state {
            BridgeState::Pending | BridgeState::Executed => {
                *self = RunOnce { state: BridgeState::Canceled, task: None, outcome: None };
            },
            _ => {},
        }
    }
}

impl<T: FnOnce(u32, u32) -> R, R> RenderCallback for RunOnce<T, R> {
    /// The host calls the task during a frame. A pending task runs, with
    /// the size of the frame, and its result waits from then on; any other
    /// task is left as it is, and nothing runs.
    fn execute(&mut self, cx: u32, cy: u32)
        ensures
            final(self).wf(),
            final(self).state() == next_state(old(self).state(), BridgeEvent::Frame),
            runs_at(old(self).state(), BridgeEvent::Frame) ==> old(self).task().is_some()
                && final(self).task().is_none() && final(self).outcome().is_some() && call_ensures(
                old(self).task()->0,
                (cx, cy),
                final(self).outcome()->0,
            ),
            !runs_at(old(self).state(), BridgeEvent::Frame) ==> final(self).outcome() == old(
                self,
            ).outcome() && final(self).task() == old(self).task(),
    {
        proof {
            use_type_invariant(&*self);
        }
        match self.state {
            BridgeState::Pending => {
                let mut pending = RunOnce {
                    state: BridgeState::Canceled,
                    task: None,
                    outcome: None,
                };
                core::mem::swap(self, &mut pending);
                match pending.task {
                    Some(task) => {
                        let outcome = task(cx, cy);
                        *self = RunOnce {
                            state: BridgeState::Executed,
                            task: None,
                            outcome: Some(outcome),
                        };
                    },
                    None => {},
                }
            },
            _ => {},
        }
    }
}

/// Makes a task of a closure, to be handed to the host: the host's list of
/// callbacks holds it from now on.
pub fn execute_main_render_callback<T: FnOnce(u32, u32) -> R, R>(cb: T) -> (bridge: RunOnce<T, R>)
    requires
        forall|cx: u32, cy: u32| call_requires(cb, (cx, cy)),
    ensures
        bridge.wf(),
        bridge.state() == BridgeState::Pending,
        bridge.task() == Some(cb),
        registered(bridge.state()),
{
    RunOnce { state: BridgeState::Pending, task: Some(cb), outcome: None }
}

/// A task runs at most once, whatever happens to it and however often.
pub proof fn lemma_runs_at_most_once(state: BridgeState, events: Seq<BridgeEvent>)
    ensures
        runs_during(state, events) <= 1,
        runs_during(state, events) == 1 ==> state == BridgeState::Pending && state_after(
            state,
            events,
        ) != BridgeState::Pending,
        state != BridgeState::Pending ==> runs_during(state, events) == 0 && state_after(
            state,
            events,
        ) != BridgeState::Pending,
    decreases events.len(),
{
    if events.len() > 0 {
        lemma_runs_at_most_once(state, events.drop_last());
    }
}

/// If the waiting side goes away before the host has called the task, the
/// task never runs, and the host's list holds it no more: after the drop
/// the task is canceled, and it stays canceled and does not run whatever
/// comes later, a call by the host included.
pub proof fn lemma_canceled_task_never_runs(events: Seq<BridgeEvent>)
    ensures
        next_state(BridgeState::Pending, BridgeEvent::Drop) == BridgeState::Canceled,
        !runs_at(BridgeState::Pending, BridgeEvent::Drop),
        state_after(BridgeState::Canceled, events) == BridgeState::Canceled,
        runs_during(BridgeState::Canceled, events) == 0,
        !registered(state_after(BridgeState::Canceled, events)),
    decreases events.len(),
{
    if events.len() > 0 {
        lemma_canceled_task_never_runs(events.drop_last());
    }
}

/// Once the result was fetched, the host's list holds the task no more,
/// and the task does not run again.
pub proof fn lemma_completed_task_is_done(events: Seq<BridgeEvent>)
    ensures
        state_after(BridgeState::Completed, events) == BridgeState::Completed,
        runs_during(BridgeState::Completed, events) == 0,
        !registered(BridgeState::Completed),
    decreases events.len(),
{
    if events.len() > 0 {
        lemma_completed_task_is_done(events.drop_last());
    }
}

} // verus!
