//! The shared client: one worker for all subscribers, started for the first
//! of them and released with the last.
//!
//! The worker's thread and its connection live outside this library. Here
//! stands the bookkeeping that decides about them: whether a subscriber
//! joins the worker that runs or needs a new one, what each subscriber is
//! shown, and when the worker has lost its last subscriber.

use crate::playback::{
    silent, state_after, state_after_all, PlaybackModel, PlaybackState, Update, UpdateModel,
};
use crate::registry::{
    distinct, handler_of, identities, lemma_with_handler, lemma_without, with_handler, without,
    ClientId, ClientIdModel, Registry,
};
use vstd::prelude::*;
use vstd::string::StringExecFns;

verus! {

/// How every report of a failed start begins.
pub const START_FAILURE: &'static str = "Failed to start core: ";

/// How the launch of a worker went.
#[derive(Debug, PartialEq, Eq)]
pub enum Startup {
    /// The worker's event loop runs.
    Started,
    /// The worker could not start; the text says what went wrong.
    Failed(String),
}

/// A subscription that failed because no worker could be started. The
/// reason begins with [`START_FAILURE`] and goes on with what went wrong.
#[derive(Debug, PartialEq, Eq)]
pub struct StartupError {
    pub reason: String,
}

/// A lease: the handle of one subscription. Whoever holds it keeps the
/// worker alive; giving it back ends the subscription.
#[derive(Debug, PartialEq, Eq)]
pub struct Client {
    id: ClientId,
    generation: u64,
}

/// What a subscription gives: the lease, and the subscriber to which the
/// current state is to be delivered at once.
#[derive(Debug, PartialEq, Eq)]
pub struct Subscription {
    pub lease: Client,
    pub dispatch: ClientId,
}

/// The mathematical value of a [`Client`].
pub struct ClientModel {
    pub id: ClientIdModel,
    pub generation: u64,
}

impl View for Client {
    type V = ClientModel;

    closed spec fn view(&self) -> ClientModel {
        ClientModel { id: self.id@, generation: self.generation }
    }
}

/// What the subscribers of one worker share.
pub struct WorkerModel<H> {
    /// The number of leases that are out.
    pub leases: nat,
    /// The state that was last published.
    pub state: PlaybackModel,
    /// The handlers, each under its subscriber's identity.
    pub handlers: Seq<(ClientIdModel, H)>,
}

/// The mathematical value of a [`ClientAccess`].
pub struct AccessModel<H> {
    /// The worker that runs, if one does.
    pub worker: Option<WorkerModel<H>>,
    /// The number of workers that were started so far. The worker that runs
    /// is the last of them, and that number is its generation.
    pub launched: nat,
}

/// The worker right after its launch: one lease is out, nothing plays, no
/// track is known, and no handler is registered.
pub open spec fn launched_worker<H>() -> WorkerModel<H> {
    WorkerModel { leases: 1, state: silent(), handlers: Seq::empty() }
}

/// The worker right after it was started for its first subscriber.
pub open spec fn fresh_worker<H>(id: ClientIdModel, handler: H) -> WorkerModel<H> {
    WorkerModel { leases: 1, state: silent(), handlers: seq![(id, handler)] }
}

/// The access point after a subscription. A subscriber joins the worker
/// that runs; where none runs, one is started for it, and if that fails
/// nothing changes. `started` is looked at only where no worker runs.
pub open spec fn subscribed<H>(
    access: AccessModel<H>,
    id: ClientIdModel,
    handler: H,
    started: bool,
) -> AccessModel<H> {
    match access.worker {
        Some(worker) => AccessModel {
            worker: Some(
                WorkerModel {
                    leases: worker.leases + 1,
                    state: worker.state,
                    handlers: with_handler(worker.handlers, id, handler),
                },
            ),
            launched: access.launched,
        },
        None => if started {
            AccessModel {
                worker: Some(fresh_worker(id, handler)),
                launched: access.launched + 1,
            }
        } else {
            access
        },
    }
}

/// Whether a lease belongs to the worker that runs.
pub open spec fn holds<H>(access: AccessModel<H>, lease: ClientModel) -> bool {
    access.worker.is_some() && lease.generation == access.launched
}

/// The access point after a lease was given back. The lease's identity
/// loses its handler; the worker goes with its last lease. A lease of a
/// worker that runs no more changes nothing.
pub open spec fn released<H>(access: AccessModel<H>, lease: ClientModel) -> AccessModel<H> {
    if holds(access, lease) {
        let worker = access.worker->0;
        if worker.leases <= 1 {
            AccessModel { worker: None, launched: access.launched }
        } else {
            AccessModel {
                worker: Some(
                    WorkerModel {
                        leases: (worker.leases - 1) as nat,
                        state: worker.state,
                        handlers: without(worker.handlers, lease.id),
                    },
                ),
                launched: access.launched,
            }
        }
    } else {
        access
    }
}

/// The access point after an update was published.
pub open spec fn published<H>(access: AccessModel<H>, update: UpdateModel) -> AccessModel<H> {
    match access.worker {
        Some(worker) => AccessModel {
            worker: Some(
                WorkerModel {
                    leases: worker.leases,
                    state: state_after(worker.state, update),
                    handlers: worker.handlers,
                },
            ),
            launched: access.launched,
        },
        None => access,
    }
}

/// The access point after a run of updates was published, oldest first.
pub open spec fn published_all<H>(access: AccessModel<H>, updates: Seq<UpdateModel>) -> AccessModel<
    H,
>
    decreases updates.len(),
{
    if updates.len() == 0 {
        access
    } else {
        published(published_all(access, updates.drop_last()), updates.last())
    }
}

/// The subscribers that an update goes to: all that are registered.
pub open spec fn targets<H>(access: AccessModel<H>) -> Seq<ClientIdModel> {
    match access.worker {
        Some(worker) => identities(worker.handlers),
        None => Seq::empty(),
    }
}

/// What is delivered to a subscriber: its handler, and the state to call
/// it with. Nothing is delivered to who is not registered.
pub open spec fn delivered<H>(access: AccessModel<H>, id: ClientIdModel) -> Option<
    (H, PlaybackModel),
> {
    match access.worker {
        Some(worker) => match handler_of(worker.handlers, id) {
            Some(handler) => Some((handler, worker.state)),
            None => None,
        },
        None => None,
    }
}

/// The handler that is registered for a subscriber.
pub open spec fn subscriber<H>(access: AccessModel<H>, id: ClientIdModel) -> Option<H> {
    match delivered(access, id) {
        Some((handler, _)) => Some(handler),
        None => None,
    }
}

/// Whether the counters can take one more subscription.
pub open spec fn has_room<H>(access: AccessModel<H>) -> bool {
    access.launched < u64::MAX && (access.worker matches Some(worker) ==> worker.leases < u64::MAX)
}

/// Whether the access point is one that the operations can have led to: no
/// identity has two handlers.
pub open spec fn valid<H>(access: AccessModel<H>) -> bool {
    access.worker matches Some(worker) ==> distinct(worker.handlers)
}

/// What the subscribers of one worker share: the number of leases that are
/// out, the state that was last published, and the handlers.
pub struct ClientState<H> {
    leases: u64,
    state: PlaybackState,
    handlers: Registry<H>,
}

impl<H> View for ClientState<H> {
    type V = WorkerModel<H>;

    closed spec fn view(&self) -> WorkerModel<H> {
        WorkerModel { leases: self.leases as nat, state: self.state@, handlers: self.handlers@ }
    }
}

impl<H> ClientState<H> {
    /// The number of leases that are out.
    pub fn leases(&self) -> (leases: u64)
        ensures
            leases == self@.leases,
    {
        self.leases
    }

    /// The state that was last published.
    pub fn current_state(&self) -> (state: &PlaybackState)
        ensures
            state@ == self@.state,
    {
        &self.state
    }

    /// The number of handlers that are registered.
    pub fn handlers(&self) -> (count: usize)
        ensures
            count == self@.handlers.len(),
    {
        self.handlers.len()
    }
}

/// What a launch that succeeded hands out: the lease of the subscriber that
/// asked for it, and the new worker's shared state.
pub struct Launch<H> {
    pub lease: Client,
    pub state: ClientState<H>,
}

/// The access point of the process to the shared client. It knows the
/// worker that runs, without keeping it alive: the leases do that.
pub struct ClientAccess<H> {
    worker: Option<ClientState<H>>,
    launched: u64,
}

impl<H> View for ClientAccess<H> {
    type V = AccessModel<H>;

    closed spec fn view(&self) -> AccessModel<H> {
        AccessModel {
            worker: match self.worker {
                Some(worker) => Some(worker@),
                None => None,
            },
            launched: self.launched as nat,
        }
    }
}

impl Client {
    /// The identity of the subscriber.
    pub fn id(&self) -> (id: &ClientId)
        ensures
            id@ == self@.id,
    {
        &self.id
    }

    /// The generation of the worker that the lease keeps alive.
    pub fn generation(&self) -> (generation: u64)
        ensures
            generation == self@.generation,
    {
        self.generation
    }

    /// Takes the report of a worker's launch. Where the worker started,
    /// the subscriber that asked for it gets its lease, and the worker's
    /// shared state begins: nothing plays, no track is known, and no handler
    /// is registered yet. Where it did not start, the error says so: its
    /// reason is [`START_FAILURE`] followed by what went wrong.
    pub fn launch<H>(id: &ClientId, generation: u64, startup: Startup) -> (launch: Result<
        Launch<H>,
        StartupError,
    >)
        ensures
            match startup {
                Startup::Started => launch matches Ok(started) && started.lease@ == (ClientModel {
                    id: id@,
                    generation,
                }) && started.state@ == launched_worker::<H>(),
                Startup::Failed(detail) => launch matches Err(error) && error.reason@
                    == START_FAILURE@ + detail@,
            },
    {
        match startup {
            Startup::Started => Ok(
                Launch {
                    lease: Client { id: id.to_owned(), generation },
                    state: ClientState {
                        leases: 1,
                        state: PlaybackState::new(),
                        handlers: Registry::new(),
                    },
                },
            ),
            Startup::Failed(detail) => Err(
                StartupError { reason: String::from_str(START_FAILURE).concat(detail.as_str()) },
            ),
        }
    }
}

impl<H> ClientAccess<H> {
    /// The access point of a process in which no worker was started yet.
    pub fn new() -> (access: ClientAccess<H>)
        ensures
            access@ == (AccessModel::<H> { worker: None, launched: 0 }),
    {
        ClientAccess { worker: None, launched: 0 }
    }

    /// Whether a worker runs. Where none does, the next subscriber needs one
    /// to be started.
    pub fn is_live(&self) -> (live: bool)
        ensures
            live == self@.worker.is_some(),
    {
        self.worker.is_some()
    }

    /// The generation of the worker that runs.
    pub fn generation(&self) -> (generation: Option<u64>)
        ensures
            generation == (if self@.worker.is_some() {
                Some(self@.launched as u64)
            } else {
                None
            }),
    {
        if self.worker.is_some() {
            Some(self.launched)
        } else {
            None
        }
    }

    /// The number of leases that are out.
    pub fn leases(&self) -> (leases: u64)
        ensures
            leases == (match self@.worker {
                Some(worker) => worker.leases,
                None => 0,
            }),
    {
        match &self.worker {
            Some(worker) => worker.leases,
            None => 0,
        }
    }

    /// Brings to the caller what holds of every access point. Does nothing
    /// when it runs.
    fn recall_valid(&self)
        ensures
            valid(self@),
    {
        match &self.worker {
            Some(worker) => worker.handlers.recall_distinct(),
            None => {},
        }
    }

    /// Whether the counters can take one more subscription. They cannot
    /// after 2^64 - 1 launches, or with as many leases out.
    pub fn can_subscribe(&self) -> (room: bool)
        ensures
            room == has_room(self@),
            valid(self@),
    {
        let room = match &self.worker {
            Some(worker) => {
                worker.handlers.recall_distinct();
                worker.leases < u64::MAX
            },
            None => true,
        };
        room && self.launched < u64::MAX
    }

    /// Subscribes: registers the handler under the identity, in place of
    /// the one that the identity had, and hands out a lease.
    ///
    /// Where a worker runs, the subscriber joins it. Where none runs, the
    /// caller has tried to start one and says in `startup` how that went:
    /// the report goes through [`Client::launch`]. If the worker started,
    /// it begins with the silent state and this one subscriber; if it
    /// failed, the subscription fails with the reason and nothing changes.
    ///
    /// The new subscriber is owed one delivery at once, before any further
    /// update: the subscription names it, [`ClientAccess::deliver`] makes
    /// it, and [`ClientAccess::delivery`] shows what it is made of.
    pub fn client(&mut self, id: &ClientId, handler: H, startup: Startup) -> (outcome: Result<
        Subscription,
        StartupError,
    >)
        requires
            has_room(old(self)@),
        ensures
            valid(final(self)@),
            outcome.is_ok() <==> old(self)@.worker.is_some() || startup is Started,
            outcome matches Ok(subscription) ==> {
                &&& final(self)@ == subscribed(old(self)@, id@, handler, true)
                &&& subscription.lease@ == (ClientModel {
                    id: id@,
                    generation: final(self)@.launched as u64,
                })
                &&& holds(final(self)@, subscription.lease@)
                &&& subscription.dispatch@ == id@
                &&& delivered(final(self)@, subscription.dispatch@) == Some(
                    (handler, final(self)@.worker->0.state),
                )
                &&& final(self)@.worker->0.state == (match old(self)@.worker {
                    Some(worker) => worker.state,
                    None => silent(),
                })
            },
            outcome matches Err(error) ==> final(self)@ == old(self)@ && (startup matches Startup::Failed(
                detail,
            ) && error.reason@ == START_FAILURE@ + detail@),
    {
        match &mut self.worker {
            Some(worker) => {
                worker.handlers.recall_distinct();
                proof {
                    lemma_with_handler(worker.handlers@, id@, handler, id@);
                }
                worker.leases = worker.leases + 1;
                worker.handlers.insert(id.to_owned(), handler);
                Ok(
                    Subscription {
                        lease: Client { id: id.to_owned(), generation: self.launched },
                        dispatch: id.to_owned(),
                    },
                )
            },
            None => {
                let generation = self.launched + 1;
                match Client::launch(id, generation, startup) {
                    Ok(started) => {
                        let mut worker = started.state;
                        proof {
                            lemma_with_handler(worker.handlers@, id@, handler, id@);
                        }
                        worker.handlers.insert(id.to_owned(), handler);
                        worker.handlers.recall_distinct();
                        assert(worker.handlers@ =~= seq![(id@, handler)]);
                        self.worker = Some(worker);
                        self.launched = generation;
                        Ok(Subscription { lease: started.lease, dispatch: id.to_owned() })
                    },
                    Err(error) => Err(error),
                }
            },
        }
    }

    /// Takes a lease back: the lease's identity loses its handler, and the
    /// worker goes with its last lease. Says whether the worker is to be
    /// shut down.
    pub fn release(&mut self, lease: Client) -> (shutdown: bool)
        ensures
            final(self)@ == released(old(self)@, lease@),
            shutdown == (old(self)@.worker.is_some() && final(self)@.worker.is_none()),
            valid(final(self)@),
    {
        if lease.generation != self.launched {
            self.recall_valid();
            return false;
        }
        let last = match &mut self.worker {
            Some(worker) => {
                if worker.leases <= 1 {
                    true
                } else {
                worker.handlers.recall_distinct();
                    proof {
                        lemma_without(worker.handlers@, lease.id@, lease.id@);
                    }
                    worker.leases = worker.leases - 1;
                    worker.handlers.remove(&lease.id);
                    false
                }
            },
            None => {
                return false;
            },
        };
        if last {
            self.worker = None;
        }
        last
    }

    /// Publishes an update: takes it into the state, then names the
    /// subscribers whose handlers are to be called with the new state, each
    /// once. Without a worker there is no state and nobody to call.
    pub fn publish(&mut self, update: Update) -> (ids: Vec<ClientId>)
        ensures
            final(self)@ == published(old(self)@, update@),
            ids@.len() == targets(final(self)@).len(),
            forall|i: int| 0 <= i < ids@.len() ==> (#[trigger] ids@[i])@ == targets(final(self)@)[i],
            valid(final(self)@),
    {
        match &mut self.worker {
            Some(worker) => {
                worker.handlers.recall_distinct();
                worker.state.apply(update);
                worker.handlers.ids()
            },
            None => Vec::new(),
        }
    }

    /// The state that was last published, while a worker runs.
    pub fn state(&self) -> (state: Option<&PlaybackState>)
        ensures
            match state {
                Some(state) => self@.worker matches Some(worker) && worker.state == state@,
                None => self@.worker.is_none(),
            },
    {
        match &self.worker {
            Some(worker) => Some(&worker.state),
            None => None,
        }
    }

    /// The state that was last published, while a worker runs.
    pub closed spec fn current(&self) -> Option<PlaybackState> {
        match self.worker {
            Some(worker) => Some(worker.state),
            None => None,
        }
    }

    /// Publishes an update and calls the handler of every subscriber with
    /// the new state, each once, in the order of [`targets`]. What the
    /// handlers return comes back in that order: one handler's result keeps
    /// no other from being called. Without a worker nothing is called.
    pub fn fan_out<C, R>(&mut self, update: Update, context: &C) -> (tasks: Vec<R>) where
        H: Fn(&PlaybackState, &C) -> R,

        requires
            old(self)@.worker matches Some(worker) ==> forall|i: int, state: PlaybackState|
                0 <= i < worker.handlers.len() ==> #[trigger] call_requires(
                    worker.handlers[i].1,
                    (&state, context),
                ),
        ensures
            final(self)@ == published(old(self)@, update@),
            valid(final(self)@),
            tasks@.len() == targets(final(self)@).len(),
            final(self).current().is_some() == final(self)@.worker.is_some(),
            final(self).current() matches Some(state) ==> state@ == final(self)@.worker->0.state
                && forall|i: int|
                0 <= i < tasks@.len() ==> call_ensures(
                    final(self)@.worker->0.handlers[i].1,
                    (&state, context),
                    #[trigger] tasks@[i],
                ),
    {
        match &mut self.worker {
            Some(worker) => {
                worker.handlers.recall_distinct();
                worker.state.apply(update);
                worker.handlers.call_all(&worker.state, context)
            },
            None => Vec::new(),
        }
    }

    /// Calls the handler of one subscriber with the current state: the
    /// delivery that a new subscriber is owed. Nothing is called for who
    /// is not registered.
    pub fn deliver<C, R>(&self, id: &ClientId, context: &C) -> (task: Option<R>) where
        H: Fn(&PlaybackState, &C) -> R,

        requires
            forall|state: PlaybackState|
                subscriber(self@, id@).is_some() ==> #[trigger] call_requires(
                    subscriber(self@, id@).unwrap(),
                    (&state, context),
                ),
        ensures
            task.is_some() == delivered(self@, id@).is_some(),
            task matches Some(result) ==> {
                &&& self.current() matches Some(state)
                &&& delivered(self@, id@) matches Some((handler, shown))
                &&& state@ == shown
                &&& call_ensures(handler, (&state, context), result)
            },
    {
        match &self.worker {
            Some(worker) => match worker.handlers.get(id) {
                Some(handler) => {
                    assert(subscriber(self@, id@) == Some(*handler));
                    Some(handler(&worker.state, context))
                },
                None => None,
            },
            None => None,
        }
    }

    /// What is to be delivered to a subscriber now: its handler, and the
    /// state to call it with.
    pub fn delivery(&self, id: &ClientId) -> (call: Option<(&H, &PlaybackState)>)
        ensures
            match call {
                Some((handler, state)) => delivered(self@, id@) == Some((*handler, state@)),
                None => delivered(self@, id@).is_none(),
            },
    {
        match &self.worker {
            Some(worker) => match worker.handlers.get(id) {
                Some(handler) => Some((handler, &worker.state)),
                None => None,
            },
            None => None,
        }
    }
}

/// Publishing changes neither who is registered nor which worker runs, and
/// the state after a run of updates is the state before with the updates
/// taken in.
pub proof fn lemma_published_all<H>(access: AccessModel<H>, updates: Seq<UpdateModel>)
    ensures
        published_all(access, updates).launched == access.launched,
        published_all(access, updates).worker.is_some() == access.worker.is_some(),
        access.worker matches Some(worker) ==> published_all(access, updates).worker == Some(
            WorkerModel {
                leases: worker.leases,
                state: state_after_all(worker.state, updates),
                handlers: worker.handlers,
            },
        ),
    decreases updates.len(),
{
    if updates.len() > 0 {
        lemma_published_all(access, updates.drop_last());
    }
}

/// Whoever subscribes after any number of updates is served at once, with
/// the state as those updates left it: no further update is needed.
pub proof fn lemma_late_subscriber_is_served<H>(
    access: AccessModel<H>,
    updates: Seq<UpdateModel>,
    id: ClientIdModel,
    handler: H,
)
    requires
        valid(access),
        access.worker.is_some(),
    ensures
        delivered(subscribed(published_all(access, updates), id, handler, true), id) == Some(
            (handler, state_after_all(access.worker->0.state, updates)),
        ),
{
    lemma_published_all(access, updates);
    lemma_with_handler(access.worker->0.handlers, id, handler, id);
}

/// The first subscriber of a new worker is served at once, with the silent
/// state.
pub proof fn lemma_first_subscriber_is_served<H>(
    access: AccessModel<H>,
    id: ClientIdModel,
    handler: H,
)
    requires
        access.worker.is_none(),
    ensures
        delivered(subscribed(access, id, handler, true), id) == Some((handler, silent())),
{
    let handlers = seq![(id, handler)];
    assert(distinct(handlers));
    lemma_with_handler(Seq::<(ClientIdModel, H)>::empty(), id, handler, id);
    assert(with_handler(Seq::<(ClientIdModel, H)>::empty(), id, handler) =~= handlers);
}

/// Once a lease is given back, its subscriber is served no more, whatever
/// is published afterwards: it is no target of any update, and nothing is
/// delivered to it.
pub proof fn lemma_released_subscriber_is_not_served<H>(
    access: AccessModel<H>,
    lease: ClientModel,
    updates: Seq<UpdateModel>,
)
    requires
        valid(access),
        holds(access, lease),
    ensures
        delivered(published_all(released(access, lease), updates), lease.id).is_none(),
        !targets(published_all(released(access, lease), updates)).contains(lease.id),
{
    let after = released(access, lease);
    lemma_published_all(after, updates);
    let worker = access.worker->0;
    lemma_without(worker.handlers, lease.id, lease.id);
    let end = published_all(after, updates);
    if end.worker is Some {
        let handlers = end.worker->0.handlers;
        assert(handlers == without(worker.handlers, lease.id));
        assert forall|k: int| 0 <= k < targets(end).len() implies targets(end)[k] != lease.id by {
            assert(handlers[k].0 != lease.id);
        }
    }
}

/// When the last lease is given back the worker is released in that very
/// step, and the access point can be used again: the next subscriber gets a
/// new worker, of a later generation, that starts from the silent state
/// with that subscriber alone.
pub proof fn lemma_last_release_frees_the_worker<H>(
    access: AccessModel<H>,
    lease: ClientModel,
    id: ClientIdModel,
    handler: H,
)
    requires
        holds(access, lease),
        access.worker->0.leases <= 1,
    ensures
        released(access, lease).worker.is_none(),
        subscribed(released(access, lease), id, handler, true).worker == Some(
            fresh_worker(id, handler),
        ),
        subscribed(released(access, lease), id, handler, true).launched == access.launched + 1,
        !holds(subscribed(released(access, lease), id, handler, true), lease),
{
}

/// While other leases are out, giving one back leaves the worker running.
pub proof fn lemma_worker_outlives_other_leases<H>(access: AccessModel<H>, lease: ClientModel)
    requires
        holds(access, lease),
        access.worker->0.leases > 1,
    ensures
        released(access, lease).worker.is_some(),
        released(access, lease).launched == access.launched,
        released(access, lease).worker->0.state == access.worker->0.state,
{
}

} // verus!
