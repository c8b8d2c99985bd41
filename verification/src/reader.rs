//! The stream reader: the loop that keeps a connection to the player open,
//! reads its frames, and connects again whenever the connection is lost.
//!
//! The loop itself waits on the network and on a timer, so it runs outside
//! this library. Here stands what it decides: from the state it is in and the
//! event that arrived, the state it goes to, the update it publishes, and
//! what it does next.

use crate::message::{message_of_frame, Frame};
use crate::playback::{Message, Update, UpdateModel};
use vstd::prelude::*;

verus! {

/// The time between the loss of a connection, or a failed attempt to
/// connect, and the next attempt, in milliseconds.
pub const RETRY_DELAY_MS: u64 = 1000;

/// Where the reader is in its loop.
#[derive(Clone, Copy, Debug, PartialEq, Eq, Structural)]
pub enum ReaderState {
    /// An attempt to connect is under way.
    Connecting,
    /// The connection is open and frames are read from it.
    Streaming,
    /// The connection is down and the retry timer runs.
    Waiting,
    /// The loop has ended.
    Stopped,
}

/// What happened outside.
#[derive(Debug, PartialEq, Eq)]
pub enum Event {
    /// The attempt to connect succeeded.
    Connected,
    /// The attempt to connect failed.
    ConnectFailed,
    /// A frame arrived on the open connection.
    Frame(Frame),
    /// The open connection failed or was closed by the player.
    ConnectionLost,
    /// The retry timer ran out.
    RetryElapsed,
    /// The retry timer could not be set or failed.
    TimerFailed,
    /// The owner asked the reader to stop.
    Shutdown,
}

/// What the loop does next.
#[derive(Clone, Copy, Debug, PartialEq, Eq, Structural)]
pub enum Command {
    /// Nothing new: go on waiting for what is already under way.
    Continue,
    /// Start an attempt to connect.
    Connect,
    /// Read the next frame.
    Read,
    /// Start the retry timer with this many milliseconds.
    Wait(u64),
    /// Leave the loop and abandon the connection: the owner asked for it.
    Exit,
    /// Leave the loop: the timer failed and nothing can be retried.
    Fail,
}

/// The outcome of one event.
#[derive(Debug, PartialEq, Eq)]
pub struct Step {
    pub state: ReaderState,
    pub update: Option<Update>,
    pub command: Command,
}

/// The mathematical value of an [`Event`]: a frame counts by the message it
/// carries.
pub enum EventModel {
    Connected,
    ConnectFailed,
    Frame(Option<UpdateModel>),
    ConnectionLost,
    RetryElapsed,
    TimerFailed,
    Shutdown,
}

impl View for Event {
    type V = EventModel;

    open spec fn view(&self) -> EventModel {
        match *self {
            Event::Connected => EventModel::Connected,
            Event::ConnectFailed => EventModel::ConnectFailed,
            Event::Frame(frame) => EventModel::Frame(message_of_frame(frame)),
            Event::ConnectionLost => EventModel::ConnectionLost,
            Event::RetryElapsed => EventModel::RetryElapsed,
            Event::TimerFailed => EventModel::TimerFailed,
            Event::Shutdown => EventModel::Shutdown,
        }
    }
}

/// The mathematical value of a [`Step`].
pub struct StepModel {
    pub state: ReaderState,
    pub update: Option<UpdateModel>,
    pub command: Command,
}

/// The value of an optional update.
pub open spec fn update_model(update: Option<Update>) -> Option<UpdateModel> {
    match update {
        Some(update) => Some(update@),
        None => None,
    }
}

impl View for Step {
    type V = StepModel;

    open spec fn view(&self) -> StepModel {
        StepModel { state: self.state, update: update_model(self.update), command: self.command }
    }
}

/// A step that changes nothing.
pub open spec fn stay(state: ReaderState) -> StepModel {
    StepModel { state, update: None, command: Command::Continue }
}

/// The step that follows the loss of a connection or a failed attempt to
/// connect: subscribers are told once that nothing plays, and the retry
/// timer starts.
pub open spec fn retry() -> StepModel {
    StepModel {
        state: ReaderState::Waiting,
        update: Some(UpdateModel::Disconnected),
        command: Command::Wait(RETRY_DELAY_MS),
    }
}

/// The reader's transition function.
///
/// A request to stop ends the loop from every state but the last. An event
/// that does not belong to the state it arrives in changes nothing.
pub open spec fn next_step(state: ReaderState, event: EventModel) -> StepModel {
    match (state, event) {
        (ReaderState::Stopped, _) => stay(state),
        (_, EventModel::Shutdown) => StepModel {
            state: ReaderState::Stopped,
            update: None,
            command: Command::Exit,
        },
        (ReaderState::Connecting, EventModel::Connected) => StepModel {
            state: ReaderState::Streaming,
            update: None,
            command: Command::Read,
        },
        (ReaderState::Connecting, EventModel::ConnectFailed) => retry(),
        (ReaderState::Streaming, EventModel::Frame(message)) => StepModel {
            state: ReaderState::Streaming,
            update: message,
            command: Command::Read,
        },
        (ReaderState::Streaming, EventModel::ConnectionLost) => retry(),
        (ReaderState::Waiting, EventModel::RetryElapsed) => StepModel {
            state: ReaderState::Connecting,
            update: None,
            command: Command::Connect,
        },
        (ReaderState::Waiting, EventModel::TimerFailed) => StepModel {
            state: ReaderState::Stopped,
            update: None,
            command: Command::Fail,
        },
        _ => stay(state),
    }
}

/// The states that a run of events leads through, the first state included.
pub open spec fn states_along(state: ReaderState, events: Seq<EventModel>) -> Seq<ReaderState>
    decreases events.len(),
{
    if events.len() == 0 {
        seq![state]
    } else {
        seq![state] + states_along(next_step(state, events[0]).state, events.drop_first())
    }
}

impl ReaderState {
    /// The state in which the reader starts, with its first command: connect.
    pub fn start() -> (step: Step)
        ensures
            step.state == ReaderState::Connecting,
            step.update.is_none(),
            step.command == Command::Connect,
    {
        Step { state: ReaderState::Connecting, update: None, command: Command::Connect }
    }

    /// Whether the loop has ended.
    pub fn is_stopped(&self) -> (stopped: bool)
        ensures
            stopped == (*self == ReaderState::Stopped),
    {
        match self {
            ReaderState::Stopped => true,
            _ => false,
        }
    }

    /// Takes one event.
    pub fn step(self, event: Event) -> (step: Step)
        ensures
            step@ == next_step(self, event@),
    {
        match (self, event) {
            (ReaderState::Stopped, _) => ReaderState::unchanged(self),
            (_, Event::Shutdown) => Step {
                state: ReaderState::Stopped,
                update: None,
                command: Command::Exit,
            },
            (ReaderState::Connecting, Event::Connected) => Step {
                state: ReaderState::Streaming,
                update: None,
                command: Command::Read,
            },
            (ReaderState::Connecting, Event::ConnectFailed) => ReaderState::lost(),
            (ReaderState::Streaming, Event::Frame(frame)) => {
                let update = match Message::from_frame(&frame) {
                    Some(message) => Some(message.into_update()),
                    None => None,
                };
                Step { state: ReaderState::Streaming, update, command: Command::Read }
            },
            (ReaderState::Streaming, Event::ConnectionLost) => ReaderState::lost(),
            (ReaderState::Waiting, Event::RetryElapsed) => Step {
                state: ReaderState::Connecting,
                update: None,
                command: Command::Connect,
            },
            (ReaderState::Waiting, Event::TimerFailed) => Step {
                state: ReaderState::Stopped,
                update: None,
                command: Command::Fail,
            },
            _ => ReaderState::unchanged(self),
        }
    }

    fn unchanged(state: ReaderState) -> (step: Step)
        ensures
            step@ == stay(state),
    {
        Step { state, update: None, command: Command::Continue }
    }

    fn lost() -> (step: Step)
        ensures
            step@ == retry(),
    {
        Step {
            state: ReaderState::Waiting,
            update: Some(Update::Disconnected),
            command: Command::Wait(RETRY_DELAY_MS),
        }
    }
}

/// When the player closes an open connection, subscribers are told exactly
/// once that nothing plays, and the next attempt to connect comes when the
/// retry timer has run out, and not before: the step that takes the loss
/// publishes the one update and starts the timer with the fixed delay; while
/// the timer runs no event publishes anything; and only the timer running
/// out brings the command to connect.
pub proof fn lemma_lost_connection_is_told_once_then_retried(event: EventModel)
    ensures
        next_step(ReaderState::Streaming, EventModel::ConnectionLost) == retry(),
        retry().update == Some(UpdateModel::Disconnected),
        retry().command == Command::Wait(RETRY_DELAY_MS),
        retry().state == ReaderState::Waiting,
        next_step(ReaderState::Waiting, event).update.is_none(),
        next_step(ReaderState::Waiting, event).command == Command::Connect <==> event
            is RetryElapsed,
        event is RetryElapsed ==> next_step(ReaderState::Waiting, event).state
            == ReaderState::Connecting,
        !(event is RetryElapsed || event is Shutdown || event is TimerFailed) ==> next_step(
            ReaderState::Waiting,
            event,
        ) == stay(ReaderState::Waiting),
{
}

/// The reader never gives up by itself: as long as nobody asks it to stop
/// and the timer works, it is never in the stopped state.
pub proof fn lemma_reader_retries_forever(state: ReaderState, events: Seq<EventModel>)
    requires
        state != ReaderState::Stopped,
        forall|i: int|
            0 <= i < events.len() ==> !(#[trigger] events[i] is Shutdown) && !(events[i]
                is TimerFailed),
    ensures
        forall|k: int|
            0 <= k <= events.len() ==> #[trigger] states_along(state, events)[k]
                != ReaderState::Stopped,
        states_along(state, events).len() == events.len() + 1,
    decreases events.len(),
{
    if events.len() > 0 {
        let next = next_step(state, events[0]).state;
        let rest = events.drop_first();
        assert(!(events[0] is Shutdown) && !(events[0] is TimerFailed));
        assert forall|i: int| 0 <= i < rest.len() implies !(#[trigger] rest[i] is Shutdown) && !(
        rest[i] is TimerFailed) by {
            assert(rest[i] == events[i + 1]);
        }
        lemma_reader_retries_forever(next, rest);
        assert forall|k: int| 0 <= k <= events.len() implies #[trigger] states_along(
            state,
            events,
        )[k] != ReaderState::Stopped by {
            if k > 0 {
                assert(states_along(state, events)[k] == states_along(next, rest)[k - 1]);
            }
        }
    }
}

} // verus!
