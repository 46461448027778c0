//! The four workers. A worker handles one message at a time and never
//! touches the bus itself: it is told what happened and answers with what to
//! do next. Whoever drives it performs the action, waits for its outcome and
//! hands that back as the next reply, until the worker says it has finished.

use vstd::prelude::*;
use crate::consumers::work_result_view;
use crate::consumers::WorkErrorView;
use crate::consumers::WorkResult;
use crate::events::RawCommand;
use crate::events::RawCommandView;
use crate::eventsourcing::event_views;
use crate::eventsourcing::Event;
use crate::eventsourcing::EventView;
use crate::eventsourcing::EventWithState;
use crate::eventsourcing::EventWithStateView;
use crate::eventsourcing::ProcessManagerAck;
use crate::eventsourcing::ProcessManagerAckView;
use crate::eventsourcing::StateAck;
use crate::eventsourcing::StateAckView;
use crate::eventsourcing::StatefulCommand;
use crate::eventsourcing::StatefulCommandView;
use crate::eventsourcing::StatelessAck;
use crate::eventsourcing::StatelessAckView;
use crate::json::opt_bytes;
use crate::state::StateRequest;
use crate::state::StateRequestView;

pub mod aggregate_command;
pub mod aggregate_event;
pub mod general_event;
pub mod process_manager;

pub use aggregate_command::AggregateCommandWorker;
pub use aggregate_event::AggregateEventWorker;
pub use general_event::GeneralEventWorker;
pub use process_manager::ProcessManagerWorker;

verus! {

/// The error of a worker that is handed a reply it did not ask for.
pub const UNEXPECTED_REPLY_ERROR: &'static str = "worker was handed a reply it did not ask for";

/// What a worker wants done next.
#[derive(Debug, PartialEq, Eq)]
pub enum Action {
    /// Ask the state bucket. A fetch is answered with [`Reply::State`],
    /// a write or a purge with [`Reply::Stored`].
    State(StateRequest),
    /// Ask the aggregate to handle a command. Answered with
    /// [`Reply::Events`].
    HandleCommand(StatefulCommand),
    /// Ask the aggregate to apply an event. Answered with
    /// [`Reply::StateAck`].
    ApplyEvent(EventWithState),
    /// Ask the process manager to handle an event. Answered with
    /// [`Reply::ProcessManagerAck`].
    HandleEvent(EventWithState),
    /// Ask the stateless handler to apply an event. Answered with
    /// [`Reply::StatelessAck`].
    ApplyStatelessEvent(Event),
    /// Publish an event and wait for the bus to confirm. Answered with
    /// [`Reply::Published`].
    PublishEvent { topic: String, event: Event },
    /// Publish a command and wait for the bus to confirm. Answered with
    /// [`Reply::Published`].
    PublishCommand { topic: String, command: RawCommand },
    /// Acknowledge the message. Answered with [`Reply::Acked`].
    Ack,
    /// Refuse the message, so that it is delivered again. Answered with
    /// [`Reply::Nacked`].
    Nack,
    /// The work on the message is over, with this outcome. A message that
    /// was neither acknowledged nor refused by then is released.
    Finish(WorkResult),
}

/// An [`Action`], as characters and bytes.
pub enum ActionView {
    State(StateRequestView),
    HandleCommand(StatefulCommandView),
    ApplyEvent(EventWithStateView),
    HandleEvent(EventWithStateView),
    ApplyStatelessEvent(EventView),
    PublishEvent { topic: Seq<char>, event: EventView },
    PublishCommand { topic: Seq<char>, command: RawCommandView },
    Ack,
    Nack,
    Finish(Result<(), WorkErrorView>),
}

impl View for Action {
    type V = ActionView;

    open spec fn view(&self) -> ActionView {
        match self {
            Action::State(request) => ActionView::State(request@),
            Action::HandleCommand(command) => ActionView::HandleCommand(command@),
            Action::ApplyEvent(event) => ActionView::ApplyEvent(event@),
            Action::HandleEvent(event) => ActionView::HandleEvent(event@),
            Action::ApplyStatelessEvent(event) => ActionView::ApplyStatelessEvent(event@),
            Action::PublishEvent { topic, event } => ActionView::PublishEvent {
                topic: topic@,
                event: event@,
            },
            Action::PublishCommand { topic, command } => ActionView::PublishCommand {
                topic: topic@,
                command: command@,
            },
            Action::Ack => ActionView::Ack,
            Action::Nack => ActionView::Nack,
            Action::Finish(outcome) => ActionView::Finish(work_result_view(*outcome)),
        }
    }
}

/// The outcome of the action that a worker asked for.
#[derive(Debug, PartialEq, Eq)]
pub enum Reply {
    /// What the bucket holds at the key, or why it could not be read.
    State(Result<Option<Vec<u8>>, String>),
    /// Whether the bucket took the write or the purge.
    Stored(Result<(), String>),
    /// The events that the aggregate produced, or why it failed.
    Events(Result<Vec<Event>, String>),
    /// What the aggregate answered, or why it could not be reached.
    StateAck(Result<StateAck, String>),
    /// What the process manager answered, or why it could not be reached.
    ProcessManagerAck(Result<ProcessManagerAck, String>),
    /// What the stateless handler answered, or why it could not be reached.
    StatelessAck(Result<StatelessAck, String>),
    /// Whether the bus confirmed the publication.
    Published(Result<(), String>),
    /// Whether the bus confirmed the acknowledgement.
    Acked(Result<(), String>),
    /// The refusal was sent.
    Nacked,
}

/// A [`Reply`], as characters and bytes.
pub enum ReplyView {
    State(Result<Option<Seq<u8>>, Seq<char>>),
    Stored(Result<(), Seq<char>>),
    Events(Result<Seq<EventView>, Seq<char>>),
    StateAck(Result<StateAckView, Seq<char>>),
    ProcessManagerAck(Result<ProcessManagerAckView, Seq<char>>),
    StatelessAck(Result<StatelessAckView, Seq<char>>),
    Published(Result<(), Seq<char>>),
    Acked(Result<(), Seq<char>>),
    Nacked,
}

/// The view of an outcome without a value.
pub open spec fn unit_result_view(r: Result<(), String>) -> Result<(), Seq<char>> {
    match r {
        Ok(_) => Ok(()),
        Err(e) => Err(e@),
    }
}

impl View for Reply {
    type V = ReplyView;

    open spec fn view(&self) -> ReplyView {
        match self {
            Reply::State(r) => ReplyView::State(
                match r {
                    Ok(state) => Ok(opt_bytes(*state)),
                    Err(e) => Err(e@),
                },
            ),
            Reply::Stored(r) => ReplyView::Stored(unit_result_view(*r)),
            Reply::Events(r) => ReplyView::Events(
                match r {
                    Ok(events) => Ok(event_views(events@)),
                    Err(e) => Err(e@),
                },
            ),
            Reply::StateAck(r) => ReplyView::StateAck(
                match r {
                    Ok(ack) => Ok(ack@),
                    Err(e) => Err(e@),
                },
            ),
            Reply::ProcessManagerAck(r) => ReplyView::ProcessManagerAck(
                match r {
                    Ok(ack) => Ok(ack@),
                    Err(e) => Err(e@),
                },
            ),
            Reply::StatelessAck(r) => ReplyView::StatelessAck(
                match r {
                    Ok(ack) => Ok(ack@),
                    Err(e) => Err(e@),
                },
            ),
            Reply::Published(r) => ReplyView::Published(unit_result_view(*r)),
            Reply::Acked(r) => ReplyView::Acked(unit_result_view(*r)),
            Reply::Nacked => ReplyView::Nacked,
        }
    }
}

/// The outcome of the work once the acknowledgement was answered: the
/// bus's failure to confirm is the worker's failure.
pub open spec fn outcome_of_ack(r: Result<(), Seq<char>>) -> Result<(), WorkErrorView> {
    match r {
        Ok(_) => Ok(()),
        Err(e) => Err(WorkErrorView::NatsError(e)),
    }
}

/// The outcome with which a worker stops when it is handed a reply that
/// does not answer what it asked for.
pub open spec fn unexpected_reply() -> Result<(), WorkErrorView> {
    Err(WorkErrorView::Fatal(UNEXPECTED_REPLY_ERROR@))
}

} // verus!
