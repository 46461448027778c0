//! The records exchanged with participants: what the runtime hands to an
//! aggregate, a process manager or a stateless handler, and what it gets
//! back.

use vstd::prelude::*;
use vstd::string::*;
use crate::json::opt_bytes;
use crate::json::opt_text;

verus! {

/// An event as the runtime and the participants see it.
#[derive(Debug, PartialEq, Eq)]
pub struct Event {
    /// The type of the event.
    pub event_type: String,
    /// The payload, in practice a JSON document. The runtime does not
    /// validate it.
    pub payload: Vec<u8>,
    /// The aggregate that owns the event.
    pub stream: String,
}

/// An [`Event`], as characters and bytes.
pub struct EventView {
    pub event_type: Seq<char>,
    pub payload: Seq<u8>,
    pub stream: Seq<char>,
}

impl View for Event {
    type V = EventView;

    open spec fn view(&self) -> EventView {
        EventView { event_type: self.event_type@, payload: self.payload@, stream: self.stream@ }
    }
}

impl Clone for Event {
    fn clone(&self) -> (r: Self)
        ensures
            r@ == self@,
    {
        Event {
            event_type: self.event_type.clone(),
            payload: self.payload.clone(),
            stream: self.stream.clone(),
        }
    }
}

impl Event {
    /// An event of type `event_type` on the stream `stream`, carrying
    /// `payload`.
    pub fn new(event_type: &str, stream: &str, payload: Vec<u8>) -> (r: Event)
        ensures
            r@ == (EventView { event_type: event_type@, payload: payload@, stream: stream@ }),
    {
        Event {
            event_type: String::from_str(event_type),
            stream: String::from_str(stream),
            payload,
        }
    }
}

/// The views of a list of events, in order.
pub open spec fn event_views(events: Seq<Event>) -> Seq<EventView> {
    events.map_values(|e: Event| e@)
}

/// An event together with the state that the runtime holds for its key.
#[derive(Debug, Clone, PartialEq, Eq)]
pub struct EventWithState {
    pub event: Event,
    pub state: Option<Vec<u8>>,
}

/// An [`EventWithState`], as characters and bytes.
pub struct EventWithStateView {
    pub event: EventView,
    pub state: Option<Seq<u8>>,
}

impl View for EventWithState {
    type V = EventWithStateView;

    open spec fn view(&self) -> EventWithStateView {
        EventWithStateView { event: self.event@, state: opt_bytes(self.state) }
    }
}

/// A command for an aggregate, together with the aggregate's state.
#[derive(Debug, Clone, PartialEq, Eq)]
pub struct StatefulCommand {
    /// The aggregate (stream) that the command is for.
    pub aggregate: String,
    pub command_type: String,
    /// The instance of the aggregate.
    pub key: String,
    /// The command's data, a JSON document.
    pub payload: Vec<u8>,
    /// The state stored for the instance, if any.
    pub state: Option<Vec<u8>>,
}

/// A [`StatefulCommand`], as characters and bytes.
pub struct StatefulCommandView {
    pub aggregate: Seq<char>,
    pub command_type: Seq<char>,
    pub key: Seq<char>,
    pub payload: Seq<u8>,
    pub state: Option<Seq<u8>>,
}

impl View for StatefulCommand {
    type V = StatefulCommandView;

    open spec fn view(&self) -> StatefulCommandView {
        StatefulCommandView {
            aggregate: self.aggregate@,
            command_type: self.command_type@,
            key: self.key@,
            payload: self.payload@,
            state: opt_bytes(self.state),
        }
    }
}

/// What an aggregate answers when it is asked to apply an event.
#[derive(Debug, Clone, PartialEq, Eq)]
pub struct StateAck {
    /// Why the event could not be applied.
    pub error: Option<String>,
    /// The state to store; `None` asks for the stored state to be removed.
    pub state: Option<Vec<u8>>,
    pub succeeded: bool,
}

/// A [`StateAck`], as characters and bytes.
pub struct StateAckView {
    pub error: Option<Seq<char>>,
    pub state: Option<Seq<u8>>,
    pub succeeded: bool,
}

impl View for StateAck {
    type V = StateAckView;

    open spec fn view(&self) -> StateAckView {
        StateAckView {
            error: opt_text(self.error),
            state: opt_bytes(self.state),
            succeeded: self.succeeded,
        }
    }
}

impl StateAck {
    /// The event was applied. `None` for the state removes the stored state.
    pub fn ok(state: Option<Vec<u8>>) -> (r: StateAck)
        ensures
            r@ == (StateAckView { error: None, state: opt_bytes(state), succeeded: true }),
    {
        StateAck { succeeded: true, error: None, state }
    }

    /// The event could not be applied. The state given should still be the
    /// last stable one: `None` would remove it.
    pub fn error(msg: &str, state: Option<Vec<u8>>) -> (r: StateAck)
        ensures
            r@ == (StateAckView { error: Some(msg@), state: opt_bytes(state), succeeded: false }),
    {
        StateAck { succeeded: false, error: Some(String::from_str(msg)), state }
    }
}

/// A command that a process manager asks the runtime to publish.
#[derive(Debug, Clone, PartialEq, Eq)]
pub struct OutputCommand {
    pub command_type: String,
    /// The instance of the aggregate that the command is for.
    pub aggregate_key: String,
    /// The aggregate (stream) that the command is for.
    pub aggregate_stream: String,
    /// The command's data, a JSON document.
    pub json_payload: Vec<u8>,
}

/// An [`OutputCommand`], as characters and bytes.
pub struct OutputCommandView {
    pub command_type: Seq<char>,
    pub aggregate_key: Seq<char>,
    pub aggregate_stream: Seq<char>,
    pub json_payload: Seq<u8>,
}

impl View for OutputCommand {
    type V = OutputCommandView;

    open spec fn view(&self) -> OutputCommandView {
        OutputCommandView {
            command_type: self.command_type@,
            aggregate_key: self.aggregate_key@,
            aggregate_stream: self.aggregate_stream@,
            json_payload: self.json_payload@,
        }
    }
}

impl OutputCommand {
    /// A command of type `cmd_type` for the instance `key` of the aggregate
    /// `stream`.
    pub fn new(cmd_type: &str, payload: Vec<u8>, stream: &str, key: &str) -> (r: OutputCommand)
        ensures
            r@ == (OutputCommandView {
                command_type: cmd_type@,
                aggregate_key: key@,
                aggregate_stream: stream@,
                json_payload: payload@,
            }),
    {
        OutputCommand {
            aggregate_key: String::from_str(key),
            aggregate_stream: String::from_str(stream),
            command_type: String::from_str(cmd_type),
            json_payload: payload,
        }
    }
}

/// The views of a list of commands, in order.
pub open spec fn command_views(commands: Seq<OutputCommand>) -> Seq<OutputCommandView> {
    commands.map_values(|c: OutputCommand| c@)
}

/// What a process manager answers when it is handed an event.
#[derive(Debug, Clone, PartialEq, Eq)]
pub struct ProcessManagerAck {
    /// The commands to publish, in order.
    pub commands: Vec<OutputCommand>,
    /// The state to store; `None` asks for the stored state to be removed.
    pub state: Option<Vec<u8>>,
}

/// A [`ProcessManagerAck`], as characters and bytes.
pub struct ProcessManagerAckView {
    pub commands: Seq<OutputCommandView>,
    pub state: Option<Seq<u8>>,
}

impl View for ProcessManagerAck {
    type V = ProcessManagerAckView;

    open spec fn view(&self) -> ProcessManagerAckView {
        ProcessManagerAckView {
            commands: command_views(self.commands@),
            state: opt_bytes(self.state),
        }
    }
}

impl ProcessManagerAck {
    /// The event was handled: `cmds` are to be published and `state` stored.
    pub fn ok(state: Option<Vec<u8>>, cmds: Vec<OutputCommand>) -> (r: ProcessManagerAck)
        ensures
            r@ == (ProcessManagerAckView {
                commands: command_views(cmds@),
                state: opt_bytes(state),
            }),
    {
        ProcessManagerAck { state, commands: cmds }
    }
}

/// What a stateless handler answers when it is handed an event.
#[derive(Debug, Clone, PartialEq, Eq)]
pub struct StatelessAck {
    /// Why the event could not be handled.
    pub error: Option<String>,
    pub succeeded: bool,
}

/// A [`StatelessAck`], as characters.
pub struct StatelessAckView {
    pub error: Option<Seq<char>>,
    pub succeeded: bool,
}

impl View for StatelessAck {
    type V = StatelessAckView;

    open spec fn view(&self) -> StatelessAckView {
        StatelessAckView { error: opt_text(self.error), succeeded: self.succeeded }
    }
}

impl StatelessAck {
    /// The event was handled.
    pub fn ok() -> (r: Self)
        ensures
            r@ == (StatelessAckView { error: None, succeeded: true }),
    {
        StatelessAck { error: None, succeeded: true }
    }

    /// The event could not be handled, for the reason `msg`.
    pub fn error(msg: String) -> (r: Self)
        ensures
            r@ == (StatelessAckView { error: Some(msg@), succeeded: false }),
    {
        StatelessAck { error: Some(msg), succeeded: false }
    }

    /// The acknowledgement that stands for the outcome of a handler: `ok`
    /// for success, `error` with the handler's message otherwise.
    pub fn from_result(outcome: Result<(), String>) -> (r: Self)
        ensures
            r@ == match outcome {
                Ok(_) => StatelessAckView { error: None, succeeded: true },
                Err(msg) => StatelessAckView { error: Some(msg@), succeeded: false },
            },
    {
        match outcome {
            Ok(_) => StatelessAck::ok(),
            Err(msg) => StatelessAck::error(msg),
        }
    }
}

} // verus!
