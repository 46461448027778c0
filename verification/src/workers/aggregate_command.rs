//! The worker that hands commands to an aggregate and publishes the events
//! that the aggregate answers with. An aggregate never changes its state
//! while it handles a command: that happens when its events come back.

use vstd::prelude::*;
use vstd::string::*;
use crate::config::DeclarationView;
use crate::config::InterestDeclaration;
use crate::consumers::WorkError;
use crate::consumers::WorkErrorView;
use crate::events::event_topic;
use crate::events::event_topic_of;
use crate::events::RawCommand;
use crate::events::RawCommandView;
use crate::eventsourcing::event_views;
use crate::eventsourcing::Event;
use crate::eventsourcing::EventView;
use crate::eventsourcing::StatefulCommand;
use crate::eventsourcing::StatefulCommandView;
use crate::state::role_has_state;
use crate::state::state_key_of;
use crate::state::EntityState;
use crate::state::StateRequestView;
use crate::state::UNSUPPORTED_ROLE_ERROR;
use crate::text::join2;
use crate::workers::outcome_of_ack;
use crate::workers::unexpected_reply;
use crate::workers::Action;
use crate::workers::ActionView;
use crate::workers::Reply;
use crate::workers::ReplyView;
use crate::workers::UNEXPECTED_REPLY_ERROR;

verus! {

/// How the error for state that could not be loaded begins.
pub const LOAD_STATE_ERROR: &'static str = "Failed to load state: ";

/// Where the worker stands with the command it works on.
#[derive(Debug, PartialEq, Eq)]
pub enum CommandPhase {
    /// The state of the instance was asked for.
    AwaitingState { command: RawCommand },
    /// The aggregate was asked to handle the command.
    AwaitingEvents { command: RawCommand },
    /// The event at `next` is being published; those before it are out.
    Publishing { events: Vec<Event>, next: usize },
    /// A publication failed and the command was refused.
    Nacking,
    /// All events are out and the command was acknowledged.
    Acking,
    /// The work on the command is over.
    Done,
}

/// A [`CommandPhase`], as characters and bytes. Of the events only those
/// that are not out yet are held, the one in flight first.
pub enum CommandPhaseView {
    AwaitingState { command: RawCommandView },
    AwaitingEvents { command: RawCommandView },
    Publishing { remaining: Seq<EventView> },
    Nacking,
    Acking,
    Done,
}

/// The events from position `next` on.
pub open spec fn events_from(events: Seq<Event>, next: usize) -> Seq<EventView> {
    if next <= events.len() {
        event_views(events).skip(next as int)
    } else {
        Seq::empty()
    }
}

impl View for CommandPhase {
    type V = CommandPhaseView;

    open spec fn view(&self) -> CommandPhaseView {
        match self {
            CommandPhase::AwaitingState { command } => CommandPhaseView::AwaitingState {
                command: command@,
            },
            CommandPhase::AwaitingEvents { command } => CommandPhaseView::AwaitingEvents {
                command: command@,
            },
            CommandPhase::Publishing { events, next } => CommandPhaseView::Publishing {
                remaining: events_from(events@, *next),
            },
            CommandPhase::Nacking => CommandPhaseView::Nacking,
            CommandPhase::Acking => CommandPhaseView::Acking,
            CommandPhase::Done => CommandPhaseView::Done,
        }
    }
}

/// The error of an aggregate that failed to handle a command.
pub open spec fn handle_command_error(
    decl: DeclarationView,
    command: RawCommandView,
    cause: Seq<char>,
) -> Seq<char> {
    "Aggregate "@ + decl.actor_id + " ("@ + decl.entity_name
        + ") failed to handle command, type '"@ + command.command_type + "', key '"@ + command.key
        + "': "@ + cause
}

/// The worker stops with the outcome `outcome`.
pub open spec fn command_finish(outcome: Result<(), WorkErrorView>) -> (
    CommandPhaseView,
    ActionView,
) {
    (CommandPhaseView::Done, ActionView::Finish(outcome))
}

/// What to do with the events that are not out yet: publish the first, each
/// on the topic of its type, or acknowledge the command when none is left.
pub open spec fn command_publish(remaining: Seq<EventView>) -> (CommandPhaseView, ActionView) {
    if remaining.len() == 0 {
        (CommandPhaseView::Acking, ActionView::Ack)
    } else {
        (
            CommandPhaseView::Publishing { remaining },
            ActionView::PublishEvent {
                topic: event_topic_of(remaining[0].event_type),
                event: remaining[0],
            },
        )
    }
}

/// How the worker takes up a command: it asks for the state of the
/// instance that the command names.
pub open spec fn command_start(decl: DeclarationView, command: RawCommandView) -> (
    CommandPhaseView,
    ActionView,
) {
    if role_has_state(decl.role) {
        (
            CommandPhaseView::AwaitingState { command },
            ActionView::State(
                StateRequestView::Fetch {
                    key: state_key_of(decl.role, decl.entity_name, command.key),
                },
            ),
        )
    } else {
        command_finish(Err(WorkErrorView::NatsError(LOAD_STATE_ERROR@ + UNSUPPORTED_ROLE_ERROR@)))
    }
}

/// How the worker goes on when it is told the outcome of what it asked for.
pub open spec fn command_step(decl: DeclarationView, phase: CommandPhaseView, reply: ReplyView) -> (
    CommandPhaseView,
    ActionView,
) {
    match (phase, reply) {
        (CommandPhaseView::AwaitingState { command }, ReplyView::State(Ok(state))) => (
            CommandPhaseView::AwaitingEvents { command },
            ActionView::HandleCommand(
                StatefulCommandView {
                    aggregate: decl.entity_name,
                    command_type: command.command_type,
                    key: command.key,
                    payload: command.data,
                    state,
                },
            ),
        ),
        (CommandPhaseView::AwaitingState { .. }, ReplyView::State(Err(e))) => command_finish(
            Err(WorkErrorView::NatsError(LOAD_STATE_ERROR@ + e)),
        ),
        (CommandPhaseView::AwaitingEvents { .. }, ReplyView::Events(Ok(events))) => command_publish(
            events,
        ),
        (CommandPhaseView::AwaitingEvents { command }, ReplyView::Events(Err(e))) => command_finish(
            Err(WorkErrorView::Other(handle_command_error(decl, command, e))),
        ),
        (CommandPhaseView::Publishing { remaining }, ReplyView::Published(Ok(_))) => if remaining.len()
            <= 1 {
            command_publish(Seq::empty())
        } else {
            command_publish(remaining.skip(1))
        },
        (CommandPhaseView::Publishing { .. }, ReplyView::Published(Err(_))) => (
            CommandPhaseView::Nacking,
            ActionView::Nack,
        ),
        (CommandPhaseView::Nacking, ReplyView::Nacked) => command_finish(Ok(())),
        (CommandPhaseView::Acking, ReplyView::Acked(r)) => command_finish(outcome_of_ack(r)),
        _ => command_finish(unexpected_reply()),
    }
}

/// The worker for the commands of one aggregate.
#[derive(Debug)]
pub struct AggregateCommandWorker {
    pub interest: InterestDeclaration,
}

fn finish(error: WorkError) -> (r: (CommandPhase, Action))
    ensures
        (r.0@, r.1@) == command_finish(Err(error@)),
{
    (CommandPhase::Done, Action::Finish(Err(error)))
}

fn publish(events: Vec<Event>, next: usize) -> (r: (CommandPhase, Action))
    ensures
        (r.0@, r.1@) == command_publish(events_from(events@, next)),
{
    if next >= events.len() {
        assert(events_from(events@, next) =~= Seq::<EventView>::empty());
        (CommandPhase::Acking, Action::Ack)
    } else {
        let event = events[next].clone();
        let topic = event_topic(event.event_type.as_str());
        assert(events_from(events@, next)[0] == events@[next as int]@);
        (CommandPhase::Publishing { events, next }, Action::PublishEvent { topic, event })
    }
}

impl AggregateCommandWorker {
    /// The worker for the aggregate that `interest` declares.
    pub fn new(interest: InterestDeclaration) -> (r: Self)
        ensures
            r.interest@ == interest@,
    {
        AggregateCommandWorker { interest }
    }

    fn failure_message(&self, command: &RawCommand, cause: &str) -> (r: String)
        ensures
            r@ == handle_command_error(self.interest@, command@, cause@),
    {
        let mut out = join2("Aggregate ", self.interest.actor_id.as_str());
        out.append(" (");
        out.append(self.interest.entity_name.as_str());
        out.append(") failed to handle command, type '");
        out.append(command.command_type.as_str());
        out.append("', key '");
        out.append(command.key.as_str());
        out.append("': ");
        out.append(cause);
        out
    }

    /// Takes up a command that was fetched for the aggregate.
    pub fn start(&self, command: RawCommand) -> (r: (CommandPhase, Action))
        ensures
            (r.0@, r.1@) == command_start(self.interest@, command@),
    {
        let request = EntityState::new_from_context().fetch_state(
            &self.interest.role,
            self.interest.entity_name.as_str(),
            command.key.as_str(),
        );
        match request {
            Ok(request) => (CommandPhase::AwaitingState { command }, Action::State(request)),
            Err(e) => finish(WorkError::NatsError(join2(LOAD_STATE_ERROR, e.as_str()))),
        }
    }

    /// Goes on with the command, given the outcome of the last action.
    pub fn step(&self, phase: CommandPhase, reply: Reply) -> (r: (CommandPhase, Action))
        ensures
            (r.0@, r.1@) == command_step(self.interest@, phase@, reply@),
    {
        match (phase, reply) {
            (CommandPhase::AwaitingState { command }, Reply::State(Ok(state))) => {
                let stateful = StatefulCommand {
                    aggregate: self.interest.entity_name.clone(),
                    command_type: command.command_type.clone(),
                    key: command.key.clone(),
                    payload: command.data.clone(),
                    state,
                };
                (CommandPhase::AwaitingEvents { command }, Action::HandleCommand(stateful))
            },
            (CommandPhase::AwaitingState { .. }, Reply::State(Err(e))) => finish(
                WorkError::NatsError(join2(LOAD_STATE_ERROR, e.as_str())),
            ),
            (CommandPhase::AwaitingEvents { .. }, Reply::Events(Ok(events))) => {
                assert(events_from(events@, 0) =~= event_views(events@));
                publish(events, 0)
            },
            (CommandPhase::AwaitingEvents { command }, Reply::Events(Err(e))) => finish(
                WorkError::Other(self.failure_message(&command, e.as_str())),
            ),
            (CommandPhase::Publishing { events, next }, Reply::Published(Ok(_))) => {
                if next >= events.len() {
                    assert(events_from(events@, next) =~= Seq::<EventView>::empty());
                    (CommandPhase::Acking, Action::Ack)
                } else {
                    proof {
                        let remaining = events_from(events@, next);
                        let rest = events_from(events@, (next + 1) as usize);
                        if remaining.len() <= 1 {
                            assert(rest =~= Seq::<EventView>::empty());
                        } else {
                            assert(rest =~= remaining.skip(1));
                        }
                    }
                    publish(events, next + 1)
                }
            },
            (CommandPhase::Publishing { .. }, Reply::Published(Err(_))) => (
                CommandPhase::Nacking,
                Action::Nack,
            ),
            (CommandPhase::Nacking, Reply::Nacked) => (CommandPhase::Done, Action::Finish(Ok(()))),
            (CommandPhase::Acking, Reply::Acked(Ok(_))) => (
                CommandPhase::Done,
                Action::Finish(Ok(())),
            ),
            (CommandPhase::Acking, Reply::Acked(Err(e))) => finish(WorkError::NatsError(e)),
            _ => finish(WorkError::Fatal(String::from_str(UNEXPECTED_REPLY_ERROR))),
        }
    }
}

/// While it handles a command the worker asks the bucket only to read: the
/// state of an aggregate changes when its events come back, never before.
pub proof fn command_worker_only_reads_state(
    decl: DeclarationView,
    command: RawCommandView,
    phase: CommandPhaseView,
    reply: ReplyView,
)
    ensures
        command_start(decl, command).1 matches ActionView::State(request) ==> request is Fetch,
        !(command_step(decl, phase, reply).1 is State),
{
}

/// The events that the aggregate answered with go out in the order in which
/// it gave them: once the bus has confirmed one, the next is published, and
/// the command is acknowledged after the last.
pub proof fn events_go_out_in_order(decl: DeclarationView, remaining: Seq<EventView>)
    requires
        remaining.len() > 0,
    ensures
        remaining.len() > 1 ==> command_step(
            decl,
            CommandPhaseView::Publishing { remaining },
            ReplyView::Published(Ok(())),
        ) == (
            CommandPhaseView::Publishing { remaining: remaining.skip(1) },
            ActionView::PublishEvent {
                topic: event_topic_of(remaining[1].event_type),
                event: remaining[1],
            },
        ),
        remaining.len() == 1 ==> command_step(
            decl,
            CommandPhaseView::Publishing { remaining },
            ReplyView::Published(Ok(())),
        ) == (CommandPhaseView::Acking, ActionView::Ack),
{
    if remaining.len() > 1 {
        assert(remaining.skip(1)[0] == remaining[1]);
    }
}

/// One event that cannot be published refuses the command, so that all of
/// its events are published again when it is delivered again; and once the
/// command is acknowledged or refused, the work on it is over.
pub proof fn command_is_answered_once(
    decl: DeclarationView,
    remaining: Seq<EventView>,
    cause: Seq<char>,
    reply: ReplyView,
)
    ensures
        command_step(
            decl,
            CommandPhaseView::Publishing { remaining },
            ReplyView::Published(Err(cause)),
        ) == (CommandPhaseView::Nacking, ActionView::Nack),
        command_step(decl, CommandPhaseView::Nacking, reply).0 is Done,
        command_step(decl, CommandPhaseView::Acking, reply).0 is Done,
        command_step(decl, CommandPhaseView::Nacking, reply).1 is Finish,
        command_step(decl, CommandPhaseView::Acking, reply).1 is Finish,
{
}

} // verus!
