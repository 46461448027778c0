//! The worker that hands the events of a process's lifetime to its process
//! manager, publishes the commands that the manager answers with and then
//! stores the state it gave. Commands go out before the state is touched:
//! they are what the world sees, and a second publication after a crash
//! does no harm, while state that moved on without its commands would.

use vstd::prelude::*;
use vstd::string::*;
use crate::config::interest_matches;
use crate::config::key_value_of;
use crate::config::lifetime_starts;
use crate::config::ActorInterest;
use crate::config::DeclarationView;
use crate::config::InterestDeclaration;
use crate::config::InterestView;
use crate::consumers::WorkError;
use crate::consumers::WorkErrorView;
use crate::events::bus_to_internal;
use crate::events::command_topic;
use crate::events::command_data;
use crate::events::command_data_of;
use crate::events::command_topic_of;
use crate::events::event_of;
use crate::events::BusEnvelope;
use crate::events::BusEnvelopeView;
use crate::events::RawCommand;
use crate::events::RawCommandView;
use crate::eventsourcing::command_views;
use crate::eventsourcing::Event;
use crate::eventsourcing::EventView;
use crate::eventsourcing::EventWithState;
use crate::eventsourcing::EventWithStateView;
use crate::eventsourcing::OutputCommand;
use crate::eventsourcing::OutputCommandView;
use crate::eventsourcing::ProcessManagerAck;
use crate::json::opt_bytes;
use crate::state::role_has_state;
use crate::state::state_key_of;
use crate::state::EntityState;
use crate::state::StateRequestView;
use crate::state::UNSUPPORTED_ROLE_ERROR;
use crate::text::join2;
use crate::workers::aggregate_command::LOAD_STATE_ERROR;
use crate::workers::outcome_of_ack;
use crate::workers::unexpected_reply;
use crate::workers::Action;
use crate::workers::ActionView;
use crate::workers::Reply;
use crate::workers::ReplyView;
use crate::workers::UNEXPECTED_REPLY_ERROR;

verus! {

/// Where the worker stands with the event it works on.
#[derive(Debug, PartialEq, Eq)]
pub enum ProcessPhase {
    /// The event is none of the process's and was acknowledged unseen.
    Skipping,
    /// The state of the process was asked for.
    AwaitingState { event: Event, key: String },
    /// The process manager was asked to handle the event.
    AwaitingReply { event_type: String, key: String },
    /// The command at `next` is being published; those before it are out.
    /// `state` is what the manager wants stored under `key` afterwards.
    Publishing { commands: Vec<OutputCommand>, next: usize, state: Option<Vec<u8>>, key: String },
    /// The bucket was asked to write or purge the state.
    Storing,
    /// Something failed and the event was refused: the work ends with the
    /// error.
    Failing { error: WorkError },
    /// The event was acknowledged.
    Acking,
    /// The work on the event is over.
    Done,
}

/// A [`ProcessPhase`], as characters and bytes. Of the commands only those
/// that are not out yet are held, the one in flight first.
pub enum ProcessPhaseView {
    Skipping,
    AwaitingState { event: EventView, key: Seq<char> },
    AwaitingReply { event_type: Seq<char>, key: Seq<char> },
    Publishing { remaining: Seq<OutputCommandView>, state: Option<Seq<u8>>, key: Seq<char> },
    Storing,
    Failing { error: WorkErrorView },
    Acking,
    Done,
}

/// The commands from position `next` on.
pub open spec fn commands_from(commands: Seq<OutputCommand>, next: usize) -> Seq<OutputCommandView> {
    if next <= commands.len() {
        command_views(commands).skip(next as int)
    } else {
        Seq::empty()
    }
}

impl View for ProcessPhase {
    type V = ProcessPhaseView;

    open spec fn view(&self) -> ProcessPhaseView {
        match self {
            ProcessPhase::Skipping => ProcessPhaseView::Skipping,
            ProcessPhase::AwaitingState { event, key } => ProcessPhaseView::AwaitingState {
                event: event@,
                key: key@,
            },
            ProcessPhase::AwaitingReply { event_type, key } => ProcessPhaseView::AwaitingReply {
                event_type: event_type@,
                key: key@,
            },
            ProcessPhase::Publishing { commands, next, state, key } => ProcessPhaseView::Publishing {
                remaining: commands_from(commands@, *next),
                state: opt_bytes(*state),
                key: key@,
            },
            ProcessPhase::Storing => ProcessPhaseView::Storing,
            ProcessPhase::Failing { error } => ProcessPhaseView::Failing { error: error@ },
            ProcessPhase::Acking => ProcessPhaseView::Acking,
            ProcessPhase::Done => ProcessPhaseView::Done,
        }
    }
}

/// The error of a process manager that failed to handle an event.
pub open spec fn handle_event_error(
    decl: DeclarationView,
    event_type: Seq<char>,
    cause: Seq<char>,
) -> Seq<char> {
    "Process manager "@ + decl.actor_id + " failed to process event "@ + event_type + ": "@
        + cause
}

/// The command as it goes onto the bus. Data that is no JSON text goes as
/// `null`.
pub open spec fn raw_command_of(command: OutputCommandView) -> RawCommandView {
    RawCommandView {
        command_type: command.command_type,
        key: command.aggregate_key,
        data: command_data_of(command.json_payload),
    }
}

/// Whether an event of this type starts a new process for the participant.
pub open spec fn starts_process(interest: InterestView, event_type: Seq<char>) -> bool {
    match interest {
        InterestView::ProcessManager(lifetime) => lifetime_starts(lifetime, event_type),
        _ => false,
    }
}

/// The worker stops with the outcome `outcome`.
pub open spec fn process_finish(outcome: Result<(), WorkErrorView>) -> (
    ProcessPhaseView,
    ActionView,
) {
    (ProcessPhaseView::Done, ActionView::Finish(outcome))
}

/// The worker refuses the event and will stop with `error`.
pub open spec fn process_fail(error: WorkErrorView) -> (ProcessPhaseView, ActionView) {
    (ProcessPhaseView::Failing { error }, ActionView::Nack)
}

/// How the state that the manager gave is stored: written where there is
/// one, purged where there is none.
pub open spec fn process_store(decl: DeclarationView, state: Option<Seq<u8>>, key: Seq<char>) -> (
    ProcessPhaseView,
    ActionView,
) {
    if !role_has_state(decl.role) {
        process_fail(WorkErrorView::NatsError(UNSUPPORTED_ROLE_ERROR@))
    } else {
        (
            ProcessPhaseView::Storing,
            ActionView::State(
                match state {
                    Some(data) => StateRequestView::Write {
                        key: state_key_of(decl.role, decl.entity_name, key),
                        data,
                    },
                    None => StateRequestView::Purge {
                        key: state_key_of(decl.role, decl.entity_name, key),
                    },
                },
            ),
        )
    }
}

/// What to do with the commands that are not out yet: publish the first, on
/// the topic of the aggregate it is for, or store the state when none is
/// left.
pub open spec fn process_publish(
    decl: DeclarationView,
    remaining: Seq<OutputCommandView>,
    state: Option<Seq<u8>>,
    key: Seq<char>,
) -> (ProcessPhaseView, ActionView) {
    if remaining.len() == 0 {
        process_store(decl, state, key)
    } else {
        (
            ProcessPhaseView::Publishing { remaining, state, key },
            ActionView::PublishCommand {
                topic: command_topic_of(remaining[0].aggregate_stream),
                command: raw_command_of(remaining[0]),
            },
        )
    }
}

/// How the worker takes up an event. An event outside the lifetime is
/// acknowledged and passed over. An event that starts a process is handed
/// to the manager without state, whatever is stored; for any other the
/// state is asked for under the key found in the payload. Where no key is
/// found the manager is asked without state.
pub open spec fn process_start(decl: DeclarationView, envelope: BusEnvelopeView) -> (
    ProcessPhaseView,
    ActionView,
) {
    let event = event_of(envelope);
    if !interest_matches(decl.interest, event.event_type, event.stream) {
        (ProcessPhaseView::Skipping, ActionView::Ack)
    } else {
        let key = key_value_of(decl.key_field, event.payload);
        if key.len() == 0 || starts_process(decl.interest, event.event_type) {
            (
                ProcessPhaseView::AwaitingReply { event_type: event.event_type, key },
                ActionView::HandleEvent(EventWithStateView { event, state: None }),
            )
        } else if role_has_state(decl.role) {
            (
                ProcessPhaseView::AwaitingState { event, key },
                ActionView::State(
                    StateRequestView::Fetch { key: state_key_of(decl.role, decl.entity_name, key) },
                ),
            )
        } else {
            process_finish(
                Err(WorkErrorView::NatsError(LOAD_STATE_ERROR@ + UNSUPPORTED_ROLE_ERROR@)),
            )
        }
    }
}

/// How the worker goes on when it is told the outcome of what it asked for.
pub open spec fn process_step(decl: DeclarationView, phase: ProcessPhaseView, reply: ReplyView) -> (
    ProcessPhaseView,
    ActionView,
) {
    match (phase, reply) {
        (ProcessPhaseView::Skipping, ReplyView::Acked(r)) => process_finish(outcome_of_ack(r)),
        (ProcessPhaseView::AwaitingState { event, key }, ReplyView::State(Ok(state))) => (
            ProcessPhaseView::AwaitingReply { event_type: event.event_type, key },
            ActionView::HandleEvent(EventWithStateView { event, state }),
        ),
        (ProcessPhaseView::AwaitingState { .. }, ReplyView::State(Err(e))) => process_finish(
            Err(WorkErrorView::NatsError(LOAD_STATE_ERROR@ + e)),
        ),
        (ProcessPhaseView::AwaitingReply { key, .. }, ReplyView::ProcessManagerAck(Ok(ack))) => process_publish(
            decl,
            ack.commands,
            ack.state,
            key,
        ),
        (
            ProcessPhaseView::AwaitingReply { event_type, .. },
            ReplyView::ProcessManagerAck(Err(e)),
        ) => process_finish(Err(WorkErrorView::Other(handle_event_error(decl, event_type, e)))),
        (
            ProcessPhaseView::Publishing { remaining, state, key },
            ReplyView::Published(Ok(_)),
        ) => if remaining.len() <= 1 {
            process_store(decl, state, key)
        } else {
            process_publish(decl, remaining.skip(1), state, key)
        },
        (ProcessPhaseView::Publishing { .. }, ReplyView::Published(Err(e))) => process_fail(
            WorkErrorView::NatsError(e),
        ),
        (ProcessPhaseView::Storing, ReplyView::Stored(Ok(_))) => (
            ProcessPhaseView::Acking,
            ActionView::Ack,
        ),
        (ProcessPhaseView::Storing, ReplyView::Stored(Err(e))) => process_fail(
            WorkErrorView::NatsError(e),
        ),
        (ProcessPhaseView::Failing { error }, ReplyView::Nacked) => process_finish(Err(error)),
        (ProcessPhaseView::Acking, ReplyView::Acked(r)) => process_finish(outcome_of_ack(r)),
        _ => process_finish(unexpected_reply()),
    }
}

/// The worker for the events of one process manager.
#[derive(Debug)]
pub struct ProcessManagerWorker {
    pub interest: InterestDeclaration,
}

fn finish(outcome: Result<(), WorkError>) -> (r: (ProcessPhase, Action))
    ensures
        (r.0@, r.1@) == process_finish(crate::consumers::work_result_view(outcome)),
{
    (ProcessPhase::Done, Action::Finish(outcome))
}

fn finish_acked(r: Result<(), String>) -> (out: (ProcessPhase, Action))
    ensures
        (out.0@, out.1@) == process_finish(outcome_of_ack(crate::workers::unit_result_view(r))),
{
    match r {
        Ok(_) => finish(Ok(())),
        Err(e) => finish(Err(WorkError::NatsError(e))),
    }
}

fn fail(error: WorkError) -> (r: (ProcessPhase, Action))
    ensures
        (r.0@, r.1@) == process_fail(error@),
{
    (ProcessPhase::Failing { error }, Action::Nack)
}

/// The command as it goes onto the bus.
pub fn raw_command(command: &OutputCommand) -> (r: RawCommand)
    ensures
        r@ == raw_command_of(command@),
{
    let data = command_data(command.json_payload.as_slice());
    RawCommand {
        command_type: command.command_type.clone(),
        key: command.aggregate_key.clone(),
        data,
    }
}

impl ProcessManagerWorker {
    /// The worker for the process manager that `interest` declares.
    pub fn new(interest: InterestDeclaration) -> (r: Self)
        ensures
            r.interest@ == interest@,
    {
        ProcessManagerWorker { interest }
    }

    fn failure_message(&self, event_type: &str, cause: &str) -> (r: String)
        ensures
            r@ == handle_event_error(self.interest@, event_type@, cause@),
    {
        let mut out = join2("Process manager ", self.interest.actor_id.as_str());
        out.append(" failed to process event ");
        out.append(event_type);
        out.append(": ");
        out.append(cause);
        out
    }

    fn starts_new_process(&self, event_type: &str) -> (r: bool)
        ensures
            r == starts_process(self.interest@.interest, event_type@),
    {
        match &self.interest.interest {
            ActorInterest::ProcessManager(lifetime) => lifetime.event_starts_new_process(
                event_type,
            ),
            _ => false,
        }
    }

    /// Takes up an event that was fetched from the events stream.
    pub fn start(&self, envelope: &BusEnvelope) -> (r: (ProcessPhase, Action))
        ensures
            (r.0@, r.1@) == process_start(self.interest@, envelope@),
    {
        let event = bus_to_internal(envelope);
        if !self.interest.is_interested_in_event(&event) {
            return (ProcessPhase::Skipping, Action::Ack);
        }
        let key = self.interest.extract_key_value_from_payload(event.payload.as_slice());
        if key.as_str().unicode_len() == 0 || self.starts_new_process(event.event_type.as_str()) {
            return (
                ProcessPhase::AwaitingReply { event_type: event.event_type.clone(), key },
                Action::HandleEvent(EventWithState { event, state: None }),
            );
        }
        let request = EntityState::new_from_context().fetch_state(
            &self.interest.role,
            self.interest.entity_name.as_str(),
            key.as_str(),
        );
        match request {
            Ok(request) => (ProcessPhase::AwaitingState { event, key }, Action::State(request)),
            Err(e) => finish(Err(WorkError::NatsError(join2(LOAD_STATE_ERROR, e.as_str())))),
        }
    }

    fn save_state(&self, state: Option<Vec<u8>>, key: String) -> (r: (ProcessPhase, Action))
        ensures
            (r.0@, r.1@) == process_store(self.interest@, opt_bytes(state), key@),
    {
        let store = EntityState::new_from_context();
        let request = match state {
            Some(data) => store.write_state(
                &self.interest.role,
                self.interest.entity_name.as_str(),
                key.as_str(),
                data,
            ),
            None => store.remove_state(
                &self.interest.role,
                self.interest.entity_name.as_str(),
                key.as_str(),
            ),
        };
        match request {
            Ok(request) => (ProcessPhase::Storing, Action::State(request)),
            Err(e) => fail(WorkError::NatsError(e)),
        }
    }

    fn dispatch_commands(
        &self,
        commands: Vec<OutputCommand>,
        next: usize,
        state: Option<Vec<u8>>,
        key: String,
    ) -> (r: (ProcessPhase, Action))
        ensures
            (r.0@, r.1@) == process_publish(
                self.interest@,
                commands_from(commands@, next),
                opt_bytes(state),
                key@,
            ),
    {
        if next >= commands.len() {
            assert(commands_from(commands@, next) =~= Seq::<OutputCommandView>::empty());
            self.save_state(state, key)
        } else {
            let command = raw_command(&commands[next]);
            let topic = command_topic(commands[next].aggregate_stream.as_str());
            assert(commands_from(commands@, next)[0] == commands@[next as int]@);
            (
                ProcessPhase::Publishing { commands, next, state, key },
                Action::PublishCommand { topic, command },
            )
        }
    }

    /// Goes on with the event, given the outcome of the last action.
    pub fn step(&self, phase: ProcessPhase, reply: Reply) -> (r: (ProcessPhase, Action))
        ensures
            (r.0@, r.1@) == process_step(self.interest@, phase@, reply@),
    {
        match (phase, reply) {
            (ProcessPhase::Skipping, Reply::Acked(r)) => finish_acked(r),
            (ProcessPhase::AwaitingState { event, key }, Reply::State(Ok(state))) => (
                ProcessPhase::AwaitingReply { event_type: event.event_type.clone(), key },
                Action::HandleEvent(EventWithState { event, state }),
            ),
            (ProcessPhase::AwaitingState { .. }, Reply::State(Err(e))) => finish(
                Err(WorkError::NatsError(join2(LOAD_STATE_ERROR, e.as_str()))),
            ),
            (ProcessPhase::AwaitingReply { key, .. }, Reply::ProcessManagerAck(Ok(ack))) => {
                let ProcessManagerAck { commands, state } = ack;
                assert(commands_from(commands@, 0) =~= command_views(commands@));
                self.dispatch_commands(commands, 0, state, key)
            },
            (ProcessPhase::AwaitingReply { event_type, .. }, Reply::ProcessManagerAck(Err(e))) => finish(
                Err(WorkError::Other(self.failure_message(event_type.as_str(), e.as_str()))),
            ),
            (
                ProcessPhase::Publishing { commands, next, state, key },
                Reply::Published(Ok(_)),
            ) => {
                if next >= commands.len() {
                    assert(commands_from(commands@, next) =~= Seq::<OutputCommandView>::empty());
                    self.save_state(state, key)
                } else {
                    proof {
                        let remaining = commands_from(commands@, next);
                        let rest = commands_from(commands@, (next + 1) as usize);
                        if remaining.len() <= 1 {
                            assert(rest =~= Seq::<OutputCommandView>::empty());
                        } else {
                            assert(rest =~= remaining.skip(1));
                        }
                    }
                    self.dispatch_commands(commands, next + 1, state, key)
                }
            },
            (ProcessPhase::Publishing { .. }, Reply::Published(Err(e))) => fail(
                WorkError::NatsError(e),
            ),
            (ProcessPhase::Storing, Reply::Stored(Ok(_))) => (ProcessPhase::Acking, Action::Ack),
            (ProcessPhase::Storing, Reply::Stored(Err(e))) => fail(WorkError::NatsError(e)),
            (ProcessPhase::Failing { error }, Reply::Nacked) => finish(Err(error)),
            (ProcessPhase::Acking, Reply::Acked(r)) => finish_acked(r),
            _ => finish(Err(WorkError::Fatal(String::from_str(UNEXPECTED_REPLY_ERROR)))),
        }
    }
}

/// The actions that the worker asks for from `phase` on, as the replies
/// `replies` come in. Replies that come after the work is over are not
/// looked at.
pub open spec fn process_run(
    decl: DeclarationView,
    phase: ProcessPhaseView,
    replies: Seq<ReplyView>,
) -> Seq<ActionView>
    decreases replies.len(),
{
    if replies.len() == 0 || phase is Done {
        Seq::empty()
    } else {
        let (next, action) = process_step(decl, phase, replies[0]);
        seq![action] + process_run(decl, next, replies.drop_first())
    }
}

/// All the actions that the worker asks for on behalf of one event, as the
/// replies `replies` come in.
pub open spec fn process_trace(
    decl: DeclarationView,
    envelope: BusEnvelopeView,
    replies: Seq<ReplyView>,
) -> Seq<ActionView> {
    let (phase, action) = process_start(decl, envelope);
    seq![action] + process_run(decl, phase, replies)
}

/// Whether the process manager is asked to handle an event in the course
/// of `trace`.
pub open spec fn handles_event(trace: Seq<ActionView>) -> bool {
    exists|i: int| 0 <= i < trace.len() && (#[trigger] trace[i]) is HandleEvent
}

/// Once the worker is past waiting for the state, the process manager is
/// not asked again.
pub proof fn no_dispatch_later(
    decl: DeclarationView,
    phase: ProcessPhaseView,
    replies: Seq<ReplyView>,
)
    requires
        !(phase is AwaitingState),
    ensures
        !handles_event(process_run(decl, phase, replies)),
    decreases replies.len(),
{
    let run = process_run(decl, phase, replies);
    if replies.len() == 0 || phase is Done {
    } else {
        let (next, action) = process_step(decl, phase, replies[0]);
        let rest = process_run(decl, next, replies.drop_first());
        no_dispatch_later(decl, next, replies.drop_first());
        assert forall|i: int| 0 <= i < run.len() implies !((#[trigger] run[i]) is HandleEvent) by {
            if i > 0 {
                assert(run[i] == rest[i - 1]);
            }
        }
    }
}

/// The process manager is asked to handle an event only if the event is one
/// that it declared interest in, whatever the bus and the bucket answer.
pub proof fn dispatch_only_if_interested(
    decl: DeclarationView,
    envelope: BusEnvelopeView,
    replies: Seq<ReplyView>,
)
    ensures
        handles_event(process_trace(decl, envelope, replies)) ==> interest_matches(
            decl.interest,
            event_of(envelope).event_type,
            event_of(envelope).stream,
        ),
{
    let event = event_of(envelope);
    let trace = process_trace(decl, envelope, replies);
    if !interest_matches(decl.interest, event.event_type, event.stream) {
        let rest = process_run(decl, ProcessPhaseView::Skipping, replies);
        no_dispatch_later(decl, ProcessPhaseView::Skipping, replies);
        assert forall|i: int| 0 <= i < trace.len() implies !((#[trigger] trace[i]) is HandleEvent) by {
            if i > 0 {
                assert(trace[i] == rest[i - 1]);
            }
        }
    }
}

/// The process manager is asked to handle every event that it declared
/// interest in, provided that it is a participant with state and that the
/// state, where it is asked for, can be read.
pub proof fn dispatch_if_interested(
    decl: DeclarationView,
    envelope: BusEnvelopeView,
    replies: Seq<ReplyView>,
)
    requires
        interest_matches(decl.interest, event_of(envelope).event_type, event_of(envelope).stream),
        role_has_state(decl.role),
        replies.len() > 0,
        replies[0] matches ReplyView::State(Ok(_)),
    ensures
        handles_event(process_trace(decl, envelope, replies)),
{
    let trace = process_trace(decl, envelope, replies);
    let (phase, action) = process_start(decl, envelope);
    if action is HandleEvent {
        assert(trace[0] is HandleEvent);
    } else {
        let (next, second) = process_step(decl, phase, replies[0]);
        assert(second is HandleEvent);
        assert(process_run(decl, phase, replies)[0] == second);
        assert(trace[1] == second);
        assert(trace[1] is HandleEvent);
    }
}

/// For a process manager with the lifetime `lifetime`, an event leads to
/// the manager being asked exactly when its type, in snake case, is the
/// lifetime's start or among those that advance or stop it, provided that
/// the state, where it is asked for, can be read.
pub proof fn process_manager_sees_its_lifetime_only(
    decl: DeclarationView,
    lifetime: crate::config::LifetimeView,
    envelope: BusEnvelopeView,
    replies: Seq<ReplyView>,
)
    requires
        decl.interest == InterestView::ProcessManager(lifetime),
        role_has_state(decl.role),
        replies.len() > 0,
        replies[0] matches ReplyView::State(Ok(_)),
    ensures
        handles_event(process_trace(decl, envelope, replies)) <==> (lifetime.start
            == crate::text::snake_case(event_of(envelope).event_type) || lifetime.advance.contains(
            crate::text::snake_case(event_of(envelope).event_type),
        ) || lifetime.stop.contains(crate::text::snake_case(event_of(envelope).event_type))),
{
    dispatch_only_if_interested(decl, envelope, replies);
    if interest_matches(decl.interest, event_of(envelope).event_type, event_of(envelope).stream) {
        dispatch_if_interested(decl, envelope, replies);
    }
}

/// An event that starts a process is handed to the manager at once and
/// without state, whatever the bucket holds.
pub proof fn start_event_gets_no_state(decl: DeclarationView, envelope: BusEnvelopeView)
    requires
        interest_matches(decl.interest, event_of(envelope).event_type, event_of(envelope).stream),
        starts_process(decl.interest, event_of(envelope).event_type),
    ensures
        process_start(decl, envelope).1 == ActionView::HandleEvent(
            EventWithStateView { event: event_of(envelope), state: None },
        ),
{
}

/// How the worker goes on from publishing `remaining`.
pub open spec fn publishing_step(
    decl: DeclarationView,
    remaining: Seq<OutputCommandView>,
    state: Option<Seq<u8>>,
    key: Seq<char>,
    reply: ReplyView,
) -> (ProcessPhaseView, ActionView) {
    process_step(decl, ProcessPhaseView::Publishing { remaining, state, key }, reply)
}

/// The state is touched only after the last command is out: while commands
/// are being published, the bucket is asked for nothing until the bus has
/// confirmed the last of them, and a publication that fails ends in a
/// refusal without the bucket being asked at all.
pub proof fn state_follows_commands(
    decl: DeclarationView,
    remaining: Seq<OutputCommandView>,
    state: Option<Seq<u8>>,
    key: Seq<char>,
    reply: ReplyView,
)
    requires
        remaining.len() > 0,
    ensures
        publishing_step(decl, remaining, state, key, reply).1 is State ==> remaining.len() == 1
            && reply is Published,
        (reply matches ReplyView::Published(Err(_))) ==> publishing_step(
            decl,
            remaining,
            state,
            key,
            reply,
        ).1 is Nack,
        remaining.len() > 1 && (reply matches ReplyView::Published(Ok(_))) ==> publishing_step(
            decl,
            remaining,
            state,
            key,
            reply,
        ).1 == (ActionView::PublishCommand {
            topic: command_topic_of(remaining[1].aggregate_stream),
            command: raw_command_of(remaining[1]),
        }),
{
    if remaining.len() > 1 {
        assert(remaining.skip(1)[0] == remaining[1]);
    }
}

/// Once the event is acknowledged or refused, the work on it is over.
pub proof fn event_is_answered_once(decl: DeclarationView, error: WorkErrorView, reply: ReplyView)
    ensures
        process_step(decl, ProcessPhaseView::Skipping, reply).1 is Finish,
        process_step(decl, ProcessPhaseView::Acking, reply).1 is Finish,
        process_step(decl, ProcessPhaseView::Failing { error }, reply).1 is Finish,
{
}

/// The event is acknowledged only after the bucket has confirmed that the
/// state was written or purged.
pub proof fn ack_follows_state(decl: DeclarationView, phase: ProcessPhaseView, reply: ReplyView)
    requires
        process_step(decl, phase, reply).1 is Ack,
    ensures
        phase is Storing,
        reply matches ReplyView::Stored(Ok(_)),
{
}

/// Whether the action asks the bucket to write or to purge.
pub open spec fn changes_state(action: ActionView) -> bool {
    action matches ActionView::State(request) && !(request is Fetch)
}

/// Once the worker has turned to the state, it publishes no command any
/// more.
pub proof fn no_command_after_state(
    decl: DeclarationView,
    phase: ProcessPhaseView,
    replies: Seq<ReplyView>,
)
    requires
        phase is Storing || phase is Acking || phase is Failing || phase is Done || phase
            is Skipping,
    ensures
        forall|i: int|
            0 <= i < process_run(decl, phase, replies).len() ==> !(#[trigger] process_run(
                decl,
                phase,
                replies,
            )[i] is PublishCommand),
    decreases replies.len(),
{
    let run = process_run(decl, phase, replies);
    if replies.len() == 0 || phase is Done {
    } else {
        let (next, action) = process_step(decl, phase, replies[0]);
        let rest = process_run(decl, next, replies.drop_first());
        no_command_after_state(decl, next, replies.drop_first());
        assert forall|i: int| 0 <= i < run.len() implies !((#[trigger] run[i]) is PublishCommand) by {
            if i > 0 {
                assert(run[i] == rest[i - 1]);
            }
        }
    }
}

/// Whatever the bus, the bucket and the manager answer: from any point of
/// the work on, no command is published after the bucket was asked to write
/// or to purge.
pub proof fn commands_precede_state_from(
    decl: DeclarationView,
    phase: ProcessPhaseView,
    replies: Seq<ReplyView>,
)
    ensures
        forall|i: int, j: int|
            0 <= i < j < process_run(decl, phase, replies).len() && changes_state(
                #[trigger] process_run(decl, phase, replies)[i],
            ) ==> !(#[trigger] process_run(decl, phase, replies)[j] is PublishCommand),
    decreases replies.len(),
{
    let run = process_run(decl, phase, replies);
    if replies.len() == 0 || phase is Done {
    } else {
        let (next, action) = process_step(decl, phase, replies[0]);
        let rest = process_run(decl, next, replies.drop_first());
        commands_precede_state_from(decl, next, replies.drop_first());
        if changes_state(action) {
            no_command_after_state(decl, next, replies.drop_first());
        }
        assert forall|i: int, j: int|
            0 <= i < j < run.len() && changes_state(#[trigger] run[i]) implies !((
            #[trigger] run[j]) is PublishCommand) by {
            assert(run[j] == rest[j - 1]);
            if i > 0 {
                assert(run[i] == rest[i - 1]);
            } else {
                assert(run[0] == action);
            }
        }
    }
}

/// Whatever the bus, the bucket and the manager answer: in the work on one
/// event every command is published before the bucket is asked to write or
/// to purge.
pub proof fn commands_precede_state(
    decl: DeclarationView,
    envelope: BusEnvelopeView,
    replies: Seq<ReplyView>,
)
    ensures
        forall|i: int, j: int|
            0 <= i < j < process_trace(decl, envelope, replies).len() && changes_state(
                #[trigger] process_trace(decl, envelope, replies)[i],
            ) ==> !(#[trigger] process_trace(decl, envelope, replies)[j] is PublishCommand),
{
    let trace = process_trace(decl, envelope, replies);
    let (phase, action) = process_start(decl, envelope);
    let rest = process_run(decl, phase, replies);
    commands_precede_state_from(decl, phase, replies);
    assert(!changes_state(action));
    assert forall|i: int, j: int|
        0 <= i < j < trace.len() && changes_state(#[trigger] trace[i]) implies !((
        #[trigger] trace[j]) is PublishCommand) by {
        assert(trace[j] == rest[j - 1]);
        if i > 0 {
            assert(trace[i] == rest[i - 1]);
        } else {
            assert(trace[0] == action);
        }
    }
}

/// Whether the bucket is asked to write or to purge before position `j` of
/// `trace`.
pub open spec fn state_changed_before(trace: Seq<ActionView>, j: int) -> bool {
    exists|i: int| 0 <= i < j && changes_state(#[trigger] trace[i])
}

/// Once the work has failed or is over, the event is not acknowledged.
pub proof fn no_ack_after_failure(
    decl: DeclarationView,
    phase: ProcessPhaseView,
    replies: Seq<ReplyView>,
)
    requires
        phase is Failing || phase is Done,
    ensures
        forall|j: int|
            0 <= j < process_run(decl, phase, replies).len() ==> !(#[trigger] process_run(
                decl,
                phase,
                replies,
            )[j] is Ack),
    decreases replies.len(),
{
    let run = process_run(decl, phase, replies);
    if replies.len() == 0 || phase is Done {
    } else {
        let (next, action) = process_step(decl, phase, replies[0]);
        let rest = process_run(decl, next, replies.drop_first());
        no_ack_after_failure(decl, next, replies.drop_first());
        assert forall|j: int| 0 <= j < run.len() implies !((#[trigger] run[j]) is Ack) by {
            if j > 0 {
                assert(run[j] == rest[j - 1]);
            }
        }
    }
}

/// While the manager's answer is still to be carried out, the event is
/// acknowledged only after the bucket was asked to write or to purge.
pub proof fn ack_follows_state_from(
    decl: DeclarationView,
    phase: ProcessPhaseView,
    replies: Seq<ReplyView>,
)
    requires
        phase is AwaitingState || phase is AwaitingReply || phase is Publishing,
    ensures
        forall|j: int|
            0 <= j < process_run(decl, phase, replies).len() && (#[trigger] process_run(
                decl,
                phase,
                replies,
            )[j]) is Ack ==> state_changed_before(process_run(decl, phase, replies), j),
    decreases replies.len(),
{
    let run = process_run(decl, phase, replies);
    if replies.len() == 0 {
    } else {
        let (next, action) = process_step(decl, phase, replies[0]);
        let rest = process_run(decl, next, replies.drop_first());
        assert(run[0] == action);
        assert(!(action is Ack));
        if changes_state(action) {
            assert forall|j: int| 0 <= j < run.len() && (#[trigger] run[j]) is Ack implies state_changed_before(
                run,
                j,
            ) by {
                assert(changes_state(run[0]));
            }
        } else if next is Failing || next is Done {
            no_ack_after_failure(decl, next, replies.drop_first());
            assert forall|j: int| 0 <= j < run.len() && (#[trigger] run[j]) is Ack implies state_changed_before(
                run,
                j,
            ) by {
                if j > 0 {
                    assert(run[j] == rest[j - 1]);
                }
            }
        } else {
            ack_follows_state_from(decl, next, replies.drop_first());
            assert forall|j: int| 0 <= j < run.len() && (#[trigger] run[j]) is Ack implies state_changed_before(
                run,
                j,
            ) by {
                assert(j > 0);
                assert(run[j] == rest[j - 1]);
                let i = choose|i: int| 0 <= i < j - 1 && changes_state(#[trigger] rest[i]);
                assert(run[i + 1] == rest[i]);
                assert(changes_state(run[i + 1]));
            }
        }
    }
}

/// Whatever the bus, the bucket and the manager answer: an event of the
/// lifetime is acknowledged only after the bucket was asked to write or to
/// purge the state that the manager answered with.
pub proof fn ack_follows_state_change(
    decl: DeclarationView,
    envelope: BusEnvelopeView,
    replies: Seq<ReplyView>,
)
    requires
        interest_matches(decl.interest, event_of(envelope).event_type, event_of(envelope).stream),
    ensures
        forall|j: int|
            0 <= j < process_trace(decl, envelope, replies).len() && (#[trigger] process_trace(
                decl,
                envelope,
                replies,
            )[j]) is Ack ==> state_changed_before(process_trace(decl, envelope, replies), j),
{
    let trace = process_trace(decl, envelope, replies);
    let (phase, action) = process_start(decl, envelope);
    let rest = process_run(decl, phase, replies);
    assert(trace[0] == action);
    assert(!(action is Ack));
    if phase is Done {
        no_ack_after_failure(decl, phase, replies);
        assert forall|j: int| 0 <= j < trace.len() && (#[trigger] trace[j]) is Ack implies state_changed_before(
            trace,
            j,
        ) by {
            if j > 0 {
                assert(trace[j] == rest[j - 1]);
            }
        }
    } else {
        ack_follows_state_from(decl, phase, replies);
        assert forall|j: int| 0 <= j < trace.len() && (#[trigger] trace[j]) is Ack implies state_changed_before(
            trace,
            j,
        ) by {
            assert(j > 0);
            assert(trace[j] == rest[j - 1]);
            let i = choose|i: int| 0 <= i < j - 1 && changes_state(#[trigger] rest[i]);
            assert(trace[i + 1] == rest[i]);
            assert(changes_state(trace[i + 1]));
        }
    }
}

} // verus!
