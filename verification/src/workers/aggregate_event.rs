//! The worker that hands the events of an aggregate's stream back to the
//! aggregate, and stores the state that the aggregate answers with.

use vstd::prelude::*;
use vstd::string::*;
use crate::config::interest_matches;
use crate::config::key_value_of;
use crate::config::DeclarationView;
use crate::config::InterestDeclaration;
use crate::config::InterestView;
use crate::consumers::WorkError;
use crate::consumers::WorkErrorView;
use crate::events::bus_to_internal;
use crate::events::event_of;
use crate::events::BusEnvelope;
use crate::events::BusEnvelopeView;
use crate::eventsourcing::Event;
use crate::eventsourcing::EventView;
use crate::eventsourcing::EventWithState;
use crate::eventsourcing::EventWithStateView;
use crate::eventsourcing::StateAck;
use crate::eventsourcing::StateAckView;
use crate::state::role_has_state;
use crate::state::state_key_of;
use crate::state::EntityState;
use crate::state::StateRequestView;
use crate::state::UNSUPPORTED_ROLE_ERROR;
use crate::text::join2;
use crate::workers::outcome_of_ack;
use crate::workers::unexpected_reply;
use crate::workers::Action;
use crate::workers::ActionView;
use crate::workers::Reply;
use crate::workers::ReplyView;
use crate::workers::UNEXPECTED_REPLY_ERROR;

verus! {

/// Where the worker stands with the event it works on.
#[derive(Debug, PartialEq, Eq)]
pub enum ApplyPhase {
    /// The event is none of the aggregate's and was acknowledged unseen.
    Skipping,
    /// The state of the instance was asked for.
    AwaitingState { event: Event, key: String },
    /// The aggregate was asked to apply the event.
    AwaitingReply { key: String },
    /// The bucket was asked to write or purge the state.
    Storing,
    /// The event was acknowledged.
    Acking,
    /// The event was refused.
    Nacking,
    /// The work on the event is over.
    Done,
}

/// An [`ApplyPhase`], as characters and bytes.
pub enum ApplyPhaseView {
    Skipping,
    AwaitingState { event: EventView, key: Seq<char> },
    AwaitingReply { key: Seq<char> },
    Storing,
    Acking,
    Nacking,
    Done,
}

impl View for ApplyPhase {
    type V = ApplyPhaseView;

    open spec fn view(&self) -> ApplyPhaseView {
        match self {
            ApplyPhase::Skipping => ApplyPhaseView::Skipping,
            ApplyPhase::AwaitingState { event, key } => ApplyPhaseView::AwaitingState {
                event: event@,
                key: key@,
            },
            ApplyPhase::AwaitingReply { key } => ApplyPhaseView::AwaitingReply { key: key@ },
            ApplyPhase::Storing => ApplyPhaseView::Storing,
            ApplyPhase::Acking => ApplyPhaseView::Acking,
            ApplyPhase::Nacking => ApplyPhaseView::Nacking,
            ApplyPhase::Done => ApplyPhaseView::Done,
        }
    }
}

/// The error for the state of an aggregate that could not be loaded.
pub open spec fn aggregate_load_error(decl: DeclarationView, cause: Seq<char>) -> Seq<char> {
    "Failed to load state for aggregate "@ + decl.actor_id + " : "@ + cause
}

/// The worker stops with the outcome `outcome`.
pub open spec fn apply_finish(outcome: Result<(), WorkErrorView>) -> (ApplyPhaseView, ActionView) {
    (ApplyPhaseView::Done, ActionView::Finish(outcome))
}

/// The worker refuses the event.
pub open spec fn apply_refuse() -> (ApplyPhaseView, ActionView) {
    (ApplyPhaseView::Nacking, ActionView::Nack)
}

/// How the worker takes up an event. An event that the aggregate is not
/// interested in is acknowledged and passed over. For any other the state
/// is asked for under the key found in the payload; where none is found the
/// aggregate is asked at once, without state.
pub open spec fn apply_start(decl: DeclarationView, envelope: BusEnvelopeView) -> (
    ApplyPhaseView,
    ActionView,
) {
    let event = event_of(envelope);
    if !interest_matches(decl.interest, event.event_type, event.stream) {
        (ApplyPhaseView::Skipping, ActionView::Ack)
    } else {
        let key = key_value_of(decl.key_field, event.payload);
        if key.len() == 0 {
            (
                ApplyPhaseView::AwaitingReply { key },
                ActionView::ApplyEvent(EventWithStateView { event, state: None }),
            )
        } else if role_has_state(decl.role) {
            (
                ApplyPhaseView::AwaitingState { event, key },
                ActionView::State(
                    StateRequestView::Fetch { key: state_key_of(decl.role, decl.entity_name, key) },
                ),
            )
        } else {
            apply_finish(
                Err(WorkErrorView::NatsError(aggregate_load_error(decl, UNSUPPORTED_ROLE_ERROR@))),
            )
        }
    }
}

/// What to do with the aggregate's answer. After success the state that it
/// gave is written, or the stored state purged where it gave none; the
/// event is acknowledged once the bucket has confirmed. Without a key
/// there is nothing to store and the event is acknowledged at once. After
/// failure the event is refused.
pub open spec fn apply_adjust(decl: DeclarationView, key: Seq<char>, ack: StateAckView) -> (
    ApplyPhaseView,
    ActionView,
) {
    if !ack.succeeded {
        apply_refuse()
    } else if key.len() == 0 {
        (ApplyPhaseView::Acking, ActionView::Ack)
    } else if !role_has_state(decl.role) {
        apply_refuse()
    } else {
        (
            ApplyPhaseView::Storing,
            ActionView::State(
                match ack.state {
                    Some(data) => StateRequestView::Write {
                        key: state_key_of(decl.role, decl.entity_name, key),
                        data,
                    },
                    None => StateRequestView::Purge {
                        key: state_key_of(decl.role, decl.entity_name, key),
                    },
                },
            ),
        )
    }
}

/// How the worker goes on when it is told the outcome of what it asked for.
pub open spec fn apply_step(decl: DeclarationView, phase: ApplyPhaseView, reply: ReplyView) -> (
    ApplyPhaseView,
    ActionView,
) {
    match (phase, reply) {
        (ApplyPhaseView::Skipping, ReplyView::Acked(r)) => apply_finish(outcome_of_ack(r)),
        (ApplyPhaseView::AwaitingState { event, key }, ReplyView::State(Ok(state))) => (
            ApplyPhaseView::AwaitingReply { key },
            ActionView::ApplyEvent(EventWithStateView { event, state }),
        ),
        (ApplyPhaseView::AwaitingState { .. }, ReplyView::State(Err(e))) => apply_finish(
            Err(WorkErrorView::NatsError(aggregate_load_error(decl, e))),
        ),
        (ApplyPhaseView::AwaitingReply { key }, ReplyView::StateAck(Ok(ack))) => apply_adjust(
            decl,
            key,
            ack,
        ),
        (ApplyPhaseView::AwaitingReply { .. }, ReplyView::StateAck(Err(_))) => apply_refuse(),
        (ApplyPhaseView::Storing, ReplyView::Stored(Ok(_))) => (
            ApplyPhaseView::Acking,
            ActionView::Ack,
        ),
        (ApplyPhaseView::Storing, ReplyView::Stored(Err(_))) => apply_refuse(),
        (ApplyPhaseView::Acking, ReplyView::Acked(r)) => apply_finish(outcome_of_ack(r)),
        (ApplyPhaseView::Nacking, ReplyView::Nacked) => apply_finish(Ok(())),
        _ => apply_finish(unexpected_reply()),
    }
}

/// The worker for the events of one aggregate.
#[derive(Debug)]
pub struct AggregateEventWorker {
    pub interest: InterestDeclaration,
}

fn finish(outcome: Result<(), WorkError>) -> (r: (ApplyPhase, Action))
    ensures
        (r.0@, r.1@) == apply_finish(crate::consumers::work_result_view(outcome)),
{
    (ApplyPhase::Done, Action::Finish(outcome))
}

fn finish_acked(r: Result<(), String>) -> (out: (ApplyPhase, Action))
    ensures
        (out.0@, out.1@) == apply_finish(outcome_of_ack(crate::workers::unit_result_view(r))),
{
    match r {
        Ok(_) => finish(Ok(())),
        Err(e) => finish(Err(WorkError::NatsError(e))),
    }
}

impl AggregateEventWorker {
    /// The worker for the aggregate that `interest` declares.
    pub fn new(interest: InterestDeclaration) -> (r: Self)
        ensures
            r.interest@ == interest@,
    {
        AggregateEventWorker { interest }
    }

    fn load_error(&self, cause: &str) -> (r: String)
        ensures
            r@ == aggregate_load_error(self.interest@, cause@),
    {
        let mut out = join2("Failed to load state for aggregate ", self.interest.actor_id.as_str());
        out.append(" : ");
        out.append(cause);
        out
    }

    /// Takes up an event that was fetched from the events stream.
    pub fn start(&self, envelope: &BusEnvelope) -> (r: (ApplyPhase, Action))
        ensures
            (r.0@, r.1@) == apply_start(self.interest@, envelope@),
    {
        let event = bus_to_internal(envelope);
        if !self.interest.is_interested_in_event(&event) {
            return (ApplyPhase::Skipping, Action::Ack);
        }
        let key = self.interest.extract_key_value_from_payload(event.payload.as_slice());
        if key.as_str().unicode_len() == 0 {
            return (
                ApplyPhase::AwaitingReply { key },
                Action::ApplyEvent(EventWithState { event, state: None }),
            );
        }
        let request = EntityState::new_from_context().fetch_state(
            &self.interest.role,
            self.interest.entity_name.as_str(),
            key.as_str(),
        );
        match request {
            Ok(request) => (ApplyPhase::AwaitingState { event, key }, Action::State(request)),
            Err(e) => finish(Err(WorkError::NatsError(self.load_error(e.as_str())))),
        }
    }

    fn adjust_state(&self, key: String, ack: StateAck) -> (r: (ApplyPhase, Action))
        ensures
            (r.0@, r.1@) == apply_adjust(self.interest@, key@, ack@),
    {
        if !ack.succeeded {
            return (ApplyPhase::Nacking, Action::Nack);
        }
        if key.as_str().unicode_len() == 0 {
            return (ApplyPhase::Acking, Action::Ack);
        }
        let store = EntityState::new_from_context();
        let request = match ack.state {
            Some(data) => store.write_state(
                &self.interest.role,
                self.interest.entity_name.as_str(),
                key.as_str(),
                data,
            ),
            None => store.remove_state(
                &self.interest.role,
                self.interest.entity_name.as_str(),
                key.as_str(),
            ),
        };
        match request {
            Ok(request) => (ApplyPhase::Storing, Action::State(request)),
            Err(_) => (ApplyPhase::Nacking, Action::Nack),
        }
    }

    /// Goes on with the event, given the outcome of the last action.
    pub fn step(&self, phase: ApplyPhase, reply: Reply) -> (r: (ApplyPhase, Action))
        ensures
            (r.0@, r.1@) == apply_step(self.interest@, phase@, reply@),
    {
        match (phase, reply) {
            (ApplyPhase::Skipping, Reply::Acked(r)) => finish_acked(r),
            (ApplyPhase::AwaitingState { event, key }, Reply::State(Ok(state))) => (
                ApplyPhase::AwaitingReply { key },
                Action::ApplyEvent(EventWithState { event, state }),
            ),
            (ApplyPhase::AwaitingState { .. }, Reply::State(Err(e))) => finish(
                Err(WorkError::NatsError(self.load_error(e.as_str()))),
            ),
            (ApplyPhase::AwaitingReply { key }, Reply::StateAck(Ok(ack))) => self.adjust_state(
                key,
                ack,
            ),
            (ApplyPhase::AwaitingReply { .. }, Reply::StateAck(Err(_))) => (
                ApplyPhase::Nacking,
                Action::Nack,
            ),
            (ApplyPhase::Storing, Reply::Stored(Ok(_))) => (ApplyPhase::Acking, Action::Ack),
            (ApplyPhase::Storing, Reply::Stored(Err(_))) => (ApplyPhase::Nacking, Action::Nack),
            (ApplyPhase::Acking, Reply::Acked(r)) => finish_acked(r),
            (ApplyPhase::Nacking, Reply::Nacked) => finish(Ok(())),
            _ => finish(Err(WorkError::Fatal(String::from_str(UNEXPECTED_REPLY_ERROR)))),
        }
    }
}

/// The actions that the worker asks for from `phase` on, as the replies
/// `replies` come in. Replies that come after the work is over are not
/// looked at.
pub open spec fn apply_run(decl: DeclarationView, phase: ApplyPhaseView, replies: Seq<ReplyView>) -> Seq<
    ActionView,
>
    decreases replies.len(),
{
    if replies.len() == 0 || phase is Done {
        Seq::empty()
    } else {
        let (next, action) = apply_step(decl, phase, replies[0]);
        seq![action] + apply_run(decl, next, replies.drop_first())
    }
}

/// All the actions that the worker asks for on behalf of one event, as the
/// replies `replies` come in.
pub open spec fn apply_trace(
    decl: DeclarationView,
    envelope: BusEnvelopeView,
    replies: Seq<ReplyView>,
) -> Seq<ActionView> {
    let (phase, action) = apply_start(decl, envelope);
    seq![action] + apply_run(decl, phase, replies)
}

/// Whether the aggregate is asked to apply an event in the course of
/// `trace`.
pub open spec fn applies_event(trace: Seq<ActionView>) -> bool {
    exists|i: int| 0 <= i < trace.len() && (#[trigger] trace[i]) is ApplyEvent
}

/// Once the worker is past waiting for the state, the aggregate is not
/// asked again.
pub proof fn no_dispatch_later(decl: DeclarationView, phase: ApplyPhaseView, replies: Seq<ReplyView>)
    requires
        !(phase is AwaitingState),
    ensures
        !applies_event(apply_run(decl, phase, replies)),
    decreases replies.len(),
{
    let run = apply_run(decl, phase, replies);
    if replies.len() == 0 || phase is Done {
    } else {
        let (next, action) = apply_step(decl, phase, replies[0]);
        let rest = apply_run(decl, next, replies.drop_first());
        no_dispatch_later(decl, next, replies.drop_first());
        assert forall|i: int| 0 <= i < run.len() implies !((#[trigger] run[i]) is ApplyEvent) by {
            if i > 0 {
                assert(run[i] == rest[i - 1]);
            }
        }
    }
}

/// The aggregate is asked to apply an event only if the event is one that
/// it declared interest in, whatever the bus and the bucket answer.
pub proof fn dispatch_only_if_interested(
    decl: DeclarationView,
    envelope: BusEnvelopeView,
    replies: Seq<ReplyView>,
)
    ensures
        applies_event(apply_trace(decl, envelope, replies)) ==> interest_matches(
            decl.interest,
            event_of(envelope).event_type,
            event_of(envelope).stream,
        ),
{
    let event = event_of(envelope);
    let trace = apply_trace(decl, envelope, replies);
    if !interest_matches(decl.interest, event.event_type, event.stream) {
        let rest = apply_run(decl, ApplyPhaseView::Skipping, replies);
        no_dispatch_later(decl, ApplyPhaseView::Skipping, replies);
        assert forall|i: int| 0 <= i < trace.len() implies !((#[trigger] trace[i]) is ApplyEvent) by {
            if i > 0 {
                assert(trace[i] == rest[i - 1]);
            }
        }
    }
}

/// The aggregate is asked to apply every event that it declared interest
/// in, provided that it is a participant with state and that the state,
/// where it is asked for, can be read.
pub proof fn dispatch_if_interested(
    decl: DeclarationView,
    envelope: BusEnvelopeView,
    replies: Seq<ReplyView>,
)
    requires
        interest_matches(decl.interest, event_of(envelope).event_type, event_of(envelope).stream),
        role_has_state(decl.role),
        replies.len() > 0,
        replies[0] matches ReplyView::State(Ok(_)),
    ensures
        applies_event(apply_trace(decl, envelope, replies)),
{
    let trace = apply_trace(decl, envelope, replies);
    let (phase, action) = apply_start(decl, envelope);
    if action is ApplyEvent {
        assert(trace[0] is ApplyEvent);
    } else {
        let (next, second) = apply_step(decl, phase, replies[0]);
        assert(second is ApplyEvent);
        assert(apply_run(decl, phase, replies)[0] == second);
        assert(trace[1] == second);
        assert(trace[1] is ApplyEvent);
    }
}

/// For an aggregate that declared the stream `stream`, an event leads to
/// the aggregate being asked exactly when it is of that stream, provided
/// that the state, where it is asked for, can be read.
pub proof fn aggregate_sees_its_stream_only(
    decl: DeclarationView,
    stream: Seq<char>,
    envelope: BusEnvelopeView,
    replies: Seq<ReplyView>,
)
    requires
        decl.interest == InterestView::AggregateStream(stream),
        role_has_state(decl.role),
        replies.len() > 0,
        replies[0] matches ReplyView::State(Ok(_)),
    ensures
        applies_event(apply_trace(decl, envelope, replies)) <==> event_of(envelope).stream
            == stream,
{
    dispatch_only_if_interested(decl, envelope, replies);
    if event_of(envelope).stream == stream {
        dispatch_if_interested(decl, envelope, replies);
    }
}

/// What becomes of the state and of the event, by what the aggregate
/// answers, for an aggregate with a key: success with state writes the state
/// at the key, success without state purges the key, and failure refuses the
/// event. The event is acknowledged only once the bucket has confirmed.
pub proof fn answer_decides_state_and_event(decl: DeclarationView, key: Seq<char>, ack: StateAckView)
    requires
        role_has_state(decl.role),
        key.len() > 0,
    ensures
        ack.succeeded && ack.state is Some ==> apply_adjust(decl, key, ack) == (
            ApplyPhaseView::Storing,
            ActionView::State(
                StateRequestView::Write {
                    key: state_key_of(decl.role, decl.entity_name, key),
                    data: ack.state->0,
                },
            ),
        ),
        ack.succeeded && ack.state is None ==> apply_adjust(decl, key, ack) == (
            ApplyPhaseView::Storing,
            ActionView::State(
                StateRequestView::Purge { key: state_key_of(decl.role, decl.entity_name, key) },
            ),
        ),
        !ack.succeeded ==> apply_adjust(decl, key, ack) == apply_refuse(),
        apply_step(decl, ApplyPhaseView::Storing, ReplyView::Stored(Ok(()))) == (
            ApplyPhaseView::Acking,
            ActionView::Ack,
        ),
        forall|cause: Seq<char>|
            #[trigger] apply_step(decl, ApplyPhaseView::Storing, ReplyView::Stored(Err(cause)))
                == apply_refuse(),
{
}

/// An event that the aggregate applied is acknowledged, with or without a
/// key: without one at once and with nothing stored, with one as soon as the
/// bucket has confirmed. It is never left unanswered.
pub proof fn applied_event_is_acknowledged(decl: DeclarationView, key: Seq<char>, ack: StateAckView)
    requires
        ack.succeeded,
        role_has_state(decl.role),
    ensures
        key.len() == 0 ==> apply_adjust(decl, key, ack) == (
            ApplyPhaseView::Acking,
            ActionView::Ack,
        ),
        key.len() > 0 ==> apply_adjust(decl, key, ack).0 is Storing && apply_adjust(
            decl,
            key,
            ack,
        ).1 is State,
        apply_step(decl, ApplyPhaseView::Storing, ReplyView::Stored(Ok(()))).1 is Ack,
        !(apply_adjust(decl, key, ack).1 is Finish),
{
}

/// Once the event is acknowledged or refused, the work on it is over.
pub proof fn event_is_answered_once(decl: DeclarationView, reply: ReplyView)
    ensures
        apply_step(decl, ApplyPhaseView::Skipping, reply).1 is Finish,
        apply_step(decl, ApplyPhaseView::Acking, reply).1 is Finish,
        apply_step(decl, ApplyPhaseView::Nacking, reply).1 is Finish,
{
}

} // verus!
