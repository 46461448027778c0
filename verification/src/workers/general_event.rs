//! The worker for projectors and notifiers. It keeps no state: an event
//! that the participant asked for is handed over, and acknowledged or
//! refused by what the participant answers.

use vstd::prelude::*;
use vstd::string::*;
use crate::config::interest_matches;
use crate::config::DeclarationView;
use crate::config::InterestDeclaration;
use crate::consumers::WorkError;
use crate::consumers::WorkErrorView;
use crate::events::bus_to_internal;
use crate::events::event_of;
use crate::events::BusEnvelope;
use crate::events::BusEnvelopeView;
use crate::workers::outcome_of_ack;
use crate::workers::unexpected_reply;
use crate::workers::Action;
use crate::workers::ActionView;
use crate::workers::Reply;
use crate::workers::ReplyView;
use crate::workers::UNEXPECTED_REPLY_ERROR;

verus! {

/// Where the worker stands with the event it works on.
#[derive(Debug, Clone, Copy, PartialEq, Eq, Structural)]
pub enum HandlerPhase {
    /// The event is none that the participant asked for and was
    /// acknowledged unseen.
    Skipping,
    /// The participant was asked to apply the event.
    AwaitingReply,
    /// The event was acknowledged.
    Acking,
    /// The event was refused.
    Nacking,
    /// The work on the event is over.
    Done,
}

/// The worker stops with the outcome `outcome`.
pub open spec fn handler_finish(outcome: Result<(), WorkErrorView>) -> (HandlerPhase, ActionView) {
    (HandlerPhase::Done, ActionView::Finish(outcome))
}

/// How the worker takes up an event: one that the participant did not ask
/// for is acknowledged and passed over, any other is handed over.
pub open spec fn handler_start(decl: DeclarationView, envelope: BusEnvelopeView) -> (
    HandlerPhase,
    ActionView,
) {
    let event = event_of(envelope);
    if !interest_matches(decl.interest, event.event_type, event.stream) {
        (HandlerPhase::Skipping, ActionView::Ack)
    } else {
        (HandlerPhase::AwaitingReply, ActionView::ApplyStatelessEvent(event))
    }
}

/// How the worker goes on when it is told the outcome of what it asked for.
/// The event is acknowledged where the participant reports success, and
/// refused where it reports failure or could not be reached.
pub open spec fn handler_step(phase: HandlerPhase, reply: ReplyView) -> (HandlerPhase, ActionView) {
    match (phase, reply) {
        (HandlerPhase::Skipping, ReplyView::Acked(r)) => handler_finish(outcome_of_ack(r)),
        (HandlerPhase::AwaitingReply, ReplyView::StatelessAck(Ok(ack))) => if ack.succeeded {
            (HandlerPhase::Acking, ActionView::Ack)
        } else {
            (HandlerPhase::Nacking, ActionView::Nack)
        },
        (HandlerPhase::AwaitingReply, ReplyView::StatelessAck(Err(_))) => (
            HandlerPhase::Nacking,
            ActionView::Nack,
        ),
        (HandlerPhase::Acking, ReplyView::Acked(r)) => handler_finish(outcome_of_ack(r)),
        (HandlerPhase::Nacking, ReplyView::Nacked) => handler_finish(Ok(())),
        _ => handler_finish(unexpected_reply()),
    }
}

/// The worker for the events of one projector or notifier.
#[derive(Debug)]
pub struct GeneralEventWorker {
    pub interest: InterestDeclaration,
}

fn finish(outcome: Result<(), WorkError>) -> (r: (HandlerPhase, Action))
    ensures
        (r.0, r.1@) == handler_finish(crate::consumers::work_result_view(outcome)),
{
    (HandlerPhase::Done, Action::Finish(outcome))
}

fn finish_acked(r: Result<(), String>) -> (out: (HandlerPhase, Action))
    ensures
        (out.0, out.1@) == handler_finish(outcome_of_ack(crate::workers::unit_result_view(r))),
{
    match r {
        Ok(_) => finish(Ok(())),
        Err(e) => finish(Err(WorkError::NatsError(e))),
    }
}

impl GeneralEventWorker {
    /// The worker for the participant that `interest` declares.
    pub fn new(interest: InterestDeclaration) -> (r: Self)
        ensures
            r.interest@ == interest@,
    {
        GeneralEventWorker { interest }
    }

    /// Takes up an event that was fetched from the events stream.
    pub fn start(&self, envelope: &BusEnvelope) -> (r: (HandlerPhase, Action))
        ensures
            (r.0, r.1@) == handler_start(self.interest@, envelope@),
    {
        let event = bus_to_internal(envelope);
        if !self.interest.is_interested_in_event(&event) {
            (HandlerPhase::Skipping, Action::Ack)
        } else {
            (HandlerPhase::AwaitingReply, Action::ApplyStatelessEvent(event))
        }
    }

    /// Goes on with the event, given the outcome of the last action.
    pub fn step(&self, phase: HandlerPhase, reply: Reply) -> (r: (HandlerPhase, Action))
        ensures
            (r.0, r.1@) == handler_step(phase, reply@),
    {
        match (phase, reply) {
            (HandlerPhase::Skipping, Reply::Acked(r)) => finish_acked(r),
            (HandlerPhase::AwaitingReply, Reply::StatelessAck(Ok(ack))) => {
                if ack.succeeded {
                    (HandlerPhase::Acking, Action::Ack)
                } else {
                    (HandlerPhase::Nacking, Action::Nack)
                }
            },
            (HandlerPhase::AwaitingReply, Reply::StatelessAck(Err(_))) => (
                HandlerPhase::Nacking,
                Action::Nack,
            ),
            (HandlerPhase::Acking, Reply::Acked(r)) => finish_acked(r),
            (HandlerPhase::Nacking, Reply::Nacked) => finish(Ok(())),
            _ => finish(Err(WorkError::Fatal(String::from_str(UNEXPECTED_REPLY_ERROR)))),
        }
    }
}

/// The participant is handed an event exactly when the event is one that
/// it declared interest in; any other event is acknowledged unseen.
pub proof fn handler_sees_what_it_asked_for(decl: DeclarationView, envelope: BusEnvelopeView)
    ensures
        handler_start(decl, envelope).1 is ApplyStatelessEvent <==> interest_matches(
            decl.interest,
            event_of(envelope).event_type,
            event_of(envelope).stream,
        ),
        !interest_matches(decl.interest, event_of(envelope).event_type, event_of(envelope).stream)
            ==> handler_start(decl, envelope) == (HandlerPhase::Skipping, ActionView::Ack),
        forall|phase: HandlerPhase, reply: ReplyView|
            !((#[trigger] handler_step(phase, reply)).1 is ApplyStatelessEvent),
{
}

} // verus!
