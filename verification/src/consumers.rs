//! Typed consumers and the consumer manager: how a declaration becomes a
//! durable consumer on the bus, what happens to a message that cannot be
//! decoded, how the outcome of a worker steers the loop that feeds it, and
//! which declarations have a live worker.

use vstd::prelude::*;
use vstd::string::*;
use crate::assoc::lookup;
use crate::assoc::position;
use crate::assoc::position_absent;
use crate::assoc::position_facts;
use crate::assoc::position_found;
use crate::config::consumer_name_of;
use crate::config::declaration_label;
use crate::config::role_label;
use crate::config::same_consumer;
use crate::config::ActorRole;
use crate::config::DeclarationView;
use crate::config::InterestConstraint;
use crate::config::InterestDeclaration;
use crate::config::InterestView;
use crate::events::command_of_wire;
use crate::events::command_topic;
use crate::events::command_topic_of;
use crate::events::sanitize_command;
use crate::events::sanitize_envelope;
use crate::events::sanitized_command;
use crate::events::sanitized_envelope;
use crate::events::BusEnvelope;
use crate::events::RawCommand;
use crate::natsclient::AckableMessage;
use crate::natsclient::DEFAULT_ACK_TIME_SECS;
use crate::text::join2;

verus! {

/// How often the bus delivers a message before it gives it up as poison.
pub const MAX_DELIVER: i64 = 3;

/// How many messages a worker's consumer fetches at a time.
pub const WORKER_BATCH_SIZE: usize = 1;

/// How the error for a command consumer of a participant that is no
/// aggregate begins; the role follows.
pub const NOT_AN_AGGREGATE_ERROR: &'static str =
    "Only aggregates are allowed to receive commands, supplied role was ";

/// How the description of a command consumer begins.
pub const COMMAND_CONSUMER_DESCRIPTION: &'static str = "Durable command consumer for ";

/// How the description of an event consumer begins.
pub const EVENT_CONSUMER_DESCRIPTION: &'static str = "Durable event consumer for ";

/// Why work on a message failed.
#[derive(Debug, Clone, PartialEq, Eq)]
pub enum WorkError {
    /// The consumer returns no more work and should be restarted.
    ConsumerStopped,
    /// The worker cannot go on. Holds what went wrong.
    Fatal(String),
    /// The bus failed.
    NatsError(String),
    /// Any other failure that does not stop the worker.
    Other(String),
}

/// A [`WorkError`], as characters.
pub enum WorkErrorView {
    ConsumerStopped,
    Fatal(Seq<char>),
    NatsError(Seq<char>),
    Other(Seq<char>),
}

impl View for WorkError {
    type V = WorkErrorView;

    open spec fn view(&self) -> WorkErrorView {
        match self {
            WorkError::ConsumerStopped => WorkErrorView::ConsumerStopped,
            WorkError::Fatal(e) => WorkErrorView::Fatal(e@),
            WorkError::NatsError(e) => WorkErrorView::NatsError(e@),
            WorkError::Other(e) => WorkErrorView::Other(e@),
        }
    }
}

/// The outcome of work on one message.
pub type WorkResult = Result<(), WorkError>;

/// The view of the outcome of work on one message.
pub open spec fn work_result_view(r: WorkResult) -> Result<(), WorkErrorView> {
    match r {
        Ok(_) => Ok(()),
        Err(e) => Err(e@),
    }
}

/// Whether the consumer answers for each message or for all up to one.
#[derive(Debug, Clone, Copy, PartialEq, Eq, Structural)]
pub enum AckPolicy {
    /// Every message is acknowledged by itself.
    Explicit,
    /// An acknowledgement covers all earlier messages.
    All,
}

/// Where a new consumer starts to read.
#[derive(Debug, Clone, Copy, PartialEq, Eq, Structural)]
pub enum DeliverPolicy {
    /// At the beginning of what the stream retains.
    All,
    /// At what is published from now on.
    New,
}

/// The settings of a durable consumer.
#[derive(Debug, Clone, PartialEq, Eq)]
pub struct ConsumerSettings {
    pub durable_name: String,
    pub name: String,
    pub description: String,
    pub ack_policy: AckPolicy,
    /// The seconds after which an unanswered message is delivered again.
    pub ack_wait_secs: u64,
    pub max_deliver: i64,
    pub deliver_policy: DeliverPolicy,
    /// The subject that the consumer reads; empty for all of the stream.
    pub filter_subject: String,
    pub max_messages_per_batch: usize,
}

/// A [`ConsumerSettings`], as characters.
pub struct ConsumerSettingsView {
    pub durable_name: Seq<char>,
    pub name: Seq<char>,
    pub description: Seq<char>,
    pub ack_policy: AckPolicy,
    pub ack_wait_secs: u64,
    pub max_deliver: i64,
    pub deliver_policy: DeliverPolicy,
    pub filter_subject: Seq<char>,
    pub max_messages_per_batch: usize,
}

impl View for ConsumerSettings {
    type V = ConsumerSettingsView;

    open spec fn view(&self) -> ConsumerSettingsView {
        ConsumerSettingsView {
            durable_name: self.durable_name@,
            name: self.name@,
            description: self.description@,
            ack_policy: self.ack_policy,
            ack_wait_secs: self.ack_wait_secs,
            max_deliver: self.max_deliver,
            deliver_policy: self.deliver_policy,
            filter_subject: self.filter_subject@,
            max_messages_per_batch: self.max_messages_per_batch,
        }
    }
}

/// The settings that every worker's consumer shares: it is durable under
/// the name `name`, answers for each message, waits three seconds for the
/// answer, has a message delivered three times at most, and starts at the
/// beginning of the stream.
pub open spec fn durable_settings(
    name: Seq<char>,
    description: Seq<char>,
    filter_subject: Seq<char>,
) -> ConsumerSettingsView {
    ConsumerSettingsView {
        durable_name: name,
        name,
        description,
        ack_policy: AckPolicy::Explicit,
        ack_wait_secs: DEFAULT_ACK_TIME_SECS,
        max_deliver: MAX_DELIVER,
        deliver_policy: DeliverPolicy::All,
        filter_subject,
        max_messages_per_batch: WORKER_BATCH_SIZE,
    }
}

/// The settings of the consumer that reads the commands of an aggregate:
/// only the subject of that aggregate's commands.
pub open spec fn command_consumer_settings(decl: DeclarationView) -> ConsumerSettingsView {
    durable_settings(
        consumer_name_of(decl.role, decl.interest_constraint, decl.entity_name),
        COMMAND_CONSUMER_DESCRIPTION@ + declaration_label(decl),
        command_topic_of(decl.entity_name),
    )
}

/// The settings of a consumer that reads events: all of the stream, for the
/// worker filters by itself.
pub open spec fn event_consumer_settings(decl: DeclarationView) -> ConsumerSettingsView {
    durable_settings(
        consumer_name_of(decl.role, decl.interest_constraint, decl.entity_name),
        EVENT_CONSUMER_DESCRIPTION@ + declaration_label(decl),
        Seq::empty(),
    )
}

fn make_settings(name: String, description: String, filter_subject: String) -> (r: ConsumerSettings)
    ensures
        r@ == durable_settings(name@, description@, filter_subject@),
{
    ConsumerSettings {
        durable_name: name.clone(),
        name,
        description,
        ack_policy: AckPolicy::Explicit,
        ack_wait_secs: DEFAULT_ACK_TIME_SECS,
        max_deliver: MAX_DELIVER,
        deliver_policy: DeliverPolicy::All,
        filter_subject,
        max_messages_per_batch: WORKER_BATCH_SIZE,
    }
}

/// What becomes of a message that was fetched.
#[derive(Debug)]
pub enum Delivery<T> {
    /// It was decoded and goes to the worker.
    Deliver(AckableMessage<T>),
    /// It could not be decoded. That is malformed traffic, no failure of the
    /// domain: it is acknowledged and the next message is fetched.
    AckAndSkip,
}

/// The consumer of the commands of one aggregate.
#[derive(Debug)]
pub struct CommandConsumer {
    pub settings: ConsumerSettings,
}

/// The view of a command consumer, or of the error that stands in its
/// place.
pub open spec fn command_consumer_view(r: Result<CommandConsumer, String>) -> Result<
    ConsumerSettingsView,
    Seq<char>,
> {
    match r {
        Ok(consumer) => Ok(consumer.settings@),
        Err(e) => Err(e@),
    }
}

impl CommandConsumer {
    /// Puts the type of a command in snake case.
    pub fn sanitize_type_name(cmd: RawCommand) -> (r: RawCommand)
        ensures
            r@ == sanitized_command(cmd@),
    {
        sanitize_command(cmd)
    }

    /// The consumer for the commands of the aggregate that `interest`
    /// declares. Only aggregates receive commands.
    pub fn try_new(interest: &InterestDeclaration) -> (r: Result<CommandConsumer, String>)
        ensures
            command_consumer_view(r) == if interest.role == ActorRole::Aggregate {
                Ok(command_consumer_settings(interest@))
            } else {
                Err(NOT_AN_AGGREGATE_ERROR@ + role_label(interest.role))
            },
    {
        let consumer_name = interest.consumer_name();
        match interest.role {
            ActorRole::Aggregate => {},
            _ => {
                return Err(join2(NOT_AN_AGGREGATE_ERROR, interest.role.to_string().as_str()));
            },
        }
        let description = join2(COMMAND_CONSUMER_DESCRIPTION, interest.to_string().as_str());
        let filter_subject = command_topic(interest.entity_name.as_str());
        Ok(CommandConsumer { settings: make_settings(consumer_name, description, filter_subject) })
    }

    /// Decides what becomes of a fetched message, given its bytes: a
    /// command goes to the worker with its type in snake case, still waiting
    /// for its answer; bytes that hold no command are acknowledged and
    /// passed over.
    pub fn receive(payload: &[u8]) -> (r: Delivery<RawCommand>)
        ensures
            match command_of_wire(payload@) {
                Some(cmd) => r matches Delivery::Deliver(msg) && msg.is_open() && msg.contents()@
                    == sanitized_command(cmd),
                None => r is AckAndSkip,
            },
    {
        match RawCommand::decode(payload) {
            Some(cmd) => Delivery::Deliver(AckableMessage::new(sanitize_command(cmd))),
            None => Delivery::AckAndSkip,
        }
    }
}

/// A consumer of events.
#[derive(Debug)]
pub struct EventConsumer {
    pub settings: ConsumerSettings,
    pub interest: InterestDeclaration,
    pub name: String,
}

impl EventConsumer {
    /// Puts the type of an envelope in snake case.
    pub fn sanitize_type_name(evt: BusEnvelope) -> (r: BusEnvelope)
        ensures
            r@ == sanitized_envelope(evt@),
    {
        sanitize_envelope(evt)
    }

    /// The consumer for the events that `interest` declares.
    pub fn try_new(interest: InterestDeclaration) -> (r: EventConsumer)
        ensures
            r.settings@ == event_consumer_settings(interest@),
            r.interest@ == interest@,
            r.name@ == consumer_name_of(
                interest.role,
                interest.interest_constraint,
                interest.entity_name@,
            ),
    {
        let consumer_name = interest.consumer_name();
        let description = join2(EVENT_CONSUMER_DESCRIPTION, interest.to_string().as_str());
        let name = consumer_name.clone();
        EventConsumer {
            settings: make_settings(consumer_name, description, String::new()),
            interest,
            name,
        }
    }

    /// Decides what becomes of a fetched message, given what was decoded
    /// from it: an envelope goes to the worker with its type in snake case,
    /// still waiting for its answer.
    pub fn receive(decoded: Option<BusEnvelope>) -> (r: Delivery<BusEnvelope>)
        ensures
            match decoded {
                Some(evt) => r matches Delivery::Deliver(msg) && msg.is_open() && msg.contents()@
                    == sanitized_envelope(evt@),
                None => r is AckAndSkip,
            },
    {
        match decoded {
            Some(evt) => Delivery::Deliver(AckableMessage::new(sanitize_envelope(evt))),
            None => Delivery::AckAndSkip,
        }
    }
}

/// What the loop that feeds a worker has just seen.
#[derive(Debug, PartialEq, Eq)]
pub enum LoopEvent {
    /// The consumer has no more messages to give.
    StreamEnded,
    /// Fetching failed.
    StreamFailed(String),
    /// The worker is done with a message.
    Worked(WorkResult),
}

/// A [`LoopEvent`], as characters.
pub enum LoopEventView {
    StreamEnded,
    StreamFailed(Seq<char>),
    Worked(Result<(), WorkErrorView>),
}

impl View for LoopEvent {
    type V = LoopEventView;

    open spec fn view(&self) -> LoopEventView {
        match self {
            LoopEvent::StreamEnded => LoopEventView::StreamEnded,
            LoopEvent::StreamFailed(e) => LoopEventView::StreamFailed(e@),
            LoopEvent::Worked(r) => LoopEventView::Worked(work_result_view(*r)),
        }
    }
}

/// The error with which the loop ends, or `None` where it goes on to fetch
/// the next message. It ends when the consumer has stopped and when the
/// worker failed fatally; every other failure is logged and passed over.
pub open spec fn loop_verdict(event: LoopEventView) -> Option<WorkErrorView> {
    match event {
        LoopEventView::StreamEnded => Some(WorkErrorView::ConsumerStopped),
        LoopEventView::StreamFailed(_) => None,
        LoopEventView::Worked(Err(WorkErrorView::Fatal(e))) => Some(WorkErrorView::Fatal(e)),
        LoopEventView::Worked(_) => None,
    }
}

/// The view of an optional error.
pub open spec fn opt_error(e: Option<WorkError>) -> Option<WorkErrorView> {
    match e {
        Some(e) => Some(e@),
        None => None,
    }
}

/// Decides whether the loop that feeds a worker goes on.
pub fn work_fn(event: LoopEvent) -> (r: Option<WorkError>)
    ensures
        opt_error(r) == loop_verdict(event@),
{
    match event {
        LoopEvent::StreamEnded => Some(WorkError::ConsumerStopped),
        LoopEvent::StreamFailed(_) => None,
        LoopEvent::Worked(Err(WorkError::Fatal(e))) => Some(WorkError::Fatal(e)),
        LoopEvent::Worked(_) => None,
    }
}

/// The stream that a consumer is created on.
#[derive(Debug, Clone, Copy, PartialEq, Eq, Structural)]
pub enum StreamKind {
    Commands,
    Events,
}

/// The stream that a declaration's consumer reads.
pub open spec fn stream_of(constraint: InterestConstraint) -> StreamKind {
    match constraint {
        InterestConstraint::Commands => StreamKind::Commands,
        InterestConstraint::Events => StreamKind::Events,
    }
}

/// What identifies a consumer among those that the manager holds.
pub struct ConsumerKey {
    pub actor_id: Seq<char>,
    pub entity_name: Seq<char>,
    pub role: ActorRole,
    pub interest: InterestView,
    pub interest_constraint: InterestConstraint,
}

/// The key of a declaration's consumer.
pub open spec fn consumer_key(decl: DeclarationView) -> ConsumerKey {
    ConsumerKey {
        actor_id: decl.actor_id,
        entity_name: decl.entity_name,
        role: decl.role,
        interest: decl.interest,
        interest_constraint: decl.interest_constraint,
    }
}

/// One entry of the manager: a declaration, and whether its worker has
/// finished.
pub type Handle = (DeclarationView, bool);

/// The entries by their keys.
pub open spec fn keyed(handles: Seq<Handle>) -> Seq<(ConsumerKey, bool)> {
    handles.map_values(|h: Handle| (consumer_key(h.0), h.1))
}

/// Whether a worker that has not finished is registered for `decl`.
pub open spec fn has_live(handles: Seq<Handle>, decl: DeclarationView) -> bool {
    lookup(keyed(handles), consumer_key(decl)) == Some(false)
}

/// The entries after a new worker was registered for `decl`: it takes the
/// place of a finished one, or comes last.
pub open spec fn registered(handles: Seq<Handle>, decl: DeclarationView) -> Seq<Handle> {
    match position(keyed(handles), consumer_key(decl)) {
        Some(i) => handles.update(i, (decl, false)),
        None => handles.push((decl, false)),
    }
}

/// The entries after `decl` was added: nothing changes where it has a live
/// worker.
pub open spec fn added(handles: Seq<Handle>, decl: DeclarationView) -> Seq<Handle> {
    if has_live(handles, decl) {
        handles
    } else {
        registered(handles, decl)
    }
}

/// The entries after the worker of `decl` has finished.
pub open spec fn stopped(handles: Seq<Handle>, decl: DeclarationView) -> Seq<Handle> {
    match position(keyed(handles), consumer_key(decl)) {
        Some(i) => handles.update(i, (handles[i].0, true)),
        None => handles,
    }
}

/// The declarations whose worker has not finished, in the order of their
/// registration.
pub open spec fn live(handles: Seq<Handle>) -> Seq<DeclarationView>
    decreases handles.len(),
{
    if handles.len() == 0 {
        Seq::empty()
    } else if handles.last().1 {
        live(handles.drop_last())
    } else {
        live(handles.drop_last()).push(handles.last().0)
    }
}

/// The consumer manager: the declarations for which a worker was started,
/// and whether it still runs.
#[derive(Debug)]
pub struct ConsumerManager {
    handles: Vec<(InterestDeclaration, bool)>,
}

impl View for ConsumerManager {
    type V = Seq<Handle>;

    closed spec fn view(&self) -> Seq<Handle> {
        Seq::new(self.handles@.len(), |i: int| (self.handles@[i].0@, self.handles@[i].1))
    }
}

impl ConsumerManager {
    /// A manager without workers.
    pub fn new() -> (r: ConsumerManager)
        ensures
            r@ == Seq::<Handle>::empty(),
    {
        let r = ConsumerManager { handles: Vec::new() };
        assert(r@ =~= Seq::<Handle>::empty());
        r
    }

    fn find(&self, interest: &InterestDeclaration) -> (r: Option<usize>)
        ensures
            match r {
                Some(i) => position(keyed(self@), consumer_key(interest@)) == Some(i as int) && i
                    < self.handles@.len(),
                None => position(keyed(self@), consumer_key(interest@)) is None,
            },
            self@.len() == self.handles@.len(),
    {
        let ghost keys = keyed(self@);
        let ghost key = consumer_key(interest@);
        let mut i: usize = self.handles.len();
        while i > 0
            invariant
                i <= self.handles@.len(),
                self@.len() == self.handles@.len(),
                keys == keyed(self@),
                key == consumer_key(interest@),
                forall|j: int| i <= j < keys.len() ==> (#[trigger] keys[j]).0 != key,
            decreases i,
        {
            i = i - 1;
            if self.handles[i].0.same_as(interest) {
                proof {
                    assert(same_consumer(self@[i as int].0, interest@));
                    assert(keys[i as int].0 == key);
                    position_found(keys, key, i as int);
                }
                return Some(i);
            }
            assert(keys[i as int].0 != key);
        }
        proof {
            position_absent(keys, key);
        }
        None
    }

    /// Whether a worker that has not finished is registered for `interest`.
    pub fn has_consumer(&self, interest: &InterestDeclaration) -> (r: bool)
        ensures
            r == has_live(self@, interest@),
    {
        match self.find(interest) {
            Some(i) => {
                assert(keyed(self@)[i as int].1 == self@[i as int].1);
                !self.handles[i].1
            },
            None => false,
        }
    }

    /// The stream on which to create the consumer for `interest`, or `None`
    /// where a live worker is registered for it and nothing is to be done.
    pub fn plan_consumer(&self, interest: &InterestDeclaration) -> (r: Option<StreamKind>)
        ensures
            r == if has_live(self@, interest@) {
                None
            } else {
                Some(stream_of(interest.interest_constraint))
            },
    {
        if self.has_consumer(interest) {
            None
        } else {
            match interest.interest_constraint {
                InterestConstraint::Commands => Some(StreamKind::Commands),
                InterestConstraint::Events => Some(StreamKind::Events),
            }
        }
    }

    /// Registers the worker that was started for `interest`. Where a live
    /// worker is registered already, nothing changes. Answers whether the
    /// worker was registered.
    pub fn add_consumer(&mut self, interest: InterestDeclaration) -> (r: bool)
        ensures
            final(self)@ == added(old(self)@, interest@),
            r == !has_live(old(self)@, interest@),
    {
        let ghost before = self@;
        match self.find(&interest) {
            Some(i) => {
                assert(keyed(before)[i as int].1 == before[i as int].1);
                if !self.handles[i].1 {
                    return false;
                }
                self.handles.set(i, (interest, false));
                assert(self@ =~= before.update(i as int, (interest@, false)));
                true
            },
            None => {
                self.handles.push((interest, false));
                assert(self@ =~= before.push((interest@, false)));
                true
            },
        }
    }

    /// Records that the worker of `interest` has finished, so that a later
    /// registration starts a new one.
    pub fn consumer_stopped(&mut self, interest: &InterestDeclaration)
        ensures
            final(self)@ == stopped(old(self)@, interest@),
    {
        let ghost before = self@;
        match self.find(interest) {
            Some(i) => {
                let decl = self.handles[i].0.clone();
                self.handles.set(i, (decl, true));
                assert(self@ =~= before.update(i as int, (before[i as int].0, true)));
            },
            None => {},
        }
    }

    /// The declarations that have a live worker.
    pub fn consumers(&self) -> (r: Vec<InterestDeclaration>)
        ensures
            crate::config::declaration_views(r@) == live(self@),
    {
        let mut out: Vec<InterestDeclaration> = Vec::new();
        let mut i: usize = 0;
        assert(self@.take(0) =~= Seq::<Handle>::empty());
        assert(crate::config::declaration_views(out@) =~= Seq::<DeclarationView>::empty());
        while i < self.handles.len()
            invariant
                i <= self.handles@.len(),
                self@.len() == self.handles@.len(),
                crate::config::declaration_views(out@) == live(self@.take(i as int)),
            decreases self.handles@.len() - i,
        {
            proof {
                let next = self@.take(i + 1);
                assert(next.drop_last() =~= self@.take(i as int));
                assert(next.last() == self@[i as int]);
            }
            if !self.handles[i].1 {
                let ghost before = crate::config::declaration_views(out@);
                let decl = self.handles[i].0.clone();
                out.push(decl);
                assert(crate::config::declaration_views(out@) =~= before.push(decl@));
            }
            i = i + 1;
        }
        assert(self@.take(i as int) =~= self@);
        out
    }
}

/// Two declarations stand for the same consumer exactly where their keys
/// are equal.
pub proof fn same_consumer_is_same_key(a: DeclarationView, b: DeclarationView)
    ensures
        same_consumer(a, b) <==> consumer_key(a) == consumer_key(b),
{
}

/// After a declaration was added it has a live worker.
pub proof fn added_is_live(handles: Seq<Handle>, decl: DeclarationView)
    ensures
        has_live(added(handles, decl), decl),
{
    if !has_live(handles, decl) {
        let keys = keyed(handles);
        let key = consumer_key(decl);
        let after = registered(handles, decl);
        position_facts(keys, key);
        match position(keys, key) {
            Some(i) => {
                assert forall|j: int| i < j < keyed(after).len() implies (#[trigger] keyed(
                    after,
                )[j]).0 != key by {
                    assert(keyed(after)[j] == keys[j]);
                }
                assert(keyed(after)[i] == (key, false));
                position_found(keyed(after), key, i);
            },
            None => {
                assert(keyed(after)[handles.len() as int] == (key, false));
                position_found(keyed(after), key, handles.len() as int);
            },
        }
    }
}

/// Adding a declaration a second time changes nothing.
pub proof fn add_is_idempotent(handles: Seq<Handle>, decl: DeclarationView)
    ensures
        added(added(handles, decl), decl) == added(handles, decl),
{
    added_is_live(handles, decl);
}

/// Once its worker has finished a declaration has no live worker, and
/// adding it again registers a new one.
pub proof fn stopped_is_not_live(handles: Seq<Handle>, decl: DeclarationView)
    ensures
        !has_live(stopped(handles, decl), decl),
        has_live(added(stopped(handles, decl), decl), decl),
{
    let keys = keyed(handles);
    let key = consumer_key(decl);
    let after = stopped(handles, decl);
    position_facts(keys, key);
    match position(keys, key) {
        Some(i) => {
            assert forall|j: int| i < j < keyed(after).len() implies (#[trigger] keyed(after)[j]).0
                != key by {
                assert(keyed(after)[j] == keys[j]);
            }
            assert(keys[i].0 == key);
            assert(keyed(after)[i] == (key, true));
            position_found(keyed(after), key, i);
        },
        None => {},
    }
    added_is_live(after, decl);
}

} // verus!
