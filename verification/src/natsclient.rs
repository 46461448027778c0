//! What the runtime asks of the bus itself: the two streams that must
//! exist, and the acknowledgement discipline of a fetched message.

use vstd::prelude::*;
use vstd::string::*;
use crate::state::state_bucket;
use crate::state::BucketSettings;
use crate::state::BucketSettingsView;
use crate::state::EntityState;

verus! {

pub const EVENT_STREAM_NAME: &'static str = "CC_EVENTS";

pub const EVENTS_STREAM_TOPIC: &'static str = "cc.events.*";

pub const EVENT_STREAM_DESCRIPTION: &'static str =
    "Concordance event stream for event sourcing capability provider";

pub const COMMANDS_STREAM_NAME: &'static str = "CC_COMMANDS";

pub const COMMANDS_STREAM_TOPIC: &'static str = "cc.commands.*";

pub const COMMANDS_STREAM_DESCRIPTION: &'static str =
    "Concordance command stream for event sourcing capability provider";

/// The seconds that a participant's consumer gets to acknowledge a message.
/// One more than the two seconds that a participant has to answer.
pub const DEFAULT_ACK_TIME_SECS: u64 = 3;

/// The seconds after which a publication is given up.
pub const SEND_TIMEOUT_SECS: u64 = 2;

/// How often an acknowledgement is sent before it is given up.
pub const ACK_MAX_ATTEMPTS: u32 = 3;

/// The milliseconds between two attempts to acknowledge.
pub const ACK_RETRY_DELAY_MS: u64 = 100;

/// When a stream lets go of a message.
#[derive(Debug, Clone, Copy, PartialEq, Eq, Structural)]
pub enum RetentionPolicy {
    /// When limits are reached. An acknowledgement removes nothing, so
    /// several consumers may read the same message.
    Limits,
    /// When it is acknowledged: every message is worked on once.
    WorkQueue,
}

/// Where a stream keeps its messages.
#[derive(Debug, Clone, Copy, PartialEq, Eq, Structural)]
pub enum StorageType {
    File,
    Memory,
}

/// The settings of a stream.
#[derive(Debug, Clone, PartialEq, Eq)]
pub struct StreamSettings {
    pub name: String,
    pub description: String,
    pub num_replicas: usize,
    pub retention: RetentionPolicy,
    pub subjects: Vec<String>,
    pub storage: StorageType,
    pub allow_rollup: bool,
}

/// A [`StreamSettings`], as characters.
pub struct StreamSettingsView {
    pub name: Seq<char>,
    pub description: Seq<char>,
    pub num_replicas: usize,
    pub retention: RetentionPolicy,
    pub subjects: Seq<Seq<char>>,
    pub storage: StorageType,
    pub allow_rollup: bool,
}

impl View for StreamSettings {
    type V = StreamSettingsView;

    open spec fn view(&self) -> StreamSettingsView {
        StreamSettingsView {
            name: self.name@,
            description: self.description@,
            num_replicas: self.num_replicas,
            retention: self.retention,
            subjects: self.subjects.deep_view(),
            storage: self.storage,
            allow_rollup: self.allow_rollup,
        }
    }
}

/// The events stream: kept by limits, on file, so that every consumer sees
/// every event.
pub open spec fn events_stream() -> StreamSettingsView {
    StreamSettingsView {
        name: EVENT_STREAM_NAME@,
        description: EVENT_STREAM_DESCRIPTION@,
        num_replicas: 1,
        retention: RetentionPolicy::Limits,
        subjects: seq![EVENTS_STREAM_TOPIC@],
        storage: StorageType::File,
        allow_rollup: false,
    }
}

/// The commands stream: a work queue, on file, so that every command is
/// handled once.
pub open spec fn commands_stream() -> StreamSettingsView {
    StreamSettingsView {
        name: COMMANDS_STREAM_NAME@,
        description: COMMANDS_STREAM_DESCRIPTION@,
        num_replicas: 1,
        retention: RetentionPolicy::WorkQueue,
        subjects: seq![COMMANDS_STREAM_TOPIC@],
        storage: StorageType::File,
        allow_rollup: false,
    }
}

/// One resource to create on the bus.
#[derive(Debug, Clone, PartialEq, Eq)]
pub enum Provision {
    Stream(StreamSettings),
    Bucket(BucketSettings),
}

/// A [`Provision`], as characters.
pub enum ProvisionView {
    Stream(StreamSettingsView),
    Bucket(BucketSettingsView),
}

impl View for Provision {
    type V = ProvisionView;

    open spec fn view(&self) -> ProvisionView {
        match self {
            Provision::Stream(s) => ProvisionView::Stream(s@),
            Provision::Bucket(b) => ProvisionView::Bucket(b@),
        }
    }
}

/// The views of a list of resources, in order.
pub open spec fn provision_views(list: Seq<Provision>) -> Seq<ProvisionView> {
    list.map_values(|p: Provision| p@)
}

/// What remains to be created, given what is there: the events stream, the
/// commands stream and the state bucket, in that order, each only where it
/// is missing.
pub open spec fn missing_resources(
    events_present: bool,
    commands_present: bool,
    bucket_present: bool,
) -> Seq<ProvisionView> {
    let events = if events_present {
        Seq::<ProvisionView>::empty()
    } else {
        seq![ProvisionView::Stream(events_stream())]
    };
    let commands = if commands_present {
        Seq::<ProvisionView>::empty()
    } else {
        seq![ProvisionView::Stream(commands_stream())]
    };
    let bucket = if bucket_present {
        Seq::<ProvisionView>::empty()
    } else {
        seq![ProvisionView::Bucket(state_bucket())]
    };
    events + commands + bucket
}

/// The provisioner of the streams.
#[derive(Debug, Clone, Copy)]
pub struct NatsClient {}

impl NatsClient {
    /// The provisioner.
    pub fn new() -> (r: NatsClient) {
        NatsClient {  }
    }

    /// The settings of the events stream.
    pub fn events_stream_settings(&self) -> (r: StreamSettings)
        ensures
            r@ == events_stream(),
    {
        let mut subjects: Vec<String> = Vec::new();
        subjects.push(String::from_str(EVENTS_STREAM_TOPIC));
        assert(subjects.deep_view() =~= seq![EVENTS_STREAM_TOPIC@]);
        StreamSettings {
            name: String::from_str(EVENT_STREAM_NAME),
            description: String::from_str(EVENT_STREAM_DESCRIPTION),
            num_replicas: 1,
            retention: RetentionPolicy::Limits,
            subjects,
            storage: StorageType::File,
            allow_rollup: false,
        }
    }

    /// The settings of the commands stream.
    pub fn commands_stream_settings(&self) -> (r: StreamSettings)
        ensures
            r@ == commands_stream(),
    {
        let mut subjects: Vec<String> = Vec::new();
        subjects.push(String::from_str(COMMANDS_STREAM_TOPIC));
        assert(subjects.deep_view() =~= seq![COMMANDS_STREAM_TOPIC@]);
        StreamSettings {
            name: String::from_str(COMMANDS_STREAM_NAME),
            description: String::from_str(COMMANDS_STREAM_DESCRIPTION),
            num_replicas: 1,
            retention: RetentionPolicy::WorkQueue,
            subjects,
            storage: StorageType::File,
            allow_rollup: false,
        }
    }

    /// The two streams that must exist, events first.
    pub fn ensure_streams(&self) -> (r: (StreamSettings, StreamSettings))
        ensures
            r.0@ == events_stream(),
            r.1@ == commands_stream(),
    {
        (self.events_stream_settings(), self.commands_stream_settings())
    }

    /// What to create on start-up, given which of the three resources are
    /// there already. What is there is left as it is.
    pub fn provisioning_plan(
        &self,
        events_present: bool,
        commands_present: bool,
        bucket_present: bool,
    ) -> (r: Vec<Provision>)
        ensures
            provision_views(r@) == missing_resources(
                events_present,
                commands_present,
                bucket_present,
            ),
    {
        let mut plan: Vec<Provision> = Vec::new();
        assert(provision_views(plan@) =~= Seq::<ProvisionView>::empty());
        if !events_present {
            let ghost before = provision_views(plan@);
            let p = Provision::Stream(self.events_stream_settings());
            plan.push(p);
            assert(provision_views(plan@) =~= before.push(p@));
        }
        if !commands_present {
            let ghost before = provision_views(plan@);
            let p = Provision::Stream(self.commands_stream_settings());
            plan.push(p);
            assert(provision_views(plan@) =~= before.push(p@));
        }
        if !bucket_present {
            let ghost before = provision_views(plan@);
            let p = Provision::Bucket(EntityState::new_from_context().bucket_settings());
            plan.push(p);
            assert(provision_views(plan@) =~= before.push(p@));
        }
        assert(provision_views(plan@) =~= missing_resources(
            events_present,
            commands_present,
            bucket_present,
        ));
        plan
    }
}

/// Provisioning twice creates nothing the second time.
pub proof fn provisioning_is_idempotent()
    ensures
        missing_resources(true, true, true) == Seq::<ProvisionView>::empty(),
{
    assert(missing_resources(true, true, true) =~= Seq::<ProvisionView>::empty());
}

/// What a message is answered with.
#[derive(Debug, Clone, Copy, PartialEq, Eq, Structural)]
pub enum AckRequest {
    /// Nothing is sent: the message was answered before.
    Nothing,
    /// A positive acknowledgement whose receipt the server confirms.
    DoubleAck,
    /// A negative acknowledgement without a delay, so that the message may
    /// be delivered again at once.
    Nak,
}

/// What follows one attempt to acknowledge.
#[derive(Debug, Clone, Copy, PartialEq, Eq, Structural)]
pub enum AckStep {
    /// The server confirmed.
    Confirmed,
    /// The last attempt failed too: the acknowledgement is given up.
    GivenUp,
    /// Wait, then try again.
    RetryAfter { delay_ms: u64, attempt: u32 },
}

/// What follows the attempt number `attempt`, counted from one, to
/// acknowledge a message.
pub open spec fn ack_step_of(attempt: u32, confirmed: bool) -> AckStep {
    if confirmed {
        AckStep::Confirmed
    } else if attempt >= ACK_MAX_ATTEMPTS {
        AckStep::GivenUp
    } else {
        AckStep::RetryAfter { delay_ms: ACK_RETRY_DELAY_MS, attempt: (attempt + 1) as u32 }
    }
}

/// Decides what follows the attempt number `attempt`, counted from one, to
/// acknowledge a message: done where the server confirmed, another attempt
/// after a pause where it did not, up to three attempts in all.
pub fn after_ack_attempt(attempt: u32, confirmed: bool) -> (r: AckStep)
    ensures
        r == ack_step_of(attempt, confirmed),
{
    if confirmed {
        AckStep::Confirmed
    } else if attempt >= ACK_MAX_ATTEMPTS {
        AckStep::GivenUp
    } else {
        AckStep::RetryAfter { delay_ms: ACK_RETRY_DELAY_MS, attempt: attempt + 1 }
    }
}

/// The request that answering a message gives, and whether the message still
/// waits for an answer afterwards, by whether it did before.
pub open spec fn answer_of(open: bool, request: AckRequest) -> (AckRequest, bool) {
    if open {
        (request, false)
    } else {
        (AckRequest::Nothing, false)
    }
}

/// A fetched message together with what was decoded from it. The message
/// is answered at most once: positively, negatively, or negatively when it
/// goes out of scope unanswered.
#[derive(Debug)]
pub struct AckableMessage<T> {
    inner: T,
    unanswered: bool,
}

impl<T> AckableMessage<T> {
    /// Whether the message still waits for its answer.
    pub closed spec fn is_open(&self) -> bool {
        self.unanswered
    }

    /// What was decoded from the message.
    pub closed spec fn contents(&self) -> T {
        self.inner
    }

    /// Wraps what was decoded from a message that was just fetched.
    pub fn new(inner: T) -> (r: Self)
        ensures
            r.is_open(),
            r.contents() == inner,
    {
        AckableMessage { inner, unanswered: true }
    }

    /// Whether the message still waits for its answer.
    pub fn pending(&self) -> (r: bool)
        ensures
            r == self.is_open(),
    {
        self.unanswered
    }

    /// Answers the message positively. To be called when all work on it is
    /// done. A message that was answered before is left alone.
    pub fn ack(&mut self) -> (r: AckRequest)
        ensures
            (r, final(self).is_open()) == answer_of(old(self).is_open(), AckRequest::DoubleAck),
            final(self).contents() == old(self).contents(),
    {
        if self.unanswered {
            self.unanswered = false;
            AckRequest::DoubleAck
        } else {
            AckRequest::Nothing
        }
    }

    /// Answers the message negatively. A message that was answered before
    /// is left alone.
    pub fn nack(&mut self) -> (r: AckRequest)
        ensures
            (r, final(self).is_open()) == answer_of(old(self).is_open(), AckRequest::Nak),
            final(self).contents() == old(self).contents(),
    {
        if self.unanswered {
            self.unanswered = false;
            AckRequest::Nak
        } else {
            AckRequest::Nothing
        }
    }

    /// What to send when the message goes out of scope: a negative
    /// acknowledgement where it was never answered, so that the bus delivers
    /// it again.
    pub fn release(&mut self) -> (r: AckRequest)
        ensures
            (r, final(self).is_open()) == answer_of(old(self).is_open(), AckRequest::Nak),
            final(self).contents() == old(self).contents(),
    {
        self.nack()
    }

    /// What was decoded from the message.
    pub fn as_ref(&self) -> (r: &T)
        ensures
            *r == self.contents(),
    {
        &self.inner
    }

    /// What was decoded from the message, to be changed in place. Whether
    /// the message still waits for its answer is not touched.
    pub fn as_mut(&mut self) -> (r: &mut T)
        ensures
            *r == old(self).contents(),
            final(self).contents() == *final(r),
            final(self).is_open() == old(self).is_open(),
    {
        &mut self.inner
    }

    /// Gives up the wrapper for what it holds.
    pub fn into_inner(self) -> (r: T)
        ensures
            r == self.contents(),
    {
        self.inner
    }
}

/// Whatever a message is answered with first, every later answer sends
/// nothing and changes nothing.
pub proof fn second_answer_is_noop(open: bool, first: AckRequest, second: AckRequest)
    ensures
        answer_of(answer_of(open, first).1, second) == (AckRequest::Nothing, answer_of(open, first).1),
{
}

} // verus!
