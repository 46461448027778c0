//! The envelope codec: how an internal event is wrapped for the bus and
//! unwrapped again, the topics on which events and commands travel, and the
//! command record as it is pulled off the bus.

use vstd::prelude::*;
use vstd::string::*;
use crate::eventsourcing::Event;
use crate::eventsourcing::EventView;
use crate::json::append_bytes;
use crate::json::canonical;
use crate::json::json_canonical;
use crate::json::json_member;
use crate::json::json_quoted;
use crate::json::member;
use crate::json::member_text;
use crate::json::quote;
use crate::json::string_member;
use crate::json::utf8;
use crate::json::opt_text;
use crate::text::join2;
use crate::text::snake_case;
use crate::text::to_snake;

verus! {

/// The prefix of the topics that carry events.
pub const EVENT_TOPIC_PREFIX: &'static str = "cc.events";

/// The prefix of the topics that carry commands.
pub const COMMAND_TOPIC_PREFIX: &'static str = "cc.commands";

/// The envelope extension that names the aggregate owning the event.
pub const EXT_CONCORDANCE_STREAM: &'static str = "x-concordance-stream";

/// The source that the runtime writes into every envelope.
pub const ENVELOPE_SOURCE: &'static str = "concordance";

/// The content type of the data that the runtime puts into an envelope.
pub const JSON_CONTENT_TYPE: &'static str = "application/json";

/// The topic on which an event of the given type is published: the type
/// goes there in snake case.
pub open spec fn event_topic_of(event_type: Seq<char>) -> Seq<char> {
    EVENT_TOPIC_PREFIX@ + "."@ + snake_case(event_type)
}

/// The topic on which commands for the given aggregate are published.
pub open spec fn command_topic_of(stream: Seq<char>) -> Seq<char> {
    COMMAND_TOPIC_PREFIX@ + "."@ + stream
}

/// The topic on which an event of type `event_type` is published.
pub fn event_topic(event_type: &str) -> (r: String)
    ensures
        r@ == event_topic_of(event_type@),
{
    let mut topic = join2(EVENT_TOPIC_PREFIX, ".");
    topic.append(to_snake(event_type).as_str());
    topic
}

/// The topic on which commands for the aggregate `stream` are published.
pub fn command_topic(stream: &str) -> (r: String)
    ensures
        r@ == command_topic_of(stream@),
{
    let mut topic = join2(COMMAND_TOPIC_PREFIX, ".");
    topic.append(stream);
    topic
}

/// A command as it travels on the bus.
#[derive(Debug, PartialEq, Eq)]
pub struct RawCommand {
    pub command_type: String,
    /// The instance of the aggregate that the command is for.
    pub key: String,
    /// The command's data, a JSON document.
    pub data: Vec<u8>,
}

/// A [`RawCommand`], as characters and bytes.
pub struct RawCommandView {
    pub command_type: Seq<char>,
    pub key: Seq<char>,
    pub data: Seq<u8>,
}

impl View for RawCommand {
    type V = RawCommandView;

    open spec fn view(&self) -> RawCommandView {
        RawCommandView { command_type: self.command_type@, key: self.key@, data: self.data@ }
    }
}

impl Clone for RawCommand {
    fn clone(&self) -> (r: Self)
        ensures
            r@ == self@,
    {
        RawCommand {
            command_type: self.command_type.clone(),
            key: self.key.clone(),
            data: self.data.clone(),
        }
    }
}

/// The JSON text that stands for no data.
pub const JSON_NULL: &'static str = "null";

/// The data of a command as it goes onto the bus: in compact form, and
/// `null` where it is no JSON text.
pub open spec fn command_data_of(data: Seq<u8>) -> Seq<u8> {
    match json_canonical(data) {
        Some(doc) => doc,
        None => utf8(JSON_NULL@),
    }
}

/// A command on the wire: a JSON object with the members `command_type`,
/// `key` and `data`, in that order and in compact form.
pub open spec fn command_wire(command: RawCommandView) -> Seq<u8> {
    utf8("{\"command_type\":"@) + json_quoted(command.command_type) + utf8(",\"key\":"@)
        + json_quoted(command.key) + utf8(",\"data\":"@) + command_data_of(command.data) + utf8(
        "}"@,
    )
}

/// The command that the bytes `doc` stand for: a JSON object whose members
/// `command_type` and `key` are strings and which has a member `data`.
pub open spec fn command_of_wire(doc: Seq<u8>) -> Option<RawCommandView> {
    match (
        member_text(doc, "command_type"@),
        member_text(doc, "key"@),
        json_member(doc, "data"@),
    ) {
        (Some(command_type), Some(key), Some(data)) => Some(
            RawCommandView { command_type, key, data },
        ),
        _ => None,
    }
}

/// The view of an optional command.
pub open spec fn opt_command(c: Option<RawCommand>) -> Option<RawCommandView> {
    match c {
        Some(c) => Some(c@),
        None => None,
    }
}

/// The data of a command as it goes onto the bus.
pub fn command_data(data: &[u8]) -> (r: Vec<u8>)
    ensures
        r@ == command_data_of(data@),
{
    match canonical(data) {
        Some(doc) => doc,
        None => {
            let mut out: Vec<u8> = Vec::new();
            append_bytes(&mut out, JSON_NULL.as_bytes());
            assert(out@ =~= utf8(JSON_NULL@));
            out
        },
    }
}

impl RawCommand {
    /// Writes the command as it travels on the bus.
    pub fn encode(&self) -> (r: Vec<u8>)
        ensures
            r@ == command_wire(self@),
    {
        let mut out: Vec<u8> = Vec::new();
        append_bytes(&mut out, "{\"command_type\":".as_bytes());
        append_bytes(&mut out, quote(self.command_type.as_str()).as_slice());
        append_bytes(&mut out, ",\"key\":".as_bytes());
        append_bytes(&mut out, quote(self.key.as_str()).as_slice());
        append_bytes(&mut out, ",\"data\":".as_bytes());
        append_bytes(&mut out, command_data(self.data.as_slice()).as_slice());
        append_bytes(&mut out, "}".as_bytes());
        assert(out@ =~= command_wire(self@));
        out
    }

    /// Reads a command from the bytes of a message, or `None` where they do
    /// not hold one.
    pub fn decode(doc: &[u8]) -> (r: Option<RawCommand>)
        ensures
            opt_command(r) == command_of_wire(doc@),
    {
        let command_type = match string_member(doc, "command_type") {
            Some(command_type) => command_type,
            None => { return None; },
        };
        let key = match string_member(doc, "key") {
            Some(key) => key,
            None => { return None; },
        };
        match member(doc, "data") {
            Some(data) => Some(RawCommand { command_type, key, data }),
            None => None,
        }
    }
}

/// What an envelope carries as its data.
#[derive(Debug, PartialEq, Eq)]
pub enum EnvelopeData {
    /// A JSON value, held as its compact text.
    Json(Vec<u8>),
    /// Bytes that are not JSON.
    Binary(Vec<u8>),
    /// Text that is not JSON.
    Text(String),
}

/// An [`EnvelopeData`], as characters and bytes.
pub enum EnvelopeDataView {
    Json(Seq<u8>),
    Binary(Seq<u8>),
    Text(Seq<char>),
}

impl View for EnvelopeData {
    type V = EnvelopeDataView;

    open spec fn view(&self) -> EnvelopeDataView {
        match self {
            EnvelopeData::Json(doc) => EnvelopeDataView::Json(doc@),
            EnvelopeData::Binary(bytes) => EnvelopeDataView::Binary(bytes@),
            EnvelopeData::Text(text) => EnvelopeDataView::Text(text@),
        }
    }
}

/// The view of optional envelope data.
pub open spec fn opt_data(data: Option<EnvelopeData>) -> Option<EnvelopeDataView> {
    match data {
        Some(d) => Some(d@),
        None => None,
    }
}

impl Clone for EnvelopeData {
    fn clone(&self) -> (r: Self)
        ensures
            r@ == self@,
    {
        match self {
            EnvelopeData::Json(doc) => EnvelopeData::Json(doc.clone()),
            EnvelopeData::Binary(bytes) => EnvelopeData::Binary(bytes.clone()),
            EnvelopeData::Text(text) => EnvelopeData::Text(text.clone()),
        }
    }
}

/// An event as it travels on the bus: the attributes of the structured
/// envelope that the runtime reads or writes, the one extension that it
/// adds, and the data.
#[derive(Debug, PartialEq, Eq)]
pub struct BusEnvelope {
    pub id: String,
    /// The type of the event.
    pub ty: String,
    pub source: String,
    /// When the envelope was made, as text.
    pub time: Option<String>,
    pub datacontenttype: Option<String>,
    /// The aggregate that owns the event, where the envelope names one.
    pub stream: Option<String>,
    pub data: Option<EnvelopeData>,
}

/// A [`BusEnvelope`], as characters and bytes.
pub struct BusEnvelopeView {
    pub id: Seq<char>,
    pub ty: Seq<char>,
    pub source: Seq<char>,
    pub time: Option<Seq<char>>,
    pub datacontenttype: Option<Seq<char>>,
    pub stream: Option<Seq<char>>,
    pub data: Option<EnvelopeDataView>,
}

impl View for BusEnvelope {
    type V = BusEnvelopeView;

    open spec fn view(&self) -> BusEnvelopeView {
        BusEnvelopeView {
            id: self.id@,
            ty: self.ty@,
            source: self.source@,
            time: opt_text(self.time),
            datacontenttype: opt_text(self.datacontenttype),
            stream: opt_text(self.stream),
            data: opt_data(self.data),
        }
    }
}

impl Clone for BusEnvelope {
    fn clone(&self) -> (r: Self)
        ensures
            r@ == self@,
    {
        let data = match &self.data {
            Some(d) => Some(d.clone()),
            None => None,
        };
        BusEnvelope {
            id: self.id.clone(),
            ty: self.ty.clone(),
            source: self.source.clone(),
            time: self.time.clone(),
            datacontenttype: self.datacontenttype.clone(),
            stream: self.stream.clone(),
            data,
        }
    }
}

/// The envelope that wraps `event`, given the identifier and the time to
/// write into it. The payload goes under the data as a JSON value; a payload
/// that is no JSON text leaves the envelope without data.
pub open spec fn envelope_of(event: EventView, id: Seq<char>, time: Seq<char>) -> BusEnvelopeView {
    BusEnvelopeView {
        id,
        ty: event.event_type,
        source: ENVELOPE_SOURCE@,
        time: Some(time),
        datacontenttype: match json_canonical(event.payload) {
            Some(_) => Some(JSON_CONTENT_TYPE@),
            None => None,
        },
        stream: Some(event.stream),
        data: match json_canonical(event.payload) {
            Some(doc) => Some(EnvelopeDataView::Json(doc)),
            None => None,
        },
    }
}

/// The internal event that an envelope stands for: its type, the stream
/// that its extension names (empty where there is none) and its JSON data as
/// bytes (empty where the data is missing or not JSON).
pub open spec fn event_of(envelope: BusEnvelopeView) -> EventView {
    EventView {
        event_type: envelope.ty,
        payload: match envelope.data {
            Some(EnvelopeDataView::Json(doc)) => doc,
            _ => Seq::empty(),
        },
        stream: match envelope.stream {
            Some(stream) => stream,
            None => Seq::empty(),
        },
    }
}

/// An envelope whose type is put in snake case.
pub open spec fn sanitized_envelope(envelope: BusEnvelopeView) -> BusEnvelopeView {
    BusEnvelopeView { ty: snake_case(envelope.ty), ..envelope }
}

/// A command whose type is put in snake case.
pub open spec fn sanitized_command(command: RawCommandView) -> RawCommandView {
    RawCommandView { command_type: snake_case(command.command_type), ..command }
}

/// Calls `uuid::Uuid::new_v4` and writes the identifier out with its
/// `Display` form. Every call gives another identifier, so nothing is
/// promised of the text.
#[verifier::external_body]
pub(crate) fn fresh_event_id() -> (r: String) {
    uuid::Uuid::new_v4().to_string()
}

/// Calls `chrono::Utc::now` and writes the instant out with
/// `DateTime::to_rfc3339`. The result depends on the clock, so nothing is
/// promised of the text.
#[verifier::external_body]
pub(crate) fn current_time() -> (r: String) {
    chrono::Utc::now().to_rfc3339()
}

/// Wraps `event` into an envelope that bears the given identifier and time.
pub fn envelope_with(event: &Event, id: String, time: String) -> (r: BusEnvelope)
    ensures
        r@ == envelope_of(event@, id@, time@),
{
    let doc = canonical(event.payload.as_slice());
    let (datacontenttype, data) = match doc {
        Some(doc) => (Some(String::from_str(JSON_CONTENT_TYPE)), Some(EnvelopeData::Json(doc))),
        None => (None, None),
    };
    BusEnvelope {
        id,
        ty: event.event_type.clone(),
        source: String::from_str(ENVELOPE_SOURCE),
        time: Some(time),
        datacontenttype,
        stream: Some(event.stream.clone()),
        data,
    }
}

/// Wraps `event` into an envelope with a fresh identifier and the current
/// time. Everything else in the envelope is determined by the event.
pub fn internal_to_bus(event: &Event) -> (r: BusEnvelope)
    ensures
        r@.time is Some,
        r@ == envelope_of(event@, r@.id, r@.time->0),
{
    let id = fresh_event_id();
    let time = current_time();
    envelope_with(event, id, time)
}

/// Unwraps the internal event that an envelope stands for.
pub fn bus_to_internal(envelope: &BusEnvelope) -> (r: Event)
    ensures
        r@ == event_of(envelope@),
{
    let payload = match &envelope.data {
        Some(EnvelopeData::Json(doc)) => doc.clone(),
        _ => Vec::new(),
    };
    let stream = match &envelope.stream {
        Some(stream) => stream.clone(),
        None => String::new(),
    };
    Event { event_type: envelope.ty.clone(), payload, stream }
}

/// Puts the type of an envelope in snake case, as is done with every
/// envelope that comes in before it is handed to a worker.
pub fn sanitize_envelope(envelope: BusEnvelope) -> (r: BusEnvelope)
    ensures
        r@ == sanitized_envelope(envelope@),
{
    let ty = to_snake(envelope.ty.as_str());
    BusEnvelope {
        id: envelope.id,
        ty,
        source: envelope.source,
        time: envelope.time,
        datacontenttype: envelope.datacontenttype,
        stream: envelope.stream,
        data: envelope.data,
    }
}

/// Puts the type of a command in snake case, as is done with every command
/// that comes in before it is handed to a worker.
pub fn sanitize_command(command: RawCommand) -> (r: RawCommand)
    ensures
        r@ == sanitized_command(command@),
{
    let command_type = to_snake(command.command_type.as_str());
    RawCommand { command_type, key: command.key, data: command.data }
}

/// Wrapping an event and unwrapping it again gives the event back, whatever
/// identifier and time the envelope got, provided that the payload is a JSON
/// text in compact form. Another payload comes back in compact form, or
/// empty where it was no JSON text at all.
pub proof fn envelope_round_trip(event: EventView, id: Seq<char>, time: Seq<char>)
    requires
        json_canonical(event.payload) == Some(event.payload),
    ensures
        event_of(envelope_of(event, id, time)) == event,
{
}

/// Unwrapping the envelope of any event keeps its type and its stream, and
/// gives the payload's compact form, or nothing where it has none.
pub proof fn envelope_keeps_type_and_stream(event: EventView, id: Seq<char>, time: Seq<char>)
    ensures
        event_of(envelope_of(event, id, time)).event_type == event.event_type,
        event_of(envelope_of(event, id, time)).stream == event.stream,
        event_of(envelope_of(event, id, time)).payload == match json_canonical(event.payload) {
            Some(doc) => doc,
            None => Seq::empty(),
        },
{
}

/// An envelope or a command whose type was put in snake case is left as it
/// is when that is done again.
pub proof fn sanitizing_is_idempotent(envelope: BusEnvelopeView, command: RawCommandView)
    ensures
        sanitized_envelope(sanitized_envelope(envelope)) == sanitized_envelope(envelope),
        sanitized_command(sanitized_command(command)) == sanitized_command(command),
{
    crate::text::snake_case_is_idempotent(envelope.ty);
    crate::text::snake_case_is_idempotent(command.command_type);
}

} // verus!
