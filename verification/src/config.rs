//! The interest registry: what a participant declares when it is bound, and
//! how a binding is read into interest declarations.

use vstd::prelude::*;
use vstd::string::*;
use crate::eventsourcing::Event;
use crate::json::base64_url_decoded;
use crate::json::decode_base64_url;
use crate::json::member_text;
use crate::json::member_texts;
use crate::json::string_list_member;
use crate::json::string_member;
use crate::assoc::lookup;
use crate::assoc::put;
use crate::link::LinkDefinition;
use crate::link::LinkDefinitionView;
use crate::link::LinkValues;
use crate::link::Setting;
use crate::text::contains_text;
use crate::text::join2;
use crate::text::lowercase;
use crate::text::parse_count;
use crate::text::parsed_count;
use crate::text::same_text;
use crate::text::snake_all;
use crate::text::snake_case;
use crate::text::snake_list;
use crate::text::to_lowercase;
use crate::text::to_snake;
use crate::text::to_snake_list;
use crate::text::trim;
use crate::text::trimmed;

verus! {

/// The setting that names the participant's role.
pub const ROLE_KEY: &'static str = "role";

/// The setting that holds the participant's interest.
pub const INTEREST_KEY: &'static str = "interest";

/// The setting that names the entity.
pub const ENTITY_NAME_KEY: &'static str = "name";

/// The setting that names the payload field holding the state key.
pub const KEY_FIELD_KEY: &'static str = "key";

/// The setting that bounds the size of a fetch.
pub const MAX_MESSAGES_PER_BATCH_KEY: &'static str = "max_messages_per_batch";

/// The setting that holds the whole configuration as base64 of JSON.
pub const CONFIG_B64_KEY: &'static str = "config_b64";

/// The member of the JSON configuration that names the key field.
pub const KEY_FIELD_MEMBER: &'static str = "key_field";

pub const ROLE_AGGREGATE: &'static str = "aggregate";

pub const ROLE_PROJECTOR: &'static str = "projector";

pub const ROLE_PROCESS_MANAGER: &'static str = "process_manager";

pub const ROLE_NOTIFIER: &'static str = "notifier";

/// The fetch size used where a binding sets none, or one that is no number.
pub const DEFAULT_BATCH_MAX: usize = 200;

/// The error for a binding whose role is none of the four.
pub const UNKNOWN_ROLE_ERROR: &'static str = "Unknown declared role for actor. Aborting link set.";

/// How the error for a binding without the required settings begins; the
/// participant's identifier follows.
pub const UNPARSABLE_LINK_ERROR: &'static str =
    "Failed to parse valid interest declaration from link definition: ";

/// The error for a process manager whose interest is no lifetime document.
pub const BAD_LIFETIME_ERROR: &'static str =
    "serialization: interest is not a process manager lifetime";

/// The error for a configuration that gives only one of token and seed.
pub const CREDENTIALS_ERROR: &'static str = "must provide both jwt and seed for jwt authentication";

/// The bus address used where the host gives none.
pub const DEFAULT_NATS_URL: &'static str = "127.0.0.1:4222";

/// What kind of participant a binding declares.
#[derive(Debug, Clone, Copy, PartialEq, Eq, Hash, Structural)]
pub enum ActorRole {
    Aggregate,
    Projector,
    ProcessManager,
    Notifier,
    Unknown,
}

/// The role that bears the name `n`, a name that is trimmed and in lower
/// case already: one of the four role names, or else no known role.
pub open spec fn role_named(n: Seq<char>) -> ActorRole {
    if n == ROLE_AGGREGATE@ {
        ActorRole::Aggregate
    } else if n == ROLE_NOTIFIER@ {
        ActorRole::Notifier
    } else if n == ROLE_PROCESS_MANAGER@ {
        ActorRole::ProcessManager
    } else if n == ROLE_PROJECTOR@ {
        ActorRole::Projector
    } else {
        ActorRole::Unknown
    }
}

/// The role that the text `name` declares: trimmed and lower-cased, it must
/// be one of the four role names.
pub open spec fn role_of(name: Seq<char>) -> ActorRole {
    role_named(lowercase(trimmed(name)))
}

/// How a role is written in messages for people.
pub open spec fn role_label(role: ActorRole) -> Seq<char> {
    match role {
        ActorRole::Aggregate => "aggregate"@,
        ActorRole::Projector => "projector"@,
        ActorRole::ProcessManager => "process manager"@,
        ActorRole::Notifier => "notifier"@,
        ActorRole::Unknown => "unknown"@,
    }
}

impl ActorRole {
    /// Reads a role from the text of a binding. Case and surrounding white
    /// space do not matter; anything but the four role names is `Unknown`.
    pub fn from_name(source: &str) -> (r: ActorRole)
        ensures
            r == role_of(source@),
    {
        let t = trim(source);
        let n = to_lowercase(t.as_str());
        ActorRole::from_normalized_name(n.as_str())
    }

    /// The role that bears the name `name`, which must be written exactly as
    /// the role is: `aggregate`, `notifier`, `process_manager` or
    /// `projector`. Anything else is `Unknown`.
    pub fn from_normalized_name(name: &str) -> (r: ActorRole)
        ensures
            r == role_named(name@),
    {
        if same_text(name, ROLE_AGGREGATE) {
            ActorRole::Aggregate
        } else if same_text(name, ROLE_NOTIFIER) {
            ActorRole::Notifier
        } else if same_text(name, ROLE_PROCESS_MANAGER) {
            ActorRole::ProcessManager
        } else if same_text(name, ROLE_PROJECTOR) {
            ActorRole::Projector
        } else {
            ActorRole::Unknown
        }
    }

    /// The role in words.
    pub fn to_string(&self) -> (r: String)
        ensures
            r@ == role_label(*self),
    {
        match self {
            ActorRole::Aggregate => String::from_str("aggregate"),
            ActorRole::Projector => String::from_str("projector"),
            ActorRole::ProcessManager => String::from_str("process manager"),
            ActorRole::Notifier => String::from_str("notifier"),
            ActorRole::Unknown => String::from_str("unknown"),
        }
    }
}

impl From<String> for ActorRole {
    fn from(source: String) -> (r: ActorRole) {
        ActorRole::from_name(source.as_str())
    }
}

impl vstd::std_specs::convert::FromSpecImpl<String> for ActorRole {
    open spec fn obeys_from_spec() -> bool {
        true
    }

    open spec fn from_spec(source: String) -> ActorRole {
        role_of(source@)
    }
}

/// Which of the two streams a declaration reads from.
#[derive(Debug, Clone, Copy, PartialEq, Eq, Hash, Structural)]
pub enum InterestConstraint {
    Commands,
    Events,
}

/// How a constraint is written in messages for people.
pub open spec fn constraint_label(constraint: InterestConstraint) -> Seq<char> {
    match constraint {
        InterestConstraint::Commands => "commands"@,
        InterestConstraint::Events => "events"@,
    }
}

impl InterestConstraint {
    /// The constraint in words.
    pub fn to_string(&self) -> (r: String)
        ensures
            r@ == constraint_label(*self),
    {
        match self {
            InterestConstraint::Commands => String::from_str("commands"),
            InterestConstraint::Events => String::from_str("events"),
        }
    }
}

/// The life cycle of a long-running process: the event type that starts it,
/// those that advance it and those that stop it.
#[derive(Debug, PartialEq, Eq, Hash)]
pub struct ProcessManagerLifetime {
    pub start: String,
    pub advance: Vec<String>,
    pub stop: Vec<String>,
}

/// A [`ProcessManagerLifetime`], as characters.
pub struct LifetimeView {
    pub start: Seq<char>,
    pub advance: Seq<Seq<char>>,
    pub stop: Seq<Seq<char>>,
}

impl View for ProcessManagerLifetime {
    type V = LifetimeView;

    open spec fn view(&self) -> LifetimeView {
        LifetimeView {
            start: self.start@,
            advance: self.advance.deep_view(),
            stop: self.stop.deep_view(),
        }
    }
}

/// Whether an event of type `event_type` starts, advances or stops a process
/// with the lifetime `lifetime`. The type is compared in snake case.
pub open spec fn lifetime_matches(lifetime: LifetimeView, event_type: Seq<char>) -> bool {
    let target = snake_case(event_type);
    lifetime.start == target || lifetime.stop.contains(target) || lifetime.advance.contains(
        target,
    )
}

/// Whether an event of type `event_type` starts a process with the lifetime
/// `lifetime`.
pub open spec fn lifetime_starts(lifetime: LifetimeView, event_type: Seq<char>) -> bool {
    lifetime.start == snake_case(event_type)
}

impl Clone for ProcessManagerLifetime {
    fn clone(&self) -> (r: Self)
        ensures
            r@ == self@,
    {
        let advance = self.advance.clone();
        let stop = self.stop.clone();
        assert(advance.deep_view() =~= self.advance.deep_view());
        assert(stop.deep_view() =~= self.stop.deep_view());
        ProcessManagerLifetime { start: self.start.clone(), advance, stop }
    }
}

impl ProcessManagerLifetime {
    /// The lifetime that starts with events of type `start`, is advanced by
    /// those in `advance` and stopped by those in `stop`. The names are put
    /// in snake case; their order is kept.
    pub fn from_names(start: &str, advance: &Vec<String>, stop: &Vec<String>) -> (r: Self)
        ensures
            r@ == lifetime_of(start@, advance.deep_view(), stop.deep_view()),
    {
        ProcessManagerLifetime {
            start: to_snake(start),
            advance: snake_all(advance),
            stop: snake_all(stop),
        }
    }

    /// Whether the process wants to see events of type `event_type`.
    pub fn is_interested_in_event(&self, event_type: &str) -> (r: bool)
        ensures
            r == lifetime_matches(self@, event_type@),
    {
        let target = to_snake(event_type);
        same_text(self.start.as_str(), target.as_str()) || contains_text(
            &self.stop,
            target.as_str(),
        ) || contains_text(&self.advance, target.as_str())
    }

    /// Whether an event of type `event_type` starts a new process.
    pub fn event_starts_new_process(&self, event_type: &str) -> (r: bool)
        ensures
            r == lifetime_starts(self@, event_type@),
    {
        let target = to_snake(event_type);
        same_text(self.start.as_str(), target.as_str())
    }
}

/// What a participant wants to hear.
#[derive(Debug, PartialEq, Eq, Hash)]
pub enum ActorInterest {
    /// Every event of one aggregate's stream.
    AggregateStream(String),
    /// The events whose type is in the list.
    EventList(Vec<String>),
    /// The events of a process's lifetime.
    ProcessManager(ProcessManagerLifetime),
    /// Nothing: the participant only publishes.
    PublishOnly,
}

/// An [`ActorInterest`], as characters.
pub enum InterestView {
    AggregateStream(Seq<char>),
    EventList(Seq<Seq<char>>),
    ProcessManager(LifetimeView),
    PublishOnly,
}

impl View for ActorInterest {
    type V = InterestView;

    open spec fn view(&self) -> InterestView {
        match self {
            ActorInterest::AggregateStream(s) => InterestView::AggregateStream(s@),
            ActorInterest::EventList(list) => InterestView::EventList(list.deep_view()),
            ActorInterest::ProcessManager(lifetime) => InterestView::ProcessManager(lifetime@),
            ActorInterest::PublishOnly => InterestView::PublishOnly,
        }
    }
}

/// Whether an interest covers an event of type `event_type` on the stream
/// `stream`: an aggregate goes by the stream, a list by the type as it is
/// written, a lifetime by the type in snake case.
pub open spec fn interest_matches(
    interest: InterestView,
    event_type: Seq<char>,
    stream: Seq<char>,
) -> bool {
    match interest {
        InterestView::AggregateStream(s) => stream == s,
        InterestView::EventList(list) => list.contains(event_type),
        InterestView::ProcessManager(lifetime) => lifetime_matches(lifetime, event_type),
        InterestView::PublishOnly => false,
    }
}

/// The lifetime with the given event types, every name put in snake case.
pub open spec fn lifetime_of(
    start: Seq<char>,
    advance: Seq<Seq<char>>,
    stop: Seq<Seq<char>>,
) -> LifetimeView {
    LifetimeView {
        start: snake_case(start),
        advance: advance.map_values(|name: Seq<char>| snake_case(name)),
        stop: stop.map_values(|name: Seq<char>| snake_case(name)),
    }
}

/// The lifetime that the JSON object `doc` describes: a string `start` and
/// two arrays of strings, `advance` and `stop`, every name put in snake
/// case. `None` where a member is missing or of another shape.
pub open spec fn parsed_lifetime(doc: Seq<u8>) -> Option<LifetimeView> {
    match (member_text(doc, "start"@), member_texts(doc, "advance"@), member_texts(doc, "stop"@)) {
        (Some(start), Some(advance), Some(stop)) => Some(lifetime_of(start, advance, stop)),
        _ => None,
    }
}

/// The interest that the text `input` declares for a participant of the
/// given role, or the error that rejects it.
pub open spec fn interest_of(input: Seq<char>, role: ActorRole) -> Result<InterestView, Seq<char>> {
    match role {
        ActorRole::Aggregate => Ok(InterestView::AggregateStream(snake_case(input))),
        ActorRole::Notifier | ActorRole::Projector => Ok(InterestView::EventList(snake_list(input))),
        ActorRole::ProcessManager => match parsed_lifetime(vstd::utf8::encode_utf8(input)) {
            Some(lifetime) => Ok(InterestView::ProcessManager(lifetime)),
            None => Err(BAD_LIFETIME_ERROR@),
        },
        ActorRole::Unknown => Ok(InterestView::PublishOnly),
    }
}

/// The view of a parsed interest, or the error as characters.
pub open spec fn interest_result_view(r: Result<ActorInterest, String>) -> Result<
    InterestView,
    Seq<char>,
> {
    match r {
        Ok(interest) => Ok(interest@),
        Err(e) => Err(e@),
    }
}

/// Reads the lifetime of a process manager from a JSON object.
pub fn parse_process_manager_interest(input: &str) -> (r: Option<ProcessManagerLifetime>)
    ensures
        match r {
            Some(lifetime) => parsed_lifetime(vstd::utf8::encode_utf8(input@)) == Some(lifetime@),
            None => parsed_lifetime(vstd::utf8::encode_utf8(input@)) is None,
        },
{
    let doc = input.as_bytes();
    let start = match string_member(doc, "start") {
        Some(start) => start,
        None => { return None; },
    };
    let advance = match string_list_member(doc, "advance") {
        Some(advance) => advance,
        None => { return None; },
    };
    let stop = match string_list_member(doc, "stop") {
        Some(stop) => stop,
        None => { return None; },
    };
    Some(ProcessManagerLifetime::from_names(start.as_str(), &advance, &stop))
}

impl Clone for ActorInterest {
    fn clone(&self) -> (r: Self)
        ensures
            r@ == self@,
    {
        match self {
            ActorInterest::AggregateStream(s) => ActorInterest::AggregateStream(s.clone()),
            ActorInterest::EventList(list) => {
                let copy = list.clone();
                assert(copy.deep_view() =~= list.deep_view());
                ActorInterest::EventList(copy)
            },
            ActorInterest::ProcessManager(lifetime) => ActorInterest::ProcessManager(
                lifetime.clone(),
            ),
            ActorInterest::PublishOnly => ActorInterest::PublishOnly,
        }
    }
}

impl ActorInterest {
    /// Reads the interest that a binding declares. What the text means
    /// depends on the role: a stream name for an aggregate, a
    /// comma-separated list of event types for a projector or a notifier, a
    /// JSON lifetime for a process manager. Only the last can fail.
    pub fn from_role_interest(input: &str, role: &ActorRole) -> (r: Result<ActorInterest, String>)
        ensures
            interest_result_view(r) == interest_of(input@, *role),
    {
        match role {
            ActorRole::Aggregate => Ok(ActorInterest::AggregateStream(to_snake(input))),
            ActorRole::Notifier | ActorRole::Projector => Ok(
                ActorInterest::EventList(to_snake_list(input)),
            ),
            ActorRole::ProcessManager => match parse_process_manager_interest(input) {
                Some(lifetime) => Ok(ActorInterest::ProcessManager(lifetime)),
                None => Err(String::from_str(BAD_LIFETIME_ERROR)),
            },
            ActorRole::Unknown => Ok(ActorInterest::PublishOnly),
        }
    }

    /// Whether the interest covers an event of type `event_type` on the
    /// stream `stream`.
    pub fn is_interested_in_event(&self, event_type: &str, stream: &str) -> (r: bool)
        ensures
            r == interest_matches(self@, event_type@, stream@),
    {
        match self {
            ActorInterest::AggregateStream(s) => same_text(stream, s.as_str()),
            ActorInterest::EventList(list) => contains_text(list, event_type),
            ActorInterest::ProcessManager(lifetime) => lifetime.is_interested_in_event(event_type),
            ActorInterest::PublishOnly => false,
        }
    }

    /// Whether two interests are the same.
    pub fn same_as(&self, other: &ActorInterest) -> (r: bool)
        ensures
            r == (self@ == other@),
    {
        match (self, other) {
            (ActorInterest::AggregateStream(a), ActorInterest::AggregateStream(b)) => same_text(
                a.as_str(),
                b.as_str(),
            ),
            (ActorInterest::EventList(a), ActorInterest::EventList(b)) => same_list(a, b),
            (ActorInterest::ProcessManager(a), ActorInterest::ProcessManager(b)) => {
                same_text(a.start.as_str(), b.start.as_str()) && same_list(&a.advance, &b.advance)
                    && same_list(&a.stop, &b.stop)
            },
            (ActorInterest::PublishOnly, ActorInterest::PublishOnly) => true,
            _ => false,
        }
    }
}

/// Whether two lists hold the same texts in the same order.
pub fn same_list(a: &Vec<String>, b: &Vec<String>) -> (r: bool)
    ensures
        r == (a.deep_view() == b.deep_view()),
{
    if a.len() != b.len() {
        assert(a.deep_view().len() != b.deep_view().len());
        return false;
    }
    let mut i: usize = 0;
    while i < a.len()
        invariant
            i <= a.len(),
            a.len() == b.len(),
            forall|j: int| 0 <= j < i ==> a@[j]@ == b@[j]@,
        decreases a.len() - i,
    {
        if !same_text(a[i].as_str(), b[i].as_str()) {
            assert(a.deep_view()[i as int] != b.deep_view()[i as int]);
            return false;
        }
        i = i + 1;
    }
    assert(a.deep_view() =~= b.deep_view());
    true
}

/// How a key is normalised: lower-cased, and trimmed as well where `trim`
/// is set.
pub open spec fn key_form(key: Seq<char>, trim: bool) -> Seq<char> {
    if trim {
        trimmed(lowercase(key))
    } else {
        lowercase(key)
    }
}

/// The settings `entries` stored again under normalised keys, in order.
/// Where two keys normalise to the same text the later value stands.
pub open spec fn rekeyed(entries: Seq<Setting>, trim: bool) -> Seq<Setting>
    decreases entries.len(),
{
    if entries.len() == 0 {
        Seq::empty()
    } else {
        put(
            rekeyed(entries.drop_last(), trim),
            key_form(entries.last().0, trim),
            entries.last().1,
        )
    }
}

/// A binding whose settings are stored under lower-cased, trimmed keys.
pub open spec fn lowercased_link(ld: LinkDefinitionView) -> LinkDefinitionView {
    LinkDefinitionView { values: rekeyed(ld.values, true), ..ld }
}

/// Stores the settings again under normalised keys.
pub fn rekey(values: &LinkValues, trim_keys: bool) -> (r: LinkValues)
    ensures
        r@ == rekeyed(values@, trim_keys),
{
    let mut out = LinkValues::new();
    let mut i: usize = 0;
    assert(values@.take(0) =~= Seq::<Setting>::empty());
    while i < values.len()
        invariant
            i <= values@.len(),
            out@ == rekeyed(values@.take(i as int), trim_keys),
        decreases values@.len() - i,
    {
        proof {
            let next = values@.take(i + 1);
            assert(next.drop_last() =~= values@.take(i as int));
            assert(next.last() == values@[i as int]);
        }
        let lower = to_lowercase(values.key_at(i).as_str());
        let key = if trim_keys {
            trim(lower.as_str())
        } else {
            lower
        };
        out.insert(key, values.value_at(i).clone());
        i = i + 1;
    }
    assert(values@.take(i as int) =~= values@);
    out
}

/// Normalises the keys of a binding's settings, so that they can be found
/// whatever their case was.
pub fn lowercase_ld_keys(ld: LinkDefinition) -> (r: LinkDefinition)
    ensures
        r@ == lowercased_link(ld@),
{
    let values = rekey(&ld.values, true);
    LinkDefinition {
        actor_id: ld.actor_id,
        provider_id: ld.provider_id,
        link_name: ld.link_name,
        contract_id: ld.contract_id,
        values,
    }
}

/// The settings of a binding that the registry reads, before they are
/// interpreted.
#[derive(Debug, Clone)]
pub struct LinkConfigurationRaw {
    pub role: String,
    pub interest: String,
    pub name: String,
    pub key_field: String,
}

/// A [`LinkConfigurationRaw`], as characters.
pub struct RawConfigView {
    pub role: Seq<char>,
    pub interest: Seq<char>,
    pub name: Seq<char>,
    pub key_field: Seq<char>,
}

impl View for LinkConfigurationRaw {
    type V = RawConfigView;

    open spec fn view(&self) -> RawConfigView {
        RawConfigView {
            role: self.role@,
            interest: self.interest@,
            name: self.name@,
            key_field: self.key_field@,
        }
    }
}

/// The view of an optional raw configuration.
pub open spec fn opt_raw(r: Option<LinkConfigurationRaw>) -> Option<RawConfigView> {
    match r {
        Some(raw) => Some(raw@),
        None => None,
    }
}

/// The configuration that the JSON object `doc` holds: all four members
/// must be there, as strings.
pub open spec fn raw_from_json(doc: Seq<u8>) -> Option<RawConfigView> {
    match (
        member_text(doc, ROLE_KEY@),
        member_text(doc, INTEREST_KEY@),
        member_text(doc, ENTITY_NAME_KEY@),
        member_text(doc, KEY_FIELD_MEMBER@),
    ) {
        (Some(role), Some(interest), Some(name), Some(key_field)) => Some(
            RawConfigView { role, interest, name, key_field },
        ),
        _ => None,
    }
}

/// The configuration that the settings `values` hold, one key each: role,
/// interest and name are required, the key field may be missing. The role is
/// lower-cased.
pub open spec fn raw_from_settings(values: Seq<Setting>) -> Option<RawConfigView> {
    match (lookup(values, ROLE_KEY@), lookup(values, INTEREST_KEY@), lookup(values, ENTITY_NAME_KEY@)) {
        (Some(role), Some(interest), Some(name)) => Some(
            RawConfigView {
                role: lowercase(role),
                interest,
                name,
                key_field: match lookup(values, KEY_FIELD_KEY@) {
                    Some(key_field) => key_field,
                    None => Seq::empty(),
                },
            },
        ),
        _ => None,
    }
}

/// The configuration that a binding holds. Keys are read in lower case. A
/// `config_b64` setting, where there is one, decides alone: it must be
/// URL-safe base64 of a JSON configuration.
pub open spec fn raw_config(ld: LinkDefinitionView) -> Option<RawConfigView> {
    let values = rekeyed(ld.values, false);
    match lookup(values, CONFIG_B64_KEY@) {
        Some(b64) => match base64_url_decoded(b64) {
            Some(doc) => raw_from_json(doc),
            None => None,
        },
        None => raw_from_settings(values),
    }
}

impl LinkConfigurationRaw {
    /// Reads a configuration from a JSON object.
    pub fn from_json(doc: &[u8]) -> (r: Option<Self>)
        ensures
            opt_raw(r) == raw_from_json(doc@),
    {
        let role = match string_member(doc, ROLE_KEY) {
            Some(role) => role,
            None => { return None; },
        };
        let interest = match string_member(doc, INTEREST_KEY) {
            Some(interest) => interest,
            None => { return None; },
        };
        let name = match string_member(doc, ENTITY_NAME_KEY) {
            Some(name) => name,
            None => { return None; },
        };
        let key_field = match string_member(doc, KEY_FIELD_MEMBER) {
            Some(key_field) => key_field,
            None => { return None; },
        };
        Some(LinkConfigurationRaw { role, interest, name, key_field })
    }

    /// Reads the configuration that a binding holds, or `None` where a
    /// required setting is missing or the encoded configuration cannot be
    /// read.
    pub fn from_linkdef(ld: &LinkDefinition) -> (r: Option<Self>)
        ensures
            opt_raw(r) == raw_config(ld@),
    {
        let values = rekey(&ld.values, false);
        match values.get(CONFIG_B64_KEY) {
            Some(b64) => match decode_base64_url(b64.as_str()) {
                Some(doc) => LinkConfigurationRaw::from_json(doc.as_slice()),
                None => None,
            },
            None => {
                let role = match values.get(ROLE_KEY) {
                    Some(role) => to_lowercase(role.as_str()),
                    None => { return None; },
                };
                let interest = match values.get(INTEREST_KEY) {
                    Some(interest) => interest.clone(),
                    None => { return None; },
                };
                let name = match values.get(ENTITY_NAME_KEY) {
                    Some(name) => name.clone(),
                    None => { return None; },
                };
                let key_field = match values.get(KEY_FIELD_KEY) {
                    Some(key_field) => key_field.clone(),
                    None => String::new(),
                };
                Some(LinkConfigurationRaw { role, interest, name, key_field })
            },
        }
    }
}

/// What one participant wants to hear, and how to reach it. A declaration
/// stands for one durable consumer.
#[derive(Debug)]
pub struct InterestDeclaration {
    /// The participant, as the host identifies it.
    pub actor_id: String,
    /// The payload field that holds the key under which state is stored.
    pub key_field: String,
    /// The aggregate or handler name.
    pub entity_name: String,
    pub role: ActorRole,
    pub interest: ActorInterest,
    pub interest_constraint: InterestConstraint,
    /// The binding through which the participant is reached.
    pub link_definition: LinkDefinition,
}

/// An [`InterestDeclaration`], as characters.
pub struct DeclarationView {
    pub actor_id: Seq<char>,
    pub key_field: Seq<char>,
    pub entity_name: Seq<char>,
    pub role: ActorRole,
    pub interest: InterestView,
    pub interest_constraint: InterestConstraint,
    pub link_definition: LinkDefinitionView,
}

impl View for InterestDeclaration {
    type V = DeclarationView;

    open spec fn view(&self) -> DeclarationView {
        DeclarationView {
            actor_id: self.actor_id@,
            key_field: self.key_field@,
            entity_name: self.entity_name@,
            role: self.role,
            interest: self.interest@,
            interest_constraint: self.interest_constraint,
            link_definition: self.link_definition@,
        }
    }
}

/// The declaration of an aggregate for one of its two streams. Its interest
/// is the stream that bears its name.
pub open spec fn aggregate_declaration(
    actor_id: Seq<char>,
    entity_name: Seq<char>,
    key: Seq<char>,
    constraint: InterestConstraint,
    ld: LinkDefinitionView,
) -> DeclarationView {
    DeclarationView {
        actor_id,
        key_field: key,
        entity_name,
        role: ActorRole::Aggregate,
        interest: InterestView::AggregateStream(entity_name),
        interest_constraint: constraint,
        link_definition: ld,
    }
}

/// The declaration of a participant that reads events.
pub open spec fn event_declaration(
    actor_id: Seq<char>,
    entity_name: Seq<char>,
    role: ActorRole,
    key: Seq<char>,
    interest: InterestView,
    ld: LinkDefinitionView,
) -> DeclarationView {
    DeclarationView {
        actor_id,
        key_field: key,
        entity_name,
        role,
        interest,
        interest_constraint: InterestConstraint::Events,
        link_definition: ld,
    }
}

/// The name of the durable consumer that stands behind a declaration.
pub open spec fn consumer_name_of(
    role: ActorRole,
    constraint: InterestConstraint,
    entity_name: Seq<char>,
) -> Seq<char> {
    match role {
        ActorRole::Aggregate => if constraint == InterestConstraint::Commands {
            "AGG_CMD_"@ + entity_name
        } else {
            "AGG_EVT_"@ + entity_name
        },
        ActorRole::ProcessManager => "PM_"@ + entity_name,
        ActorRole::Notifier => "NOTIFIER_"@ + entity_name,
        ActorRole::Projector => "PROJ_"@ + entity_name,
        ActorRole::Unknown => Seq::empty(),
    }
}

/// The key under which state is stored for an event with the payload
/// `payload`: the text of the payload's member `key_field`, trimmed. It is
/// empty where no key field is configured, where the payload is no JSON
/// object, or where the member is missing or no string.
pub open spec fn key_value_of(key_field: Seq<char>, payload: Seq<u8>) -> Seq<char> {
    if key_field.len() == 0 {
        Seq::empty()
    } else {
        match member_text(payload, key_field) {
            Some(text) => trimmed(text),
            None => Seq::empty(),
        }
    }
}

/// The fetch size that the settings ask for, or the default where they ask
/// for none or for something that is no number.
pub open spec fn max_batch_of(values: Seq<Setting>) -> usize {
    match lookup(values, MAX_MESSAGES_PER_BATCH_KEY@) {
        Some(text) => match parsed_count(text) {
            Some(n) => n,
            None => DEFAULT_BATCH_MAX,
        },
        None => DEFAULT_BATCH_MAX,
    }
}

/// How a declaration is written in messages for people.
pub open spec fn declaration_label(decl: DeclarationView) -> Seq<char> {
    decl.entity_name + " ("@ + role_label(decl.role) + ") - source type: "@ + constraint_label(
        decl.interest_constraint,
    ) + ", target: "@ + decl.link_definition.actor_id
}

/// Whether two declarations stand for the same consumer: they agree on the
/// participant, the entity, the role, the interest and the constraint. The
/// key field and the binding do not count.
pub open spec fn same_consumer(a: DeclarationView, b: DeclarationView) -> bool {
    &&& a.actor_id == b.actor_id
    &&& a.entity_name == b.entity_name
    &&& a.role == b.role
    &&& a.interest == b.interest
    &&& a.interest_constraint == b.interest_constraint
}

/// The declaration that a binding gives a participant: who it is, which
/// entity it stands for and where the state key is found come from the
/// binding; the interest is what the binding's interest setting was read as.
pub open spec fn bound_declaration(
    source: LinkDefinitionView,
    raw: RawConfigView,
    role: ActorRole,
    interest: InterestView,
    constraint: InterestConstraint,
) -> DeclarationView {
    DeclarationView {
        actor_id: source.actor_id,
        key_field: raw.key_field,
        entity_name: raw.name,
        role,
        interest,
        interest_constraint: constraint,
        link_definition: source,
    }
}

/// The declarations that the settings `raw` of the binding `source` expand
/// to for a participant of the given role, or the error that rejects them.
/// The interest setting is read as the role asks: for an aggregate it names
/// the stream, in snake case. An aggregate gets two declarations, for
/// commands and for events in that order; every other role gets one, for
/// events.
pub open spec fn declarations_for(
    source: LinkDefinitionView,
    raw: RawConfigView,
    role: ActorRole,
) -> Result<Seq<DeclarationView>, Seq<char>> {
    match role {
        ActorRole::Unknown => Err(UNKNOWN_ROLE_ERROR@),
        _ => match interest_of(raw.interest, role) {
            Err(e) => Err(e),
            Ok(interest) => if role == ActorRole::Aggregate {
                Ok(
                    seq![
                        bound_declaration(
                            source,
                            raw,
                            role,
                            interest,
                            InterestConstraint::Commands,
                        ),
                        bound_declaration(source, raw, role, interest, InterestConstraint::Events),
                    ],
                )
            } else {
                Ok(
                    seq![
                        bound_declaration(source, raw, role, interest, InterestConstraint::Events),
                    ],
                )
            },
        },
    }
}

/// The declarations that a binding expands to, or the error that rejects it:
/// its keys are normalised, its settings read, its role read from them, and
/// the declarations made for that role.
pub open spec fn declarations_of(ld: LinkDefinitionView) -> Result<Seq<DeclarationView>, Seq<char>> {
    let source = lowercased_link(ld);
    match raw_config(source) {
        None => Err(UNPARSABLE_LINK_ERROR@ + source.actor_id),
        Some(raw) => declarations_for(source, raw, role_of(raw.role)),
    }
}

/// The views of a list of declarations, in order.
pub open spec fn declaration_views(decls: Seq<InterestDeclaration>) -> Seq<DeclarationView> {
    decls.map_values(|d: InterestDeclaration| d@)
}

/// The view of the outcome of reading a binding.
pub open spec fn declarations_result_view(r: Result<Vec<InterestDeclaration>, String>) -> Result<
    Seq<DeclarationView>,
    Seq<char>,
> {
    match r {
        Ok(decls) => Ok(declaration_views(decls@)),
        Err(e) => Err(e@),
    }
}

impl Clone for InterestDeclaration {
    fn clone(&self) -> (r: Self)
        ensures
            r@ == self@,
    {
        InterestDeclaration {
            actor_id: self.actor_id.clone(),
            key_field: self.key_field.clone(),
            entity_name: self.entity_name.clone(),
            role: self.role,
            interest: self.interest.clone(),
            interest_constraint: self.interest_constraint,
            link_definition: self.link_definition.clone(),
        }
    }
}

impl InterestDeclaration {
    /// The declaration of an aggregate for its commands.
    pub fn aggregate_for_commands(
        actor_id: &str,
        entity_name: &str,
        key: &str,
        ld: LinkDefinition,
    ) -> (r: InterestDeclaration)
        ensures
            r@ == aggregate_declaration(
                actor_id@,
                entity_name@,
                key@,
                InterestConstraint::Commands,
                ld@,
            ),
    {
        InterestDeclaration {
            actor_id: String::from_str(actor_id),
            entity_name: String::from_str(entity_name),
            role: ActorRole::Aggregate,
            key_field: String::from_str(key),
            interest_constraint: InterestConstraint::Commands,
            interest: ActorInterest::AggregateStream(String::from_str(entity_name)),
            link_definition: ld,
        }
    }

    /// The declaration of an aggregate for the events of its stream.
    pub fn aggregate_for_events(
        actor_id: &str,
        entity_name: &str,
        key: &str,
        ld: LinkDefinition,
    ) -> (r: InterestDeclaration)
        ensures
            r@ == aggregate_declaration(
                actor_id@,
                entity_name@,
                key@,
                InterestConstraint::Events,
                ld@,
            ),
    {
        InterestDeclaration {
            actor_id: String::from_str(actor_id),
            entity_name: String::from_str(entity_name),
            role: ActorRole::Aggregate,
            key_field: String::from_str(key),
            interest_constraint: InterestConstraint::Events,
            interest: ActorInterest::AggregateStream(String::from_str(entity_name)),
            link_definition: ld,
        }
    }

    /// The declaration of a participant that reads events. Only aggregates
    /// ever ask for commands.
    pub fn new(
        actor_id: &str,
        entity_name: &str,
        role: ActorRole,
        key: &str,
        interest: ActorInterest,
        ld: LinkDefinition,
    ) -> (r: InterestDeclaration)
        ensures
            r@ == event_declaration(actor_id@, entity_name@, role, key@, interest@, ld@),
    {
        InterestDeclaration {
            actor_id: String::from_str(actor_id),
            entity_name: String::from_str(entity_name),
            role,
            key_field: String::from_str(key),
            interest_constraint: InterestConstraint::Events,
            interest,
            link_definition: ld,
        }
    }

    fn bound(
        source: &LinkDefinition,
        raw: &LinkConfigurationRaw,
        role: ActorRole,
        interest: ActorInterest,
        constraint: InterestConstraint,
    ) -> (r: InterestDeclaration)
        ensures
            r@ == bound_declaration(source@, raw@, role, interest@, constraint),
    {
        InterestDeclaration {
            actor_id: source.actor_id.clone(),
            key_field: raw.key_field.clone(),
            entity_name: raw.name.clone(),
            role,
            interest,
            interest_constraint: constraint,
            link_definition: source.clone(),
        }
    }

    /// Makes the declarations for a participant of the given role from the
    /// settings `raw` of the binding `source`. The interest setting is read
    /// as the role asks. An unknown role is rejected, and so is a process
    /// manager whose interest is no lifetime.
    pub fn for_role(source: &LinkDefinition, raw: &LinkConfigurationRaw, role: ActorRole) -> (r:
        Result<Vec<InterestDeclaration>, String>)
        ensures
            declarations_result_view(r) == declarations_for(source@, raw@, role),
    {
        match role {
            ActorRole::Unknown => {
                return Err(String::from_str(UNKNOWN_ROLE_ERROR));
            },
            _ => {},
        }
        let interest = match ActorInterest::from_role_interest(raw.interest.as_str(), &role) {
            Ok(interest) => interest,
            Err(e) => {
                return Err(e);
            },
        };
        let mut interested_parties: Vec<InterestDeclaration> = Vec::new();
        match role {
            ActorRole::Aggregate => {
                let for_commands = InterestDeclaration::bound(
                    source,
                    raw,
                    role,
                    interest.clone(),
                    InterestConstraint::Commands,
                );
                let for_events = InterestDeclaration::bound(
                    source,
                    raw,
                    role,
                    interest,
                    InterestConstraint::Events,
                );
                interested_parties.push(for_commands);
                interested_parties.push(for_events);
                assert(declaration_views(interested_parties@) =~= seq![for_commands@, for_events@]);
            },
            _ => {
                let decl = InterestDeclaration::bound(
                    source,
                    raw,
                    role,
                    interest,
                    InterestConstraint::Events,
                );
                interested_parties.push(decl);
                assert(declaration_views(interested_parties@) =~= seq![decl@]);
            },
        }
        Ok(interested_parties)
    }

    /// Reads the declarations that a binding expands to. The binding is
    /// rejected where a required setting is missing, where the role is
    /// unknown, and where a process manager's interest is no lifetime.
    pub fn from_linkdefinition(source: LinkDefinition) -> (r: Result<
        Vec<InterestDeclaration>,
        String,
    >)
        ensures
            declarations_result_view(r) == declarations_of(source@),
    {
        let source = lowercase_ld_keys(source);
        let raw = match LinkConfigurationRaw::from_linkdef(&source) {
            Some(raw) => raw,
            None => {
                return Err(join2(UNPARSABLE_LINK_ERROR, source.actor_id.as_str()));
            },
        };
        let role = ActorRole::from_name(raw.role.as_str());
        InterestDeclaration::for_role(&source, &raw, role)
    }

    /// Whether the participant wants to see `event`.
    pub fn is_interested_in_event(&self, event: &Event) -> (r: bool)
        ensures
            r == interest_matches(self@.interest, event@.event_type, event@.stream),
    {
        self.interest.is_interested_in_event(event.event_type.as_str(), event.stream.as_str())
    }

    /// The name of the durable consumer that stands behind the declaration.
    /// It depends on the role, the constraint and the entity name alone.
    pub fn consumer_name(&self) -> (r: String)
        ensures
            r@ == consumer_name_of(self.role, self.interest_constraint, self.entity_name@),
    {
        let name = self.entity_name.as_str();
        match self.role {
            ActorRole::Aggregate => match self.interest_constraint {
                InterestConstraint::Commands => join2("AGG_CMD_", name),
                InterestConstraint::Events => join2("AGG_EVT_", name),
            },
            ActorRole::ProcessManager => join2("PM_", name),
            ActorRole::Notifier => join2("NOTIFIER_", name),
            ActorRole::Projector => join2("PROJ_", name),
            ActorRole::Unknown => String::new(),
        }
    }

    /// Picks the state key out of an event's payload.
    pub fn extract_key_value_from_payload(&self, payload: &[u8]) -> (r: String)
        ensures
            r@ == key_value_of(self.key_field@, payload@),
    {
        if self.key_field.as_str().unicode_len() == 0 {
            return String::new();
        }
        match string_member(payload, self.key_field.as_str()) {
            Some(text) => trim(text.as_str()),
            None => String::new(),
        }
    }

    /// The fetch size that the binding asks for.
    pub fn extract_max_messages_per_batch(&self) -> (r: usize)
        ensures
            r == max_batch_of(self.link_definition@.values),
    {
        match self.link_definition.values.get(MAX_MESSAGES_PER_BATCH_KEY) {
            Some(text) => match parse_count(text.as_str()) {
                Some(n) => n,
                None => DEFAULT_BATCH_MAX,
            },
            None => DEFAULT_BATCH_MAX,
        }
    }

    /// The declaration in words.
    pub fn to_string(&self) -> (r: String)
        ensures
            r@ == declaration_label(self@),
    {
        let mut out = self.entity_name.clone();
        out.append(" (");
        out.append(self.role.to_string().as_str());
        out.append(") - source type: ");
        out.append(self.interest_constraint.to_string().as_str());
        out.append(", target: ");
        out.append(self.link_definition.actor_id.as_str());
        out
    }

    /// Whether the two declarations stand for the same consumer.
    pub fn same_as(&self, other: &InterestDeclaration) -> (r: bool)
        ensures
            r == same_consumer(self@, other@),
    {
        same_text(self.actor_id.as_str(), other.actor_id.as_str()) && same_text(
            self.entity_name.as_str(),
            other.entity_name.as_str(),
        ) && self.role == other.role && self.interest.same_as(&other.interest)
            && self.interest_constraint == other.interest_constraint
    }
}

impl PartialEq for InterestDeclaration {
    fn eq(&self, other: &InterestDeclaration) -> (r: bool) {
        self.same_as(other)
    }
}

impl Eq for InterestDeclaration {

}

impl vstd::std_specs::cmp::PartialEqSpecImpl for InterestDeclaration {
    open spec fn obeys_eq_spec() -> bool {
        true
    }

    open spec fn eq_spec(&self, other: &InterestDeclaration) -> bool {
        same_consumer(self@, other@)
    }
}

/// An aggregate's binding, once it is accepted, expands to exactly two
/// declarations, and the two differ in nothing but the stream they read.
pub proof fn aggregate_binding_expands_to_two(ld: LinkDefinitionView)
    requires
        raw_config(lowercased_link(ld)) matches Some(raw) && role_of(raw.role)
            == ActorRole::Aggregate,
    ensures
        declarations_of(ld) matches Ok(decls) && decls.len() == 2 && decls[0]
            == (DeclarationView { interest_constraint: InterestConstraint::Commands, ..decls[1] })
            && decls[0].interest_constraint == InterestConstraint::Commands
            && decls[1].interest_constraint == InterestConstraint::Events,
{
}

/// Both declarations of an aggregate are interested in the stream that the
/// binding's interest setting names, in snake case, whatever the entity is
/// called.
pub proof fn aggregate_reads_the_stream_of_its_interest(
    source: LinkDefinitionView,
    raw: RawConfigView,
)
    ensures
        declarations_for(source, raw, ActorRole::Aggregate) matches Ok(decls) && decls.len() == 2
            && decls[0].interest == InterestView::AggregateStream(snake_case(raw.interest))
            && decls[1].interest == InterestView::AggregateStream(snake_case(raw.interest))
            && decls[0].entity_name == raw.name && decls[1].entity_name == raw.name,
{
}

/// A binding of any other role, once it is accepted, expands to exactly one
/// declaration, and that one reads events.
pub proof fn other_binding_expands_to_one(ld: LinkDefinitionView)
    requires
        declarations_of(ld) is Ok,
        raw_config(lowercased_link(ld)) matches Some(raw) && role_of(raw.role)
            != ActorRole::Aggregate,
    ensures
        declarations_of(ld) matches Ok(decls) && decls.len() == 1 && decls[0].interest_constraint
            == InterestConstraint::Events,
{
}

/// Whatever a binding expands to, only an aggregate ever reads commands.
pub proof fn only_aggregates_read_commands(ld: LinkDefinitionView, i: int)
    requires
        declarations_of(ld) matches Ok(decls) && 0 <= i < decls.len(),
    ensures
        declarations_of(ld) matches Ok(decls) && (decls[i].interest_constraint
            == InterestConstraint::Commands ==> decls[i].role == ActorRole::Aggregate),
{
}

/// Two declarations that agree on role, constraint and entity name have the
/// same consumer name, whatever else they hold.
pub proof fn consumer_name_is_determined(a: DeclarationView, b: DeclarationView)
    requires
        a.role == b.role,
        a.interest_constraint == b.interest_constraint,
        a.entity_name == b.entity_name,
    ensures
        consumer_name_of(a.role, a.interest_constraint, a.entity_name) == consumer_name_of(
            b.role,
            b.interest_constraint,
            b.entity_name,
        ),
{
}

/// How the runtime authenticates to the bus.
#[derive(Debug, Clone, PartialEq, Eq)]
pub enum BusCredentials {
    /// No credentials are presented.
    Anonymous,
    /// A user token, and the seed of the key that signs the server's nonce.
    Jwt { jwt: String, seed: String },
}

/// A [`BusCredentials`], as characters.
pub enum CredentialsView {
    Anonymous,
    Jwt { jwt: Seq<char>, seed: Seq<char> },
}

impl View for BusCredentials {
    type V = CredentialsView;

    open spec fn view(&self) -> CredentialsView {
        match self {
            BusCredentials::Anonymous => CredentialsView::Anonymous,
            BusCredentials::Jwt { jwt, seed } => CredentialsView::Jwt { jwt: jwt@, seed: seed@ },
        }
    }
}

/// What the host configures: where the bus is and how to authenticate.
#[derive(Debug, Clone)]
pub struct BaseConfiguration {
    /// Address of the bus.
    pub nats_url: String,
    /// User token for connecting to the bus.
    pub user_jwt: Option<String>,
    /// User seed for connecting to the bus.
    pub user_seed: Option<String>,
    /// The domain of the streams that the runtime uses.
    pub js_domain: Option<String>,
}

/// A [`BaseConfiguration`], as characters.
pub struct BaseConfigurationView {
    pub nats_url: Seq<char>,
    pub user_jwt: Option<Seq<char>>,
    pub user_seed: Option<Seq<char>>,
    pub js_domain: Option<Seq<char>>,
}

impl View for BaseConfiguration {
    type V = BaseConfigurationView;

    open spec fn view(&self) -> BaseConfigurationView {
        BaseConfigurationView {
            nats_url: self.nats_url@,
            user_jwt: crate::json::opt_text(self.user_jwt),
            user_seed: crate::json::opt_text(self.user_seed),
            js_domain: crate::json::opt_text(self.js_domain),
        }
    }
}

/// The text of an optional setting, empty where it is not given.
pub open spec fn or_empty(value: Option<Seq<char>>) -> Seq<char> {
    match value {
        Some(text) => text,
        None => Seq::empty(),
    }
}

/// The credentials that a configuration asks for. Token and seed must be
/// given together or not at all; one that is blank counts as not given.
pub open spec fn credentials_of(config: BaseConfigurationView) -> Result<CredentialsView, Seq<char>> {
    let jwt = or_empty(config.user_jwt);
    let seed = or_empty(config.user_seed);
    let has_jwt = trimmed(jwt).len() > 0;
    let has_seed = trimmed(seed).len() > 0;
    if has_jwt && has_seed {
        Ok(CredentialsView::Jwt { jwt, seed })
    } else if !has_jwt && !has_seed {
        Ok(CredentialsView::Anonymous)
    } else {
        Err(CREDENTIALS_ERROR@)
    }
}

/// The view of the outcome of reading the credentials.
pub open spec fn credentials_result_view(r: Result<BusCredentials, String>) -> Result<
    CredentialsView,
    Seq<char>,
> {
    match r {
        Ok(c) => Ok(c@),
        Err(e) => Err(e@),
    }
}

impl Default for BaseConfiguration {
    fn default() -> (r: Self)
        ensures
            r@ == (BaseConfigurationView {
                nats_url: DEFAULT_NATS_URL@,
                user_jwt: None,
                user_seed: None,
                js_domain: None,
            }),
    {
        BaseConfiguration {
            nats_url: String::from_str(DEFAULT_NATS_URL),
            user_jwt: None,
            user_seed: None,
            js_domain: None,
        }
    }
}

impl BaseConfiguration {
    /// Decides how to authenticate to the bus. A configuration that gives
    /// only one of token and seed is rejected.
    pub fn credentials(&self) -> (r: Result<BusCredentials, String>)
        ensures
            credentials_result_view(r) == credentials_of(self@),
    {
        let jwt = match &self.user_jwt {
            Some(jwt) => jwt.clone(),
            None => String::new(),
        };
        let seed = match &self.user_seed {
            Some(seed) => seed.clone(),
            None => String::new(),
        };
        let has_jwt = trim(jwt.as_str()).as_str().unicode_len() > 0;
        let has_seed = trim(seed.as_str()).as_str().unicode_len() > 0;
        if has_jwt && has_seed {
            Ok(BusCredentials::Jwt { jwt, seed })
        } else if !has_jwt && !has_seed {
            Ok(BusCredentials::Anonymous)
        } else {
            Err(String::from_str(CREDENTIALS_ERROR))
        }
    }
}

} // verus!
