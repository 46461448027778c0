//! The catalog model: the services and events of an event catalog, what
//! kind of participant each of them is, and the summaries that code is
//! generated from.

use vstd::prelude::*;
use vstd::string::*;
use crate::json::opt_text;
use crate::text::contains_text;
use crate::text::eq_ignore_ascii_case;
use crate::text::has_prefix;
use crate::text::join2;
use crate::text::lowercase;
use crate::text::replace;
use crate::text::replaced;
use crate::text::same_ignoring_ascii_case;
use crate::text::same_text;
use crate::text::split;
use crate::text::split_seq;
use crate::text::starts_with;
use crate::text::to_lowercase;
use crate::text::trim;
use crate::text::trimmed;

verus! {

/// The error for a generator type that is none of the four.
pub const UNEXPECTED_GENERATOR_ERROR: &'static str =
    "Unexpected generator type. Valid types: aggregate, projector, pm, notifier";

/// What kind of thing an entry of the catalog is.
#[derive(Debug, Clone, Copy, PartialEq, Eq, Hash, Structural)]
pub enum EntityType {
    Event,
    Command,
    Aggregate,
    Projector,
    ProcessManager,
    Notifier,
    Unknown,
}

/// The name of the trait that is generated for a kind of entry.
pub open spec fn trait_name_of(kind: EntityType) -> Seq<char> {
    match kind {
        EntityType::Command => "Command"@,
        EntityType::Event => "Event"@,
        EntityType::Aggregate => "Aggregate"@,
        EntityType::Projector => "Projector"@,
        EntityType::ProcessManager => "ProcessManager"@,
        EntityType::Notifier => "Notifier"@,
        EntityType::Unknown => Seq::empty(),
    }
}

/// How the identifiers of the entries of a kind begin.
pub open spec fn prefix_of(kind: EntityType) -> Seq<char> {
    match kind {
        EntityType::Command => "command/"@,
        EntityType::Aggregate => "aggregate/"@,
        EntityType::Event => "event/"@,
        EntityType::Notifier => "notifier/"@,
        EntityType::ProcessManager => "process-manager/"@,
        EntityType::Projector => "projector/"@,
        EntityType::Unknown => "__"@,
    }
}

/// The page of the index on which the entries of a kind are listed.
pub open spec fn index_page_of(kind: EntityType) -> Seq<char> {
    match kind {
        EntityType::Command => "./cmd_index.md#"@,
        EntityType::Event => "./evt_index.md#"@,
        EntityType::Aggregate => "./agg_index.md#"@,
        EntityType::Projector => "./proj_index.md#"@,
        EntityType::ProcessManager => "./pm_index.md#"@,
        EntityType::Notifier => "./notifier_index.md#"@,
        EntityType::Unknown => Seq::empty(),
    }
}

/// The link to the entry called `name` of the given kind; empty for an
/// entry of unknown kind.
pub open spec fn link_of(kind: EntityType, name: Seq<char>) -> Seq<char> {
    match kind {
        EntityType::Unknown => Seq::empty(),
        _ => index_page_of(kind) + name,
    }
}

/// The kind of the entry that the identifier `uri` names, by how the
/// identifier begins.
pub open spec fn kind_of_uri(uri: Seq<char>) -> EntityType {
    if has_prefix(uri, "event/"@) {
        EntityType::Event
    } else if has_prefix(uri, "aggregate/"@) {
        EntityType::Aggregate
    } else if has_prefix(uri, "command/"@) {
        EntityType::Command
    } else if has_prefix(uri, "projector/"@) {
        EntityType::Projector
    } else if has_prefix(uri, "process-manager/"@) {
        EntityType::ProcessManager
    } else if has_prefix(uri, "notifier/"@) {
        EntityType::Notifier
    } else {
        EntityType::Unknown
    }
}

/// The kind of participant that the text `s` asks a generator for.
pub open spec fn generator_kind_of(s: Seq<char>) -> Option<EntityType> {
    let n = lowercase(s);
    if n == "aggregate"@ {
        Some(EntityType::Aggregate)
    } else if n == "projector"@ {
        Some(EntityType::Projector)
    } else if n == "pm"@ {
        Some(EntityType::ProcessManager)
    } else if n == "notifier"@ {
        Some(EntityType::Notifier)
    } else {
        None
    }
}

impl EntityType {
    /// The name of the trait that is generated for this kind of entry.
    pub fn to_trait_name(&self) -> (r: String)
        ensures
            r@ == trait_name_of(*self),
    {
        match self {
            EntityType::Command => String::from_str("Command"),
            EntityType::Event => String::from_str("Event"),
            EntityType::Aggregate => String::from_str("Aggregate"),
            EntityType::Projector => String::from_str("Projector"),
            EntityType::ProcessManager => String::from_str("ProcessManager"),
            EntityType::Notifier => String::from_str("Notifier"),
            EntityType::Unknown => String::new(),
        }
    }

    /// How the identifiers of the entries of this kind begin.
    pub fn prefix(&self) -> (r: String)
        ensures
            r@ == prefix_of(*self),
    {
        match self {
            EntityType::Command => String::from_str("command/"),
            EntityType::Aggregate => String::from_str("aggregate/"),
            EntityType::Event => String::from_str("event/"),
            EntityType::Notifier => String::from_str("notifier/"),
            EntityType::ProcessManager => String::from_str("process-manager/"),
            EntityType::Projector => String::from_str("projector/"),
            EntityType::Unknown => String::from_str("__"),
        }
    }

    /// The link to the entry called `name` of this kind.
    pub fn link(&self, name: &str) -> (r: String)
        ensures
            r@ == link_of(*self, name@),
    {
        match self {
            EntityType::Command => join2("./cmd_index.md#", name),
            EntityType::Event => join2("./evt_index.md#", name),
            EntityType::Aggregate => join2("./agg_index.md#", name),
            EntityType::Projector => join2("./proj_index.md#", name),
            EntityType::ProcessManager => join2("./pm_index.md#", name),
            EntityType::Notifier => join2("./notifier_index.md#", name),
            EntityType::Unknown => String::new(),
        }
    }

    /// The kind of the entry behind a node of the catalog's graph: a node
    /// that bears an identifier goes by how the identifier begins, any other
    /// node is of unknown kind.
    pub fn from_node(uri: Option<&str>) -> (r: EntityType)
        ensures
            r == match uri {
                Some(uri) => kind_of_uri(uri@),
                None => EntityType::Unknown,
            },
    {
        match uri {
            Some(s) => {
                if starts_with(s, "event/") {
                    EntityType::Event
                } else if starts_with(s, "aggregate/") {
                    EntityType::Aggregate
                } else if starts_with(s, "command/") {
                    EntityType::Command
                } else if starts_with(s, "projector/") {
                    EntityType::Projector
                } else if starts_with(s, "process-manager/") {
                    EntityType::ProcessManager
                } else if starts_with(s, "notifier/") {
                    EntityType::Notifier
                } else {
                    EntityType::Unknown
                }
            },
            None => EntityType::Unknown,
        }
    }

    /// Reads the kind of participant that a generator is asked for.
    pub fn from_str(s: &str) -> (r: Result<EntityType, String>)
        ensures
            match r {
                Ok(kind) => generator_kind_of(s@) == Some(kind),
                Err(e) => generator_kind_of(s@) is None && e@ == UNEXPECTED_GENERATOR_ERROR@,
            },
    {
        let n = to_lowercase(s);
        if same_text(n.as_str(), "aggregate") {
            Ok(EntityType::Aggregate)
        } else if same_text(n.as_str(), "projector") {
            Ok(EntityType::Projector)
        } else if same_text(n.as_str(), "pm") {
            Ok(EntityType::ProcessManager)
        } else if same_text(n.as_str(), "notifier") {
            Ok(EntityType::Notifier)
        } else {
            Err(String::from_str(UNEXPECTED_GENERATOR_ERROR))
        }
    }
}

/// The name of the entry that the identifier `uri` names: what follows its
/// last slash.
pub open spec fn node_name_of(uri: Seq<char>) -> Seq<char> {
    split_seq(uri, '/').last()
}

/// The name of the entry that the identifier `uri` names.
pub fn get_node_name(uri: &str) -> (r: String)
    ensures
        r@ == node_name_of(uri@),
{
    let mut pieces = split(uri, '/');
    proof {
        split_is_never_empty(uri@, '/');
    }
    match pieces.pop() {
        Some(name) => name,
        None => String::new(),
    }
}

/// Splitting gives at least one piece.
pub proof fn split_is_never_empty(s: Seq<char>, sep: char)
    ensures
        split_seq(s, sep).len() >= 1,
    decreases s.len(),
{
    if s.len() > 0 {
        split_is_never_empty(s.drop_last(), sep);
    }
}

/// The words by which the name of a service of the given kind says what
/// kind it is.
pub open spec fn kind_words(kind: EntityType) -> Seq<char> {
    if kind == EntityType::ProcessManager {
        "process manager"@
    } else {
        lowercase(trait_name_of(kind))
    }
}

/// The bare name of a service: lower-cased, without the words that say what
/// kind it is, and trimmed. "Rover Aggregate" becomes "rover".
pub open spec fn trimmed_summary_name(name: Seq<char>, kind: EntityType) -> Seq<char> {
    trimmed(replaced(lowercase(name), kind_words(kind), ""@))
}

/// The bare name of a service of the given kind.
pub fn trim_summary_name(name: &str, entity_type: &EntityType) -> (r: String)
    ensures
        r@ == trimmed_summary_name(name@, *entity_type),
{
    let name = to_lowercase(name);
    let et = match entity_type {
        EntityType::ProcessManager => String::from_str("process manager"),
        _ => to_lowercase(entity_type.to_trait_name().as_str()),
    };
    let newname = replace(name.as_str(), et.as_str(), "");
    trim(newname.as_str())
}

/// One entry of the catalog as a summary refers to it.
#[derive(Debug, Clone, PartialEq, Eq)]
pub struct Entity {
    pub name: String,
    pub description: String,
    pub link: String,
    pub entity_type: EntityType,
}

/// An [`Entity`], as characters.
pub struct EntityView {
    pub name: Seq<char>,
    pub description: Seq<char>,
    pub link: Seq<char>,
    pub entity_type: EntityType,
}

impl View for Entity {
    type V = EntityView;

    open spec fn view(&self) -> EntityView {
        EntityView {
            name: self.name@,
            description: self.description@,
            link: self.link@,
            entity_type: self.entity_type,
        }
    }
}

/// The views of a list of entries, in order.
pub open spec fn entity_views(list: Seq<Entity>) -> Seq<EntityView> {
    list.map_values(|e: Entity| e@)
}

/// A tag on an entry of the catalog.
#[derive(Debug, Clone, PartialEq, Eq)]
pub struct Tag {
    pub label: String,
}

/// The labels of a list of tags, in order.
pub open spec fn labels(tags: Seq<Tag>) -> Seq<Seq<char>> {
    tags.map_values(|t: Tag| t.label@)
}

/// The labels of an optional list of tags.
pub open spec fn opt_labels(tags: Option<Vec<Tag>>) -> Option<Seq<Seq<char>>> {
    match tags {
        Some(tags) => Some(labels(tags@)),
        None => None,
    }
}

/// Whether one of `tags` bears the label `label`.
pub fn has_label(tags: &Vec<Tag>, label: &str) -> (r: bool)
    ensures
        r == labels(tags@).contains(label@),
{
    let mut i: usize = 0;
    while i < tags.len()
        invariant
            i <= tags.len(),
            forall|j: int| 0 <= j < i ==> tags@[j].label@ != label@,
        decreases tags.len() - i,
    {
        if same_text(tags[i].label.as_str(), label) {
            assert(labels(tags@)[i as int] == label@);
            return true;
        }
        i = i + 1;
    }
    false
}

/// The kind of a service, by its tags: the first of aggregate, process
/// manager, projector and notifier that a tag names.
pub open spec fn service_kind_of(tags: Option<Seq<Seq<char>>>) -> EntityType {
    match tags {
        None => EntityType::Unknown,
        Some(labels) => if labels.contains("aggregate"@) {
            EntityType::Aggregate
        } else if labels.contains("procman"@) {
            EntityType::ProcessManager
        } else if labels.contains("projector"@) {
            EntityType::Projector
        } else if labels.contains("notifier"@) {
            EntityType::Notifier
        } else {
            EntityType::Unknown
        },
    }
}

/// The kind of a message, by its tags: a command where a tag says so, else
/// an event where a tag says so.
pub open spec fn message_kind_of(tags: Option<Seq<Seq<char>>>) -> EntityType {
    match tags {
        None => EntityType::Unknown,
        Some(labels) => if labels.contains("command"@) {
            EntityType::Command
        } else if labels.contains("event"@) {
            EntityType::Event
        } else {
            EntityType::Unknown
        },
    }
}

/// What the catalog says of a service.
#[derive(Debug, Clone, PartialEq, Eq)]
pub struct ServiceFrontMatter {
    pub name: String,
    pub summary: Option<String>,
    pub repository: Option<String>,
    pub owners: Option<Vec<String>>,
    pub external_links: Option<Vec<String>>,
    pub tags: Option<Vec<Tag>>,
}

impl ServiceFrontMatter {
    /// The kind of participant that the service is.
    pub fn entity_type_from_tags(&self) -> (r: EntityType)
        ensures
            r == service_kind_of(opt_labels(self.tags)),
    {
        match &self.tags {
            None => EntityType::Unknown,
            Some(tags) => {
                if has_label(tags, "aggregate") {
                    EntityType::Aggregate
                } else if has_label(tags, "procman") {
                    EntityType::ProcessManager
                } else if has_label(tags, "projector") {
                    EntityType::Projector
                } else if has_label(tags, "notifier") {
                    EntityType::Notifier
                } else {
                    EntityType::Unknown
                }
            },
        }
    }
}

/// What the catalog says of an event or a command.
#[derive(Debug, Clone, PartialEq, Eq)]
pub struct EventFrontMatter {
    pub name: String,
    pub version: String,
    pub summary: Option<String>,
    pub producers: Option<Vec<String>>,
    pub consumers: Option<Vec<String>>,
    pub owners: Option<Vec<String>>,
    pub external_links: Option<Vec<String>>,
    pub tags: Option<Vec<Tag>>,
}

impl EventFrontMatter {
    /// Whether the entry is an event or a command.
    pub fn entity_type_from_tags(&self) -> (r: EntityType)
        ensures
            r == message_kind_of(opt_labels(self.tags)),
    {
        match &self.tags {
            None => EntityType::Unknown,
            Some(tags) => {
                if has_label(tags, "command") {
                    EntityType::Command
                } else if has_label(tags, "event") {
                    EntityType::Event
                } else {
                    EntityType::Unknown
                }
            },
        }
    }

    /// The entry as a summary refers to it.
    pub fn to_entity(&self) -> (r: Entity)
        ensures
            r@ == message_entity(*self),
    {
        let description = match &self.summary {
            Some(summary) => summary.clone(),
            None => String::new(),
        };
        Entity {
            name: self.name.clone(),
            description,
            entity_type: self.entity_type_from_tags(),
            link: String::new(),
        }
    }
}

/// An event or a command as a summary refers to it: by its name, with its
/// summary as the description and without a link.
pub open spec fn message_entity(message: EventFrontMatter) -> EntityView {
    EntityView {
        name: message.name@,
        description: match message.summary {
            Some(summary) => summary@,
            None => Seq::empty(),
        },
        link: Seq::empty(),
        entity_type: message_kind_of(opt_labels(message.tags)),
    }
}

/// Whether the list, where there is one, names `name`.
pub open spec fn names(list: Option<Vec<String>>, name: Seq<char>) -> bool {
    match list {
        Some(list) => list.deep_view().contains(name),
        None => false,
    }
}

/// The messages that the service called `service` consumes, in the order of
/// the catalog.
pub open spec fn inbound_of(events: Seq<EventFrontMatter>, service: Seq<char>) -> Seq<EntityView>
    decreases events.len(),
{
    if events.len() == 0 {
        Seq::empty()
    } else if names(events.last().consumers, service) {
        inbound_of(events.drop_last(), service).push(message_entity(events.last()))
    } else {
        inbound_of(events.drop_last(), service)
    }
}

/// The messages that the service called `service` produces, in the order of
/// the catalog.
pub open spec fn outbound_of(events: Seq<EventFrontMatter>, service: Seq<char>) -> Seq<EntityView>
    decreases events.len(),
{
    if events.len() == 0 {
        Seq::empty()
    } else if names(events.last().producers, service) {
        outbound_of(events.drop_last(), service).push(message_entity(events.last()))
    } else {
        outbound_of(events.drop_last(), service)
    }
}

/// Whether the service `service` answers to the name `name` as a
/// participant of the kind `kind`: it is of that kind, and the bare names
/// agree but for the case of ASCII letters.
pub open spec fn service_matches(
    service: ServiceFrontMatter,
    name: Seq<char>,
    kind: EntityType,
) -> bool {
    let own_kind = service_kind_of(opt_labels(service.tags));
    same_ignoring_ascii_case(
        trimmed_summary_name(service.name@, own_kind),
        trimmed_summary_name(name, kind),
    ) && own_kind == kind
}

/// Whether the service at position `i` is the first that answers to `name`
/// as a participant of the kind `kind`.
pub open spec fn is_first_match(
    services: Seq<ServiceFrontMatter>,
    name: Seq<char>,
    kind: EntityType,
    i: int,
) -> bool {
    &&& 0 <= i < services.len()
    &&& service_matches(services[i], name, kind)
    &&& forall|j: int| 0 <= j < i ==> !service_matches(#[trigger] services[j], name, kind)
}

/// Whether no service answers to `name` as a participant of the kind
/// `kind`.
pub open spec fn no_match(services: Seq<ServiceFrontMatter>, name: Seq<char>, kind: EntityType) -> bool {
    forall|j: int| 0 <= j < services.len() ==> !service_matches(#[trigger] services[j], name, kind)
}

/// The entries of `list` of the given kind if `keep` is set, and those of
/// any other kind if it is not, in order.
pub open spec fn of_kind(list: Seq<EntityView>, kind: EntityType, keep: bool) -> Seq<EntityView>
    decreases list.len(),
{
    if list.len() == 0 {
        Seq::empty()
    } else if (list.last().entity_type == kind) == keep {
        of_kind(list.drop_last(), kind, keep).push(list.last())
    } else {
        of_kind(list.drop_last(), kind, keep)
    }
}

/// Picks from `list` the entries of the given kind, or those of any other
/// kind.
pub fn partition_by_kind(list: &Vec<Entity>, kind: EntityType, keep: bool) -> (r: Vec<Entity>)
    ensures
        entity_views(r@) == of_kind(entity_views(list@), kind, keep),
{
    let ghost views = entity_views(list@);
    let mut out: Vec<Entity> = Vec::new();
    let mut i: usize = 0;
    assert(views.take(0) =~= Seq::<EntityView>::empty());
    assert(entity_views(out@) =~= Seq::<EntityView>::empty());
    while i < list.len()
        invariant
            i <= list.len(),
            views == entity_views(list@),
            entity_views(out@) == of_kind(views.take(i as int), kind, keep),
        decreases list.len() - i,
    {
        proof {
            let next = views.take(i + 1);
            assert(next.drop_last() =~= views.take(i as int));
            assert(next.last() == list@[i as int]@);
        }
        if (list[i].entity_type == kind) == keep {
            let ghost before = entity_views(out@);
            let e = copy_entity(&list[i]);
            out.push(e);
            assert(entity_views(out@) =~= before.push(e@));
        }
        i = i + 1;
    }
    assert(views.take(i as int) =~= views);
    out
}

fn copy_entity(e: &Entity) -> (r: Entity)
    ensures
        r@ == e@,
{
    Entity {
        name: e.name.clone(),
        description: e.description.clone(),
        link: e.link.clone(),
        entity_type: e.entity_type,
    }
}

/// The catalog: its events and commands, and its services.
#[derive(Debug, Clone, PartialEq, Eq)]
pub struct EventCatalogSite {
    pub events: Vec<EventFrontMatter>,
    pub services: Vec<ServiceFrontMatter>,
}

impl EventCatalogSite {
    /// A catalog with these entries.
    pub fn new(events: Vec<EventFrontMatter>, services: Vec<ServiceFrontMatter>) -> (r: Self)
        ensures
            r.events@ == events@,
            r.services@ == services@,
    {
        EventCatalogSite { events, services }
    }

    /// The first service that answers to `name` as a participant of the
    /// given kind.
    pub fn get_service(&self, name: &str, entity_type: EntityType) -> (r: Option<
        &ServiceFrontMatter,
    >)
        ensures
            match r {
                Some(service) => exists|i: int|
                    is_first_match(self.services@, name@, entity_type, i) && *service
                        == self.services@[i],
                None => no_match(self.services@, name@, entity_type),
            },
    {
        let trimmed_target = trim_summary_name(name, &entity_type);
        let mut i: usize = 0;
        while i < self.services.len()
            invariant
                i <= self.services@.len(),
                trimmed_target@ == trimmed_summary_name(name@, entity_type),
                forall|j: int|
                    0 <= j < i ==> !service_matches(#[trigger] self.services@[j], name@, entity_type),
            decreases self.services@.len() - i,
        {
            let s = &self.services[i];
            let kind = s.entity_type_from_tags();
            let s_name = trim_summary_name(s.name.as_str(), &kind);
            if eq_ignore_ascii_case(s_name.as_str(), trimmed_target.as_str()) && kind
                == entity_type {
                assert(is_first_match(self.services@, name@, entity_type, i as int));
                return Some(s);
            }
            i = i + 1;
        }
        None
    }

    /// The messages that `service` consumes and those that it produces.
    pub fn get_inbound_outbound(&self, service: &ServiceFrontMatter) -> (r: (
        Vec<Entity>,
        Vec<Entity>,
    ))
        ensures
            entity_views(r.0@) == inbound_of(self.events@, service.name@),
            entity_views(r.1@) == outbound_of(self.events@, service.name@),
    {
        let mut inbound: Vec<Entity> = Vec::new();
        let mut outbound: Vec<Entity> = Vec::new();
        let mut i: usize = 0;
        assert(self.events@.take(0) =~= Seq::<EventFrontMatter>::empty());
        assert(entity_views(inbound@) =~= Seq::<EntityView>::empty());
        assert(entity_views(outbound@) =~= Seq::<EntityView>::empty());
        while i < self.events.len()
            invariant
                i <= self.events@.len(),
                entity_views(inbound@) == inbound_of(self.events@.take(i as int), service.name@),
                entity_views(outbound@) == outbound_of(self.events@.take(i as int), service.name@),
            decreases self.events@.len() - i,
        {
            proof {
                let next = self.events@.take(i + 1);
                assert(next.drop_last() =~= self.events@.take(i as int));
                assert(next.last() == self.events@[i as int]);
            }
            let evt = &self.events[i];
            let consumed = match &evt.consumers {
                Some(consumers) => contains_text(consumers, service.name.as_str()),
                None => false,
            };
            if consumed {
                let ghost before = entity_views(inbound@);
                let e = evt.to_entity();
                inbound.push(e);
                assert(entity_views(inbound@) =~= before.push(e@));
            }
            let produced = match &evt.producers {
                Some(producers) => contains_text(producers, service.name.as_str()),
                None => false,
            };
            if produced {
                let ghost before = entity_views(outbound@);
                let e = evt.to_entity();
                outbound.push(e);
                assert(entity_views(outbound@) =~= before.push(e@));
            }
            i = i + 1;
        }
        assert(self.events@.take(i as int) =~= self.events@);
        (inbound, outbound)
    }
}

/// What is generated for a projector or a notifier.
#[derive(Debug, Clone, PartialEq, Eq)]
pub struct GenHandlerSummary {
    pub name: String,
    pub entity_type: EntityType,
    pub inbound: Vec<Entity>,
    pub outbound: Vec<Entity>,
}

impl GenHandlerSummary {
    /// The summary of the service that answers to `name` as a participant
    /// of the given kind, or `None` where the catalog has no such service.
    pub fn new_from_eventcatalog(
        catalog: &EventCatalogSite,
        name: &str,
        entity_type: EntityType,
    ) -> (r: Option<GenHandlerSummary>)
        ensures
            r is None <==> no_match(catalog.services@, name@, entity_type),
            r matches Some(summary) ==> summary.entity_type == entity_type && exists|i: int|
                is_first_match(catalog.services@, name@, entity_type, i) && summary.name@ == trimmed_summary_name(catalog.services@[i].name@, entity_type)
                    && entity_views(summary.inbound@) == inbound_of(
                    catalog.events@,
                    catalog.services@[i].name@,
                ) && entity_views(summary.outbound@) == outbound_of(
                    catalog.events@,
                    catalog.services@[i].name@,
                ),
    {
        let service = match catalog.get_service(name, entity_type) {
            Some(service) => service,
            None => { return None; },
        };
        let (inbound, outbound) = catalog.get_inbound_outbound(service);
        Some(
            GenHandlerSummary {
                name: trim_summary_name(service.name.as_str(), &entity_type),
                entity_type,
                inbound,
                outbound,
            },
        )
    }
}

/// What is generated for an aggregate.
#[derive(Debug, Clone, PartialEq, Eq)]
pub struct AggregateSummary {
    pub name: String,
    pub description: String,
    /// The commands among what the aggregate consumes.
    pub inbound_commands: Vec<Entity>,
    /// The events among what the aggregate consumes.
    pub inbound_events: Vec<Entity>,
}

impl AggregateSummary {
    /// The summary of the aggregate that answers to `name`, or `None` where
    /// the catalog has no such aggregate. What it consumes is parted into
    /// events and everything else, which counts as commands.
    pub fn new_from_eventcatalog(catalog: &EventCatalogSite, name: &str) -> (r: Option<
        AggregateSummary,
    >)
        ensures
            r is None <==> no_match(catalog.services@, name@, EntityType::Aggregate),
            r matches Some(summary) ==> exists|i: int|
                is_first_match(catalog.services@, name@, EntityType::Aggregate, i) && summary.name@ == trimmed_summary_name(
                    catalog.services@[i].name@,
                    EntityType::Aggregate,
                ) && summary.description@ == crate::config::or_empty(
                    opt_text(catalog.services@[i].summary),
                ) && entity_views(summary.inbound_events@) == of_kind(
                    inbound_of(catalog.events@, catalog.services@[i].name@),
                    EntityType::Event,
                    true,
                ) && entity_views(summary.inbound_commands@) == of_kind(
                    inbound_of(catalog.events@, catalog.services@[i].name@),
                    EntityType::Event,
                    false,
                ),
    {
        let service = match catalog.get_service(name, EntityType::Aggregate) {
            Some(service) => service,
            None => { return None; },
        };
        let (inbound, _outbound) = catalog.get_inbound_outbound(service);
        let in_events = partition_by_kind(&inbound, EntityType::Event, true);
        let in_commands = partition_by_kind(&inbound, EntityType::Event, false);
        let description = match &service.summary {
            Some(summary) => summary.clone(),
            None => String::new(),
        };
        Some(
            AggregateSummary {
                name: trim_summary_name(service.name.as_str(), &EntityType::Aggregate),
                description,
                inbound_commands: in_commands,
                inbound_events: in_events,
            },
        )
    }
}

/// What is generated for a process manager.
#[derive(Debug, Clone, PartialEq, Eq)]
pub struct ProcessManagerSummary {
    pub name: String,
    pub description: String,
    pub doc: String,
    pub inbound: Vec<Entity>,
    pub outbound: Vec<Entity>,
}

impl ProcessManagerSummary {
    /// The summary of the process manager that answers to `name`, or `None`
    /// where the catalog has no such process manager.
    pub fn new_from_eventcatalog(catalog: &EventCatalogSite, name: &str) -> (r: Option<
        ProcessManagerSummary,
    >)
        ensures
            r is None <==> no_match(catalog.services@, name@, EntityType::ProcessManager),
            r matches Some(summary) ==> summary.doc@ == Seq::<char>::empty() && exists|i: int|
                is_first_match(catalog.services@, name@, EntityType::ProcessManager, i) && summary.name@ == catalog.services@[i].name@ && summary.description@
                    == crate::config::or_empty(opt_text(catalog.services@[i].summary))
                    && entity_views(summary.inbound@) == inbound_of(
                    catalog.events@,
                    catalog.services@[i].name@,
                ) && entity_views(summary.outbound@) == outbound_of(
                    catalog.events@,
                    catalog.services@[i].name@,
                ),
    {
        let service = match catalog.get_service(name, EntityType::ProcessManager) {
            Some(service) => service,
            None => { return None; },
        };
        let (inbound, outbound) = catalog.get_inbound_outbound(service);
        let description = match &service.summary {
            Some(summary) => summary.clone(),
            None => String::new(),
        };
        Some(
            ProcessManagerSummary {
                name: service.name.clone(),
                description,
                inbound,
                outbound,
                doc: String::new(),
            },
        )
    }
}

/// What the documentation says of an event.
#[derive(Debug, Clone, PartialEq, Eq)]
pub struct EventSummary {
    pub name: String,
    pub description: String,
    pub doc: String,
    pub spec: String,
    pub inbound: Vec<Entity>,
    pub outbound: Vec<Entity>,
}

/// What the documentation says of a notifier.
#[derive(Debug, Clone, PartialEq, Eq)]
pub struct NotifierSummary {
    pub name: String,
    pub description: String,
    pub inbound: Vec<Entity>,
}

/// What the documentation says of a projector.
#[derive(Debug, Clone, PartialEq, Eq)]
pub struct ProjectorSummary {
    pub name: String,
    pub description: String,
    pub doc: String,
    pub inbound: Vec<Entity>,
}

/// What the documentation says of a command.
#[derive(Debug, Clone, PartialEq, Eq)]
pub struct CommandSummary {
    pub name: String,
    pub description: String,
    pub doc: String,
    pub inbound: Vec<Entity>,
    pub outbound: Vec<Entity>,
}

/// The aggregates of a catalog, for their index page.
#[derive(Debug, Clone, PartialEq, Eq)]
pub struct AggregateIndex {
    pub aggregates: Vec<AggregateSummary>,
}

/// The events of a catalog, for their index page.
#[derive(Debug, Clone, PartialEq, Eq)]
pub struct EventIndex {
    pub events: Vec<EventSummary>,
}

/// The notifiers of a catalog, for their index page.
#[derive(Debug, Clone, PartialEq, Eq)]
pub struct Notifierindex {
    pub notifiers: Vec<NotifierSummary>,
}

/// The projectors of a catalog, for their index page.
#[derive(Debug, Clone, PartialEq, Eq)]
pub struct ProjectorIndex {
    pub projectors: Vec<ProjectorSummary>,
}

/// The commands of a catalog, for their index page.
#[derive(Debug, Clone, PartialEq, Eq)]
pub struct CommandIndex {
    pub commands: Vec<CommandSummary>,
}

/// The process managers of a catalog, for their index page.
#[derive(Debug, Clone, PartialEq, Eq)]
pub struct ProcessManagerIndex {
    pub process_managers: Vec<ProcessManagerSummary>,
}

} // verus!
