use concordance::model::get_node_name;
use concordance::model::partition_by_kind;
use concordance::model::trim_summary_name;
use concordance::model::AggregateIndex;
use concordance::model::AggregateSummary;
use concordance::model::CommandIndex;
use concordance::model::CommandSummary;
use concordance::model::Entity;
use concordance::model::EntityType;
use concordance::model::EventCatalogSite;
use concordance::model::EventFrontMatter;
use concordance::model::EventIndex;
use concordance::model::EventSummary;
use concordance::model::GenHandlerSummary;
use concordance::model::NotifierSummary;
use concordance::model::Notifierindex;
use concordance::model::ProcessManagerIndex;
use concordance::model::ProcessManagerSummary;
use concordance::model::ProjectorIndex;
use concordance::model::ProjectorSummary;
use concordance::model::ServiceFrontMatter;
use concordance::model::Tag;

fn tags(labels: &[&str]) -> Option<Vec<Tag>> {
    Some(labels.iter().map(|l| Tag { label: l.to_string() }).collect())
}

fn service(name: &str, summary: Option<&str>, labels: &[&str]) -> ServiceFrontMatter {
    ServiceFrontMatter {
        name: name.to_string(),
        summary: summary.map(|s| s.to_string()),
        repository: None,
        owners: None,
        external_links: None,
        tags: tags(labels),
    }
}

fn message(name: &str, label: &str, producers: &[&str], consumers: &[&str]) -> EventFrontMatter {
    EventFrontMatter {
        name: name.to_string(),
        version: "0.0.1".to_string(),
        summary: Some(format!("about {name}")),
        producers: Some(producers.iter().map(|s| s.to_string()).collect()),
        consumers: Some(consumers.iter().map(|s| s.to_string()).collect()),
        owners: None,
        external_links: None,
        tags: tags(&[label]),
    }
}

fn catalog() -> EventCatalogSite {
    EventCatalogSite::new(
        vec![
            message("CreateAccount", "command", &[], &["Bankaccount Aggregate"]),
            message("AccountCreated", "event", &["Bankaccount Aggregate"], &["Bankaccount Aggregate", "Bankaccount Projector"]),
            message("WireTransferRequested", "event", &["Bankaccount Aggregate"], &["Interbank Process Manager", "Bankaccount Aggregate"]),
            message("ReserveFunds", "command", &["Interbank Process Manager"], &["Bankaccount Aggregate"]),
            EventFrontMatter {
                name: "Untagged".to_string(),
                version: "1".to_string(),
                summary: None,
                producers: None,
                consumers: None,
                owners: None,
                external_links: None,
                tags: None,
            },
        ],
        vec![
            service("Bankaccount Aggregate", Some("the account"), &["aggregate"]),
            service("Bankaccount Projector", None, &["projector"]),
            service("Interbank Process Manager", Some("transfers"), &["x", "procman"]),
            service("Mailer Notifier", None, &["notifier"]),
            service("Nothing", None, &[]),
        ],
    )
}

#[test]
fn trait_names_prefixes_and_links() {
    let all = [
        (EntityType::Command, "Command", "command/", "./cmd_index.md#x"),
        (EntityType::Event, "Event", "event/", "./evt_index.md#x"),
        (EntityType::Aggregate, "Aggregate", "aggregate/", "./agg_index.md#x"),
        (EntityType::Projector, "Projector", "projector/", "./proj_index.md#x"),
        (EntityType::ProcessManager, "ProcessManager", "process-manager/", "./pm_index.md#x"),
        (EntityType::Notifier, "Notifier", "notifier/", "./notifier_index.md#x"),
        (EntityType::Unknown, "", "__", ""),
    ];
    for (kind, name, prefix, link) in all {
        assert_eq!(kind.to_trait_name(), name);
        assert_eq!(kind.prefix(), prefix);
        assert_eq!(kind.link("x"), link);
    }
}

#[test]
fn kinds_from_identifiers_and_words() {
    assert_eq!(EntityType::from_node(Some("event/account_created")), EntityType::Event);
    assert_eq!(EntityType::from_node(Some("aggregate/bankaccount")), EntityType::Aggregate);
    assert_eq!(EntityType::from_node(Some("command/create_account")), EntityType::Command);
    assert_eq!(EntityType::from_node(Some("projector/p")), EntityType::Projector);
    assert_eq!(EntityType::from_node(Some("process-manager/p")), EntityType::ProcessManager);
    assert_eq!(EntityType::from_node(Some("notifier/n")), EntityType::Notifier);
    assert_eq!(EntityType::from_node(Some("predicate/desc")), EntityType::Unknown);
    assert_eq!(EntityType::from_node(Some("Event/x")), EntityType::Unknown);
    assert_eq!(EntityType::from_node(Some("")), EntityType::Unknown);
    assert_eq!(EntityType::from_node(None), EntityType::Unknown);

    assert_eq!(EntityType::from_str("Aggregate"), Ok(EntityType::Aggregate));
    assert_eq!(EntityType::from_str("projector"), Ok(EntityType::Projector));
    assert_eq!(EntityType::from_str("PM"), Ok(EntityType::ProcessManager));
    assert_eq!(EntityType::from_str("notifier"), Ok(EntityType::Notifier));
    assert_eq!(
        EntityType::from_str("event"),
        Err("Unexpected generator type. Valid types: aggregate, projector, pm, notifier".to_string())
    );

    assert_eq!(get_node_name("aggregate/bankaccount"), "bankaccount");
    assert_eq!(get_node_name("a/b/c"), "c");
    assert_eq!(get_node_name("plain"), "plain");
    assert_eq!(get_node_name("trailing/"), "");
    assert_eq!(get_node_name(""), "");
}

#[test]
fn summary_names_are_trimmed() {
    assert_eq!(trim_summary_name("Rover Aggregate", &EntityType::Aggregate), "rover");
    assert_eq!(trim_summary_name("Interbank Process Manager", &EntityType::ProcessManager), "interbank");
    assert_eq!(trim_summary_name("Interbank ProcessManager", &EntityType::ProcessManager), "interbank processmanager");
    assert_eq!(trim_summary_name("  Mailer  ", &EntityType::Notifier), "mailer");
    assert_eq!(trim_summary_name("Rover", &EntityType::Unknown), "rover");
}

#[test]
fn kinds_from_tags() {
    let c = catalog();
    assert_eq!(c.services[0].entity_type_from_tags(), EntityType::Aggregate);
    assert_eq!(c.services[1].entity_type_from_tags(), EntityType::Projector);
    assert_eq!(c.services[2].entity_type_from_tags(), EntityType::ProcessManager);
    assert_eq!(c.services[3].entity_type_from_tags(), EntityType::Notifier);
    assert_eq!(c.services[4].entity_type_from_tags(), EntityType::Unknown);
    assert_eq!(service("x", None, &["notifier", "aggregate"]).entity_type_from_tags(), EntityType::Aggregate);
    let mut s = service("x", None, &[]);
    s.tags = None;
    assert_eq!(s.entity_type_from_tags(), EntityType::Unknown);
    assert_eq!(c.events[0].entity_type_from_tags(), EntityType::Command);
    assert_eq!(c.events[1].entity_type_from_tags(), EntityType::Event);
    assert_eq!(c.events[4].entity_type_from_tags(), EntityType::Unknown);
    let mut both = message("x", "event", &[], &[]);
    both.tags = tags(&["event", "command"]);
    assert_eq!(both.entity_type_from_tags(), EntityType::Command);
    assert_eq!(
        c.events[1].to_entity(),
        Entity {
            name: "AccountCreated".to_string(),
            description: "about AccountCreated".to_string(),
            link: "".to_string(),
            entity_type: EntityType::Event,
        }
    );
    assert_eq!(c.events[4].to_entity().description, "");
}

#[test]
fn services_are_found_by_bare_name_and_kind() {
    let c = catalog();
    assert_eq!(c.get_service("bankaccount", EntityType::Aggregate).unwrap().name, "Bankaccount Aggregate");
    assert_eq!(c.get_service("BANKACCOUNT aggregate", EntityType::Aggregate).unwrap().name, "Bankaccount Aggregate");
    assert_eq!(c.get_service("bankaccount", EntityType::Projector).unwrap().name, "Bankaccount Projector");
    assert_eq!(c.get_service("Interbank", EntityType::ProcessManager).unwrap().name, "Interbank Process Manager");
    assert!(c.get_service("bankaccount", EntityType::Notifier).is_none());
    assert!(c.get_service("interbank", EntityType::Aggregate).is_none());
    assert!(c.get_service("nobody", EntityType::Aggregate).is_none());
}

#[test]
fn what_a_service_consumes_and_produces() {
    let c = catalog();
    let (inbound, outbound) = c.get_inbound_outbound(&c.services[0]);
    let names: Vec<&str> = inbound.iter().map(|e| e.name.as_str()).collect();
    assert_eq!(names, vec!["CreateAccount", "AccountCreated", "WireTransferRequested", "ReserveFunds"]);
    let names: Vec<&str> = outbound.iter().map(|e| e.name.as_str()).collect();
    assert_eq!(names, vec!["AccountCreated", "WireTransferRequested"]);
    assert_eq!(inbound[0].entity_type, EntityType::Command);
    assert_eq!(inbound[0].description, "about CreateAccount");
    assert_eq!(inbound[0].link, "");
    let (inbound, outbound) = c.get_inbound_outbound(&c.services[4]);
    assert!(inbound.is_empty() && outbound.is_empty());

    let events = partition_by_kind(&c.get_inbound_outbound(&c.services[0]).0, EntityType::Event, true);
    assert_eq!(events.len(), 2);
    let rest = partition_by_kind(&c.get_inbound_outbound(&c.services[0]).0, EntityType::Event, false);
    assert_eq!(rest.len(), 2);
    assert_eq!(rest[1].name, "ReserveFunds");
}

#[test]
fn summaries_from_the_catalog() {
    let c = catalog();
    let agg = AggregateSummary::new_from_eventcatalog(&c, "Bankaccount").unwrap();
    assert_eq!(agg.name, "bankaccount");
    assert_eq!(agg.description, "the account");
    let names: Vec<&str> = agg.inbound_commands.iter().map(|e| e.name.as_str()).collect();
    assert_eq!(names, vec!["CreateAccount", "ReserveFunds"]);
    let names: Vec<&str> = agg.inbound_events.iter().map(|e| e.name.as_str()).collect();
    assert_eq!(names, vec!["AccountCreated", "WireTransferRequested"]);
    assert!(AggregateSummary::new_from_eventcatalog(&c, "interbank").is_none());

    let pm = ProcessManagerSummary::new_from_eventcatalog(&c, "interbank").unwrap();
    assert_eq!(pm.name, "Interbank Process Manager");
    assert_eq!(pm.description, "transfers");
    assert_eq!(pm.doc, "");
    assert_eq!(pm.inbound.len(), 1);
    assert_eq!(pm.inbound[0].name, "WireTransferRequested");
    assert_eq!(pm.outbound.len(), 1);
    assert_eq!(pm.outbound[0].name, "ReserveFunds");
    assert!(ProcessManagerSummary::new_from_eventcatalog(&c, "bankaccount").is_none());

    let proj = GenHandlerSummary::new_from_eventcatalog(&c, "bankaccount", EntityType::Projector).unwrap();
    assert_eq!(proj.name, "bankaccount");
    assert_eq!(proj.entity_type, EntityType::Projector);
    assert_eq!(proj.inbound.len(), 1);
    assert_eq!(proj.inbound[0].name, "AccountCreated");
    assert!(proj.outbound.is_empty());
    let n = GenHandlerSummary::new_from_eventcatalog(&c, "mailer", EntityType::Notifier).unwrap();
    assert_eq!(n.name, "mailer");
    assert!(n.inbound.is_empty());
    assert!(GenHandlerSummary::new_from_eventcatalog(&c, "mailer", EntityType::Projector).is_none());
}

#[test]
fn index_records_hold_their_summaries() {
    let e = Entity {
        name: "n".to_string(),
        description: "d".to_string(),
        link: EntityType::Event.link("n"),
        entity_type: EntityType::Event,
    };
    let agg = AggregateIndex {
        aggregates: vec![AggregateSummary {
            name: "a".to_string(),
            description: "".to_string(),
            inbound_commands: vec![],
            inbound_events: vec![e.clone()],
        }],
    };
    assert_eq!(agg.aggregates[0].inbound_events[0].link, "./evt_index.md#n");
    let ev = EventIndex {
        events: vec![EventSummary {
            name: "e".to_string(),
            description: "".to_string(),
            doc: "".to_string(),
            spec: "".to_string(),
            inbound: vec![],
            outbound: vec![e.clone()],
        }],
    };
    assert_eq!(ev.events.len(), 1);
    let n = Notifierindex {
        notifiers: vec![NotifierSummary { name: "N".to_string(), description: "".to_string(), inbound: vec![e.clone()] }],
    };
    assert_eq!(n.notifiers[0].name, "N");
    let p = ProjectorIndex {
        projectors: vec![ProjectorSummary {
            name: "p".to_string(),
            description: "".to_string(),
            doc: "".to_string(),
            inbound: vec![],
        }],
    };
    assert_eq!(p.clone(), p);
    let c = CommandIndex {
        commands: vec![CommandSummary {
            name: "c".to_string(),
            description: "".to_string(),
            doc: "".to_string(),
            inbound: vec![],
            outbound: vec![],
        }],
    };
    assert_eq!(c.commands[0].name, "c");
    let pm = ProcessManagerIndex { process_managers: vec![] };
    assert!(pm.process_managers.is_empty());
}
