use concordance::config::ActorInterest;
use concordance::config::ActorRole;
use concordance::config::BaseConfiguration;
use concordance::config::BusCredentials;
use concordance::config::InterestConstraint;
use concordance::config::InterestDeclaration;
use concordance::config::LinkConfigurationRaw;
use concordance::config::ProcessManagerLifetime;
use concordance::eventsourcing::Event;
use concordance::link::LinkDefinition;
use concordance::link::LinkValues;

fn generate_ld(hm: LinkValues) -> LinkDefinition {
    let mut ld = LinkDefinition::default();

    ld.actor_id = "MAEYUH6M3BIWY5GXHXXUUZNX736AKZ363UY2PQKVHOTHIC2PY2MNVMVA".to_string();
    ld.provider_id = "VAJIAL5WURDEFJLT4HCZS2JD3LRRESRO4PN2ULUKXATIB7PFTLWYYQO6".to_string();
    ld.link_name = "default".to_string();
    ld.contract_id = "cosmonic:evensourcing".to_string();
    ld.values = hm;
    ld
}

fn values(pairs: &[(&str, &str)]) -> LinkValues {
    let mut hm = LinkValues::new();
    for (k, v) in pairs {
        hm.insert(k.to_string(), v.to_string());
    }
    hm
}

#[test]
fn rejects_empty_linkdefinition() {
    let ld = LinkDefinition::default();
    let decl = InterestDeclaration::from_linkdefinition(ld);

    assert!(decl.is_err());
    let e = decl.err().unwrap();
    assert!(e.starts_with("Failed to parse valid interest declaration from link definition"));
}

#[test]
fn accepts_valid_linkdefinition() {
    let mut hm = LinkValues::new();
    hm.insert("ROLE".to_string(), "aggregate".to_string());
    hm.insert("INTEREST".to_string(), "user".to_string());
    hm.insert("NAME".to_string(), "user".to_string());
    let ld = generate_ld(hm);

    let decl = InterestDeclaration::from_linkdefinition(ld).unwrap();
    // Aggregates produce 2 consumers
    assert_eq!(2, decl.len());
    assert_eq!(
        decl[0].actor_id,
        "MAEYUH6M3BIWY5GXHXXUUZNX736AKZ363UY2PQKVHOTHIC2PY2MNVMVA".to_string()
    );
    assert_eq!(200, decl[0].extract_max_messages_per_batch()); // default is 200
    assert_eq!(decl[0].role, ActorRole::Aggregate);
    assert_eq!(
        decl[0].interest,
        ActorInterest::AggregateStream("user".to_string())
    );
}

#[test]
fn accepts_max_batch_pull_size() {
    let mut hm = LinkValues::new();
    hm.insert("ROLE".to_string(), "aggregate".to_string());
    hm.insert("INTEREST".to_string(), "user".to_string());
    hm.insert("NAME".to_string(), "user".to_string());
    hm.insert("maX_meSsaGes_PeR_BaTcH".to_string(), "110".to_string());
    let ld = generate_ld(hm);

    let decl = InterestDeclaration::from_linkdefinition(ld).unwrap();
    // Aggregates produce 2 consumers
    assert_eq!(2, decl.len());
    assert_eq!(
        decl[0].actor_id,
        "MAEYUH6M3BIWY5GXHXXUUZNX736AKZ363UY2PQKVHOTHIC2PY2MNVMVA".to_string()
    );
    assert_eq!(110, decl[0].extract_max_messages_per_batch());
    assert_eq!(decl[0].role, ActorRole::Aggregate);
    assert_eq!(
        decl[0].interest,
        ActorInterest::AggregateStream("user".to_string())
    );
}

#[test]
fn rejects_bogus_linkdefinition() {
    let mut hm = LinkValues::new();
    hm.insert("ROLE".to_string(), "aggregate".to_string());
    hm.insert("INTEREST".to_string(), "bankaccount".to_string());
    let ld = generate_ld(hm);

    let decl = InterestDeclaration::from_linkdefinition(ld);
    assert!(decl.is_err());
    let e = decl.err().unwrap();
    assert!(e.starts_with("Failed to parse valid interest declaration from link definition:"));
}

#[test]
fn accepts_interest_list() {
    let mut hm = LinkValues::new();
    hm.insert("ROLE".to_string(), "notifier".to_string());
    hm.insert(
        "INTEREST".to_string(),
        "order_created,OrderUpdated,orderDeleted".to_string(),
    );
    hm.insert("NAME".to_string(), "order".to_string());
    let ld = generate_ld(hm);
    let decl = &InterestDeclaration::from_linkdefinition(ld).unwrap()[0];

    assert_eq!(
        decl.interest,
        ActorInterest::EventList(vec![
            "order_created".to_string(),
            "order_updated".to_string(),
            "order_deleted".to_string()
        ])
    );
}

#[test]
fn accepts_process_manager_interest_bad_json() {
    let mut hm = LinkValues::new();
    hm.insert("RoLE".to_string(), "process_ManaGeR".to_string());
    hm.insert("InTeResT".to_string(),
        r##"{"start": "orderCreated", "advance": ["orderUpdated", "OrdErShipPeD"], "stop": "OrderCompleted", "order_canceled"]}"##.to_string()
    );
    hm.insert("NAME".to_string(), "order".to_string());
    let ld = generate_ld(hm);
    let decl = InterestDeclaration::from_linkdefinition(ld);
    assert!(decl.is_err());
}

#[test]
fn accepts_process_manager_interest() {
    let mut hm = LinkValues::new();
    hm.insert("RoLE".to_string(), "process_ManaGeR".to_string());
    hm.insert("InTeResT".to_string(),
        r##"{"start": "orderCreated", "advance": ["orderUpdated", "OrderShipped"], "stop": ["OrderCompleted", "order_canceled"]}"##.to_string()
    );
    hm.insert("NAME".to_string(), "order".to_string());
    let ld = generate_ld(hm);
    let decl = &InterestDeclaration::from_linkdefinition(ld).unwrap()[0];

    assert_eq!(
        decl.interest,
        ActorInterest::ProcessManager(ProcessManagerLifetime {
            start: "order_created".to_string(),
            advance: vec!["order_updated".to_string(), "order_shipped".to_string()],
            stop: vec!["order_completed".to_string(), "order_canceled".to_string()]
        })
    );
}

#[test]
fn test_interest_paths() {
    // Aggregate happy
    let agg = InterestDeclaration::aggregate_for_events(
        "MXBOB",
        "gameboard",
        "game_id",
        LinkDefinition::default(),
    );
    let ev = Event {
        event_type: "player_moved".to_string(),
        payload: vec![],
        stream: "gameboard".to_string(),
    };
    assert!(agg.is_interested_in_event(&ev));

    // Aggregate sad
    let ev = Event {
        event_type: "player_died".to_string(),
        payload: vec![],
        stream: "match".to_string(),
    };
    assert!(!agg.is_interested_in_event(&ev));

    // Procman
    let raw_interest = r##"{"start":"game_started","advance":["turn_advanced","turn_skipped"],"stop":["game_finished","game_aborted"]}"##;
    let agg = InterestDeclaration::new(
        "MXBOB",
        "gameboard",
        ActorRole::ProcessManager,
        "game_id",
        ActorInterest::from_role_interest(raw_interest, &ActorRole::ProcessManager).unwrap(),
        LinkDefinition::default(),
    );
    let event_wanted = Event {
        event_type: "game_started".to_string(),
        stream: "gameboard".to_string(),
        payload: vec![],
    };
    let event_unwanted = Event {
        event_type: "player_profile_updated".to_string(),
        stream: "gameboard".to_string(),
        payload: vec![],
    };
    assert!(agg.is_interested_in_event(&event_wanted));
    assert!(!agg.is_interested_in_event(&event_unwanted));
}

#[test]
fn role_names_are_read_without_regard_to_case() {
    assert_eq!(ActorRole::from_name(" AggreGate "), ActorRole::Aggregate);
    assert_eq!(ActorRole::from_name("PROJECTOR"), ActorRole::Projector);
    assert_eq!(ActorRole::from_name("process_manager"), ActorRole::ProcessManager);
    assert_eq!(ActorRole::from_name("Notifier\n"), ActorRole::Notifier);
    assert_eq!(ActorRole::from_name("process manager"), ActorRole::Unknown);
    assert_eq!(ActorRole::from_name("foo"), ActorRole::Unknown);
    assert_eq!(ActorRole::from_name(""), ActorRole::Unknown);
}

#[test]
fn roles_and_constraints_in_words() {
    assert_eq!(ActorRole::Aggregate.to_string(), "aggregate");
    assert_eq!(ActorRole::Projector.to_string(), "projector");
    assert_eq!(ActorRole::ProcessManager.to_string(), "process manager");
    assert_eq!(ActorRole::Notifier.to_string(), "notifier");
    assert_eq!(ActorRole::Unknown.to_string(), "unknown");
    assert_eq!(InterestConstraint::Commands.to_string(), "commands");
    assert_eq!(InterestConstraint::Events.to_string(), "events");
}

#[test]
fn aggregate_binding_happy_path() {
    let ld = generate_ld(values(&[
        ("role", "aggregate"),
        ("name", "bankaccount"),
        ("interest", "bankaccount"),
        ("key", "account_number"),
    ]));
    let decls = InterestDeclaration::from_linkdefinition(ld).unwrap();
    assert_eq!(decls.len(), 2);
    assert_eq!(decls[0].consumer_name(), "AGG_CMD_bankaccount");
    assert_eq!(decls[1].consumer_name(), "AGG_EVT_bankaccount");
    assert_eq!(decls[0].interest_constraint, InterestConstraint::Commands);
    assert_eq!(decls[1].interest_constraint, InterestConstraint::Events);
    // the two differ in nothing but the constraint
    assert_eq!(decls[0].actor_id, decls[1].actor_id);
    assert_eq!(decls[0].entity_name, decls[1].entity_name);
    assert_eq!(decls[0].key_field, "account_number");
    assert_eq!(decls[1].key_field, "account_number");
    assert_eq!(decls[0].role, decls[1].role);
    assert_eq!(decls[0].interest, decls[1].interest);
    assert_eq!(
        decls[0].link_definition.values.get("role"),
        decls[1].link_definition.values.get("role")
    );
    assert!(!decls[0].same_as(&decls[1]));
    assert!(decls[0].same_as(&decls[0].clone()));
}

#[test]
fn binding_with_unknown_role_is_rejected() {
    let ld = generate_ld(values(&[("role", "foo"), ("name", "x"), ("interest", "x")]));
    let e = InterestDeclaration::from_linkdefinition(ld).err().unwrap();
    assert!(e.starts_with("Unknown declared role"));
    assert_eq!(e, "Unknown declared role for actor. Aborting link set.");
}

#[test]
fn unparsable_binding_names_the_participant() {
    let ld = generate_ld(values(&[("role", "aggregate")]));
    let e = InterestDeclaration::from_linkdefinition(ld).err().unwrap();
    assert_eq!(
        e,
        "Failed to parse valid interest declaration from link definition: MAEYUH6M3BIWY5GXHXXUUZNX736AKZ363UY2PQKVHOTHIC2PY2MNVMVA"
    );
}

#[test]
fn every_other_role_expands_to_one_declaration() {
    for (role, expected) in [
        ("projector", ActorRole::Projector),
        ("notifier", ActorRole::Notifier),
    ] {
        let ld = generate_ld(values(&[("role", role), ("name", "order"), ("interest", "a, B ,cD")]));
        let decls = InterestDeclaration::from_linkdefinition(ld).unwrap();
        assert_eq!(decls.len(), 1);
        assert_eq!(decls[0].role, expected);
        assert_eq!(decls[0].interest_constraint, InterestConstraint::Events);
        assert_eq!(
            decls[0].interest,
            ActorInterest::EventList(vec!["a".to_string(), "b".to_string(), "c_d".to_string()])
        );
    }
}

#[test]
fn keys_are_trimmed_and_lower_cased() {
    let ld = generate_ld(values(&[(" Role ", "Aggregate"), ("NAME", "Order"), ("Interest", "x")]));
    let decls = InterestDeclaration::from_linkdefinition(ld).unwrap();
    assert_eq!(decls.len(), 2);
    assert_eq!(decls[0].entity_name, "Order");
    assert_eq!(decls[0].interest, ActorInterest::AggregateStream("x".to_string()));
    assert_eq!(decls[0].link_definition.values.get("role").unwrap(), "Aggregate");
    assert!(decls[0].link_definition.values.get(" Role ").is_none());
}

#[test]
fn later_value_stands_where_keys_collide() {
    let ld = generate_ld(values(&[
        ("role", "notifier"),
        ("ROLE", "aggregate"),
        ("name", "order"),
        ("interest", "order"),
    ]));
    let decls = InterestDeclaration::from_linkdefinition(ld).unwrap();
    assert_eq!(decls.len(), 2);
    assert_eq!(decls[0].role, ActorRole::Aggregate);
    assert_eq!(decls[0].link_definition.values.len(), 3);
}

#[test]
fn encoded_configuration_overrides_the_settings() {
    let ld = generate_ld(values(&[
        ("role", "notifier"),
        ("name", "other"),
        ("interest", "other"),
        (
            "CONFIG_B64",
            "eyJyb2xlIjoiYWdncmVnYXRlIiwiaW50ZXJlc3QiOiJiYW5rYWNjb3VudCIsIm5hbWUiOiJiYW5rYWNjb3VudCIsImtleV9maWVsZCI6ImFjY291bnRfbnVtYmVyIn0",
        ),
    ]));
    let raw = LinkConfigurationRaw::from_linkdef(&ld).unwrap();
    assert_eq!(raw.role, "aggregate");
    assert_eq!(raw.interest, "bankaccount");
    assert_eq!(raw.name, "bankaccount");
    assert_eq!(raw.key_field, "account_number");
    let decls = InterestDeclaration::from_linkdefinition(ld).unwrap();
    assert_eq!(decls.len(), 2);
    assert_eq!(decls[0].consumer_name(), "AGG_CMD_bankaccount");
    assert_eq!(decls[0].key_field, "account_number");
}

#[test]
fn unreadable_encoded_configuration_rejects_the_binding() {
    // not base64
    let ld = generate_ld(values(&[
        ("role", "aggregate"),
        ("name", "x"),
        ("interest", "x"),
        ("config_b64", "!!!"),
    ]));
    assert!(LinkConfigurationRaw::from_linkdef(&ld).is_none());
    assert!(InterestDeclaration::from_linkdefinition(ld).is_err());
    // base64 of a document without the key field
    let ld = generate_ld(values(&[(
        "config_b64",
        "eyJyb2xlIjoiYWdncmVnYXRlIiwiaW50ZXJlc3QiOiJiYW5rYWNjb3VudCIsIm5hbWUiOiJiYW5rYWNjb3VudCJ9",
    )]));
    assert!(LinkConfigurationRaw::from_linkdef(&ld).is_none());
    // padded base64 is not accepted
    let ld = generate_ld(values(&[(
        "config_b64",
        "eyJyb2xlIjoiYWdncmVnYXRlIiwiaW50ZXJlc3QiOiJiYW5rYWNjb3VudCIsIm5hbWUiOiJiYW5rYWNjb3VudCJ9==",
    )]));
    assert!(LinkConfigurationRaw::from_linkdef(&ld).is_none());
}

#[test]
fn raw_configuration_from_settings() {
    let ld = generate_ld(values(&[("role", "AGGREGATE"), ("name", "A"), ("interest", "I")]));
    let raw = LinkConfigurationRaw::from_linkdef(&ld).unwrap();
    assert_eq!(raw.role, "aggregate");
    assert_eq!(raw.interest, "I");
    assert_eq!(raw.name, "A");
    assert_eq!(raw.key_field, "");
    let raw = LinkConfigurationRaw::from_json(
        br#"{"role":"Notifier","interest":"a,b","name":"n","key_field":"k","more":1}"#,
    )
    .unwrap();
    assert_eq!(raw.role, "Notifier");
    assert_eq!(raw.key_field, "k");
    assert!(LinkConfigurationRaw::from_json(br#"{"role":1,"interest":"a","name":"n","key_field":"k"}"#).is_none());
    assert!(LinkConfigurationRaw::from_json(b"[]").is_none());
}

#[test]
fn interest_by_role() {
    assert_eq!(
        ActorInterest::from_role_interest("BankAccount", &ActorRole::Aggregate).unwrap(),
        ActorInterest::AggregateStream("bank_account".to_string())
    );
    assert_eq!(
        ActorInterest::from_role_interest(" accountOpened , b", &ActorRole::Projector).unwrap(),
        ActorInterest::EventList(vec!["account_opened".to_string(), "b".to_string()])
    );
    assert_eq!(
        ActorInterest::from_role_interest("", &ActorRole::Notifier).unwrap(),
        ActorInterest::EventList(vec!["".to_string()])
    );
    assert_eq!(
        ActorInterest::from_role_interest("anything", &ActorRole::Unknown).unwrap(),
        ActorInterest::PublishOnly
    );
    let e = ActorInterest::from_role_interest("{}", &ActorRole::ProcessManager).err().unwrap();
    assert_eq!(e, "serialization: interest is not a process manager lifetime");
    assert!(ActorInterest::from_role_interest(
        r#"{"start":"a","advance":["b",1],"stop":[]}"#,
        &ActorRole::ProcessManager
    )
    .is_err());
    assert!(ActorInterest::from_role_interest(
        r#"{"start":"a","advance":"b","stop":[]}"#,
        &ActorRole::ProcessManager
    )
    .is_err());
    assert_eq!(
        ActorInterest::from_role_interest(
            r#"{"start":"A","advance":[],"stop":[], "extra": true}"#,
            &ActorRole::ProcessManager
        )
        .unwrap(),
        ActorInterest::ProcessManager(ProcessManagerLifetime {
            start: "a".to_string(),
            advance: vec![],
            stop: vec![]
        })
    );
}

#[test]
fn interest_matching() {
    let list = ActorInterest::EventList(vec!["order_created".to_string()]);
    assert!(list.is_interested_in_event("order_created", "anything"));
    // a list goes by the type as it is written
    assert!(!list.is_interested_in_event("OrderCreated", "anything"));
    assert!(!ActorInterest::PublishOnly.is_interested_in_event("order_created", "order"));
    let lifetime = ProcessManagerLifetime {
        start: "game_started".to_string(),
        advance: vec!["turn_advanced".to_string()],
        stop: vec!["game_finished".to_string()],
    };
    // a lifetime goes by the type in snake case
    assert!(lifetime.is_interested_in_event("GameStarted"));
    assert!(lifetime.is_interested_in_event("turnAdvanced"));
    assert!(lifetime.is_interested_in_event("game_finished"));
    assert!(!lifetime.is_interested_in_event("player_profile_updated"));
    assert!(lifetime.event_starts_new_process("gameStarted"));
    assert!(!lifetime.event_starts_new_process("turn_advanced"));
    assert!(list.same_as(&list.clone()));
    assert!(!list.same_as(&ActorInterest::PublishOnly));
    assert!(!list.same_as(&ActorInterest::EventList(vec![])));
}

#[test]
fn consumer_names() {
    let ld = LinkDefinition::default;
    let d = InterestDeclaration::new(
        "A",
        "order",
        ActorRole::ProcessManager,
        "k",
        ActorInterest::PublishOnly,
        ld(),
    );
    assert_eq!(d.consumer_name(), "PM_order");
    let d = InterestDeclaration::new("A", "order", ActorRole::Notifier, "k", ActorInterest::PublishOnly, ld());
    assert_eq!(d.consumer_name(), "NOTIFIER_order");
    let d = InterestDeclaration::new("B", "order", ActorRole::Projector, "", ActorInterest::EventList(vec![]), ld());
    assert_eq!(d.consumer_name(), "PROJ_order");
    let d = InterestDeclaration::new("B", "order", ActorRole::Unknown, "", ActorInterest::PublishOnly, ld());
    assert_eq!(d.consumer_name(), "");
    // the name depends on role, constraint and entity alone
    let a = InterestDeclaration::aggregate_for_commands("A", "order", "k1", ld());
    let b = InterestDeclaration::aggregate_for_commands("B", "order", "k2", generate_ld(values(&[("x", "y")])));
    assert_eq!(a.consumer_name(), "AGG_CMD_order");
    assert_eq!(a.consumer_name(), b.consumer_name());
    assert_eq!(
        InterestDeclaration::aggregate_for_events("A", "order", "k1", ld()).consumer_name(),
        "AGG_EVT_order"
    );
}

#[test]
fn declaration_in_words() {
    let mut ld = LinkDefinition::default();
    ld.actor_id = "MXBOB".to_string();
    let d = InterestDeclaration::aggregate_for_commands("MXBOB", "order", "k", ld);
    assert_eq!(d.to_string(), "order (aggregate) - source type: commands, target: MXBOB");
}

#[test]
fn key_is_picked_from_the_payload() {
    let d = InterestDeclaration::aggregate_for_events("A", "order", "order_id", LinkDefinition::default());
    assert_eq!(d.extract_key_value_from_payload(br#"{"order_id":" 42 ","x":1}"#), "42");
    assert_eq!(d.extract_key_value_from_payload(br#"{"order_id":42}"#), "");
    assert_eq!(d.extract_key_value_from_payload(br#"{"other":"42"}"#), "");
    assert_eq!(d.extract_key_value_from_payload(b"not json"), "");
    assert_eq!(d.extract_key_value_from_payload(b""), "");
    assert_eq!(d.extract_key_value_from_payload(br#"["order_id"]"#), "");
    let d = InterestDeclaration::aggregate_for_events("A", "order", "", LinkDefinition::default());
    assert_eq!(d.extract_key_value_from_payload(br#"{"":"42"}"#), "");
}

#[test]
fn batch_size_that_is_no_number_gives_the_default() {
    let ld = generate_ld(values(&[("max_messages_per_batch", "many")]));
    let d = InterestDeclaration::aggregate_for_events("A", "order", "", ld);
    assert_eq!(d.extract_max_messages_per_batch(), 200);
    let ld = generate_ld(values(&[("max_messages_per_batch", "-1")]));
    let d = InterestDeclaration::aggregate_for_events("A", "order", "", ld);
    assert_eq!(d.extract_max_messages_per_batch(), 200);
    let ld = generate_ld(values(&[("max_messages_per_batch", "0")]));
    let d = InterestDeclaration::aggregate_for_events("A", "order", "", ld);
    assert_eq!(d.extract_max_messages_per_batch(), 0);
}

#[test]
fn credentials_must_come_together() {
    let mut c = BaseConfiguration::default();
    assert_eq!(c.nats_url, "127.0.0.1:4222");
    assert!(c.user_jwt.is_none() && c.user_seed.is_none() && c.js_domain.is_none());
    assert_eq!(c.credentials().unwrap(), BusCredentials::Anonymous);
    c.user_jwt = Some("  ".to_string());
    c.user_seed = Some("".to_string());
    assert_eq!(c.credentials().unwrap(), BusCredentials::Anonymous);
    c.user_jwt = Some("jwt".to_string());
    assert_eq!(
        c.credentials().err().unwrap(),
        "must provide both jwt and seed for jwt authentication"
    );
    c.user_seed = Some("seed".to_string());
    assert_eq!(
        c.credentials().unwrap(),
        BusCredentials::Jwt { jwt: "jwt".to_string(), seed: "seed".to_string() }
    );
    c.user_jwt = None;
    assert!(c.credentials().is_err());
}

#[test]
fn link_values_behave_like_a_map() {
    let mut hm = LinkValues::new();
    assert_eq!(hm.len(), 0);
    assert!(hm.get("a").is_none());
    hm.insert("a".to_string(), "1".to_string());
    hm.insert("b".to_string(), "2".to_string());
    hm.insert("a".to_string(), "3".to_string());
    assert_eq!(hm.len(), 2);
    assert_eq!(hm.get("a").unwrap(), "3");
    assert_eq!(hm.get("b").unwrap(), "2");
    assert!(hm.contains_key("b"));
    assert!(!hm.contains_key("B"));
    assert_eq!(hm.key_at(0), "a");
    assert_eq!(hm.value_at(1), "2");
    let copy = hm.clone();
    assert_eq!(copy.get("a").unwrap(), "3");
    assert_eq!(copy.len(), 2);
}

#[test]
fn declarations_are_equal_where_they_stand_for_the_same_consumer() {
    let a = InterestDeclaration::aggregate_for_events("A", "order", "k1", LinkDefinition::default());
    let b = InterestDeclaration::aggregate_for_events("A", "order", "k2", generate_ld(values(&[("x", "y")])));
    let c = InterestDeclaration::aggregate_for_commands("A", "order", "k1", LinkDefinition::default());
    let d = InterestDeclaration::aggregate_for_events("B", "order", "k1", LinkDefinition::default());
    assert_eq!(a, b);
    assert_ne!(a, c);
    assert_ne!(a, d);
    assert_eq!(ActorRole::from(" Aggregate".to_string()), ActorRole::Aggregate);
    assert_eq!(ActorRole::from("nothing".to_string()), ActorRole::Unknown);
}

#[test]
fn batch_sizes_are_plain_decimal_numbers() {
    for (text, expected) in [
        ("+110", 110usize),
        ("0012", 12),
        ("18446744073709551615", 18446744073709551615),
        ("18446744073709551616", 200),
        (" 110", 200),
        ("110 ", 200),
        ("1_000", 200),
        ("0x10", 200),
        ("+", 200),
        ("++1", 200),
        ("", 200),
        ("\u{0661}", 200),
    ] {
        let ld = generate_ld(values(&[("max_messages_per_batch", text)]));
        let d = InterestDeclaration::aggregate_for_events("A", "order", "", ld);
        assert_eq!(d.extract_max_messages_per_batch(), expected, "for {:?}", text);
    }
}

#[test]
fn white_space_around_names_does_not_count() {
    for c in [
        '\u{09}', '\u{0A}', '\u{0B}', '\u{0C}', '\u{0D}', '\u{20}', '\u{85}', '\u{A0}',
        '\u{1680}', '\u{2000}', '\u{2005}', '\u{200A}', '\u{2028}', '\u{2029}', '\u{202F}',
        '\u{205F}', '\u{3000}',
    ] {
        let text = format!("{c}{c}aggregate{c}");
        assert_eq!(ActorRole::from_name(&text), ActorRole::Aggregate, "for {:?}", c);
        let text = format!("aggre{c}gate");
        assert_eq!(ActorRole::from_name(&text), ActorRole::Unknown, "for {:?}", c);
    }
    for c in ['\u{08}', '\u{0E}', '\u{1F}', '\u{180E}', '\u{200B}', '\u{2060}', '\u{FEFF}', '_'] {
        let text = format!("{c}aggregate");
        assert_eq!(ActorRole::from_name(&text), ActorRole::Unknown, "for {:?}", c);
        let text = format!("aggregate{c}");
        assert_eq!(ActorRole::from_name(&text), ActorRole::Unknown, "for {:?}", c);
    }
    let d = InterestDeclaration::aggregate_for_events("A", "order", "id", LinkDefinition::default());
    assert_eq!(
        d.extract_key_value_from_payload("{\"id\":\"\\u3000 a b \\n\"}".as_bytes()),
        "a b"
    );
    assert_eq!(d.extract_key_value_from_payload(br#"{"id":"   "}"#), "");
}

#[test]
fn aggregate_is_interested_in_the_stream_that_its_interest_names() {
    let ld = generate_ld(values(&[
        ("role", "aggregate"),
        ("name", "BankAccount"),
        ("interest", "BankAccount"),
    ]));
    let decls = InterestDeclaration::from_linkdefinition(ld).unwrap();
    assert_eq!(decls.len(), 2);
    for decl in &decls {
        assert_eq!(decl.entity_name, "BankAccount");
        assert_eq!(decl.interest, ActorInterest::AggregateStream("bank_account".to_string()));
    }
    assert_eq!(decls[0].consumer_name(), "AGG_CMD_BankAccount");
    assert_eq!(decls[1].consumer_name(), "AGG_EVT_BankAccount");

    // the interest, not the name, decides which events the aggregate sees
    let ld = generate_ld(values(&[("role", "aggregate"), ("name", "ledger"), ("interest", "bankAccount")]));
    let decls = InterestDeclaration::from_linkdefinition(ld).unwrap();
    assert_eq!(decls[1].interest, ActorInterest::AggregateStream("bank_account".to_string()));
    let of_stream = Event::new("funds_deposited", "bank_account", vec![]);
    let of_name = Event::new("funds_deposited", "ledger", vec![]);
    assert!(decls[1].is_interested_in_event(&of_stream));
    assert!(!decls[1].is_interested_in_event(&of_name));
}

#[test]
fn declarations_for_a_given_role() {
    let source = generate_ld(values(&[("role", "whatever")]));
    let raw = LinkConfigurationRaw {
        role: "whatever".to_string(),
        interest: "orderCreated, OrderShipped".to_string(),
        name: "order".to_string(),
        key_field: "order_id".to_string(),
    };
    let decls = InterestDeclaration::for_role(&source, &raw, ActorRole::Aggregate).unwrap();
    assert_eq!(decls.len(), 2);
    assert_eq!(decls[0].interest_constraint, InterestConstraint::Commands);
    assert_eq!(decls[1].interest_constraint, InterestConstraint::Events);
    assert_eq!(
        decls[0].interest,
        ActorInterest::AggregateStream("order_created, _order_shipped".to_string())
    );
    assert_eq!(decls[0].key_field, "order_id");
    assert_eq!(decls[0].actor_id, source.actor_id);

    let decls = InterestDeclaration::for_role(&source, &raw, ActorRole::Projector).unwrap();
    assert_eq!(decls.len(), 1);
    assert_eq!(decls[0].role, ActorRole::Projector);
    assert_eq!(decls[0].interest_constraint, InterestConstraint::Events);
    assert_eq!(
        decls[0].interest,
        ActorInterest::EventList(vec!["order_created".to_string(), "order_shipped".to_string()])
    );

    assert_eq!(
        InterestDeclaration::for_role(&source, &raw, ActorRole::Unknown).err().unwrap(),
        "Unknown declared role for actor. Aborting link set."
    );
    assert_eq!(
        InterestDeclaration::for_role(&source, &raw, ActorRole::ProcessManager).err().unwrap(),
        "serialization: interest is not a process manager lifetime"
    );
}

#[test]
fn roles_by_their_exact_names() {
    assert_eq!(ActorRole::from_normalized_name("aggregate"), ActorRole::Aggregate);
    assert_eq!(ActorRole::from_normalized_name("notifier"), ActorRole::Notifier);
    assert_eq!(ActorRole::from_normalized_name("process_manager"), ActorRole::ProcessManager);
    assert_eq!(ActorRole::from_normalized_name("projector"), ActorRole::Projector);
    assert_eq!(ActorRole::from_normalized_name("Aggregate"), ActorRole::Unknown);
    assert_eq!(ActorRole::from_normalized_name(" aggregate"), ActorRole::Unknown);
    assert_eq!(ActorRole::from_normalized_name(""), ActorRole::Unknown);
}

#[test]
fn lifetime_from_names() {
    let lifetime = ProcessManagerLifetime::from_names(
        "orderCreated",
        &vec!["orderUpdated".to_string(), "OrderShipped".to_string()],
        &vec![],
    );
    assert_eq!(
        lifetime,
        ProcessManagerLifetime {
            start: "order_created".to_string(),
            advance: vec!["order_updated".to_string(), "order_shipped".to_string()],
            stop: vec![],
        }
    );
}
