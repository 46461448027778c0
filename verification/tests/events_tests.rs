use concordance::events::bus_to_internal;
use concordance::events::command_topic;
use concordance::events::envelope_with;
use concordance::events::event_topic;
use concordance::events::internal_to_bus;
use concordance::events::sanitize_command;
use concordance::events::sanitize_envelope;
use concordance::events::BusEnvelope;
use concordance::events::EnvelopeData;
use concordance::events::RawCommand;
use concordance::eventsourcing::Event;
use concordance::eventsourcing::OutputCommand;
use concordance::eventsourcing::ProcessManagerAck;
use concordance::eventsourcing::StateAck;
use concordance::eventsourcing::StatelessAck;

#[test]
fn to_from_roundtrip() {
    let payload =
        br#"{"initial_balance":100,"account_number":"ABC123","min_balance":1000}"#.to_vec();

    let internal_event = Event {
        event_type: "account_created".to_string(),
        payload,
        stream: "bankaccount".to_string(),
    };
    let ce: BusEnvelope = internal_to_bus(&internal_event);

    assert_eq!(ce.stream, Some("bankaccount".to_string()));

    // Ensure that we can get the original event out of the envelope's `data` field
    if let Some(EnvelopeData::Json(j)) = &ce.data {
        let round_tripped: serde_json::Value = serde_json::from_slice(j).unwrap();
        assert_eq!(round_tripped.get("account_number").unwrap().as_str(), Some("ABC123"));
        assert_eq!(round_tripped.get("initial_balance").unwrap().as_u64(), Some(100));
    } else {
        panic!("the envelope carries no JSON data");
    }

    let ie2: Event = bus_to_internal(&ce);
    assert_eq!(ie2.event_type, "account_created");
    assert_eq!(ie2.stream, "bankaccount");
    let ace2: serde_json::Value = serde_json::from_slice(&ie2.payload).unwrap();
    assert_eq!(ace2.get("account_number").unwrap().as_str(), Some("ABC123"));
    assert_eq!(ace2.get("min_balance").unwrap().as_u64(), Some(1000));
}

#[test]
fn envelope_of_an_event() {
    let event = Event::new("account_created", "bankaccount", br#"{"a":1}"#.to_vec());
    let env = envelope_with(&event, "id-1".to_string(), "2023-02-14T19:21:09Z".to_string());
    assert_eq!(
        env,
        BusEnvelope {
            id: "id-1".to_string(),
            ty: "account_created".to_string(),
            source: "concordance".to_string(),
            time: Some("2023-02-14T19:21:09Z".to_string()),
            datacontenttype: Some("application/json".to_string()),
            stream: Some("bankaccount".to_string()),
            data: Some(EnvelopeData::Json(br#"{"a":1}"#.to_vec())),
        }
    );
    // a compact payload comes back as it was
    assert_eq!(bus_to_internal(&env), event);
}

#[test]
fn payload_comes_back_in_compact_form() {
    let event = Event::new("t", "s", b" { \"b\" : 1 ,\n \"a\" : [ 1, 2 ] } ".to_vec());
    let env = internal_to_bus(&event);
    let back = bus_to_internal(&env);
    assert_eq!(back.event_type, "t");
    assert_eq!(back.stream, "s");
    let compact = String::from_utf8(back.payload.clone()).unwrap();
    assert!(!compact.contains(' '));
    assert!(!compact.contains('\n'));
    let before: serde_json::Value = serde_json::from_slice(&event.payload).unwrap();
    let after: serde_json::Value = serde_json::from_slice(&back.payload).unwrap();
    assert_eq!(before, after);
    // and from there on it is stable
    let again = bus_to_internal(&internal_to_bus(&back));
    assert_eq!(again, back);
}

#[test]
fn payload_that_is_no_json_leaves_the_envelope_without_data() {
    let event = Event::new("t", "s", b"\xff\x00garbage".to_vec());
    let env = internal_to_bus(&event);
    assert_eq!(env.data, None);
    assert_eq!(env.datacontenttype, None);
    assert_eq!(env.ty, "t");
    let back = bus_to_internal(&env);
    assert_eq!(back.payload, Vec::<u8>::new());
    assert_eq!(back.stream, "s");
}

#[test]
fn fresh_envelopes_differ_in_their_identifier() {
    let event = Event::new("t", "s", b"1".to_vec());
    let a = internal_to_bus(&event);
    let b = internal_to_bus(&event);
    assert_ne!(a.id, b.id);
    assert_eq!(a.id.len(), 36);
    assert!(a.time.is_some());
    assert_eq!(a.source, "concordance");
    assert_eq!(a.data, b.data);
}

#[test]
fn envelope_without_extension_or_json() {
    let env = BusEnvelope {
        id: "1".to_string(),
        ty: "AmountWithdrawn".to_string(),
        source: "testy mctesto".to_string(),
        time: None,
        datacontenttype: None,
        stream: None,
        data: Some(EnvelopeData::Text("hello".to_string())),
    };
    let event = bus_to_internal(&env);
    assert_eq!(event.event_type, "AmountWithdrawn");
    assert_eq!(event.stream, "");
    assert!(event.payload.is_empty());
    let env = BusEnvelope { data: Some(EnvelopeData::Binary(vec![1, 2, 3])), ..env };
    assert!(bus_to_internal(&env).payload.is_empty());
    let env = BusEnvelope { data: None, ..env };
    assert!(bus_to_internal(&env).payload.is_empty());
    let clean = sanitize_envelope(env.clone());
    assert_eq!(clean.ty, "amount_withdrawn");
    assert_eq!(clean.id, env.id);
    assert_eq!(clean.source, env.source);
}

#[test]
fn topics() {
    assert_eq!(event_topic("amount_withdrawn"), "cc.events.amount_withdrawn");
    assert_eq!(event_topic("FundsDeposited"), "cc.events.funds_deposited");
    assert_eq!(event_topic("fundsDeposited"), "cc.events.funds_deposited");
    assert_eq!(event_topic(""), "cc.events.");
    assert_eq!(command_topic("bankaccount"), "cc.commands.bankaccount");
    assert_eq!(command_topic("BankAccount"), "cc.commands.BankAccount");
}

#[test]
fn command_types_are_put_in_snake_case() {
    let cmd = RawCommand {
        command_type: "CreateAccount".to_string(),
        key: "ABC".to_string(),
        data: b"{}".to_vec(),
    };
    let clean = sanitize_command(cmd.clone());
    assert_eq!(clean.command_type, "create_account");
    assert_eq!(clean.key, "ABC");
    assert_eq!(clean.data, b"{}".to_vec());
    // the characters of other alphabets are left alone
    let cmd = RawCommand { command_type: "martinLutherStringJr言語".to_string(), ..cmd };
    assert_eq!(sanitize_command(cmd).command_type, "martin_luther_string_jr言語");
}

#[test]
fn acknowledgements() {
    let ok = StatelessAck::ok();
    assert!(ok.succeeded);
    assert_eq!(ok.error, None);
    let bad = StatelessAck::error("boom".to_string());
    assert!(!bad.succeeded);
    assert_eq!(bad.error, Some("boom".to_string()));
    assert_eq!(StatelessAck::from_result(Ok(())), StatelessAck::ok());
    assert_eq!(StatelessAck::from_result(Err("boom".to_string())), bad);

    let ok = StateAck::ok(Some(vec![1]));
    assert!(ok.succeeded && ok.error.is_none());
    assert_eq!(ok.state, Some(vec![1]));
    assert_eq!(StateAck::ok(None).state, None);
    let bad = StateAck::error("no", Some(vec![2]));
    assert!(!bad.succeeded);
    assert_eq!(bad.error, Some("no".to_string()));
    assert_eq!(bad.state, Some(vec![2]));

    let cmd = OutputCommand::new("withdraw", b"{}".to_vec(), "bankaccount", "ABC");
    assert_eq!(cmd.command_type, "withdraw");
    assert_eq!(cmd.aggregate_stream, "bankaccount");
    assert_eq!(cmd.aggregate_key, "ABC");
    assert_eq!(cmd.json_payload, b"{}".to_vec());
    let ack = ProcessManagerAck::ok(None, vec![cmd.clone()]);
    assert_eq!(ack.state, None);
    assert_eq!(ack.commands.len(), 1);
    assert_eq!(ack.commands[0], cmd);
}

#[test]
fn commands_on_the_wire() {
    let cmd = RawCommand {
        command_type: "create \"account\"".to_string(),
        key: "ABC\n123".to_string(),
        data: b" { \"amount\" : 50 } ".to_vec(),
    };
    let wire = cmd.encode();
    assert_eq!(
        String::from_utf8(wire.clone()).unwrap(),
        r#"{"command_type":"create \"account\"","key":"ABC\n123","data":{"amount":50}}"#
    );
    let value: serde_json::Value = serde_json::from_slice(&wire).unwrap();
    assert_eq!(value.get("command_type").unwrap().as_str(), Some("create \"account\""));
    assert_eq!(value.get("key").unwrap().as_str(), Some("ABC\n123"));
    assert_eq!(value.get("data").unwrap().get("amount").unwrap().as_u64(), Some(50));

    let back = RawCommand::decode(&wire).unwrap();
    assert_eq!(back.command_type, cmd.command_type);
    assert_eq!(back.key, cmd.key);
    assert_eq!(back.data, br#"{"amount":50}"#.to_vec());
    // what was decoded is written as it was read
    assert_eq!(back.encode(), wire);

    let cmd = RawCommand { command_type: "c".to_string(), key: "".to_string(), data: b"oops".to_vec() };
    assert_eq!(String::from_utf8(cmd.encode()).unwrap(), r#"{"command_type":"c","key":"","data":null}"#);
    assert!(RawCommand::decode(b"{}").is_none());
}
