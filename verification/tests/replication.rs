use beetmash::dispatch::{ComponentFns, DropReason, EventFns, ObserverFns, ResourceFns, Routed};
use beetmash::events::{register_common_events, CommonEventPaths};
use beetmash::message::{Message, MessageIncoming, MessageKind, MessageOutgoing, MessagePayload};
use beetmash::observer::outgoing_send;
use beetmash::registration::{RegistrationId, ReplicateDirection};
use beetmash::registry::ReplicateRegistry;

/// A handler as a test would register it: it decodes the payload.
type Decode = fn(&MessagePayload) -> Result<i32, String>;

fn decode_i32(payload: &MessagePayload) -> Result<i32, String> {
    serde_json::from_slice::<i32>(payload.as_bytes()).map_err(|e| e.to_string())
}

fn decode_negated(payload: &MessagePayload) -> Result<i32, String> {
    decode_i32(payload).map(|value| -value)
}

fn encode_i32(value: i32) -> MessagePayload {
    MessagePayload::new(serde_json::to_vec(&value).unwrap())
}

const MY_EVENT: &str = "beetmash_net::replication::replicate_registry::test::MyEvent";
const MY_RESOURCE: &str = "beetmash_net::replication::replicate_registry::test::MyResource";
const MY_COMPONENT: &str = "beetmash_net::replication::replicate_registry::test::MyComponent";

#[test]
fn replicate_registry_works() {
    let mut registry: ReplicateRegistry<Decode> = ReplicateRegistry::new();
    registry.register_event(MY_EVENT, ReplicateDirection::Incoming, EventFns::new(decode_i32));
    registry.register_component(
        MY_COMPONENT,
        ReplicateDirection::Incoming,
        ComponentFns::new(decode_i32),
    );
    registry.register_resource(
        MY_RESOURCE,
        ReplicateDirection::Incoming,
        ResourceFns::new(decode_i32),
    );

    let json = registry.types_to_json();
    let json: serde_json::Value = serde_json::from_str(&json).unwrap();
    if let serde_json::Value::Object(map) = &json {
        assert_eq!(map.len(), 3);
        assert_eq!(map.get(MY_EVENT), Some(&serde_json::Value::Number(0.into())));
        assert_eq!(map.get(MY_RESOURCE), Some(&serde_json::Value::Number(2.into())));
        assert_eq!(map.get(MY_COMPONENT), Some(&serde_json::Value::Number(1.into())));
    } else {
        panic!("Expected object");
    }
}

#[test]
fn outgoing() {
    let mut registry: ReplicateRegistry<Decode> = ReplicateRegistry::new();
    registry.register_observer("MyEvent", ReplicateDirection::Outgoing, ObserverFns::new(decode_i32));
    let mut msg_out = MessageOutgoing::new();

    outgoing_send(&registry, &mut msg_out, "MyEvent", encode_i32(7));

    assert_eq!(msg_out.len(), 1);
    assert_eq!(
        msg_out.get(0),
        &Message::SendObserver { reg_id: RegistrationId::new_with(0), payload: encode_i32(7) }
    );
}

#[test]
fn incoming() {
    let mut registry1: ReplicateRegistry<Decode> = ReplicateRegistry::new();
    registry1.register_observer(
        "MyEvent",
        ReplicateDirection::Outgoing,
        ObserverFns::new(decode_i32),
    );
    let mut outgoing1 = MessageOutgoing::new();

    let mut registry2: ReplicateRegistry<Decode> = ReplicateRegistry::new();
    registry2.register_observer(
        "MyEvent",
        ReplicateDirection::Incoming,
        ObserverFns::new(decode_i32),
    );
    let mut incoming2 = MessageIncoming::new();

    outgoing_send(&registry1, &mut outgoing1, "MyEvent", encode_i32(7));
    Message::loopback(&mut outgoing1, &mut incoming2);

    assert_eq!(outgoing1.len(), 0);
    assert_eq!(incoming2.len(), 1);

    let mut triggered: Vec<i32> = Vec::new();
    let drained = incoming2.drain();
    for message in drained.iter() {
        if let Routed::Observer { fns, payload } = registry2.route(message) {
            triggered.push((fns.send)(payload).unwrap());
        }
    }
    assert_eq!(incoming2.len(), 0);
    assert_eq!(triggered.len(), 1);
    assert_eq!(triggered[0], 7);
}

#[test]
fn identifiers_follow_registration_order_whatever_the_direction() {
    let mut registry: ReplicateRegistry<Decode> = ReplicateRegistry::new();
    assert_eq!(registry.len(), 0);
    let first =
        registry.register_event("T1", ReplicateDirection::Outgoing, EventFns::new(decode_i32));
    let second = registry.register_component(
        "T2",
        ReplicateDirection::Bidirectional,
        ComponentFns::new(decode_i32),
    );
    let third =
        registry.register_resource("T3", ReplicateDirection::Incoming, ResourceFns::new(decode_i32));
    assert_eq!(first, RegistrationId::new_with(0));
    assert_eq!(second, RegistrationId::new_with(1));
    assert_eq!(third, RegistrationId::new_with(2));
    assert_eq!(first.inner(), 0);
    assert_eq!(third.inner(), 2);
    assert_eq!(registry.len(), 3);
    assert!(first < second && second < third);
    assert_eq!(registry.registration_id("T1"), first);
    assert_eq!(registry.registration_id("T2"), second);
    assert_eq!(registry.registration_id("T3"), third);
    assert_eq!(registry.find_registration_id("T4"), None);
    assert_eq!(registry.direction(first), Some(ReplicateDirection::Outgoing));
    assert_eq!(registry.direction(second), Some(ReplicateDirection::Bidirectional));
    assert_eq!(registry.direction(third), Some(ReplicateDirection::Incoming));
    assert_eq!(registry.direction(RegistrationId::new_with(3)), None);
    assert_eq!(registry.type_path(second).map(|s| s.as_str()), Some("T2"));
    assert_eq!(registry.type_path(RegistrationId::new_with(3)), None);
}

#[test]
fn directions_say_who_sends_and_who_receives() {
    assert!(ReplicateDirection::Incoming.is_incoming());
    assert!(!ReplicateDirection::Incoming.is_outgoing());
    assert!(!ReplicateDirection::Outgoing.is_incoming());
    assert!(ReplicateDirection::Outgoing.is_outgoing());
    assert!(ReplicateDirection::Bidirectional.is_incoming());
    assert!(ReplicateDirection::Bidirectional.is_outgoing());
}

#[test]
fn a_dispatch_entry_is_stored_only_for_what_may_be_received() {
    let mut registry: ReplicateRegistry<Decode> = ReplicateRegistry::new();
    let sent =
        registry.register_observer("Sent", ReplicateDirection::Outgoing, ObserverFns::new(decode_i32));
    let received = registry.register_observer(
        "Received",
        ReplicateDirection::Incoming,
        ObserverFns::new(decode_i32),
    );
    let both = registry.register_observer(
        "Both",
        ReplicateDirection::Bidirectional,
        ObserverFns::new(decode_negated),
    );
    assert!(registry.incoming_observer_fns(sent).is_none());
    assert!(registry.incoming_observer_fns(received).is_some());
    let entry = registry.incoming_observer_fns(both).unwrap();
    assert_eq!((entry.send)(&encode_i32(5)), Ok(-5));
    assert!(registry.incoming_event_fns(received).is_none());
    assert!(registry.incoming_resource_fns(received).is_none());
    assert!(registry.incoming_component_fns(received).is_none());
    assert!(registry.incoming_observer_fns(RegistrationId::new_with(9)).is_none());
}

#[test]
fn a_type_registered_for_sending_only_is_never_applied() {
    let mut registry: ReplicateRegistry<Decode> = ReplicateRegistry::new();
    let id =
        registry.register_observer("Sent", ReplicateDirection::Outgoing, ObserverFns::new(decode_i32));
    let messages = vec![
        Message::SendObserver { reg_id: id, payload: encode_i32(1) },
        Message::SendEvent { reg_id: id, payload: encode_i32(1) },
        Message::SendResource { reg_id: id, payload: encode_i32(1) },
        Message::SendComponent { reg_id: id, entity: 4, payload: encode_i32(1) },
    ];
    for message in messages.iter() {
        assert!(matches!(registry.route(message), Routed::Dropped(DropReason::NotIncoming)));
    }
}

#[test]
fn an_identifier_that_was_never_issued_is_dropped() {
    let mut registry: ReplicateRegistry<Decode> = ReplicateRegistry::new();
    let empty_case = Message::SendEvent { reg_id: RegistrationId::new_with(0), payload: encode_i32(1) };
    assert!(matches!(registry.route(&empty_case), Routed::Dropped(DropReason::UnknownIdentifier)));
    registry.register_event("E", ReplicateDirection::Incoming, EventFns::new(decode_i32));
    let message = Message::SendEvent { reg_id: RegistrationId::new_with(1), payload: encode_i32(1) };
    assert!(matches!(registry.route(&message), Routed::Dropped(DropReason::UnknownIdentifier)));
    let far = Message::SendObserver {
        reg_id: RegistrationId::new_with(usize::MAX),
        payload: encode_i32(1),
    };
    assert!(matches!(registry.route(&far), Routed::Dropped(DropReason::UnknownIdentifier)));
}

#[test]
fn a_message_of_another_kind_than_registered_is_dropped() {
    let mut registry: ReplicateRegistry<Decode> = ReplicateRegistry::new();
    let id = registry.register_event("E", ReplicateDirection::Incoming, EventFns::new(decode_i32));
    let as_observer = Message::SendObserver { reg_id: id, payload: encode_i32(1) };
    let as_resource = Message::SendResource { reg_id: id, payload: encode_i32(1) };
    let as_component = Message::SendComponent { reg_id: id, entity: 1, payload: encode_i32(1) };
    let as_event = Message::SendEvent { reg_id: id, payload: encode_i32(1) };
    assert!(matches!(registry.route(&as_observer), Routed::Dropped(DropReason::NoDispatchEntry)));
    assert!(matches!(registry.route(&as_resource), Routed::Dropped(DropReason::NoDispatchEntry)));
    assert!(matches!(registry.route(&as_component), Routed::Dropped(DropReason::NoDispatchEntry)));
    assert!(matches!(registry.route(&as_event), Routed::Event { .. }));
}

#[test]
fn each_kind_is_routed_to_its_own_entry() {
    let mut registry: ReplicateRegistry<Decode> = ReplicateRegistry::new();
    let component = registry.register_component(
        "C",
        ReplicateDirection::Incoming,
        ComponentFns::new(decode_i32),
    );
    let resource = registry.register_resource(
        "R",
        ReplicateDirection::Bidirectional,
        ResourceFns::new(decode_negated),
    );
    let event = registry.register_event("E", ReplicateDirection::Incoming, EventFns::new(decode_i32));
    let observer = registry.register_observer(
        "O",
        ReplicateDirection::Incoming,
        ObserverFns::new(decode_negated),
    );
    registry.insert_entity(10, 20);

    let message = Message::SendComponent { reg_id: component, entity: 10, payload: encode_i32(3) };
    match registry.route(&message) {
        Routed::Component { entity, fns, payload } => {
            assert_eq!(entity, 20);
            assert_eq!((fns.insert)(payload), Ok(3));
        },
        _ => panic!("expected a component"),
    }
    let message = Message::SendResource { reg_id: resource, payload: encode_i32(3) };
    match registry.route(&message) {
        Routed::Resource { fns, payload } => assert_eq!((fns.insert)(payload), Ok(-3)),
        _ => panic!("expected a resource"),
    }
    let message = Message::SendEvent { reg_id: event, payload: encode_i32(4) };
    match registry.route(&message) {
        Routed::Event { fns, payload } => assert_eq!((fns.send)(payload), Ok(4)),
        _ => panic!("expected an event"),
    }
    let message = Message::SendObserver { reg_id: observer, payload: encode_i32(4) };
    match registry.route(&message) {
        Routed::Observer { fns, payload } => assert_eq!((fns.send)(payload), Ok(-4)),
        _ => panic!("expected an observer"),
    }
}

#[test]
fn a_component_for_an_unknown_entity_is_passed_over() {
    let mut registry: ReplicateRegistry<Decode> = ReplicateRegistry::new();
    let id = registry.register_component(
        "C",
        ReplicateDirection::Incoming,
        ComponentFns::new(decode_i32),
    );
    let message = Message::SendComponent { reg_id: id, entity: 10, payload: encode_i32(3) };
    assert!(matches!(registry.route(&message), Routed::Dropped(DropReason::UnknownEntity)));
    assert!(registry.entity_fns(10, id).is_none());
    assert_eq!(registry.local_entity(10), None);

    registry.insert_entity(10, 77);
    assert_eq!(registry.local_entity(10), Some(77));
    assert_eq!(registry.local_entity(77), None);
    let (local, fns) = registry.entity_fns(10, id).unwrap();
    assert_eq!(local, 77);
    assert_eq!((fns.insert)(&encode_i32(8)), Ok(8));
    assert!(registry.entity_fns(10, RegistrationId::new_with(1)).is_none());
    assert!(registry.entity_fns(11, id).is_none());

    registry.insert_entity(10, 78);
    assert_eq!(registry.local_entity(10), Some(78));
    assert!(matches!(registry.route(&message), Routed::Component { entity: 78, .. }));
}

#[test]
fn a_payload_that_does_not_decode_is_an_error_of_the_handler() {
    let mut registry: ReplicateRegistry<Decode> = ReplicateRegistry::new();
    let id = registry.register_event("E", ReplicateDirection::Incoming, EventFns::new(decode_i32));
    let message = Message::SendEvent { reg_id: id, payload: MessagePayload::new(b"nonsense".to_vec()) };
    match registry.route(&message) {
        Routed::Event { fns, payload } => assert!((fns.send)(payload).is_err()),
        _ => panic!("expected an event"),
    }
}

#[test]
fn messages_are_applied_in_the_order_they_were_emitted() {
    let mut sender: ReplicateRegistry<Decode> = ReplicateRegistry::new();
    sender.register_event("E", ReplicateDirection::Outgoing, EventFns::new(decode_i32));
    let mut receiver: ReplicateRegistry<Decode> = ReplicateRegistry::new();
    let id = receiver.register_event("E", ReplicateDirection::Incoming, EventFns::new(decode_i32));

    let mut outgoing = MessageOutgoing::new();
    let mut incoming = MessageIncoming::new();
    incoming.push(Message::SendEvent { reg_id: id, payload: encode_i32(0) });
    outgoing.send_event(sender.registration_id("E"), encode_i32(1));
    outgoing.send_event(sender.registration_id("E"), encode_i32(2));
    outgoing.send_observer(RegistrationId::new_with(5), encode_i32(9));
    outgoing.send_event(sender.registration_id("E"), encode_i32(3));
    assert_eq!(outgoing.len(), 4);
    assert!(!outgoing.is_empty());

    Message::loopback(&mut outgoing, &mut incoming);
    assert!(outgoing.is_empty());
    assert_eq!(incoming.len(), 5);
    assert_eq!(incoming.get(1), &Message::SendEvent { reg_id: id, payload: encode_i32(1) });

    let drained = incoming.drain();
    assert!(incoming.is_empty());
    let routed = receiver.route_all(&drained);
    assert_eq!(routed.len(), 5);
    let mut applied = Vec::new();
    let mut dropped = 0;
    for decision in routed.iter() {
        match decision {
            Routed::Event { fns, payload } => applied.push((fns.send)(payload).unwrap()),
            Routed::Dropped(_) => dropped += 1,
            _ => panic!("unexpected decision"),
        }
    }
    assert_eq!(applied, vec![0, 1, 2, 3]);
    assert_eq!(dropped, 1);
    assert!(matches!(routed[3], Routed::Dropped(DropReason::UnknownIdentifier)));
}

#[test]
fn a_drained_queue_keeps_nothing() {
    let mut outgoing = MessageOutgoing::new();
    outgoing.send_component(RegistrationId::new_with(2), 5, encode_i32(1));
    outgoing.send_resource(RegistrationId::new_with(3), encode_i32(2));
    let drained = outgoing.drain();
    assert_eq!(
        drained,
        vec![
            Message::SendComponent { reg_id: RegistrationId::new_with(2), entity: 5, payload: encode_i32(1) },
            Message::SendResource { reg_id: RegistrationId::new_with(3), payload: encode_i32(2) },
        ]
    );
    assert_eq!(outgoing.len(), 0);
    assert!(outgoing.drain().is_empty());
}

#[test]
fn a_message_tells_its_kind_identifier_and_payload() {
    let message = Message::SendComponent {
        reg_id: RegistrationId::new_with(4),
        entity: 1,
        payload: MessagePayload::new(vec![1, 2, 3]),
    };
    assert_eq!(message.kind(), MessageKind::Component);
    assert_eq!(message.reg_id(), RegistrationId::new_with(4));
    assert_eq!(message.payload().as_bytes(), &vec![1u8, 2, 3]);
    assert_eq!(message.payload().len(), 3);
    let payload = MessagePayload::new(vec![9]);
    assert_eq!(
        Message::SendResource { reg_id: RegistrationId::new_with(0), payload: payload.clone() }.kind(),
        MessageKind::Resource
    );
    assert_eq!(
        Message::SendEvent { reg_id: RegistrationId::new_with(0), payload: payload.clone() }.kind(),
        MessageKind::Event
    );
    assert_eq!(
        Message::SendObserver { reg_id: RegistrationId::new_with(0), payload: payload.clone() }.kind(),
        MessageKind::Observer
    );
    assert_eq!(payload.into_bytes(), vec![9]);
}

#[test]
fn the_manifest_is_written_line_by_line_in_order_of_identifier() {
    let mut registry: ReplicateRegistry<Decode> = ReplicateRegistry::new();
    assert_eq!(registry.types_to_json(), "{\n\n}");
    registry.register_event("b::Second", ReplicateDirection::Outgoing, EventFns::new(decode_i32));
    assert_eq!(registry.types_to_json(), "{\n  \"b::Second\": 0\n}");
    registry.register_event("a::First", ReplicateDirection::Incoming, EventFns::new(decode_i32));
    registry.register_observer("c::Third", ReplicateDirection::Incoming, ObserverFns::new(decode_i32));
    let expected = "{\n  \"b::Second\": 0,\n  \"a::First\": 1,\n  \"c::Third\": 2\n}";
    assert_eq!(registry.types_to_json(), expected);
    assert_eq!(registry.types_to_json(), registry.types_to_json());
    registry.insert_entity(1, 2);
    assert_eq!(registry.types_to_json(), expected);
}

#[test]
fn the_manifest_counts_past_nine() {
    let mut registry: ReplicateRegistry<Decode> = ReplicateRegistry::new();
    let mut expected = String::from("{\n");
    for i in 0..12 {
        let path = format!("T{}", i);
        registry.register_event(&path, ReplicateDirection::Incoming, EventFns::new(decode_i32));
        if i > 0 {
            expected.push_str(",\n");
        }
        expected.push_str(&format!("  \"T{}\": {}", i, i));
    }
    expected.push_str("\n}");
    assert_eq!(registry.types_to_json(), expected);
}

#[test]
fn a_path_registered_twice_has_two_identifiers_and_leads_to_the_later() {
    let mut registry: ReplicateRegistry<Decode> = ReplicateRegistry::new();
    let first = registry.register_event("E", ReplicateDirection::Incoming, EventFns::new(decode_i32));
    let other = registry.register_event("F", ReplicateDirection::Incoming, EventFns::new(decode_i32));
    let second =
        registry.register_event("E", ReplicateDirection::Outgoing, EventFns::new(decode_negated));
    assert_eq!(first.inner(), 0);
    assert_eq!(other.inner(), 1);
    assert_eq!(second.inner(), 2);
    assert_eq!(registry.registration_id("E"), second);
    assert_eq!(registry.direction(first), Some(ReplicateDirection::Incoming));
    assert_eq!(registry.direction(second), Some(ReplicateDirection::Outgoing));
    assert!(registry.incoming_event_fns(first).is_some());
    assert!(registry.incoming_event_fns(second).is_none());
    assert_eq!(registry.types_to_json(), "{\n  \"F\": 1,\n  \"E\": 2\n}");
}

#[test]
fn a_type_that_is_only_sent_needs_no_entry() {
    let mut registry: ReplicateRegistry<Decode> = ReplicateRegistry::new();
    let first = registry.register_outgoing("Sent");
    let second = registry.register_event("E", ReplicateDirection::Incoming, EventFns::new(decode_i32));
    let third = registry.register_outgoing("AlsoSent");
    assert_eq!((first.inner(), second.inner(), third.inner()), (0, 1, 2));
    assert_eq!(registry.direction(first), Some(ReplicateDirection::Outgoing));
    assert_eq!(registry.direction(third), Some(ReplicateDirection::Outgoing));
    assert_eq!(registry.registration_id("AlsoSent"), third);
    assert!(registry.incoming_event_fns(first).is_none());
    let message = Message::SendEvent { reg_id: third, payload: encode_i32(1) };
    assert!(matches!(registry.route(&message), Routed::Dropped(DropReason::NotIncoming)));
    assert_eq!(registry.types_to_json(), "{\n  \"Sent\": 0,\n  \"E\": 1,\n  \"AlsoSent\": 2\n}");
}

#[test]
fn the_common_events_come_first_and_in_one_order() {
    let mut registry: ReplicateRegistry<Decode> = ReplicateRegistry::new();
    let ids = register_common_events(
        &mut registry,
        CommonEventPaths {
            app_startup: "AppStartup",
            app_ready: "AppReady",
            on_user_message: "OnUserMessage",
            on_app_message: "OnAppMessage",
        },
        ObserverFns::new(decode_i32),
    );
    assert_eq!(ids.app_startup.inner(), 0);
    assert_eq!(ids.app_ready.inner(), 1);
    assert_eq!(ids.on_user_message.inner(), 2);
    assert_eq!(ids.on_app_message.inner(), 3);
    assert_eq!(registry.len(), 4);
    assert_eq!(registry.direction(ids.app_startup), Some(ReplicateDirection::Outgoing));
    assert_eq!(registry.direction(ids.app_ready), Some(ReplicateDirection::Outgoing));
    assert_eq!(registry.direction(ids.on_user_message), Some(ReplicateDirection::Incoming));
    assert_eq!(registry.direction(ids.on_app_message), Some(ReplicateDirection::Outgoing));
    assert!(registry.incoming_observer_fns(ids.on_user_message).is_some());
    assert!(registry.incoming_observer_fns(ids.on_app_message).is_none());
    let next = registry.register_event("Mine", ReplicateDirection::Incoming, EventFns::new(decode_i32));
    assert_eq!(next.inner(), 4);
}
