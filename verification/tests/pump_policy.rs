use mqtt_session::config::Qos;
use mqtt_session::pump::{
    check_suback_precedes, expected_publish_ack, pump_step, ConnectionError, Event, Incoming,
    Outgoing, PollOutcome, PumpDecision,
};

#[test]
fn pump_continues_on_every_event() {
    let outcomes = vec![
        PollOutcome::Event(Event::Incoming(Incoming::ConnAck)),
        PollOutcome::Event(Event::Incoming(Incoming::SubAck { pkid: 1 })),
        PollOutcome::Event(Event::Outgoing(Outgoing::Publish { pkid: 0 })),
        PollOutcome::Event(Event::Incoming(Incoming::Message {
            topic: "hello/world".to_string(),
            payload: "{\"message\": \"hello from rust!\",\"sequence\": 1 }".to_string(),
        })),
        PollOutcome::Event(Event::Incoming(Incoming::PingResp)),
        PollOutcome::Event(Event::Outgoing(Outgoing::PingReq)),
    ];
    for out in &outcomes {
        assert_eq!(pump_step(out), PumpDecision::Continue);
    }
}

#[test]
fn pump_never_exits_on_a_connection_error() {
    let errors = [
        ConnectionError::Tls,
        ConnectionError::Io,
        ConnectionError::BrokerDisconnect,
        ConnectionError::Other,
    ];
    for e in errors {
        // after any error the verdict is to poll again: the next poll —
        // and the engine's reconnect — stays reachable
        assert_eq!(pump_step(&PollOutcome::Failure(e)), PumpDecision::Continue);
    }
}

#[test]
fn at_most_once_expects_no_acknowledgement() {
    assert_eq!(expected_publish_ack(Qos::AtMostOnce, 7), None);
}

#[test]
fn acknowledged_levels_expect_a_matching_packet_identifier() {
    assert_eq!(
        expected_publish_ack(Qos::AtLeastOnce, 7),
        Some(Incoming::PubAck { pkid: 7 })
    );
    assert_eq!(
        expected_publish_ack(Qos::ExactlyOnce, 9),
        Some(Incoming::PubRec { pkid: 9 })
    );
}

#[test]
fn suback_observed_before_any_delivery() {
    let events = vec![
        Event::Incoming(Incoming::ConnAck),
        Event::Outgoing(Outgoing::Subscribe { pkid: 1 }),
        Event::Incoming(Incoming::SubAck { pkid: 1 }),
        Event::Outgoing(Outgoing::Publish { pkid: 0 }),
        Event::Incoming(Incoming::Message {
            topic: "hello/world".to_string(),
            payload: "{\"message\": \"hello from rust!\",\"sequence\": 3 }".to_string(),
        }),
    ];
    assert!(check_suback_precedes(&events));
}

#[test]
fn delivery_before_suback_is_flagged() {
    let events = vec![
        Event::Incoming(Incoming::ConnAck),
        Event::Incoming(Incoming::Message {
            topic: "hello/world".to_string(),
            payload: "stray".to_string(),
        }),
        Event::Incoming(Incoming::SubAck { pkid: 1 }),
    ];
    assert!(!check_suback_precedes(&events));
}

#[test]
fn observation_without_deliveries_is_well_ordered() {
    let events = vec![
        Event::Incoming(Incoming::ConnAck),
        Event::Outgoing(Outgoing::PingReq),
        Event::Incoming(Incoming::PingResp),
    ];
    assert!(check_suback_precedes(&events));
}
