//! The event pump: the one task that polls the event loop, observes
//! each outcome, and decides whether to keep polling.  Its policy is
//! that a connection error never ends the loop — the next poll retries
//! the connection — so the session survives transient failures.

use vstd::prelude::*;
use crate::config::Qos;

verus! {

/// An inbound packet observed while polling.
#[derive(Clone, PartialEq, Eq, Debug)]
pub enum Incoming {
    /// The broker accepted the connection.
    ConnAck,
    /// The broker acknowledged a subscription.
    SubAck { pkid: u16 },
    /// The broker acknowledged an at-least-once publication.
    PubAck { pkid: u16 },
    /// The broker began acknowledging an exactly-once publication.
    PubRec { pkid: u16 },
    /// A message arrived on a subscribed topic.
    Message { topic: String, payload: String },
    /// The broker answered a keep-alive ping.
    PingResp,
    /// Any other inbound packet; the pump only observes it.
    Other,
}

/// A locally queued action flushed to the wire.
#[derive(Clone, PartialEq, Eq, Debug)]
pub enum Outgoing {
    Subscribe { pkid: u16 },
    Publish { pkid: u16 },
    PingReq,
    Disconnect,
    /// Any other flushed packet; the pump only observes it.
    Other,
}

/// One observation from polling the event loop.
#[derive(Clone, PartialEq, Eq, Debug)]
pub enum Event {
    Incoming(Incoming),
    Outgoing(Outgoing),
}

/// Why a poll failed.  Every variant is transient to the pump: the
/// engine's own backoff-and-reconnect runs on the next poll.
#[derive(Clone, Copy, PartialEq, Eq, Structural, Debug)]
pub enum ConnectionError {
    /// The TLS handshake failed, e.g. on malformed PEM material or a
    /// certificate chain the peer rejected.
    Tls,
    /// The transport failed while reading or writing.
    Io,
    /// The broker closed the connection.
    BrokerDisconnect,
    /// Any other failure of the engine; transient like the rest.
    Other,
}

/// What one poll of the event loop produced.
#[derive(Clone, PartialEq, Eq, Debug)]
pub enum PollOutcome {
    Event(Event),
    Failure(ConnectionError),
}

/// The pump's verdict after observing one poll outcome.
#[derive(Clone, Copy, PartialEq, Eq, Structural, Debug)]
pub enum PumpDecision {
    /// Poll again.
    Continue,
    /// Stop driving the event loop.  The pump never chooses this.
    Stop,
}

/// Decides what the pump does after one poll: events are forwarded to
/// the observer and polling continues; a connection error is likewise
/// only observed, never fatal, so the next poll — and with it the
/// engine's reconnect — is always reached.
pub fn pump_step(out: &PollOutcome) -> (d: PumpDecision)
    ensures
        d is Continue,
{
    match out {
        PollOutcome::Event(_) => PumpDecision::Continue,
        PollOutcome::Failure(_) => PumpDecision::Continue,
    }
}

/// The acknowledgement a publication at `qos` with packet identifier
/// `pkid` is owed: none when at most once (fire and forget), a matching
/// `PubAck` when at least once, a matching `PubRec` when exactly once.
pub fn expected_publish_ack(qos: Qos, pkid: u16) -> (a: Option<Incoming>)
    ensures
        qos == Qos::AtMostOnce ==> a is None,
        qos == Qos::AtLeastOnce ==> a == Some(Incoming::PubAck { pkid }),
        qos == Qos::ExactlyOnce ==> a == Some(Incoming::PubRec { pkid }),
{
    match qos {
        Qos::AtMostOnce => None,
        Qos::AtLeastOnce => Some(Incoming::PubAck { pkid }),
        Qos::ExactlyOnce => Some(Incoming::PubRec { pkid }),
    }
}

/// An observed subscription acknowledgement.
pub open spec fn is_suback(e: Event) -> bool {
    e matches Event::Incoming(i) && i matches Incoming::SubAck { .. }
}

/// An observed delivery on the subscription: an acknowledged
/// publication or a received message.
pub open spec fn is_delivery(e: Event) -> bool {
    e matches Event::Incoming(i) && (i matches Incoming::PubAck { .. } || i
        matches Incoming::Message { .. })
}

/// In a well-ordered observation, the broker acknowledges the
/// subscription before any delivery on it is observed.
pub open spec fn suback_precedes_delivery(events: Seq<Event>) -> bool {
    forall|j: int|
        0 <= j < events.len() && #[trigger] is_delivery(events[j]) ==> exists|i: int|
            0 <= i < j && #[trigger] is_suback(events[i])
}

fn event_is_suback(e: &Event) -> (b: bool)
    ensures
        b == is_suback(*e),
{
    match e {
        Event::Incoming(Incoming::SubAck { .. }) => true,
        _ => false,
    }
}

fn event_is_delivery(e: &Event) -> (b: bool)
    ensures
        b == is_delivery(*e),
{
    match e {
        Event::Incoming(Incoming::PubAck { .. }) => true,
        Event::Incoming(Incoming::Message { .. }) => true,
        _ => false,
    }
}

/// Checks a recorded observation for the subscribe-then-deliver order.
pub fn check_suback_precedes(events: &Vec<Event>) -> (ok: bool)
    ensures
        ok == suback_precedes_delivery(events@),
{
    let mut seen_suback = false;
    let mut idx: usize = 0;
    while idx < events.len()
        invariant
            idx <= events@.len(),
            seen_suback == exists|i: int| 0 <= i < idx && #[trigger] is_suback(events@[i]),
            forall|j: int|
                0 <= j < idx && #[trigger] is_delivery(events@[j]) ==> exists|i: int|
                    0 <= i < j && #[trigger] is_suback(events@[i]),
        decreases events@.len() - idx,
    {
        let e = &events[idx];
        if event_is_delivery(e) && !seen_suback {
            proof {
                assert(is_delivery(events@[idx as int]));
                assert(!suback_precedes_delivery(events@));
            }
            return false;
        }
        if event_is_suback(e) {
            seen_suback = true;
            proof {
                assert(is_suback(events@[idx as int]));
            }
        }
        idx = idx + 1;
    }
    true
}

} // verus!
