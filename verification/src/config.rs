//! Session configuration: quality-of-service levels, the mutual-TLS
//! transport descriptor, and the immutable per-session options.

use vstd::prelude::*;
use vstd::string::StringExecFns;

verus! {

/// MQTT delivery guarantee for a subscription or a publication.
#[derive(Clone, Copy, PartialEq, Eq, Structural, Debug)]
pub enum Qos {
    /// Fire and forget: queued once, may be lost on a transient disconnect.
    AtMostOnce,
    /// Acknowledged delivery; duplicates are possible.
    AtLeastOnce,
    /// Acknowledged and deduplicated delivery.
    ExactlyOnce,
}

/// Bound on the number of outstanding client requests buffered between
/// the producer side and the event loop; a producer that would exceed it
/// must wait until the loop drains space.
pub const REQUEST_CAPACITY: usize = 10;

/// Keep-alive interval negotiated with the broker, in seconds.
pub const KEEP_ALIVE_SECS: u64 = 5;

/// TLS port of the broker.
pub const BROKER_PORT: u16 = 8883;

/// Transport descriptor requesting mutual TLS: the CA certificate that
/// the broker's chain is validated against, the client certificate and
/// the client private key (all PEM bytes), and no application-layer
/// protocol negotiation.
pub struct TransportConfig {
    pub ca: Vec<u8>,
    pub client_cert: Vec<u8>,
    pub client_key: Vec<u8>,
    pub alpn: Option<Vec<Vec<u8>>>,
}

impl TransportConfig {
    /// Builds the descriptor from the three credential buffers.  Total on
    /// every triple and free of any I/O: nothing is validated here, so
    /// malformed material only surfaces later, as a connection error from
    /// the event loop's first poll.
    pub fn new(ca: Vec<u8>, client_cert: Vec<u8>, client_key: Vec<u8>) -> (t: TransportConfig)
        ensures
            t.ca@ == ca@,
            t.client_cert@ == client_cert@,
            t.client_key@ == client_key@,
            t.alpn is None,
    {
        TransportConfig { ca, client_cert, client_key, alpn: None }
    }
}

/// The session's immutable options: identity, broker address, keep-alive
/// interval, transport, and the outstanding-request capacity bound.
pub struct ClientSession {
    pub id: String,
    pub host: String,
    pub port: u16,
    pub keep_alive_secs: u64,
    pub capacity: usize,
    pub transport: TransportConfig,
}

/// The fixed client identifier this session registers under.  A broker
/// evicts an older session with the same identifier, so this value must
/// be unique per broker; keeping it a literal is a known limitation of
/// the single-instance design.
pub open spec fn fixed_client_id() -> Seq<char> {
    "rust-client"@
}

/// The fixed broker host this session connects to.
pub open spec fn fixed_host() -> Seq<char> {
    "a2e6ahkpo54syc-ats.iot.eu-central-1.amazonaws.com"@
}

impl ClientSession {
    /// Opens a session description.  Always succeeds synchronously: no
    /// network I/O happens here, connection establishment is deferred to
    /// the first poll of the event loop.
    pub fn open(
        id: String,
        host: String,
        port: u16,
        transport: TransportConfig,
        keep_alive_secs: u64,
        capacity: usize,
    ) -> (s: ClientSession)
        ensures
            s.id@ == id@,
            s.host@ == host@,
            s.port == port,
            s.keep_alive_secs == keep_alive_secs,
            s.capacity == capacity,
            s.transport == transport,
    {
        ClientSession { id, host, port, keep_alive_secs, capacity, transport }
    }

    /// Opens the session this client runs: the fixed identity and broker,
    /// a five-second keep-alive, and room for ten outstanding requests.
    pub fn open_default(transport: TransportConfig) -> (s: ClientSession)
        ensures
            s.id@ == fixed_client_id(),
            s.host@ == fixed_host(),
            s.port == BROKER_PORT,
            s.keep_alive_secs == KEEP_ALIVE_SECS,
            s.capacity == REQUEST_CAPACITY,
            s.transport == transport,
    {
        ClientSession::open(
            String::from_str("rust-client"),
            String::from_str("a2e6ahkpo54syc-ats.iot.eu-central-1.amazonaws.com"),
            BROKER_PORT,
            transport,
            KEEP_ALIVE_SECS,
            REQUEST_CAPACITY,
        )
    }
}

} // verus!
