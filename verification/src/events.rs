//! The event taxonomy delivered to a subscriber: per-connection identity and
//! establishment facts, and one payload type per lifecycle event.

use vstd::prelude::*;

verus! {

/// Immutable identity and timing facts about one connection, handed read-only
/// to every hook.
#[derive(Clone, Copy, PartialEq, Eq, Structural)]
pub struct ConnectionMeta {
    /// The dispatcher's identifier for the connection.
    pub id: u64,
}

/// Immutable establishment parameters for one connection, handed to the
/// subscriber once, when its context is created.
#[derive(Clone, Copy, PartialEq, Eq, Structural)]
pub struct ConnectionInfo {
    /// Whether the connection was opened by the local endpoint.
    pub is_client: bool,
}

/// A frame kind, as far as this library distinguishes them: acknowledgement
/// frames are counted, every other kind is ignored.
#[derive(Clone, Copy, PartialEq, Eq, Structural)]
pub enum Frame {
    /// An acknowledgement frame.
    Ack,
    /// Any frame kind other than acknowledgement.
    Other,
}

/// Payload of the frame-sent event.
#[derive(Clone, Copy, PartialEq, Eq, Structural)]
pub struct FrameSent {
    /// The frame that was sent.
    pub frame: Frame,
}

/// Payload of the frame-received event.
#[derive(Clone, Copy, PartialEq, Eq, Structural)]
pub struct FrameReceived {
    /// The frame that was received.
    pub frame: Frame,
}

/// Payload of the packet-lost event. A loss is either of an MTU-discovery
/// probe or of an ordinary data packet, never both.
#[derive(Clone, Copy, PartialEq, Eq, Structural)]
pub struct PacketLost {
    /// True when the lost packet was an MTU-discovery probe.
    pub is_mtu_probe: bool,
}

/// Payload of the recovery-metrics event, carrying the engine's current
/// round-trip-time variance estimate in whole milliseconds.
#[derive(Clone, Copy, PartialEq, Eq, Structural)]
pub struct RecoveryMetrics {
    /// Round-trip-time variance, in whole milliseconds.
    pub rtt_variance_ms: u64,
}

/// Payload of the connection-closed event.
#[derive(Clone, Copy, PartialEq, Eq, Structural)]
pub struct ConnectionClosed {
    /// The dispatcher's error code for the closure, zero when the connection
    /// closed cleanly.
    pub error_code: u64,
}

/// One hook invocation against a single connection's context, as the
/// lifecycle and counting specifications see it.
#[derive(Clone, Copy, PartialEq, Eq, Structural)]
pub enum Hook {
    /// The context-creating call.
    Created,
    /// A frame-sent event.
    FrameSent(Frame),
    /// A frame-received event.
    FrameReceived(Frame),
    /// A packet-lost event; the payload is `is_mtu_probe`.
    PacketLost(bool),
    /// A recovery-metrics event; the payload is the variance sample in
    /// milliseconds.
    RecoveryMetrics(u64),
    /// The closure call.
    Closed,
}

} // verus!
