//! The counting subscriber: a provider that yields it, the per-connection
//! aggregate context, and one hook per lifecycle event.
//!
//! All mutable state lives in the caller-supplied [`AckContext`]; the
//! [`Subscriber`] itself is stateless and one instance may serve any number
//! of connections, each through its own context. Every hook is total: it
//! never fails and never panics, whatever its inputs.

use vstd::prelude::*;
use crate::events::{
    ConnectionClosed, ConnectionInfo, ConnectionMeta, Frame, FrameReceived, FrameSent, Hook,
    PacketLost, RecoveryMetrics,
};

verus! {

/// Why a provider could not produce a subscriber.
#[derive(Clone, Copy, Debug, PartialEq, Eq, Structural)]
pub enum StartError {
    /// Start-up could not complete: no subscriber was produced.
    InitializationFailed,
}

/// Per-connection aggregate state. The five fields are independent
/// statistics: no invariant couples one to another, and a reader may observe
/// them one at a time.
#[derive(Clone, Copy, Debug, PartialEq, Eq, Structural)]
pub struct AckContext {
    /// Acknowledgement frames sent on the connection.
    pub ack_tx: u64,
    /// Acknowledgement frames received on the connection.
    pub ack_rx: u64,
    /// Ordinary data packets lost.
    pub packet_lost: u64,
    /// MTU-discovery probe packets lost.
    pub mtu_packet_lost: u64,
    /// Running maximum of the round-trip-time variance samples, in whole
    /// milliseconds.
    pub max_rtt_variance: u64,
}

/// The context a subscriber hands out at creation: every aggregate at zero.
pub open spec fn initial_context() -> AckContext {
    AckContext {
        ack_tx: 0,
        ack_rx: 0,
        packet_lost: 0,
        mtu_packet_lost: 0,
        max_rtt_variance: 0,
    }
}

/// Increment that stops at the numeric ceiling, so that a counter is
/// monotone for the whole lifetime of its context.
pub open spec fn sat_inc(x: u64) -> u64 {
    if x < u64::MAX {
        (x + 1) as u64
    } else {
        x
    }
}

/// The larger of two gauge values.
pub open spec fn max64(a: u64, b: u64) -> u64 {
    if a >= b {
        a
    } else {
        b
    }
}

/// What one hook invocation does to a context's aggregates: an
/// acknowledgement frame bumps the matching counter, a loss bumps exactly
/// one of the two loss counters, a recovery sample raises the gauge to the
/// larger of itself and the sample, and every other hook leaves the context
/// unchanged.
pub open spec fn apply_hook(c: AckContext, h: Hook) -> AckContext {
    match h {
        Hook::Created => c,
        Hook::FrameSent(f) => if f is Ack {
            AckContext { ack_tx: sat_inc(c.ack_tx), ..c }
        } else {
            c
        },
        Hook::FrameReceived(f) => if f is Ack {
            AckContext { ack_rx: sat_inc(c.ack_rx), ..c }
        } else {
            c
        },
        Hook::PacketLost(is_mtu_probe) => if is_mtu_probe {
            AckContext { mtu_packet_lost: sat_inc(c.mtu_packet_lost), ..c }
        } else {
            AckContext { packet_lost: sat_inc(c.packet_lost), ..c }
        },
        Hook::RecoveryMetrics(sample) => AckContext {
            max_rtt_variance: max64(c.max_rtt_variance, sample),
            ..c
        },
        Hook::Closed => c,
    }
}

impl Default for AckContext {
    /// A fresh context with every aggregate at zero.
    fn default() -> (c: AckContext)
        ensures
            c == initial_context(),
    {
        AckContext {
            ack_tx: 0,
            ack_rx: 0,
            packet_lost: 0,
            mtu_packet_lost: 0,
            max_rtt_variance: 0,
        }
    }
}

/// The stateless event sink: counts acknowledgement frames, splits losses
/// by probe versus data, and tracks the maximum recovery-variance sample,
/// all in the caller's [`AckContext`].
#[derive(Debug)]
pub struct Subscriber;

impl Subscriber {
    /// Produce the zeroed aggregate state for one new connection. Called by
    /// the dispatcher exactly once per connection, before any other hook.
    pub fn create_connection_context(
        &mut self,
        _meta: &ConnectionMeta,
        _info: &ConnectionInfo,
    ) -> (c: AckContext)
        ensures
            c == initial_context(),
    {
        AckContext::default()
    }

    /// Record a sent frame: an acknowledgement bumps the sent counter, any
    /// other kind is a no-op.
    pub fn on_frame_sent(
        &mut self,
        context: &mut AckContext,
        _meta: &ConnectionMeta,
        event: &FrameSent,
    )
        ensures
            *final(context) == apply_hook(*old(context), Hook::FrameSent(event.frame)),
    {
        match event.frame {
            Frame::Ack => {
                if context.ack_tx < u64::MAX {
                    context.ack_tx = context.ack_tx + 1;
                }
            },
            Frame::Other => {},
        }
    }

    /// Record a received frame: an acknowledgement bumps the received
    /// counter, any other kind is a no-op.
    pub fn on_frame_received(
        &mut self,
        context: &mut AckContext,
        _meta: &ConnectionMeta,
        event: &FrameReceived,
    )
        ensures
            *final(context) == apply_hook(*old(context), Hook::FrameReceived(event.frame)),
    {
        match event.frame {
            Frame::Ack => {
                if context.ack_rx < u64::MAX {
                    context.ack_rx = context.ack_rx + 1;
                }
            },
            Frame::Other => {},
        }
    }

    /// Record a lost packet: a probe loss bumps the probe counter, an
    /// ordinary loss bumps the data counter — exactly one of the two.
    pub fn on_packet_lost(
        &mut self,
        context: &mut AckContext,
        _meta: &ConnectionMeta,
        event: &PacketLost,
    )
        ensures
            *final(context) == apply_hook(*old(context), Hook::PacketLost(event.is_mtu_probe)),
    {
        if !event.is_mtu_probe {
            if context.packet_lost < u64::MAX {
                context.packet_lost = context.packet_lost + 1;
            }
        } else {
            if context.mtu_packet_lost < u64::MAX {
                context.mtu_packet_lost = context.mtu_packet_lost + 1;
            }
        }
    }

    /// Raise the variance gauge to the larger of its current value and the
    /// incoming sample; a sample no larger than the gauge leaves the context
    /// unchanged.
    pub fn on_recovery_metrics(
        &mut self,
        context: &mut AckContext,
        _meta: &ConnectionMeta,
        event: &RecoveryMetrics,
    )
        ensures
            *final(context) == apply_hook(
                *old(context),
                Hook::RecoveryMetrics(event.rtt_variance_ms),
            ),
            event.rtt_variance_ms <= old(context).max_rtt_variance ==> *final(context) == *old(
                context,
            ),
    {
        if event.rtt_variance_ms > context.max_rtt_variance {
            context.max_rtt_variance = event.rtt_variance_ms;
        }
    }

    /// Final call for a connection. The aggregates are left untouched for
    /// the caller to hand to whatever sink it chooses; emission itself is a
    /// collaborator concern outside this core.
    pub fn on_connection_closed(
        &mut self,
        context: &mut AckContext,
        _meta: &ConnectionMeta,
        _event: &ConnectionClosed,
    )
        ensures
            *final(context) == apply_hook(*old(context), Hook::Closed),
    {
    }
}

/// The always-available provider: its start cannot fail.
#[derive(Debug, Default)]
pub struct Provider;

impl Provider {
    /// Yield the counting subscriber; this provider is infallible.
    pub fn start(self) -> (r: Result<Subscriber, StartError>)
        ensures
            r is Ok,
    {
        Ok(Subscriber)
    }
}

/// A provider whose start-time configuration decides whether set-up can
/// complete: when it cannot, start reports the failure and no subscriber is
/// produced.
pub struct FallibleProvider {
    /// Whether the provider's set-up can complete.
    pub healthy: bool,
}

impl FallibleProvider {
    /// Yield a subscriber exactly when set-up can complete, and the
    /// initialization failure otherwise.
    pub fn start(self) -> (r: Result<Subscriber, StartError>)
        ensures
            r is Ok <==> self.healthy,
            !self.healthy ==> r == Err::<Subscriber, StartError>(StartError::InitializationFailed),
    {
        if self.healthy {
            Ok(Subscriber)
        } else {
            Err(StartError::InitializationFailed)
        }
    }
}

} // verus!
