//! The dispatcher's calling contract, and what the counting subscriber
//! guarantees over any admissible sequence of hook invocations.
//!
//! A connection's hooks are modelled as a sequence of [`Hook`] values. The
//! dispatcher owes the subscriber a well-ordered sequence: the
//! context-creating call first, the closure call last and only once, and no
//! call after it. Over any sequence at all — well ordered or not — the
//! aggregate a context reaches is the fold of [`apply_hook`], and the
//! lemmas below state the counting laws of that fold: no update is lost, a
//! loss lands in exactly one of the two loss counters, and the gauge is the
//! maximum of the samples.

use vstd::prelude::*;
use crate::counting::{apply_hook, initial_context, max64, AckContext};
use crate::events::{Frame, Hook};

verus! {

/// Lifecycle phase of one connection, as the dispatcher's calling contract
/// sees it.
#[derive(Clone, Copy, PartialEq, Eq, Structural)]
pub enum Phase {
    /// No context exists yet.
    Missing,
    /// The context has been created and no event has been delivered.
    Created,
    /// At least one event has been delivered.
    Active,
    /// The closure hook has run; nothing more may follow.
    Closed,
}

/// Which hooks the dispatcher may issue in a given phase: only creation
/// before a context exists, anything but a second creation while it lives,
/// and nothing at all once it is closed.
pub open spec fn hook_allowed(p: Phase, h: Hook) -> bool {
    match p {
        Phase::Missing => h is Created,
        Phase::Created => !(h is Created),
        Phase::Active => !(h is Created),
        Phase::Closed => false,
    }
}

/// The phase after one hook.
pub open spec fn next_phase(p: Phase, h: Hook) -> Phase {
    match h {
        Hook::Created => Phase::Created,
        Hook::Closed => Phase::Closed,
        _ => Phase::Active,
    }
}

/// Whether `t` is an admissible run of hooks starting from phase `p`.
pub open spec fn valid_from(p: Phase, t: Seq<Hook>) -> bool
    decreases t.len(),
{
    t.len() == 0 || (hook_allowed(p, t[0]) && valid_from(next_phase(p, t[0]), t.drop_first()))
}

/// Whether `t` is an admissible run of hooks for one whole connection,
/// starting before its context exists.
pub open spec fn valid_trace(t: Seq<Hook>) -> bool {
    valid_from(Phase::Missing, t)
}

/// The context reached by delivering `t` to `c`, one hook at a time.
pub open spec fn context_after(c: AckContext, t: Seq<Hook>) -> AckContext
    decreases t.len(),
{
    if t.len() == 0 {
        c
    } else {
        context_after(apply_hook(c, t[0]), t.drop_first())
    }
}

/// Whether a hook is a frame-sent event carrying an acknowledgement.
pub open spec fn is_ack_sent(h: Hook) -> bool {
    h matches Hook::FrameSent(f) && f is Ack
}

/// Whether a hook is a frame-received event carrying an acknowledgement.
pub open spec fn is_ack_received(h: Hook) -> bool {
    h matches Hook::FrameReceived(f) && f is Ack
}

/// Whether a hook is an ordinary (data-packet) loss event.
pub open spec fn is_ordinary_loss(h: Hook) -> bool {
    h matches Hook::PacketLost(probe) && !probe
}

/// Whether a hook is an MTU-probe loss event.
pub open spec fn is_probe_loss(h: Hook) -> bool {
    h matches Hook::PacketLost(probe) && probe
}

/// Whether a hook is a loss event of either kind.
pub open spec fn is_loss(h: Hook) -> bool {
    h is PacketLost
}

/// How many hooks of `t` satisfy `p`.
pub open spec fn count_hooks(t: Seq<Hook>, p: spec_fn(Hook) -> bool) -> nat
    decreases t.len(),
{
    if t.len() == 0 {
        0
    } else {
        (if p(t[0]) {
            1nat
        } else {
            0nat
        }) + count_hooks(t.drop_first(), p)
    }
}

/// The variance sample a hook carries, zero for every other hook kind.
pub open spec fn sample_of(h: Hook) -> u64 {
    match h {
        Hook::RecoveryMetrics(s) => s,
        _ => 0,
    }
}

/// The largest variance sample in `t`, zero when there is none.
pub open spec fn max_sample(t: Seq<Hook>) -> u64
    decreases t.len(),
{
    if t.len() == 0 {
        0
    } else {
        max64(sample_of(t[0]), max_sample(t.drop_first()))
    }
}

proof fn lemma_order_from_live(p: Phase, t: Seq<Hook>)
    requires
        valid_from(p, t),
        p is Created || p is Active,
    ensures
        forall|i: int| 0 <= i < t.len() ==> !((#[trigger] t[i]) is Created),
        forall|i: int| 0 <= i < t.len() && (#[trigger] t[i]) is Closed ==> i == t.len() - 1,
    decreases t.len(),
{
    if t.len() > 0 {
        let rest = t.drop_first();
        assert(forall|i: int| 0 < i < t.len() ==> rest[i - 1] == #[trigger] t[i]);
        assert(valid_from(next_phase(p, t[0]), rest));
        if t[0] is Closed {
            assert(rest.len() == 0) by {
                if rest.len() > 0 {
                    assert(hook_allowed(Phase::Closed, rest[0]));
                }
            };
        } else {
            lemma_order_from_live(next_phase(p, t[0]), rest);
        }
    }
}

/// The dispatcher's ordering contract, read off any admissible run: the
/// context-creating call comes first and never again, and the closure call —
/// if it occurs — is the last hook of the run, so it occurs at most once and
/// strictly after every other hook, with none after it.
pub proof fn lemma_lifecycle_order(t: Seq<Hook>)
    requires
        valid_trace(t),
    ensures
        t.len() > 0 ==> t[0] is Created,
        forall|i: int| 0 < i < t.len() ==> !((#[trigger] t[i]) is Created),
        forall|i: int| 0 <= i < t.len() && (#[trigger] t[i]) is Closed ==> i == t.len() - 1,
{
    if t.len() > 0 {
        let rest = t.drop_first();
        assert(forall|i: int| 0 < i < t.len() ==> rest[i - 1] == #[trigger] t[i]);
        assert(valid_from(Phase::Created, rest));
        lemma_order_from_live(Phase::Created, rest);
    }
}

/// No sent acknowledgement is lost: after any run of hooks whose
/// acknowledgement-sent events number within the counter's range, the sent
/// counter has grown by exactly that number, whatever else the run held.
pub proof fn lemma_ack_sent_exact(c: AckContext, t: Seq<Hook>)
    requires
        c.ack_tx + count_hooks(t, |h: Hook| is_ack_sent(h)) <= u64::MAX,
    ensures
        context_after(c, t).ack_tx == c.ack_tx + count_hooks(t, |h: Hook| is_ack_sent(h)),
    decreases t.len(),
{
    if t.len() > 0 {
        lemma_ack_sent_exact(apply_hook(c, t[0]), t.drop_first());
    }
}

/// No received acknowledgement is lost: the received counter grows by
/// exactly the number of acknowledgement-received events in the run.
pub proof fn lemma_ack_received_exact(c: AckContext, t: Seq<Hook>)
    requires
        c.ack_rx + count_hooks(t, |h: Hook| is_ack_received(h)) <= u64::MAX,
    ensures
        context_after(c, t).ack_rx == c.ack_rx + count_hooks(t, |h: Hook| is_ack_received(h)),
    decreases t.len(),
{
    if t.len() > 0 {
        lemma_ack_received_exact(apply_hook(c, t[0]), t.drop_first());
    }
}

/// Losses split exactly: the probe counter grows by the number of probe
/// losses, the ordinary counter by the number of data losses, and the two
/// kinds together account for every loss event in the run.
pub proof fn lemma_loss_split_exact(c: AckContext, t: Seq<Hook>)
    requires
        c.packet_lost + count_hooks(t, |h: Hook| is_ordinary_loss(h)) <= u64::MAX,
        c.mtu_packet_lost + count_hooks(t, |h: Hook| is_probe_loss(h)) <= u64::MAX,
    ensures
        context_after(c, t).packet_lost == c.packet_lost + count_hooks(
            t,
            |h: Hook| is_ordinary_loss(h),
        ),
        context_after(c, t).mtu_packet_lost == c.mtu_packet_lost + count_hooks(
            t,
            |h: Hook| is_probe_loss(h),
        ),
        count_hooks(t, |h: Hook| is_ordinary_loss(h)) + count_hooks(t, |h: Hook| is_probe_loss(h))
            == count_hooks(t, |h: Hook| is_loss(h)),
    decreases t.len(),
{
    if t.len() > 0 {
        lemma_loss_split_exact(apply_hook(c, t[0]), t.drop_first());
    }
}

/// The gauge is the running maximum: after any run it equals the larger of
/// its starting value and the largest variance sample the run carried.
pub proof fn lemma_gauge_is_max(c: AckContext, t: Seq<Hook>)
    ensures
        context_after(c, t).max_rtt_variance == max64(c.max_rtt_variance, max_sample(t)),
    decreases t.len(),
{
    if t.len() > 0 {
        lemma_gauge_is_max(apply_hook(c, t[0]), t.drop_first());
    }
}

/// Every aggregate is monotone: a context never loses ground under any run
/// of hooks.
pub proof fn lemma_aggregates_monotone(c: AckContext, t: Seq<Hook>)
    ensures
        context_after(c, t).ack_tx >= c.ack_tx,
        context_after(c, t).ack_rx >= c.ack_rx,
        context_after(c, t).packet_lost >= c.packet_lost,
        context_after(c, t).mtu_packet_lost >= c.mtu_packet_lost,
        context_after(c, t).max_rtt_variance >= c.max_rtt_variance,
    decreases t.len(),
{
    if t.len() > 0 {
        lemma_aggregates_monotone(apply_hook(c, t[0]), t.drop_first());
    }
}

/// From a fresh context the aggregates are exactly the event counts: each
/// acknowledgement counter equals its number of events, each loss counter
/// its number of losses, and the gauge the maximum sample.
pub proof fn lemma_counts_from_start(t: Seq<Hook>)
    requires
        count_hooks(t, |h: Hook| is_ack_sent(h)) <= u64::MAX,
        count_hooks(t, |h: Hook| is_ack_received(h)) <= u64::MAX,
        count_hooks(t, |h: Hook| is_ordinary_loss(h)) <= u64::MAX,
        count_hooks(t, |h: Hook| is_probe_loss(h)) <= u64::MAX,
    ensures
        context_after(initial_context(), t).ack_tx == count_hooks(t, |h: Hook| is_ack_sent(h)),
        context_after(initial_context(), t).ack_rx == count_hooks(t, |h: Hook| is_ack_received(h)),
        context_after(initial_context(), t).packet_lost == count_hooks(
            t,
            |h: Hook| is_ordinary_loss(h),
        ),
        context_after(initial_context(), t).mtu_packet_lost == count_hooks(
            t,
            |h: Hook| is_probe_loss(h),
        ),
        context_after(initial_context(), t).max_rtt_variance == max_sample(t),
{
    lemma_ack_sent_exact(initial_context(), t);
    lemma_ack_received_exact(initial_context(), t);
    lemma_loss_split_exact(initial_context(), t);
    lemma_gauge_is_max(initial_context(), t);
}

} // verus!
