use quic_events::counting::{AckContext, FallibleProvider, Provider, StartError, Subscriber};
use quic_events::events::{
    ConnectionClosed, ConnectionInfo, ConnectionMeta, Frame, FrameReceived, FrameSent, PacketLost,
    RecoveryMetrics,
};

fn meta() -> ConnectionMeta {
    ConnectionMeta { id: 7 }
}

fn info() -> ConnectionInfo {
    ConnectionInfo { is_client: true }
}

fn fresh() -> (Subscriber, AckContext) {
    let mut s = Provider.start().expect("infallible provider");
    let c = s.create_connection_context(&meta(), &info());
    (s, c)
}

#[test]
fn context_starts_zeroed() {
    let (_, c) = fresh();
    assert_eq!(c.ack_tx, 0);
    assert_eq!(c.ack_rx, 0);
    assert_eq!(c.packet_lost, 0);
    assert_eq!(c.mtu_packet_lost, 0);
    assert_eq!(c.max_rtt_variance, 0);
}

#[test]
fn ack_sent_counts_every_call() {
    let (mut s, mut c) = fresh();
    let m = meta();
    for _ in 0..1000 {
        s.on_frame_sent(&mut c, &m, &FrameSent { frame: Frame::Ack });
    }
    assert_eq!(c.ack_tx, 1000);
    assert_eq!(c.ack_rx, 0);
}

#[test]
fn non_ack_frames_are_ignored() {
    let (mut s, mut c) = fresh();
    let m = meta();
    s.on_frame_sent(&mut c, &m, &FrameSent { frame: Frame::Other });
    s.on_frame_received(&mut c, &m, &FrameReceived { frame: Frame::Other });
    assert_eq!(c.ack_tx, 0);
    assert_eq!(c.ack_rx, 0);
}

#[test]
fn losses_split_by_probe_flag() {
    let (mut s, mut c) = fresh();
    let m = meta();
    for _ in 0..3 {
        s.on_packet_lost(&mut c, &m, &PacketLost { is_mtu_probe: true });
    }
    for _ in 0..5 {
        s.on_packet_lost(&mut c, &m, &PacketLost { is_mtu_probe: false });
    }
    assert_eq!(c.mtu_packet_lost, 3);
    assert_eq!(c.packet_lost, 5);
    assert_eq!(c.mtu_packet_lost + c.packet_lost, 8);
}

#[test]
fn gauge_is_running_maximum() {
    let (mut s, mut c) = fresh();
    let m = meta();
    for sample in [3u64, 12, 7, 12, 1] {
        s.on_recovery_metrics(&mut c, &m, &RecoveryMetrics { rtt_variance_ms: sample });
    }
    assert_eq!(c.max_rtt_variance, 12);
}

#[test]
fn smaller_sample_is_a_no_op() {
    let (mut s, mut c) = fresh();
    let m = meta();
    s.on_recovery_metrics(&mut c, &m, &RecoveryMetrics { rtt_variance_ms: 20 });
    let before = c;
    s.on_recovery_metrics(&mut c, &m, &RecoveryMetrics { rtt_variance_ms: 20 });
    s.on_recovery_metrics(&mut c, &m, &RecoveryMetrics { rtt_variance_ms: 4 });
    assert_eq!(c, before);
}

#[test]
fn scenario_full_connection() {
    let (mut s, mut c) = fresh();
    let m = meta();
    s.on_frame_sent(&mut c, &m, &FrameSent { frame: Frame::Ack });
    s.on_frame_sent(&mut c, &m, &FrameSent { frame: Frame::Ack });
    s.on_frame_received(&mut c, &m, &FrameReceived { frame: Frame::Ack });
    s.on_packet_lost(&mut c, &m, &PacketLost { is_mtu_probe: false });
    s.on_recovery_metrics(&mut c, &m, &RecoveryMetrics { rtt_variance_ms: 15 });
    s.on_recovery_metrics(&mut c, &m, &RecoveryMetrics { rtt_variance_ms: 9 });
    s.on_connection_closed(&mut c, &m, &ConnectionClosed { error_code: 0 });
    assert_eq!(c.ack_tx, 2);
    assert_eq!(c.ack_rx, 1);
    assert_eq!(c.packet_lost, 1);
    assert_eq!(c.mtu_packet_lost, 0);
    assert_eq!(c.max_rtt_variance, 15);
}

#[test]
fn closure_leaves_aggregates_untouched() {
    let (mut s, mut c) = fresh();
    let m = meta();
    s.on_frame_sent(&mut c, &m, &FrameSent { frame: Frame::Ack });
    let before = c;
    s.on_connection_closed(&mut c, &m, &ConnectionClosed { error_code: 3 });
    assert_eq!(c, before);
}

#[test]
fn infallible_provider_starts() {
    assert!(Provider.start().is_ok());
}

#[test]
fn failing_provider_reports_initialization_failure() {
    let r = FallibleProvider { healthy: false }.start();
    assert_eq!(r.unwrap_err(), StartError::InitializationFailed);
}

#[test]
fn healthy_provider_starts() {
    assert!(FallibleProvider { healthy: true }.start().is_ok());
}

#[test]
fn counters_saturate_at_ceiling() {
    let (mut s, mut c) = fresh();
    let m = meta();
    c.ack_tx = u64::MAX;
    s.on_frame_sent(&mut c, &m, &FrameSent { frame: Frame::Ack });
    assert_eq!(c.ack_tx, u64::MAX);
}
