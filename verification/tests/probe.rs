use pingcheck::config::ProbeConfig;
use pingcheck::engine::{EchoOutcome, LoopDirective, ProbeLoop};
use pingcheck::report::{create_resolution_failure, create_result};
use pingcheck::stats::{PingStats, FULL_LOSS_HUNDREDTHS};

fn config(count: u32, max_loss_hundredths: u32, max_latency_millis: u64) -> ProbeConfig {
    ProbeConfig {
        target: String::from("example.org"),
        count,
        interval_millis: 100,
        timeout_millis: 1000,
        ttl: 64,
        max_loss_hundredths,
        max_latency_millis,
        server_name: None,
        quiet: false,
    }
}

fn reply_ms(ms: u64) -> EchoOutcome {
    EchoOutcome::Reply { rtt_nanos: ms * 1_000_000 }
}

#[test]
fn received_never_exceeds_sent_along_a_mixed_run() {
    let mut probe = ProbeLoop::start();
    let outcomes = [
        reply_ms(10),
        EchoOutcome::Timeout,
        reply_ms(20),
        EchoOutcome::TransportError,
        EchoOutcome::Timeout,
        reply_ms(5),
    ];
    for outcome in outcomes.iter() {
        probe.step(outcome, 0, false);
        assert!(probe.stats.received <= probe.stats.sent);
    }
    assert_eq!(probe.stats.sent, 6);
    assert_eq!(probe.stats.received, 3);
}

#[test]
fn empty_run_counts_as_full_loss() {
    let stats = PingStats::new();
    assert_eq!(stats.packet_loss_hundredths(), FULL_LOSS_HUNDREDTHS);
    assert_eq!(stats.avg_rtt(), 0);
    assert_eq!(stats.avg_rtt_millis(), 0);
}

#[test]
fn loss_stays_within_percentage_range() {
    let mut stats = PingStats::new();
    stats.update_with_success(1_000_000);
    assert_eq!(stats.packet_loss_hundredths(), 0);
    stats.update_with_failure();
    assert_eq!(stats.packet_loss_hundredths(), 5000);
    stats.update_with_failure();
    // one reply out of three: 66.66% lost, truncated
    assert_eq!(stats.packet_loss_hundredths(), 6666);
    assert!(stats.packet_loss_hundredths() <= FULL_LOSS_HUNDREDTHS);
}

#[test]
fn timeout_and_transport_error_count_identically() {
    let mut by_timeout = ProbeLoop::start();
    let mut by_error = ProbeLoop::start();
    by_timeout.step(&EchoOutcome::Timeout, 0, false);
    by_error.step(&EchoOutcome::TransportError, 0, false);
    assert_eq!(by_timeout.stats.sent, by_error.stats.sent);
    assert_eq!(by_timeout.stats.received, by_error.stats.received);
    assert_eq!(by_timeout.stats.total_rtt_nanos, by_error.stats.total_rtt_nanos);
}

#[test]
fn average_latency_truncates_to_whole_milliseconds() {
    let mut stats = PingStats::new();
    stats.update_with_success(1_000_000);
    stats.update_with_success(2_000_000);
    // 1.5 ms average truncates to 1 ms
    assert_eq!(stats.avg_rtt(), 1_500_000);
    assert_eq!(stats.avg_rtt_millis(), 1);
}

#[test]
fn no_reply_means_zero_average_and_no_success() {
    let mut probe = ProbeLoop::start();
    for _ in 0..3 {
        probe.step(&EchoOutcome::Timeout, 3, false);
    }
    assert_eq!(probe.stats.avg_rtt_millis(), 0);
    // even the most permissive thresholds never pass a silent run
    let cfg = config(3, FULL_LOSS_HUNDREDTHS, u64::MAX);
    let result = create_result(&cfg, &probe.stats);
    assert!(!result.success);
}

#[test]
fn verdict_builder_is_idempotent() {
    let cfg = config(5, 500, 800);
    let mut stats = PingStats::new();
    stats.update_with_success(12_345_678);
    stats.update_with_failure();
    let first = create_result(&cfg, &stats);
    let second = create_result(&cfg, &stats);
    assert_eq!(first, second);
}

#[test]
fn scenario_all_replies_passes_strict_thresholds() {
    // count 5, max loss 0%, max latency 100 ms; replies of
    // 10, 12, 11, 13 and 9 ms
    let cfg = config(5, 0, 100);
    let mut probe = ProbeLoop::start();
    for ms in [10u64, 12, 11, 13, 9] {
        probe.step(&reply_ms(ms), cfg.count, false);
    }
    assert_eq!(probe.stats.sent, 5);
    assert_eq!(probe.stats.received, 5);
    assert_eq!(probe.stats.avg_rtt_millis(), 11);
    assert_eq!(probe.stats.packet_loss_hundredths(), 0);
    let result = create_result(&cfg, &probe.stats);
    assert!(result.success);
    let data = result.data.expect("a completed run carries data");
    assert_eq!(data.latency, 11);
    assert_eq!(data.packetloss_hundredths, 0);
    assert_eq!(data.packets_sent, 5);
    assert_eq!(data.packets_received, 5);
    assert_eq!(result.error, None);
}

#[test]
fn scenario_loss_equal_to_threshold_still_passes() {
    // count 4, max loss 50%, max latency 100 ms; failures on the first
    // and third attempts, replies of 20 and 30 ms on the others
    let cfg = config(4, 5000, 100);
    let mut probe = ProbeLoop::start();
    probe.step(&EchoOutcome::Timeout, cfg.count, false);
    probe.step(&reply_ms(20), cfg.count, false);
    probe.step(&EchoOutcome::TransportError, cfg.count, false);
    probe.step(&reply_ms(30), cfg.count, false);
    assert_eq!(probe.stats.sent, 4);
    assert_eq!(probe.stats.received, 2);
    assert_eq!(probe.stats.packet_loss_hundredths(), 5000);
    assert_eq!(probe.stats.avg_rtt_millis(), 25);
    let result = create_result(&cfg, &probe.stats);
    assert!(result.success, "loss equal to the threshold is inclusive");
}

#[test]
fn scenario_all_failures_never_passes() {
    // count 3, every attempt fails; even a 100% loss threshold cannot
    // turn a run without a measurement into a success
    let cfg = config(3, FULL_LOSS_HUNDREDTHS, 800);
    let mut probe = ProbeLoop::start();
    for _ in 0..3 {
        probe.step(&EchoOutcome::Timeout, cfg.count, false);
    }
    assert_eq!(probe.stats.sent, 3);
    assert_eq!(probe.stats.received, 0);
    assert_eq!(probe.stats.packet_loss_hundredths(), FULL_LOSS_HUNDREDTHS);
    assert_eq!(probe.stats.avg_rtt_millis(), 0);
    let result = create_result(&cfg, &probe.stats);
    assert!(!result.success);
}

#[test]
fn scenario_resolution_failure_record() {
    let cfg = config(30, 500, 800);
    let result =
        create_resolution_failure(&cfg, String::from("DNS resolution failed: no address"));
    assert!(!result.success);
    assert_eq!(result.error.as_deref(), Some("DNS resolution failed: no address"));
    assert!(result.data.is_none());
    assert_eq!(result.checkname, "ping");
    assert_eq!(result.resulttype, "site");
    assert_eq!(result.servername, "example.org");
}

#[test]
fn endless_mode_stops_only_on_cancellation() {
    // count 0 means endless; cancellation observed on the seventh
    // iteration boundary ends the run after exactly seven full cycles
    let mut probe = ProbeLoop::start();
    for i in 1..=7u32 {
        let cancelled = i == 7;
        let directive = probe.step(&reply_ms(1), 0, cancelled);
        if i < 7 {
            assert_eq!(directive, LoopDirective::Continue);
        } else {
            assert_eq!(directive, LoopDirective::Stop);
        }
    }
    assert_eq!(probe.stats.sent, 7);
    assert_eq!(probe.sequence, 7);
}

#[test]
fn bounded_run_stops_when_the_count_is_reached() {
    let mut probe = ProbeLoop::start();
    assert_eq!(probe.step(&reply_ms(1), 2, false), LoopDirective::Continue);
    assert_eq!(probe.step(&reply_ms(1), 2, false), LoopDirective::Stop);
    assert_eq!(probe.stats.sent, 2);
}

#[test]
fn sequence_identifier_wraps_into_sixteen_bits() {
    let mut probe = ProbeLoop::start();
    assert_eq!(probe.sequence_id(), 0);
    probe.step(&reply_ms(1), 0, false);
    assert_eq!(probe.sequence_id(), 1);
    let far = ProbeLoop { stats: probe.stats.clone(), sequence: 65536 };
    assert_eq!(far.sequence_id(), 0);
    let farther = ProbeLoop { stats: probe.stats, sequence: 70000 };
    assert_eq!(farther.sequence_id(), 4464);
}

#[test]
fn server_name_defaults_to_the_target() {
    let mut cfg = config(1, 0, 100);
    assert_eq!(cfg.effective_server_name(), "example.org");
    cfg.server_name = Some(String::from("edge-router"));
    assert_eq!(cfg.effective_server_name(), "edge-router");
    let stats = PingStats::new();
    let result = create_result(&cfg, &stats);
    assert_eq!(result.servername, "edge-router");
}
