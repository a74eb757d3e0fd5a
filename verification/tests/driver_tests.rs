use log_benchmark::adapter::{benchmark_config, Adapter, AdapterKind};
use log_benchmark::driver::{
    generate_payload, generate_random_message, run_level_sweep, run_size_sweep,
};
use log_benchmark::guard::{DrainState, LoggerGuard};
use log_benchmark::latch::SetupRegistry;
use log_benchmark::level::Level;
use log_benchmark::logger_setup::MetricsSink;

#[test]
fn payload_generation_is_deterministic() {
    let a = generate_payload(42, 100);
    let b = generate_payload(42, 100);
    assert_eq!(a, b);
    let c = generate_random_message(100);
    assert_eq!(a, c);
}

#[test]
fn payload_has_the_requested_length() {
    for len in [0usize, 1, 10, 100, 1000] {
        let p = generate_payload(42, len);
        assert_eq!(p.len(), len);
        assert_eq!(p.chars().count(), len);
        assert!(p.chars().all(|c| c.is_ascii_alphanumeric()));
    }
}

#[test]
fn different_seeds_are_not_echoes_of_the_arguments() {
    // a degenerate generator that ignored the seed would repeat itself
    let a = generate_payload(1, 64);
    let b = generate_payload(2, 64);
    assert_ne!(a, b);
}

#[test]
fn level_sweep_records_exactly_the_enabled_severities() {
    let msg = "Info message for level comparison";
    let mut sink = MetricsSink::new();
    let recorded = run_level_sweep(&mut sink, Level::Info, msg);
    assert_eq!(recorded, 3);
    assert_eq!(sink.get_metrics(), (3, 3 * msg.len()));
}

#[test]
fn level_sweep_counts_per_minimum() {
    let msg = "m";
    for (min, expected) in [
        (Level::Trace, 5),
        (Level::Debug, 4),
        (Level::Info, 3),
        (Level::Warn, 2),
        (Level::Error, 1),
    ] {
        let mut sink = MetricsSink::new();
        assert_eq!(run_level_sweep(&mut sink, min, msg), expected);
        assert_eq!(sink.get_metrics(), (expected, expected));
    }
}

#[test]
fn size_sweep_groups_report_bytes_proportional_to_length() {
    let mut sink = MetricsSink::new();
    let sizes = vec![10usize, 100, 1000];
    let groups = run_size_sweep(&mut sink, 42, &sizes, 5, 50);
    assert_eq!(groups.len(), 3);
    for (group, size) in groups.iter().zip(sizes.iter()) {
        assert_eq!(group.size, *size);
        assert_eq!(group.messages, 50);
        assert_eq!(group.bytes, 50 * size);
    }
    assert_eq!(sink.get_metrics(), (0, 0));
}

#[test]
fn guard_returns_within_its_budget_when_the_queue_never_drains() {
    let mut guard = LoggerGuard::new(3);
    guard.begin_drain();
    let reports = vec![false; 10];
    let polls = guard.drain(&reports);
    assert_eq!(polls, 4);
    assert_eq!(guard.state, DrainState::Idle);
}

#[test]
fn guard_stops_at_the_first_empty_report() {
    let mut guard = LoggerGuard::new(100);
    guard.mark_async_close();
    guard.begin_drain();
    let reports = vec![false, false, true, false];
    let polls = guard.drain(&reports);
    assert_eq!(polls, 3);
    assert_eq!(guard.state, DrainState::Idle);
    assert!(!guard.needs_async_close);
}

#[test]
fn guard_with_no_reports_returns_after_the_ceiling() {
    let mut guard = LoggerGuard::new(2);
    guard.mark_ftlog_close();
    guard.begin_drain();
    let reports: Vec<bool> = Vec::new();
    assert_eq!(guard.drain(&reports), 3);
    assert!(!guard.needs_ftlog_close);
}

#[test]
fn setup_runs_exactly_once_per_library() {
    let mut registry = SetupRegistry::new();
    assert!(registry.try_init(AdapterKind::Slog));
    assert!(!registry.try_init(AdapterKind::Slog));
    assert!(!registry.is_initialized(AdapterKind::Fern));
    assert!(registry.try_init(AdapterKind::Fern));
    assert!(registry.is_initialized(AdapterKind::Slog));
    assert!(registry.is_initialized(AdapterKind::Fern));
    assert!(!registry.is_initialized(AdapterKind::Tracing));
}

#[test]
fn benchmark_configurations_match_across_libraries() {
    let kinds = [
        AdapterKind::EnvLogger,
        AdapterKind::Log4rs,
        AdapterKind::Fern,
        AdapterKind::Ftlog,
        AdapterKind::Slog,
        AdapterKind::Tracing,
    ];
    for kind in kinds {
        let config = benchmark_config(kind);
        assert_eq!(config.kind, kind);
        assert_eq!(config.min_level, Level::Info);
        assert!(config.render_target);
        assert_eq!(config.render_kv, kind == AdapterKind::Slog);
    }
}

#[test]
fn adapter_filters_below_the_minimum_and_counts_the_rest() {
    let mut adapter = Adapter::new(benchmark_config(AdapterKind::Fern));
    assert!(!adapter.submit(Level::Trace, "dropped"));
    assert!(!adapter.submit(Level::Debug, "dropped"));
    assert!(adapter.submit(Level::Info, "kept"));
    assert!(adapter.submit(Level::Warn, "kept"));
    assert!(adapter.submit(Level::Error, "kept"));
    assert_eq!(adapter.snapshot(), (3, 3 * "kept".len()));
    adapter.reset();
    assert_eq!(adapter.snapshot(), (0, 0));
}
