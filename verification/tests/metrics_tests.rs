use log_benchmark::logger_setup::{get_metrics, record_metrics, reset_metrics, MetricsSink};
use log_benchmark::metrics::{replay_records, MessageStats};

#[test]
fn record_message_counts_one_message_and_its_bytes() {
    let mut stats = MessageStats::new();
    stats.record_message(17);
    assert_eq!(stats.get_total_messages(), 1);
    assert_eq!(stats.get_total_bytes(), 17);
}

#[test]
fn record_zero_bytes_still_counts_the_message() {
    let mut stats = MessageStats::new();
    stats.record_message(0);
    assert_eq!(stats.get_total_messages(), 1);
    assert_eq!(stats.get_total_bytes(), 0);
}

#[test]
fn interleaved_writers_lose_no_update() {
    // Three writers, each recording four messages of 25 bytes, interleaved
    // round-robin as concurrent delivery threads would be.
    let mut stats = MessageStats::new();
    for _round in 0..4 {
        for _writer in 0..3 {
            stats.record_message(25);
        }
    }
    assert_eq!(stats.get_total_messages(), 3 * 4);
    assert_eq!(stats.get_total_bytes(), 3 * 4 * 25);
}

#[test]
fn replay_reports_the_trace_totals() {
    let recs = vec![5usize, 0, 11, 3];
    let stats = replay_records(&recs);
    assert_eq!(stats.get_total_messages(), 4);
    assert_eq!(stats.get_total_bytes(), 19);
}

#[test]
fn reordered_traces_reach_the_same_totals() {
    let forward = vec![1usize, 2, 3, 4, 5];
    let shuffled = vec![4usize, 1, 5, 3, 2];
    let a = replay_records(&forward);
    let b = replay_records(&shuffled);
    assert_eq!(a.get_total_messages(), b.get_total_messages());
    assert_eq!(a.get_total_bytes(), b.get_total_bytes());
}

#[test]
fn sink_reset_then_snapshot_is_zero() {
    let mut sink = MetricsSink::new();
    sink.record(100);
    sink.record(23);
    sink.reset();
    assert_eq!(sink.get_metrics(), (0, 0));
}

#[test]
fn sink_counts_messages_and_bytes() {
    let mut sink = MetricsSink::new();
    sink.record(10);
    sink.record(0);
    sink.record(32);
    assert_eq!(sink.get_metrics(), (3, 42));
}

#[test]
fn try_record_refuses_overflow_and_leaves_counters_alone() {
    let mut sink = MetricsSink {
        stats: MessageStats {
            total_messages: 7,
            total_bytes: usize::MAX - 3,
        },
    };
    assert!(!sink.try_record(4));
    assert_eq!(sink.get_metrics(), (7, usize::MAX - 3));
    assert!(sink.try_record(3));
    assert_eq!(sink.get_metrics(), (8, usize::MAX));
}

#[test]
fn try_record_refuses_a_full_message_counter() {
    let mut sink = MetricsSink {
        stats: MessageStats {
            total_messages: usize::MAX,
            total_bytes: 0,
        },
    };
    assert!(!sink.try_record(1));
    assert_eq!(sink.get_metrics(), (usize::MAX, 0));
}

#[test]
fn free_metric_helpers_record_snapshot_and_reset() {
    let mut stats = MessageStats::new();
    record_metrics(&mut stats, 40);
    record_metrics(&mut stats, 2);
    assert_eq!(get_metrics(&stats), (2, 42));
    reset_metrics(&mut stats);
    assert_eq!(get_metrics(&stats), (0, 0));
}

#[test]
fn default_stats_start_at_zero() {
    let stats = MessageStats::default();
    assert_eq!(stats.get_total_messages(), 0);
    assert_eq!(stats.get_total_bytes(), 0);
}
