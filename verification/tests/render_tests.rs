use log_benchmark::level::Level;
use log_benchmark::logger_setup::{CountingWriter, MetricsDrain, MetricsSink, MetricsSinkWriter};
use log_benchmark::metrics::MessageStats;
use log_benchmark::clock::ClockKind;
use log_benchmark::render::{checked_rendered_len, format_event, kv_contribution};

#[test]
fn format_event_matches_the_shared_shape() {
    let line = format_event("2024-01-02 03:04:05.006", Level::Info, "app", "hello");
    assert_eq!(line, "2024-01-02 03:04:05.006 [INFO] - app: hello");
}

#[test]
fn format_event_renders_each_label() {
    assert_eq!(format_event("t", Level::Trace, "m", "x"), "t [TRACE] - m: x");
    assert_eq!(format_event("t", Level::Debug, "m", "x"), "t [DEBUG] - m: x");
    assert_eq!(format_event("t", Level::Info, "m", "x"), "t [INFO] - m: x");
    assert_eq!(format_event("t", Level::Warn, "m", "x"), "t [WARN] - m: x");
    assert_eq!(format_event("t", Level::Error, "m", "x"), "t [ERROR] - m: x");
}

#[test]
fn checked_rendered_len_equals_the_rendered_line() {
    let ts = "2024-01-02 03:04:05.006";
    let line = format_event(ts, Level::Warn, "core::engine", "ready");
    let n = checked_rendered_len(ts, Level::Warn, "core::engine", "ready");
    assert_eq!(n, Some(line.len()));
}

#[test]
fn checked_rendered_len_counts_multibyte_text_in_bytes() {
    let msg = "héllo wörld";
    let line = format_event("ts", Level::Error, "tgt", msg);
    let n = checked_rendered_len("ts", Level::Error, "tgt", msg);
    assert_eq!(n, Some(line.len()));
    assert!(line.len() > line.chars().count());
}

#[test]
fn kv_contribution_sums_keys_and_values() {
    let kvs = vec![
        ("user".to_string(), "alice".to_string()),
        ("ip".to_string(), "192.168.1.1".to_string()),
        ("status".to_string(), "success".to_string()),
    ];
    assert_eq!(kv_contribution(&kvs), Some(4 + 5 + 2 + 11 + 6 + 7));
}

#[test]
fn kv_contribution_of_no_attributes_is_zero() {
    let kvs: Vec<(String, String)> = Vec::new();
    assert_eq!(kv_contribution(&kvs), Some(0));
}

#[test]
fn level_labels_and_filter() {
    assert_eq!(Level::Trace.label(), "TRACE");
    assert_eq!(Level::Debug.label(), "DEBUG");
    assert_eq!(Level::Info.label(), "INFO");
    assert_eq!(Level::Warn.label(), "WARN");
    assert_eq!(Level::Error.label(), "ERROR");
    assert!(!Level::Trace.enabled_at(Level::Info));
    assert!(!Level::Debug.enabled_at(Level::Info));
    assert!(Level::Info.enabled_at(Level::Info));
    assert!(Level::Warn.enabled_at(Level::Info));
    assert!(Level::Error.enabled_at(Level::Info));
}

#[test]
fn counting_writer_counts_buffers_messages_and_structured_records() {
    let mut writer = CountingWriter::new(MessageStats::new());
    let n = writer.write_buf(b"formatted line\n");
    assert_eq!(n, 15);
    writer.log_message("just the message");
    let kvs = vec![("k".to_string(), "value".to_string())];
    assert!(writer.log_structured("msg", &kvs));
    assert_eq!(writer.stats.get_total_messages(), 3);
    assert_eq!(writer.stats.get_total_bytes(), 15 + 16 + (3 + 1 + 5));
}

#[test]
fn sink_writer_reports_every_byte_written() {
    let mut writer = MetricsSinkWriter(MetricsSink::new());
    let n = writer.write_buf(b"0123456789");
    assert_eq!(n, 10);
    assert_eq!(writer.0.get_metrics(), (1, 10));
}

#[test]
fn drain_counts_the_rendered_line() {
    let mut drain = MetricsDrain::new(MetricsSink::new());
    let ts = "2024-01-02 03:04:05.006";
    assert!(drain.log_record(ts, Level::Info, "app", "hello"));
    let line = format_event(ts, Level::Info, "app", "hello");
    assert_eq!(drain.metrics.get_metrics(), (1, line.len()));
}

#[test]
fn drain_stamped_now_counts_one_message_with_its_timestamp() {
    let mut drain = MetricsDrain::new(MetricsSink::new());
    assert!(drain.log_record_now(ClockKind::Utc, Level::Error, "mod", "boom"));
    let (count, bytes) = drain.metrics.get_metrics();
    assert_eq!(count, 1);
    // the line holds the label, target, message, the eight separator bytes,
    // and a timestamp of 23 to 26 bytes
    let fixed = "ERROR".len() + "mod".len() + "boom".len() + 8;
    assert!(bytes >= fixed + 23);
    assert!(bytes <= fixed + 26);
}
