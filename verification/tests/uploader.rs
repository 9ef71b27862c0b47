//! Uploader batching policy, upload counters and the liveness watchdog.

use rtl2influx::influx_sender::{
    InfluxConfig, InfluxSender, InfluxSenderConfig, InfluxSenderStatus, UploadConfig,
};
use rtl2influx::point::Point;

fn test_sender(max_events: usize) -> InfluxSender {
    InfluxSender::new(
        InfluxSenderConfig {
            influx_config: InfluxConfig {
                host: String::from("http://localhost:8086"),
                org: String::from("home"),
                bucket: String::from("sensors"),
                token: String::from("test-token"),
            },
            upload_config: UploadConfig { max_events, flush_interval_secs: 15 },
        },
        InfluxSenderStatus::new(0),
    )
}

fn test_point(n: i64) -> Point {
    Point { name: String::from("acutwr"), tags: Vec::new(), fields: Vec::new(), timestamp_ns: n }
}

#[test]
fn batch_never_exceeds_configured_maximum() {
    let mut sender = test_sender(3);
    assert!(!sender.accept_point(test_point(1)));
    assert!(!sender.accept_point(test_point(2)));
    assert!(sender.accept_point(test_point(3)));
    // a point offered to a full batch is not added
    assert!(sender.accept_point(test_point(4)));
    let batch = sender.take_batch();
    assert_eq!(batch.len(), 3);
    assert_eq!(batch[0].timestamp_ns, 1);
    assert_eq!(batch[2].timestamp_ns, 3);
}

#[test]
fn empty_pass_skips_upload() {
    let mut sender = test_sender(3);
    assert!(!sender.should_flush());
    sender.accept_point(test_point(1));
    assert!(sender.should_flush());
    let batch = sender.take_batch();
    assert_eq!(batch.len(), 1);
    assert!(!sender.should_flush());
}

#[test]
fn successful_upload_advances_counters_by_batch_size() {
    let mut sender = test_sender(10);
    sender.accept_point(test_point(1));
    sender.accept_point(test_point(2));
    let batch = sender.take_batch();
    sender.record_upload_result(batch.len(), true, 4242);
    let status = sender.status_snapshot();
    assert_eq!(status.events_uploaded, 2);
    assert_eq!(status.last_upload_sec, 4242);
}

#[test]
fn failed_upload_is_not_retried_and_not_counted() {
    let mut sender = test_sender(10);
    sender.accept_point(test_point(1));
    sender.accept_point(test_point(2));
    let batch = sender.take_batch();
    sender.record_upload_result(batch.len(), false, 4242);
    let status = sender.status_snapshot();
    assert_eq!(status.events_uploaded, 0);
    assert_eq!(status.last_upload_sec, 0);
    // the failed batch is gone: the next pass starts empty
    assert!(!sender.should_flush());
    assert_eq!(sender.take_batch().len(), 0);
}

#[test]
fn counters_accumulate_over_successful_passes() {
    let mut sender = test_sender(10);
    sender.record_upload_result(3, true, 100);
    sender.record_upload_result(5, true, 200);
    let status = sender.status_snapshot();
    assert_eq!(status.events_uploaded, 8);
    assert_eq!(status.last_upload_sec, 200);
}

#[test]
fn watchdog_trips_once_threshold_is_exceeded() {
    let status = InfluxSenderStatus { events_uploaded: 9, last_upload_sec: 100 };
    assert!(!status.watchdog_expired(100, 60));
    assert!(!status.watchdog_expired(160, 60));
    assert!(status.watchdog_expired(161, 60));
    // a clock reading before the recorded upload never trips it
    assert!(!status.watchdog_expired(50, 60));
}
