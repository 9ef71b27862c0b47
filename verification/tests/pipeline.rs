//! End-to-end tagger scenarios: line filtering, point construction,
//! deduplication and configured extra tags.

use rtl2influx::point::FieldValue;
use rtl2influx::rtl_runner::RtlRunner;
use rtl2influx::sensor_tagger::{InstanceConfig, SensorTagger, SensorTypeConfig};

const SAMPLE: &str = r#"{"time":"2025-11-21 01:26:21","model":"Acurite-Tower","id":10956,"channel":"A","battery_ok":1,"temperature_C":22.7,"humidity":55,"mic":"CHECKSUM"}"#;

#[test]
fn candidate_record_filters_lines() {
    let t = RtlRunner::candidate_record("  {\"a\": 1}\t\n").expect("candidate");
    assert_eq!(t, "{\"a\": 1}");
    assert_eq!(RtlRunner::candidate_record("rtl_433 startup banner"), None);
    assert_eq!(RtlRunner::candidate_record("{truncated"), None);
    assert_eq!(RtlRunner::candidate_record("   \t  "), None);
    assert_eq!(RtlRunner::candidate_record(""), None);
    assert_eq!(RtlRunner::candidate_record("{}"), Some(String::from("{}")));
}

#[test]
fn all_unicode_whitespace_is_trimmed() {
    let t = RtlRunner::candidate_record("\u{000B}\u{00A0}{\"a\":1}\u{3000}\u{2028}")
        .expect("candidate");
    assert_eq!(t, "{\"a\":1}");
}

#[test]
fn sample_line_yields_expected_point() {
    let mut tagger = SensorTagger::new(Vec::new());
    let p = tagger.process_raw(SAMPLE, 100, 1_764_000_000_000_000_000).expect("point");
    assert_eq!(p.name, "acutwr");
    assert_eq!(p.tags.len(), 2);
    assert_eq!(p.tags[0].0, "model");
    assert_eq!(p.tags[0].1, "Acurite-Tower");
    assert_eq!(p.tags[1].0, "id");
    assert_eq!(p.tags[1].1, "10956");
    assert_eq!(p.fields.len(), 3);
    assert_eq!(p.fields[0].0, "battery_low");
    assert_eq!(p.fields[0].1, FieldValue::Int(0));
    assert_eq!(p.fields[1].0, "temp_c");
    assert_eq!(p.fields[1].1, FieldValue::Milli(22700));
    assert_eq!(p.fields[2].0, "humidity");
    assert_eq!(p.fields[2].1, FieldValue::Int(55));
    assert_eq!(p.timestamp_ns, 1_764_000_000_000_000_000);
}

#[test]
fn battery_not_ok_sets_battery_low() {
    let line = SAMPLE.replace("\"battery_ok\":1", "\"battery_ok\":0");
    let mut tagger = SensorTagger::new(Vec::new());
    let p = tagger.process_raw(&line, 100, 1).expect("point");
    assert_eq!(p.fields[0].0, "battery_low");
    assert_eq!(p.fields[0].1, FieldValue::Int(1));
}

#[test]
fn same_line_twice_within_window_yields_one_point() {
    let mut tagger = SensorTagger::new(Vec::new());
    let first = tagger.process_raw(SAMPLE, 100, 1);
    let second = tagger.process_raw(SAMPLE, 102, 2);
    assert!(first.is_some());
    assert!(second.is_none());
}

#[test]
fn readings_five_seconds_apart_both_pass() {
    let mut tagger = SensorTagger::new(Vec::new());
    assert!(tagger.process_raw(SAMPLE, 100, 1).is_some());
    assert!(tagger.process_raw(SAMPLE, 104, 2).is_none());
    assert!(tagger.process_raw(SAMPLE, 105, 3).is_some());
    assert!(tagger.process_raw(SAMPLE, 110, 4).is_some());
}

#[test]
fn different_identities_do_not_deduplicate_each_other() {
    let other = SAMPLE.replace("\"id\":10956", "\"id\":7");
    let mut tagger = SensorTagger::new(Vec::new());
    assert!(tagger.process_raw(SAMPLE, 100, 1).is_some());
    assert!(tagger.process_raw(&other, 101, 2).is_some());
}

#[test]
fn identities_equal_in_their_low_32_bits_share_a_dedup_slot() {
    // 4294978252 == 10956 + 2^32: the dedup key is the identity
    // truncated to 32 bits, so both readings compete for one slot
    let high = SAMPLE.replace("\"id\":10956", "\"id\":4294978252");
    let mut tagger = SensorTagger::new(Vec::new());
    assert!(tagger.process_raw(SAMPLE, 100, 1).is_some());
    assert!(tagger.process_raw(&high, 101, 2).is_none());
    assert!(tagger.process_raw(&high, 105, 3).is_some());
}

#[test]
fn malformed_lines_are_dropped_and_processing_continues() {
    let mut tagger = SensorTagger::new(Vec::new());
    assert!(tagger.process_raw("{\"bad\":", 100, 1).is_none());
    assert!(tagger.process_raw("{\"humidity\": 999}", 100, 1).is_none());
    assert!(tagger.process_raw(SAMPLE, 100, 1).is_some());
}

fn attic_config() -> Vec<(String, SensorTypeConfig)> {
    vec![(
        String::from("acutwr"),
        SensorTypeConfig {
            instances: vec![InstanceConfig {
                id: String::from("10956"),
                tags: vec![(String::from("location"), String::from("attic"))],
            }],
        },
    )]
}

#[test]
fn configured_tags_are_merged() {
    let mut tagger = SensorTagger::new(attic_config());
    let p = tagger.process_raw(SAMPLE, 100, 1).expect("point");
    assert_eq!(p.tags.len(), 3);
    assert_eq!(p.tags[2].0, "location");
    assert_eq!(p.tags[2].1, "attic");
}

#[test]
fn configured_tags_for_other_instances_are_not_merged() {
    let other = SAMPLE.replace("\"id\":10956", "\"id\":7");
    let mut tagger = SensorTagger::new(attic_config());
    let p = tagger.process_raw(&other, 100, 1).expect("point");
    assert_eq!(p.tags.len(), 2);
}

#[test]
fn colliding_configured_tag_wins() {
    let cfg = vec![(
        String::from("acutwr"),
        SensorTypeConfig {
            instances: vec![InstanceConfig {
                id: String::from("10956"),
                tags: vec![(String::from("model"), String::from("renamed"))],
            }],
        },
    )];
    let mut tagger = SensorTagger::new(cfg);
    let p = tagger.process_raw(SAMPLE, 100, 1).expect("point");
    assert_eq!(p.tags.len(), 2);
    assert_eq!(p.tags[0].0, "model");
    assert_eq!(p.tags[0].1, "renamed");
}

#[test]
fn identity_tag_uses_decimal_rendering() {
    assert_eq!(rtl2influx::text::u64_to_dec_string(0), "0");
    assert_eq!(rtl2influx::text::u64_to_dec_string(10956), "10956");
    assert_eq!(rtl2influx::text::u64_to_dec_string(18446744073709551615), "18446744073709551615");
}
