//! Record decoding: the supported record shape, the flexible battery
//! flag, and the errors for malformed lines.

use rtl2influx::json::JsonValue;
use rtl2influx::records::accurite::{decode_battery, AccuriteRecord, DecodeError};

#[test]
fn deserialize_sample() {
    let s = r#"{"time":"2025-11-21 01:26:21","model":"Acurite-Tower","id":10956,"channel":"A","battery_ok":1,"temperature_C":22.700,"humidity":55,"mic":"CHECKSUM"}"#;
    let rec: AccuriteRecord = AccuriteRecord::decode(s).expect("deserialize");
    assert_eq!(rec.model, "Acurite-Tower");
    assert!(rec.battery_ok);
    assert_eq!(rec.temp_milli_c, 22700);
}

#[test]
fn deserialize_sample_string() {
    let j = r#"{"time" : "2025-11-21 01:26:21", "model" : "Acurite-Tower", "id" : 10956, "A": "b",
                    "channel" : "A", "battery_ok" : 1, "temperature_C" : 22.700, "humidity" : 55, "mic" : "CHECKSUM"}"#;
    let rec: AccuriteRecord = AccuriteRecord::decode(j).expect("deserialize");
    assert_eq!(rec.model, "Acurite-Tower");
    assert!(rec.battery_ok);
    assert_eq!(rec.temp_milli_c, 22700);
    assert_eq!(rec.humidity, 55);
}

fn line_with_battery(b: &str) -> String {
    format!(
        r#"{{"time":"2025-11-21 01:26:21","model":"Acurite-Tower","id":10956,"channel":"A","battery_ok":{},"temperature_C":22.7,"humidity":55,"mic":"CHECKSUM"}}"#,
        b
    )
}

#[test]
fn battery_flag_accepts_documented_forms() {
    let true_forms = ["1", "true", "\"1\"", "\"true\"", "\"True\""];
    for f in true_forms {
        let rec = AccuriteRecord::decode(&line_with_battery(f)).expect("decode");
        assert!(rec.battery_ok, "battery_ok should be true for {}", f);
    }
    let false_forms = ["0", "false", "\"0\"", "\"false\"", "\"False\""];
    for f in false_forms {
        let rec = AccuriteRecord::decode(&line_with_battery(f)).expect("decode");
        assert!(!rec.battery_ok, "battery_ok should be false for {}", f);
    }
}

#[test]
fn battery_flag_rejects_yes() {
    let r = AccuriteRecord::decode(&line_with_battery("\"yes\""));
    assert_eq!(r.unwrap_err(), DecodeError::WrongType);
    let direct = decode_battery(&JsonValue::Str(String::from("yes")));
    assert_eq!(direct.unwrap_err(), DecodeError::WrongType);
}

#[test]
fn battery_flag_rejects_integers_other_than_zero_and_one() {
    let r = AccuriteRecord::decode(&line_with_battery("7"));
    assert_eq!(r.unwrap_err(), DecodeError::WrongType);
    assert_eq!(decode_battery(&JsonValue::Int(7)), Err(DecodeError::WrongType));
    assert_eq!(decode_battery(&JsonValue::Int(-3)), Err(DecodeError::WrongType));
}

#[test]
fn battery_flag_direct_values() {
    assert_eq!(decode_battery(&JsonValue::Bool(true)), Ok(true));
    assert_eq!(decode_battery(&JsonValue::Bool(false)), Ok(false));
    assert_eq!(decode_battery(&JsonValue::Int(1)), Ok(true));
    assert_eq!(decode_battery(&JsonValue::Int(0)), Ok(false));
    assert_eq!(decode_battery(&JsonValue::Str(String::from("True"))), Ok(true));
    assert_eq!(decode_battery(&JsonValue::Str(String::from("False"))), Ok(false));
    assert_eq!(decode_battery(&JsonValue::Null), Err(DecodeError::WrongType));
    assert_eq!(decode_battery(&JsonValue::Milli(1000)), Err(DecodeError::WrongType));
}

#[test]
fn malformed_lines_give_syntax_errors() {
    assert_eq!(AccuriteRecord::decode("not json"), Err(DecodeError::Syntax));
    assert_eq!(AccuriteRecord::decode("{unquoted: 1}"), Err(DecodeError::Syntax));
    assert_eq!(AccuriteRecord::decode(r#"{"a": 1"#), Err(DecodeError::Syntax));
    assert_eq!(AccuriteRecord::decode(r#"[1, 2]"#), Err(DecodeError::Syntax));
    assert_eq!(AccuriteRecord::decode(r#"{"a": {"b": 1}}"#), Err(DecodeError::Syntax));
    assert_eq!(AccuriteRecord::decode(""), Err(DecodeError::Syntax));
    assert_eq!(AccuriteRecord::decode(r#"{"a": 1} trailing"#), Err(DecodeError::Syntax));
}

#[test]
fn missing_field_is_reported() {
    let s = r#"{"time":"t","model":"m","id":1,"channel":"A","battery_ok":1,"temperature_C":2.0,"mic":"c"}"#;
    assert_eq!(AccuriteRecord::decode(s), Err(DecodeError::MissingField));
    assert_eq!(AccuriteRecord::decode("{}"), Err(DecodeError::MissingField));
}

#[test]
fn wrong_field_type_is_reported() {
    let s = r#"{"time":"t","model":"m","id":1,"channel":"A","battery_ok":1,"temperature_C":2.0,"humidity":"55","mic":"c"}"#;
    assert_eq!(AccuriteRecord::decode(s), Err(DecodeError::WrongType));
    let s2 = r#"{"time":"t","model":7,"id":1,"channel":"A","battery_ok":1,"temperature_C":2.0,"humidity":55,"mic":"c"}"#;
    assert_eq!(AccuriteRecord::decode(s2), Err(DecodeError::WrongType));
}

#[test]
fn out_of_range_values_are_reported() {
    let high = r#"{"time":"t","model":"m","id":1,"channel":"A","battery_ok":1,"temperature_C":2.0,"humidity":300,"mic":"c"}"#;
    assert_eq!(AccuriteRecord::decode(high), Err(DecodeError::OutOfRange));
    let neg_id = r#"{"time":"t","model":"m","id":-4,"channel":"A","battery_ok":1,"temperature_C":2.0,"humidity":55,"mic":"c"}"#;
    assert_eq!(AccuriteRecord::decode(neg_id), Err(DecodeError::OutOfRange));
}

#[test]
fn integer_temperature_is_scaled() {
    let s = r#"{"time":"t","model":"m","id":1,"channel":"A","battery_ok":1,"temperature_C":-7,"humidity":55,"mic":"c"}"#;
    let rec = AccuriteRecord::decode(s).expect("decode");
    assert_eq!(rec.temp_milli_c, -7000);
    let s2 = r#"{"time":"t","model":"m","id":1,"channel":"A","battery_ok":1,"temperature_C":-0.5,"humidity":55,"mic":"c"}"#;
    let rec2 = AccuriteRecord::decode(s2).expect("decode");
    assert_eq!(rec2.temp_milli_c, -500);
}

#[test]
fn string_escapes_are_decoded() {
    let s = r#"{"time":"01:26\t21","model":"Acurite\"Tower\\","id":1,"channel":"A\/B","battery_ok":1,"temperature_C":2.0,"humidity":55,"mic":"c\r\n\b\f"}"#;
    let rec = AccuriteRecord::decode(s).expect("decode");
    assert_eq!(rec.time, "01:26\t21");
    assert_eq!(rec.model, "Acurite\"Tower\\");
    assert_eq!(rec.channel, "A/B");
    assert_eq!(rec.mic, "c\r\n\u{0008}\u{000C}");
}

#[test]
fn unsupported_escapes_are_rejected() {
    let unicode_escape = r#"{"time":"\u0041","model":"m","id":1,"channel":"A","battery_ok":1,"temperature_C":2.0,"humidity":55,"mic":"c"}"#;
    assert_eq!(AccuriteRecord::decode(unicode_escape), Err(DecodeError::Syntax));
    let unknown_escape = r#"{"time":"\q","model":"m","id":1,"channel":"A","battery_ok":1,"temperature_C":2.0,"humidity":55,"mic":"c"}"#;
    assert_eq!(AccuriteRecord::decode(unknown_escape), Err(DecodeError::Syntax));
    let unterminated = r#"{"time":"t\"#;
    assert_eq!(AccuriteRecord::decode(unterminated), Err(DecodeError::Syntax));
}

#[test]
fn first_of_duplicate_members_wins() {
    let s = r#"{"time":"t","model":"m","id":1,"channel":"A","battery_ok":1,"temperature_C":2.0,"humidity":41,"humidity":99,"mic":"c"}"#;
    let rec = AccuriteRecord::decode(s).expect("decode");
    assert_eq!(rec.humidity, 41);
}

#[test]
fn fractional_digits_beyond_three_are_truncated() {
    let s = r#"{"time":"t","model":"m","id":1,"channel":"A","battery_ok":1,"temperature_C":22.70009,"humidity":55,"mic":"c"}"#;
    let rec = AccuriteRecord::decode(s).expect("decode");
    assert_eq!(rec.temp_milli_c, 22700);
}

fn line_with_temperature(t: &str) -> String {
    format!(
        r#"{{"time":"t","model":"m","id":1,"channel":"A","battery_ok":1,"temperature_C":{},"humidity":55,"mic":"c"}}"#,
        t
    )
}

#[test]
fn exponent_temperatures_are_decoded() {
    let cases = [
        ("2.27e1", 22700),
        ("227e-1", 22700),
        ("1E2", 100000),
        ("1e+2", 100000),
        ("-2.5e1", -25000),
        ("1.5e-3", 1),
        ("2e-4", 0),
        ("0e0", 0),
    ];
    for (t, milli) in cases {
        let rec = AccuriteRecord::decode(&line_with_temperature(t)).expect("decode");
        assert_eq!(rec.temp_milli_c, milli, "for temperature {}", t);
    }
}

#[test]
fn oversized_exponents_are_rejected() {
    assert_eq!(
        AccuriteRecord::decode(&line_with_temperature("1e13")),
        Err(DecodeError::Syntax)
    );
    assert_eq!(
        AccuriteRecord::decode(&line_with_temperature("1e999")),
        Err(DecodeError::Syntax)
    );
    assert_eq!(
        AccuriteRecord::decode(&line_with_temperature("1e")),
        Err(DecodeError::Syntax)
    );
}
