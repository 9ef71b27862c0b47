//! The "tower"-style temperature/humidity record: a flat JSON object
//! with string fields `time`, `model`, `channel`, `mic`, an integer
//! `id`, a flexible boolean `battery_ok`, a decimal `temperature_C`
//! and an integer `humidity` that must fit eight bits. Any other shape
//! fails to decode, and the tagger drops the line.

use crate::json::{
    lookup, pairs_view, parse_object, spec_lookup, spec_parse_object, JsonValue, JsonValueV,
};
use crate::text::str_eq;
use vstd::prelude::*;

verus! {

/// Why a raw line failed to decode into a record.
#[derive(Clone, Copy, Debug, PartialEq, Eq, Structural)]
pub enum DecodeError {
    /// The line is not a flat JSON object of scalars.
    Syntax,
    /// A required member is absent.
    MissingField,
    /// A required member holds a value of the wrong kind.
    WrongType,
    /// A numeric member lies outside the field's range.
    OutOfRange,
}

/// A decoded tower record. The temperature is carried in thousandths
/// of a degree Celsius, so `22700` stands for 22.7 °C.
#[derive(Debug, PartialEq)]
pub struct AccuriteRecord {
    pub time: String,
    pub model: String,
    pub id: u64,
    pub channel: String,
    pub battery_ok: bool,
    pub temp_milli_c: i64,
    pub humidity: u8,
    pub mic: String,
}

/// Spec-level value of a decoded record.
pub struct AccuriteRecordV {
    pub time: Seq<char>,
    pub model: Seq<char>,
    pub id: int,
    pub channel: Seq<char>,
    pub battery_ok: bool,
    pub temp_milli_c: int,
    pub humidity: int,
    pub mic: Seq<char>,
}

impl View for AccuriteRecord {
    type V = AccuriteRecordV;

    open spec fn view(&self) -> AccuriteRecordV {
        AccuriteRecordV {
            time: self.time@,
            model: self.model@,
            id: self.id as int,
            channel: self.channel@,
            battery_ok: self.battery_ok,
            temp_milli_c: self.temp_milli_c as int,
            humidity: self.humidity as int,
            mic: self.mic@,
        }
    }
}

/// The battery flag accepts the booleans, the integers 0 and 1, and
/// the strings `"0"`, `"1"`, `"true"`, `"false"`, `"True"`, `"False"`;
/// every other value fails to decode.
pub open spec fn spec_decode_battery(v: JsonValueV) -> Result<bool, DecodeError> {
    match v {
        JsonValueV::Bool(b) => Ok(b),
        JsonValueV::Int(n) => if n == 1 {
            Ok(true)
        } else if n == 0 {
            Ok(false)
        } else {
            Err(DecodeError::WrongType)
        },
        JsonValueV::Str(t) => {
            if t == "1"@ || t == "true"@ || t == "True"@ {
                Ok(true)
            } else if t == "0"@ || t == "false"@ || t == "False"@ {
                Ok(false)
            } else {
                Err(DecodeError::WrongType)
            }
        },
        _ => Err(DecodeError::WrongType),
    }
}

pub open spec fn spec_field_str(pairs: Seq<(Seq<char>, JsonValueV)>, key: Seq<char>) -> Result<
    Seq<char>,
    DecodeError,
> {
    match spec_lookup(pairs, key) {
        None => Err(DecodeError::MissingField),
        Some(v) => match v {
            JsonValueV::Str(t) => Ok(t),
            _ => Err(DecodeError::WrongType),
        },
    }
}

/// The sensor identity: a non-negative integer member `id`.
pub open spec fn spec_field_id(pairs: Seq<(Seq<char>, JsonValueV)>) -> Result<int, DecodeError> {
    match spec_lookup(pairs, "id"@) {
        None => Err(DecodeError::MissingField),
        Some(v) => match v {
            JsonValueV::Int(n) => if n >= 0 {
                Ok(n)
            } else {
                Err(DecodeError::OutOfRange)
            },
            _ => Err(DecodeError::WrongType),
        },
    }
}

/// The battery flag member `battery_ok`.
pub open spec fn spec_field_battery(pairs: Seq<(Seq<char>, JsonValueV)>) -> Result<
    bool,
    DecodeError,
> {
    match spec_lookup(pairs, "battery_ok"@) {
        None => Err(DecodeError::MissingField),
        Some(v) => spec_decode_battery(v),
    }
}

/// The temperature member `temperature_C`, in thousandths of a degree.
/// An integer reading is scaled; one beyond fifteen digits is out of
/// range for this record.
pub open spec fn spec_field_temp(pairs: Seq<(Seq<char>, JsonValueV)>) -> Result<int, DecodeError> {
    match spec_lookup(pairs, "temperature_C"@) {
        None => Err(DecodeError::MissingField),
        Some(v) => match v {
            JsonValueV::Int(n) => if -1000000000000000 < n < 1000000000000000 {
                Ok(n * 1000)
            } else {
                Err(DecodeError::OutOfRange)
            },
            JsonValueV::Milli(m) => Ok(m),
            _ => Err(DecodeError::WrongType),
        },
    }
}

/// The humidity member: an integer representable in eight bits.
pub open spec fn spec_field_humidity(pairs: Seq<(Seq<char>, JsonValueV)>) -> Result<
    int,
    DecodeError,
> {
    match spec_lookup(pairs, "humidity"@) {
        None => Err(DecodeError::MissingField),
        Some(v) => match v {
            JsonValueV::Int(n) => if 0 <= n <= 255 {
                Ok(n)
            } else {
                Err(DecodeError::OutOfRange)
            },
            _ => Err(DecodeError::WrongType),
        },
    }
}

/// Decodes the member list of a parsed object into a record, checking
/// the members in a fixed order and reporting the first failure.
pub open spec fn spec_decode_pairs(pairs: Seq<(Seq<char>, JsonValueV)>) -> Result<
    AccuriteRecordV,
    DecodeError,
> {
    match spec_field_str(pairs, "time"@) {
        Err(e) => Err(e),
        Ok(time) => match spec_field_str(pairs, "model"@) {
            Err(e) => Err(e),
            Ok(model) => match spec_field_id(pairs) {
                Err(e) => Err(e),
                Ok(id) => match spec_field_str(pairs, "channel"@) {
                    Err(e) => Err(e),
                    Ok(channel) => match spec_field_battery(pairs) {
                        Err(e) => Err(e),
                        Ok(battery_ok) => match spec_field_temp(pairs) {
                            Err(e) => Err(e),
                            Ok(temp_milli_c) => match spec_field_humidity(pairs) {
                                Err(e) => Err(e),
                                Ok(humidity) => match spec_field_str(pairs, "mic"@) {
                                    Err(e) => Err(e),
                                    Ok(mic) => Ok(
                                        AccuriteRecordV {
                                            time,
                                            model,
                                            id,
                                            channel,
                                            battery_ok,
                                            temp_milli_c,
                                            humidity,
                                            mic,
                                        },
                                    ),
                                },
                            },
                        },
                    },
                },
            },
        },
    }
}

/// Decodes one raw line: parse it as a flat JSON object, then extract
/// the record's members.
pub open spec fn spec_decode_line(s: Seq<char>) -> Result<AccuriteRecordV, DecodeError> {
    match spec_parse_object(s) {
        None => Err(DecodeError::Syntax),
        Some(pairs) => spec_decode_pairs(pairs),
    }
}

/// Decodes the flexible battery flag of a record member.
pub fn decode_battery(v: &JsonValue) -> (r: Result<bool, DecodeError>)
    ensures
        r == spec_decode_battery(v@),
{
    match v {
        JsonValue::Bool(b) => Ok(*b),
        JsonValue::Int(n) => if *n == 1 {
            Ok(true)
        } else if *n == 0 {
            Ok(false)
        } else {
            Err(DecodeError::WrongType)
        },
        JsonValue::Str(t) => {
            if str_eq(t.as_str(), "1") || str_eq(t.as_str(), "true") || str_eq(
                t.as_str(),
                "True",
            ) {
                Ok(true)
            } else if str_eq(t.as_str(), "0") || str_eq(t.as_str(), "false") || str_eq(
                t.as_str(),
                "False",
            ) {
                Ok(false)
            } else {
                Err(DecodeError::WrongType)
            }
        },
        _ => Err(DecodeError::WrongType),
    }
}

fn field_str(pairs: &Vec<(String, JsonValue)>, key: &str) -> (r: Result<String, DecodeError>)
    ensures
        match r {
            Ok(t) => spec_field_str(pairs_view(pairs@), key@) == Ok::<Seq<char>, DecodeError>(t@),
            Err(e) => spec_field_str(pairs_view(pairs@), key@) == Err::<Seq<char>, DecodeError>(e),
        },
{
    match lookup(pairs, key) {
        None => Err(DecodeError::MissingField),
        Some(v) => match v {
            JsonValue::Str(t) => Ok(t.clone()),
            _ => Err(DecodeError::WrongType),
        },
    }
}

fn field_id(pairs: &Vec<(String, JsonValue)>) -> (r: Result<u64, DecodeError>)
    ensures
        match r {
            Ok(n) => spec_field_id(pairs_view(pairs@)) == Ok::<int, DecodeError>(n as int),
            Err(e) => spec_field_id(pairs_view(pairs@)) == Err::<int, DecodeError>(e),
        },
{
    match lookup(pairs, "id") {
        None => Err(DecodeError::MissingField),
        Some(v) => match v {
            JsonValue::Int(n) => if *n >= 0 {
                Ok(*n as u64)
            } else {
                Err(DecodeError::OutOfRange)
            },
            _ => Err(DecodeError::WrongType),
        },
    }
}

fn field_battery(pairs: &Vec<(String, JsonValue)>) -> (r: Result<bool, DecodeError>)
    ensures
        match r {
            Ok(b) => spec_field_battery(pairs_view(pairs@)) == Ok::<bool, DecodeError>(b),
            Err(e) => spec_field_battery(pairs_view(pairs@)) == Err::<bool, DecodeError>(e),
        },
{
    match lookup(pairs, "battery_ok") {
        None => Err(DecodeError::MissingField),
        Some(v) => decode_battery(v),
    }
}

fn field_temp(pairs: &Vec<(String, JsonValue)>) -> (r: Result<i64, DecodeError>)
    ensures
        match r {
            Ok(m) => spec_field_temp(pairs_view(pairs@)) == Ok::<int, DecodeError>(m as int),
            Err(e) => spec_field_temp(pairs_view(pairs@)) == Err::<int, DecodeError>(e),
        },
{
    match lookup(pairs, "temperature_C") {
        None => Err(DecodeError::MissingField),
        Some(v) => match v {
            JsonValue::Int(n) => if -1000000000000000 < *n && *n < 1000000000000000 {
                Ok(*n * 1000)
            } else {
                Err(DecodeError::OutOfRange)
            },
            JsonValue::Milli(m) => Ok(*m),
            _ => Err(DecodeError::WrongType),
        },
    }
}

fn field_humidity(pairs: &Vec<(String, JsonValue)>) -> (r: Result<u8, DecodeError>)
    ensures
        match r {
            Ok(h) => spec_field_humidity(pairs_view(pairs@)) == Ok::<int, DecodeError>(h as int),
            Err(e) => spec_field_humidity(pairs_view(pairs@)) == Err::<int, DecodeError>(e),
        },
{
    match lookup(pairs, "humidity") {
        None => Err(DecodeError::MissingField),
        Some(v) => match v {
            JsonValue::Int(n) => if 0 <= *n && *n <= 255 {
                Ok(*n as u8)
            } else {
                Err(DecodeError::OutOfRange)
            },
            _ => Err(DecodeError::WrongType),
        },
    }
}

impl AccuriteRecord {
    /// Decodes one raw line into a record, or says exactly why the
    /// line is not one.
    pub fn decode(line: &str) -> (r: Result<AccuriteRecord, DecodeError>)
        ensures
            match r {
                Ok(rec) => spec_decode_line(line@) == Ok::<AccuriteRecordV, DecodeError>(rec@),
                Err(e) => spec_decode_line(line@) == Err::<AccuriteRecordV, DecodeError>(e),
            },
    {
        let pairs = match parse_object(line) {
            None => {
                return Err(DecodeError::Syntax);
            },
            Some(p) => p,
        };
        let time = match field_str(&pairs, "time") {
            Err(e) => {
                return Err(e);
            },
            Ok(t) => t,
        };
        let model = match field_str(&pairs, "model") {
            Err(e) => {
                return Err(e);
            },
            Ok(t) => t,
        };
        let id = match field_id(&pairs) {
            Err(e) => {
                return Err(e);
            },
            Ok(n) => n,
        };
        let channel = match field_str(&pairs, "channel") {
            Err(e) => {
                return Err(e);
            },
            Ok(t) => t,
        };
        let battery_ok = match field_battery(&pairs) {
            Err(e) => {
                return Err(e);
            },
            Ok(b) => b,
        };
        let temp_milli_c = match field_temp(&pairs) {
            Err(e) => {
                return Err(e);
            },
            Ok(m) => m,
        };
        let humidity = match field_humidity(&pairs) {
            Err(e) => {
                return Err(e);
            },
            Ok(h) => h,
        };
        let mic = match field_str(&pairs, "mic") {
            Err(e) => {
                return Err(e);
            },
            Ok(t) => t,
        };
        Ok(AccuriteRecord { time, model, id, channel, battery_ok, temp_milli_c, humidity, mic })
    }
}

} // verus!
