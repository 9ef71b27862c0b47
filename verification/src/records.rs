//! Decoders for the sensor-record families the tagger understands.

pub mod accurite;
