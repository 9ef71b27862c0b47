//! Verified core of a sensor-telemetry forwarder.
//!
//! Raw JSON lines produced by a radio-capture subprocess are filtered,
//! decoded into sensor records, deduplicated, enriched with static tags,
//! batched, and handed to an uploader. The decision logic of every stage
//! lives here with contracts; the surrounding process, channel and network
//! plumbing stays outside the library.

pub mod influx_sender;
pub mod json;
pub mod point;
pub mod records;
pub mod rtl_runner;
pub mod sensor_tagger;
pub mod text;

use vstd::prelude::*;

verus! {

/// Number of seconds that two readings from the same sensor must be apart
/// for the second one to be accepted rather than dropped as a duplicate.
pub const DEDUP_WINDOW_SECS: u64 = 5;

} // verus!
