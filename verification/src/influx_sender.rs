//! Batching uploader state: accumulates measurement points up to a
//! configured maximum, records the outcome of each upload attempt in
//! shared-status counters, and decides when the liveness watchdog must
//! shut the pipeline down.
//!
//! The runtime drives one upload pass per flush interval: it drains the
//! point queue through [`InfluxSender::accept_point`] until the batch is
//! full or the queue is momentarily empty, takes the batch, attempts one
//! write to the store when the batch is non-empty, and records the
//! outcome. A failed attempt loses the batch by design: delivery is
//! at-most-once and memory stays bounded.

use crate::point::Point;
use vstd::prelude::*;

verus! {

/// Connection settings for the time-series store. Opaque to the core
/// logic; carried so the surrounding runtime can open a client.
#[derive(Clone)]
pub struct InfluxConfig {
    pub host: String,
    pub org: String,
    pub bucket: String,
    pub token: String,
}

/// Batching policy: at most `max_events` points per upload attempt, one
/// attempt at least every `flush_interval_secs` seconds.
#[derive(Clone)]
pub struct UploadConfig {
    pub max_events: usize,
    pub flush_interval_secs: u64,
}

/// Batching policy plus connection settings, as handed to the uploader.
#[derive(Clone)]
pub struct InfluxSenderConfig {
    pub influx_config: InfluxConfig,
    pub upload_config: UploadConfig,
}

/// Upload counters: total points successfully uploaded and the second of
/// the most recent successful upload. Written only by the uploader;
/// read by the watchdog and status reporters.
#[derive(Clone, Copy)]
pub struct InfluxSenderStatus {
    pub events_uploaded: u64,
    pub last_upload_sec: u64,
}

impl InfluxSenderStatus {
    /// Fresh counters: nothing uploaded yet; liveness is measured from
    /// `start_sec` (the moment the pipeline came up).
    pub fn new(start_sec: u64) -> (s: InfluxSenderStatus)
        ensures
            s.events_uploaded == 0,
            s.last_upload_sec == start_sec,
    {
        InfluxSenderStatus { events_uploaded: 0, last_upload_sec: start_sec }
    }

    /// Liveness check: true exactly when more than `threshold_secs` whole
    /// seconds have passed since the last successful upload. The watchdog
    /// polls this and requests full pipeline shutdown when it turns true.
    /// A clock reading earlier than the recorded upload time never trips it.
    pub fn watchdog_expired(&self, now_sec: u64, threshold_secs: u64) -> (r: bool)
        ensures
            r <==> (now_sec >= self.last_upload_sec && now_sec - self.last_upload_sec
                > threshold_secs),
    {
        now_sec >= self.last_upload_sec && now_sec - self.last_upload_sec > threshold_secs
    }
}

/// The uploader stage: the batch under accumulation, bounded by the
/// configured maximum, and the shared upload counters.
pub struct InfluxSender {
    pub influx_config: InfluxConfig,
    pub upload_config: UploadConfig,
    pub batch: Vec<Point>,
    pub status: InfluxSenderStatus,
}

impl InfluxSender {
    /// The batch never accumulates more points than the configured
    /// maximum before an upload is attempted.
    pub open spec fn wf(&self) -> bool {
        self.upload_config.max_events >= 1 && self.batch@.len()
            <= self.upload_config.max_events
    }

    /// A fresh uploader with an empty batch.
    pub fn new(config: InfluxSenderConfig, status: InfluxSenderStatus) -> (s: InfluxSender)
        requires
            config.upload_config.max_events >= 1,
        ensures
            s.wf(),
            s.influx_config == config.influx_config,
            s.upload_config == config.upload_config,
            s.status == status,
            s.batch@.len() == 0,
    {
        InfluxSender {
            influx_config: config.influx_config,
            upload_config: config.upload_config,
            batch: Vec::new(),
            status,
        }
    }

    /// Takes one point drained from the queue into the batch; the
    /// result says whether the batch has reached the configured
    /// maximum, upon which the pass must stop draining and flush. A
    /// point offered to an already full batch is not added.
    pub fn accept_point(&mut self, p: Point) -> (full: bool)
        requires
            old(self).wf(),
        ensures
            final(self).wf(),
            final(self).influx_config == old(self).influx_config,
            final(self).upload_config == old(self).upload_config,
            final(self).status == old(self).status,
            old(self).batch@.len() < old(self).upload_config.max_events ==> final(self).batch@
                == old(self).batch@.push(p),
            old(self).batch@.len() >= old(self).upload_config.max_events ==> final(self).batch@
                == old(self).batch@,
            full <==> final(self).batch@.len() >= final(self).upload_config.max_events,
    {
        if self.batch.len() < self.upload_config.max_events {
            self.batch.push(p);
        }
        self.batch.len() >= self.upload_config.max_events
    }

    /// Whether the pass must attempt an upload: only a non-empty batch
    /// is sent; an empty pass is skipped.
    pub fn should_flush(&self) -> (r: bool)
        ensures
            r <==> self.batch@.len() > 0,
    {
        self.batch.len() > 0
    }

    /// Hands the accumulated batch out for one upload attempt and
    /// leaves the uploader empty: whatever the attempt's outcome, the
    /// batch is never kept for a retry.
    pub fn take_batch(&mut self) -> (b: Vec<Point>)
        requires
            old(self).wf(),
        ensures
            final(self).wf(),
            b@ == old(self).batch@,
            final(self).batch@.len() == 0,
            final(self).influx_config == old(self).influx_config,
            final(self).upload_config == old(self).upload_config,
            final(self).status == old(self).status,
    {
        let mut b: Vec<Point> = Vec::new();
        core::mem::swap(&mut self.batch, &mut b);
        b
    }

    /// Records the outcome of one upload attempt of `n` points: a
    /// success advances the uploaded counter by exactly `n` (saturating
    /// at the counter's width) and stamps the attempt's second; a
    /// failure changes nothing, and the lost batch is not re-counted.
    pub fn record_upload_result(&mut self, n: usize, success: bool, now_sec: u64)
        ensures
            final(self).influx_config == old(self).influx_config,
            final(self).upload_config == old(self).upload_config,
            final(self).batch == old(self).batch,
            success ==> final(self).status.events_uploaded == if old(self).status.events_uploaded
                + n <= u64::MAX {
                old(self).status.events_uploaded + n
            } else {
                u64::MAX as int
            },
            success ==> final(self).status.last_upload_sec == now_sec,
            !success ==> final(self).status == old(self).status,
    {
        if success {
            let n64 = n as u64;
            if self.status.events_uploaded <= u64::MAX - n64 {
                self.status.events_uploaded = self.status.events_uploaded + n64;
            } else {
                self.status.events_uploaded = u64::MAX;
            }
            self.status.last_upload_sec = now_sec;
        }
    }

    /// A snapshot of the upload counters for the watchdog and status
    /// reporters.
    pub fn status_snapshot(&self) -> (s: InfluxSenderStatus)
        ensures
            s == self.status,
    {
        self.status
    }
}

} // verus!
