//! The measurement sinks that stand in for each library's output target.
//!
//! Every logging backend under comparison is wired, through its own
//! interception point, into one of these sinks: a byte-oriented writer, a
//! drain handed structured records, or a formatting callback. Each sink only
//! counts messages and bytes; none performs real I/O.

use crate::clock::timestamp_for;
use crate::clock::ClockKind;
use crate::level::Level;
use crate::metrics::MessageStats;
use crate::render::byte_len;
use crate::render::checked_rendered_len;
use crate::render::kv_bytes;
use crate::render::kv_contribution;
use crate::render::lemma_rendered_view_byte_len;
use crate::render::rendered_byte_len;
use crate::render::rendered_view;
use vstd::prelude::*;

verus! {

/// A benchmarking sink: the message and byte counters, resettable between
/// measured runs. The counting itself is `MessageStats`'s, the one source of
/// truth for how a record call moves the totals.
pub struct MetricsSink {
    pub stats: MessageStats,
}

impl MetricsSink {
    /// The pair a snapshot reports: messages observed, bytes observed.
    pub open spec fn spec_snapshot(self) -> (usize, usize) {
        (self.stats.total_messages, self.stats.total_bytes)
    }

    /// The sink a reset leaves behind: both counters zero.
    pub open spec fn spec_reset(self) -> MetricsSink {
        MetricsSink { stats: MessageStats { total_messages: 0, total_bytes: 0 } }
    }

    /// True when one more message of `bytes` rendered bytes can be counted
    /// without exceeding the counters' machine range.
    pub open spec fn can_record(self, bytes: nat) -> bool {
        self.stats.can_record(bytes)
    }

    /// A fresh sink, both counters zero.
    pub fn new() -> (r: Self)
        ensures
            r.stats.total_messages == 0,
            r.stats.total_bytes == 0,
    {
        MetricsSink { stats: MessageStats::new() }
    }

    /// Record one observed message of `bytes` rendered bytes: the message
    /// counter rises by exactly one and the byte counter by exactly `bytes`.
    pub fn record(&mut self, bytes: usize)
        requires
            old(self).can_record(bytes as nat),
        ensures
            final(self).stats.total_messages == old(self).stats.total_messages + 1,
            final(self).stats.total_bytes == old(self).stats.total_bytes + bytes,
    {
        self.stats.record_message(bytes);
    }

    /// Record one observed message when the counters have room, and report
    /// whether it was counted; a message that would overflow a counter
    /// leaves both counters untouched.
    pub fn try_record(&mut self, bytes: usize) -> (ok: bool)
        ensures
            ok == old(self).can_record(bytes as nat),
            ok ==> final(self).stats.total_messages == old(self).stats.total_messages + 1
                && final(self).stats.total_bytes == old(self).stats.total_bytes + bytes,
            !ok ==> *final(self) == *old(self),
    {
        self.stats.try_record_message(bytes)
    }

    /// A snapshot of both counters: (messages, bytes).
    pub fn get_metrics(&self) -> (r: (usize, usize))
        ensures
            r == self.spec_snapshot(),
    {
        (self.stats.total_messages, self.stats.total_bytes)
    }

    /// Zero both counters for a new benchmark run.
    pub fn reset(&mut self)
        ensures
            *final(self) == old(self).spec_reset(),
    {
        self.stats = MessageStats::new();
    }
}

/// Law: a reset followed by a snapshot, with no record call in between,
/// reports zero messages and zero bytes.
pub proof fn lemma_reset_then_snapshot(s: MetricsSink)
    ensures
        s.spec_reset().spec_snapshot() == (0usize, 0usize),
{
}

/// Adapts a sink to a byte-writer interception point: the library hands over
/// an already formatted buffer, which is counted and reported fully written.
pub struct MetricsSinkWriter(pub MetricsSink);

impl MetricsSinkWriter {
    /// Accept a formatted buffer: count it and report every byte written.
    pub fn write_buf(&mut self, buf: &[u8]) -> (n: usize)
        requires
            old(self).0.can_record(buf@.len()),
        ensures
            n == buf@.len(),
            final(self).0.stats.total_messages == old(self).0.stats.total_messages + 1,
            final(self).0.stats.total_bytes == old(self).0.stats.total_bytes + buf@.len(),
    {
        let len = buf.len();
        self.0.record(len);
        len
    }
}

/// A writer that counts bytes written instead of delivering them, shared by
/// the adapters as their common measurement backend.
pub struct CountingWriter {
    pub stats: MessageStats,
}

impl CountingWriter {
    /// A writer over the given counters.
    pub fn new(stats: MessageStats) -> (r: Self)
        ensures
            r.stats == stats,
    {
        CountingWriter { stats }
    }

    /// Byte-writer interception: an already formatted buffer arrives and its
    /// length is counted, with every byte reported written.
    pub fn write_buf(&mut self, buf: &[u8]) -> (n: usize)
        requires
            old(self).stats.can_record(buf@.len()),
        ensures
            n == buf@.len(),
            final(self).stats.total_messages == old(self).stats.total_messages + 1,
            final(self).stats.total_bytes == old(self).stats.total_bytes + buf@.len(),
    {
        let len = buf.len();
        self.stats.record_message(len);
        len
    }

    /// Formatting-callback interception: only the message text arrives, and
    /// its byte length alone is counted.
    pub fn log_message(&mut self, msg: &str)
        requires
            old(self).stats.can_record(byte_len(msg@)),
        ensures
            final(self).stats.total_messages == old(self).stats.total_messages + 1,
            final(self).stats.total_bytes == old(self).stats.total_bytes + byte_len(msg@),
    {
        let len = msg.len();
        self.stats.record_message(len);
    }

    /// Structured-record interception: the message text and the serialized
    /// key/value attributes are accounted together. Reports whether the
    /// event was counted; one that would overflow a counter leaves the
    /// counters untouched.
    pub fn log_structured(&mut self, msg: &str, kvs: &Vec<(String, String)>) -> (ok: bool)
        requires
            byte_len(msg@) <= usize::MAX,
            forall|i: int|
                0 <= i < kvs@.len() ==> byte_len(#[trigger] kvs@[i].0@) <= usize::MAX && byte_len(
                    kvs@[i].1@,
                ) <= usize::MAX,
        ensures
            ok == (byte_len(msg@) + kv_bytes(kvs@) <= usize::MAX
                && old(self).stats.can_record((byte_len(msg@) + kv_bytes(kvs@)) as nat)),
            ok ==> final(self).stats.total_messages == old(self).stats.total_messages + 1
                && final(self).stats.total_bytes == old(self).stats.total_bytes + byte_len(msg@)
                + kv_bytes(kvs@),
            !ok ==> final(self).stats == old(self).stats,
    {
        let size = match kv_contribution(kvs) {
            Some(v) => v,
            None => {
                return false;
            },
        };
        let msg_bytes = msg.len();
        if msg_bytes <= usize::MAX - size {
            self.stats.try_record_message(msg_bytes + size)
        } else {
            false
        }
    }
}

/// A drain-style interception point: the library hands over a structured
/// record and the adapter itself renders it with the shared format before
/// counting the rendered line's bytes.
pub struct MetricsDrain {
    pub metrics: MetricsSink,
}

impl MetricsDrain {
    /// A drain over the given sink.
    pub fn new(metrics: MetricsSink) -> (r: Self)
        ensures
            r.metrics == metrics,
    {
        MetricsDrain { metrics }
    }

    /// Count the line the shared format renders from the given parts: the
    /// byte total rises by exactly the rendered line's UTF-8 byte length.
    /// Reports whether the event was counted; one that would overflow a
    /// counter leaves the counters untouched.
    pub fn log_record(&mut self, ts: &str, level: Level, module: &str, msg: &str) -> (ok: bool)
        requires
            byte_len(ts@) <= usize::MAX,
            byte_len(module@) <= usize::MAX,
            byte_len(msg@) <= usize::MAX,
        ensures
            ok == (rendered_byte_len(byte_len(ts@), level, byte_len(module@), byte_len(msg@))
                <= usize::MAX && old(self).metrics.can_record(
                rendered_byte_len(byte_len(ts@), level, byte_len(module@), byte_len(msg@)),
            )),
            ok ==> final(self).metrics.stats.total_messages == old(
                self,
            ).metrics.stats.total_messages + 1 && final(self).metrics.stats.total_bytes == old(
                self,
            ).metrics.stats.total_bytes + byte_len(rendered_view(ts@, level, module@, msg@)),
            !ok ==> *final(self) == *old(self),
    {
        proof {
            lemma_rendered_view_byte_len(ts@, level, module@, msg@);
        }
        match checked_rendered_len(ts, level, module, msg) {
            Some(n) => self.metrics.try_record(n),
            None => false,
        }
    }

    /// Count a record stamped with the given clock at the moment of the
    /// call. The timestamp text is 23 to 26 bytes, so the event is counted
    /// whenever a line with the longest possible timestamp would both fit a
    /// machine word and find room in the counters; a counted event adds the
    /// rendered line's bytes exactly, for the timestamp the call drew.
    pub fn log_record_now(&mut self, clock: ClockKind, level: Level, module: &str, msg: &str) -> (ok:
        bool)
        requires
            byte_len(module@) <= usize::MAX,
            byte_len(msg@) <= usize::MAX,
        ensures
            rendered_byte_len(26, level, byte_len(module@), byte_len(msg@)) <= usize::MAX && old(
                self,
            ).metrics.can_record(rendered_byte_len(26, level, byte_len(module@), byte_len(msg@)))
                ==> ok,
            ok ==> final(self).metrics.stats.total_messages == old(
                self,
            ).metrics.stats.total_messages + 1 && exists|tb: nat|
                23 <= tb <= 26 && final(self).metrics.stats.total_bytes == old(
                    self,
                ).metrics.stats.total_bytes + rendered_byte_len(
                    tb,
                    level,
                    byte_len(module@),
                    byte_len(msg@),
                ),
            !ok ==> *final(self) == *old(self),
    {
        let ts = timestamp_for(clock);
        let ok = self.log_record(ts.as_str(), level, module, msg);
        proof {
            if ok {
                lemma_rendered_view_byte_len(ts@, level, module@, msg@);
                let tb = byte_len(ts@);
                assert(23 <= tb <= 26 && self.metrics.stats.total_bytes == old(
                    self,
                ).metrics.stats.total_bytes + rendered_byte_len(
                    tb,
                    level,
                    byte_len(module@),
                    byte_len(msg@),
                ));
            }
        }
        ok
    }
}

/// Zero a benchmark's counters between runs.
pub fn reset_metrics(stats: &mut MessageStats)
    ensures
        final(stats).total_messages == 0,
        final(stats).total_bytes == 0,
{
    stats.total_messages = 0;
    stats.total_bytes = 0;
}

/// A snapshot of a benchmark's counters: (messages, bytes).
pub fn get_metrics(stats: &MessageStats) -> (r: (usize, usize))
    ensures
        r.0 == stats.total_messages,
        r.1 == stats.total_bytes,
{
    (stats.total_messages, stats.total_bytes)
}

/// Count one message of `bytes` rendered bytes against a benchmark's
/// counters.
pub fn record_metrics(stats: &mut MessageStats, bytes: usize)
    requires
        old(stats).can_record(bytes as nat),
    ensures
        final(stats).total_messages == old(stats).total_messages + 1,
        final(stats).total_bytes == old(stats).total_bytes + bytes,
{
    stats.record_message(bytes);
}

} // verus!
