//! The per-library adapters, reduced to one capability.
//!
//! Five unrelated logging libraries are benchmarked; each exposes a different
//! interception point, but every one of them is wired through the same
//! capability: accept a log event at a severity and forward its effective
//! byte size to the counter. The library is chosen by an explicit selector,
//! and all benchmark configurations match, so the measurements compare like
//! with like.

use crate::clock::ClockKind;
use crate::level::Level;
use crate::logger_setup::CountingWriter;
use crate::metrics::MessageStats;
use crate::render::byte_len;
use vstd::prelude::*;

verus! {

/// The library an adapter wires into the harness.
#[derive(Clone, Copy, PartialEq, Eq, Structural, Debug)]
pub enum AdapterKind {
    EnvLogger,
    Log4rs,
    Fern,
    Ftlog,
    Slog,
    Tracing,
}

/// An adapter's immutable configuration: which library, the minimum severity
/// it records, which wall clock stamps its lines, and which fields it
/// renders.
#[derive(Clone, Copy, PartialEq, Eq, Structural, Debug)]
pub struct AdapterConfig {
    pub kind: AdapterKind,
    pub min_level: Level,
    pub clock: ClockKind,
    pub render_target: bool,
    pub render_kv: bool,
}

/// The matched benchmark configuration for a library: minimum level Info,
/// UTC timestamps, the target rendered, and key/value attributes only where
/// the library natively supports structured fields.
pub open spec fn spec_benchmark_config(kind: AdapterKind) -> AdapterConfig {
    AdapterConfig {
        kind,
        min_level: Level::Info,
        clock: ClockKind::Utc,
        render_target: true,
        render_kv: kind == AdapterKind::Slog,
    }
}

/// Build the matched benchmark configuration for a library.
pub fn benchmark_config(kind: AdapterKind) -> (c: AdapterConfig)
    ensures
        c == spec_benchmark_config(kind),
{
    AdapterConfig {
        kind,
        min_level: Level::Info,
        clock: ClockKind::Utc,
        render_target: true,
        render_kv: matches!(kind, AdapterKind::Slog),
    }
}

/// Two configurations measure under equivalent conditions when they agree on
/// everything but the library itself.
pub open spec fn comparable(a: AdapterConfig, b: AdapterConfig) -> bool {
    a.min_level == b.min_level && a.clock == b.clock && a.render_target == b.render_target
}

/// Law: any two benchmark configurations are comparable — every library is
/// measured with the same minimum level, the same clock and the same fields.
pub proof fn lemma_benchmark_configs_comparable(k1: AdapterKind, k2: AdapterKind)
    ensures
        comparable(spec_benchmark_config(k1), spec_benchmark_config(k2)),
{
}

/// One library wired into the harness: its configuration and the counting
/// writer standing in for its output target.
pub struct Adapter {
    pub config: AdapterConfig,
    pub writer: CountingWriter,
}

impl Adapter {
    /// An adapter with fresh counters.
    pub fn new(config: AdapterConfig) -> (r: Self)
        ensures
            r.config == config,
            r.writer.stats.total_messages == 0,
            r.writer.stats.total_bytes == 0,
    {
        Adapter { config, writer: CountingWriter::new(MessageStats::new()) }
    }

    /// The single capability every library is wired through: accept one
    /// rendered event at a severity, and forward its byte size to the
    /// counter exactly when the severity reaches the configured minimum; a
    /// filtered call leaves the counters untouched.
    pub fn submit(&mut self, level: Level, rendered: &str) -> (accepted: bool)
        requires
            byte_len(rendered@) <= usize::MAX,
            level.spec_enabled_at(old(self).config.min_level) ==> old(
                self,
            ).writer.stats.can_record(byte_len(rendered@)),
        ensures
            accepted == level.spec_enabled_at(old(self).config.min_level),
            final(self).config == old(self).config,
            accepted ==> final(self).writer.stats.total_messages == old(
                self,
            ).writer.stats.total_messages + 1 && final(self).writer.stats.total_bytes == old(
                self,
            ).writer.stats.total_bytes + byte_len(rendered@),
            !accepted ==> final(self).writer.stats == old(self).writer.stats,
    {
        if level.enabled_at(self.config.min_level) {
            self.writer.log_message(rendered);
            true
        } else {
            false
        }
    }

    /// A snapshot of the adapter's counters: (messages, bytes).
    pub fn snapshot(&self) -> (r: (usize, usize))
        ensures
            r.0 == self.writer.stats.total_messages,
            r.1 == self.writer.stats.total_bytes,
    {
        (self.writer.stats.get_total_messages(), self.writer.stats.get_total_bytes())
    }

    /// Zero the adapter's counters between measured runs.
    pub fn reset(&mut self)
        ensures
            final(self).config == old(self).config,
            final(self).writer.stats.total_messages == 0,
            final(self).writer.stats.total_bytes == 0,
    {
        self.writer.stats.total_messages = 0;
        self.writer.stats.total_bytes = 0;
    }
}

} // verus!
