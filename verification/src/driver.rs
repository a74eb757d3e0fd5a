//! The benchmark driver: deterministic payloads and the two sweep protocols.
//!
//! Payloads are generated from a fixed seed so every run and every library
//! sees identical messages. The size sweep measures throughput over a set of
//! payload lengths; the level sweep measures the cost of calls that a
//! minimum-level filter lets through against calls it rejects.

use crate::level::count_enabled;
use crate::level::Level;
use crate::logger_setup::MetricsSink;
use crate::render::byte_len;
use vstd::prelude::*;
use vstd::utf8::is_ascii_chars;
use vstd::utf8::is_ascii_chars_encode_utf8;

verus! {

/// The fixed seed every benchmark run generates its payloads from.
pub const PAYLOAD_SEED: u64 = 42;

/// What the seeded generator yields: text that is a function of the seed and
/// the requested length alone.
pub uninterp spec fn seeded_payload(seed: u64, len: nat) -> Seq<char>;

/// Relies on rand's StdRng — a deterministic generator, seeded here through
/// SeedableRng::seed_from_u64 — and on SampleString::sample_string over the
/// Alphanumeric distribution: the sampled text depends on the seed and the
/// requested length alone, holds exactly `len` characters, and every one of
/// them is alphanumeric ASCII.
#[verifier::external_body]
fn sample_payload(seed: u64, len: usize) -> (r: String)
    ensures
        r@ == seeded_payload(seed, len as nat),
        r@.len() == len as nat,
        is_ascii_chars(r@),
{
    let mut rng = <rand::rngs::StdRng as rand::SeedableRng>::seed_from_u64(seed);
    rand::distr::SampleString::sample_string(&rand::distr::Alphanumeric, &mut rng, len)
}

/// A deterministic benchmark payload: the same seed and requested length
/// always yield the same text, of exactly `len` characters and `len` bytes.
pub fn generate_payload(seed: u64, len: usize) -> (r: String)
    ensures
        r@ == seeded_payload(seed, len as nat),
        r@.len() == len as nat,
        byte_len(r@) == len as nat,
{
    let r = sample_payload(seed, len);
    proof {
        is_ascii_chars_encode_utf8(r@);
    }
    r
}

/// The deterministic benchmark message of the given length, from the fixed
/// benchmark seed.
pub fn generate_random_message(length: usize) -> (r: String)
    ensures
        r@ == seeded_payload(PAYLOAD_SEED, length as nat),
        r@.len() == length as nat,
        byte_len(r@) == length as nat,
{
    generate_payload(PAYLOAD_SEED, length)
}

/// One measured group of the size sweep.
pub struct SweepGroup {
    pub size: usize,
    pub messages: usize,
    pub bytes: usize,
}

/// The size-sweep protocol: for each configured payload length, generate the
/// deterministic payload once, exercise `warmup` discarded iterations, reset
/// the counters, then record `iterations` measured iterations. Each group
/// reports the counter totals of its measured run: exactly `iterations`
/// messages and `iterations * size` bytes, so measured throughput is
/// proportional to the configured length. The sink is left reset.
pub fn run_size_sweep(
    sink: &mut MetricsSink,
    seed: u64,
    sizes: &Vec<usize>,
    warmup: usize,
    iterations: usize,
) -> (groups: Vec<SweepGroup>)
    requires
        warmup < usize::MAX,
        iterations < usize::MAX,
        forall|i: int|
            0 <= i < sizes@.len() ==> warmup * #[trigger] sizes@[i] <= usize::MAX && iterations
                * sizes@[i] <= usize::MAX,
    ensures
        groups@.len() == sizes@.len(),
        forall|i: int|
            0 <= i < sizes@.len() ==> (#[trigger] groups@[i]).size == sizes@[i]
                && groups@[i].messages == iterations && groups@[i].bytes == iterations * sizes@[i],
        *final(sink) == old(sink).spec_reset(),
{
    let mut groups: Vec<SweepGroup> = Vec::new();
    let mut gi: usize = 0;
    while gi < sizes.len()
        invariant
            0 <= gi <= sizes@.len(),
            groups@.len() == gi,
            warmup < usize::MAX,
            iterations < usize::MAX,
            forall|i: int|
                0 <= i < sizes@.len() ==> warmup * #[trigger] sizes@[i] <= usize::MAX && iterations
                    * sizes@[i] <= usize::MAX,
            forall|i: int|
                0 <= i < gi ==> (#[trigger] groups@[i]).size == sizes@[i] && groups@[i].messages
                    == iterations && groups@[i].bytes == iterations * sizes@[i],
        decreases sizes@.len() - gi,
    {
        let size = sizes[gi];
        let payload = generate_payload(seed, size);
        sink.reset();
        let mut w: usize = 0;
        while w < warmup
            invariant
                0 <= w <= warmup,
                warmup < usize::MAX,
                warmup * size <= usize::MAX,
                byte_len(payload@) == size as nat,
                sink.stats.total_messages == w,
                sink.stats.total_bytes == w * size,
            decreases warmup - w,
        {
            proof {
                assert(w * size + size == (w + 1) * size && (w + 1) * size <= warmup * size)
                    by (nonlinear_arith)
                    requires
                        0 <= w,
                        w + 1 <= warmup,
                        0 <= size,
                ;
            }
            sink.record(payload.as_str().len());
            w = w + 1;
        }
        sink.reset();
        let mut j: usize = 0;
        while j < iterations
            invariant
                0 <= j <= iterations,
                iterations < usize::MAX,
                iterations * size <= usize::MAX,
                byte_len(payload@) == size as nat,
                sink.stats.total_messages == j,
                sink.stats.total_bytes == j * size,
            decreases iterations - j,
        {
            proof {
                assert(j * size + size == (j + 1) * size && (j + 1) * size <= iterations * size)
                    by (nonlinear_arith)
                    requires
                        0 <= j,
                        j + 1 <= iterations,
                        0 <= size,
                ;
            }
            sink.record(payload.as_str().len());
            j = j + 1;
        }
        let totals = sink.get_metrics();
        groups.push(SweepGroup { size, messages: totals.0, bytes: totals.1 });
        gi = gi + 1;
    }
    sink.reset();
    groups
}

/// The level-sweep protocol: one call at each of the five severities, with
/// the same message, against a minimum-level filter. Exactly the severities
/// that reach the minimum are recorded: `count_enabled(min)` messages, each
/// contributing the message's bytes.
pub fn run_level_sweep(sink: &mut MetricsSink, min: Level, msg: &str) -> (recorded: usize)
    requires
        byte_len(msg@) <= usize::MAX,
        old(sink).stats.total_messages + 5 <= usize::MAX,
        old(sink).stats.total_bytes + 5 * byte_len(msg@) <= usize::MAX,
    ensures
        recorded == count_enabled(min),
        final(sink).stats.total_messages == old(sink).stats.total_messages + count_enabled(min),
        final(sink).stats.total_bytes == old(sink).stats.total_bytes + count_enabled(min)
            * byte_len(msg@),
{
    let len = msg.len();
    let mut recorded: usize = 0;
    if Level::Trace.enabled_at(min) {
        sink.record(len);
        recorded = recorded + 1;
    }
    if Level::Debug.enabled_at(min) {
        sink.record(len);
        recorded = recorded + 1;
    }
    if Level::Info.enabled_at(min) {
        sink.record(len);
        recorded = recorded + 1;
    }
    if Level::Warn.enabled_at(min) {
        sink.record(len);
        recorded = recorded + 1;
    }
    if Level::Error.enabled_at(min) {
        sink.record(len);
        recorded = recorded + 1;
    }
    proof {
        match min {
            Level::Trace => {
                assert(count_enabled(min) == 5);
            },
            Level::Debug => {
                assert(count_enabled(min) == 4);
            },
            Level::Info => {
                assert(count_enabled(min) == 3);
            },
            Level::Warn => {
                assert(count_enabled(min) == 2);
            },
            Level::Error => {
                assert(count_enabled(min) == 1);
            },
        }
    }
    recorded
}

} // verus!
