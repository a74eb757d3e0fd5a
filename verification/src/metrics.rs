//! Message and byte counters shared by every adapter of the harness.

use vstd::prelude::*;

verus! {

/// Two monotonically increasing counters: how many log calls were observed
/// and how many rendered bytes they contributed in total.
pub struct MessageStats {
    pub total_messages: usize,
    pub total_bytes: usize,
}

impl MessageStats {
    /// A fresh pair of counters, both zero.
    pub fn new() -> (r: Self)
        ensures
            r.total_messages == 0,
            r.total_bytes == 0,
    {
        MessageStats { total_messages: 0, total_bytes: 0 }
    }

    /// True when one more message of `bytes` rendered bytes can be counted
    /// without exceeding the counters' machine range.
    pub open spec fn can_record(self, bytes: nat) -> bool {
        self.total_messages < usize::MAX && self.total_bytes + bytes <= usize::MAX
    }

    /// Record one observed message of `bytes` rendered bytes: the message
    /// counter rises by exactly one and the byte counter by exactly `bytes`.
    pub fn record_message(&mut self, bytes: usize)
        requires
            old(self).total_messages < usize::MAX,
            old(self).total_bytes + bytes <= usize::MAX,
        ensures
            final(self).total_messages == old(self).total_messages + 1,
            final(self).total_bytes == old(self).total_bytes + bytes,
    {
        self.total_messages = self.total_messages + 1;
        self.total_bytes = self.total_bytes + bytes;
    }

    /// The number of log calls observed so far.
    pub fn get_total_messages(&self) -> (r: usize)
        ensures
            r == self.total_messages,
    {
        self.total_messages
    }

    /// The total rendered byte length observed so far.
    pub fn get_total_bytes(&self) -> (r: usize)
        ensures
            r == self.total_bytes,
    {
        self.total_bytes
    }

    /// Record one observed message when the counters have room, and report
    /// whether it was counted; a message that would overflow a counter leaves
    /// both counters untouched.
    pub fn try_record_message(&mut self, bytes: usize) -> (ok: bool)
        ensures
            ok == old(self).can_record(bytes as nat),
            ok ==> final(self).total_messages == old(self).total_messages + 1
                && final(self).total_bytes == old(self).total_bytes + bytes,
            !ok ==> *final(self) == *old(self),
    {
        if self.total_messages < usize::MAX && bytes <= usize::MAX - self.total_bytes {
            self.total_messages = self.total_messages + 1;
            self.total_bytes = self.total_bytes + bytes;
            true
        } else {
            false
        }
    }
}

/// The counter totals after a trace of recorded byte lengths, starting from
/// zero: one message per entry, and the sum of the entries in bytes.
pub open spec fn stats_after(recs: Seq<usize>) -> (nat, nat)
    decreases recs.len(),
{
    if recs.len() == 0 {
        (0, 0)
    } else {
        let prev = stats_after(recs.drop_last());
        ((prev.0 + 1) as nat, (prev.1 + recs.last()) as nat)
    }
}

/// Extending a trace by one record adds one message and its byte length.
pub proof fn lemma_stats_after_take_step(recs: Seq<usize>, i: int)
    requires
        0 <= i < recs.len(),
    ensures
        stats_after(recs.take(i + 1)).0 == stats_after(recs.take(i)).0 + 1,
        stats_after(recs.take(i + 1)).1 == stats_after(recs.take(i)).1 + recs[i],
{
    assert(recs.take(i + 1).drop_last() =~= recs.take(i));
    assert(recs.take(i + 1).last() == recs[i]);
}

/// The totals over a prefix of a trace never exceed the totals over the
/// whole trace.
pub proof fn lemma_stats_after_prefix(recs: Seq<usize>, i: int)
    requires
        0 <= i <= recs.len(),
    ensures
        stats_after(recs.take(i)).0 <= stats_after(recs).0,
        stats_after(recs.take(i)).1 <= stats_after(recs).1,
    decreases recs.len() - i,
{
    if i == recs.len() {
        assert(recs.take(i) =~= recs);
    } else {
        lemma_stats_after_take_step(recs, i);
        lemma_stats_after_prefix(recs, i + 1);
    }
}

/// One record call as a folding step over the counter totals.
spec fn record_step() -> spec_fn(usize, (nat, nat)) -> (nat, nat) {
    |rec: usize, acc: (nat, nat)| (((acc.0 + 1) as nat, (acc.1 + rec) as nat))
}

/// The folding step commutes: two records land on the same totals in either
/// order.
proof fn lemma_record_step_commutes()
    ensures
        vstd::seq_lib::commutative_foldr(record_step()),
{
    assert forall|x: usize, y: usize, v: (nat, nat)|
        #[trigger] record_step()(x, record_step()(y, v)) == record_step()(
            y,
            record_step()(x, v),
        ) by {
    }
}

/// The trace totals are that fold.
proof fn lemma_stats_after_is_fold(recs: Seq<usize>)
    ensures
        stats_after(recs) == recs.fold_right(record_step(), (0nat, 0nat)),
    decreases recs.len(),
{
    lemma_record_step_commutes();
    if recs.len() > 0 {
        lemma_stats_after_is_fold(recs.drop_last());
        recs.drop_last().lemma_fold_right_commute_one(recs.last(), record_step(), (0nat, 0nat));
    }
}

/// Law: the totals do not depend on the order in which records arrive — two
/// traces holding the same records, however interleaved, yield the same
/// message and byte totals, so no update is lost to reordering.
pub proof fn lemma_trace_order_irrelevant(r1: Seq<usize>, r2: Seq<usize>)
    requires
        r1.to_multiset() == r2.to_multiset(),
    ensures
        stats_after(r1) == stats_after(r2),
{
    lemma_record_step_commutes();
    lemma_stats_after_is_fold(r1);
    lemma_stats_after_is_fold(r2);
    vstd::seq_lib::lemma_fold_right_permutation(r1, r2, record_step(), (0nat, 0nat));
}

/// Law: writers that together contribute `n * m` records of one fixed byte
/// length `l` — for instance `n` concurrent threads, each recording `m`
/// times — yield exactly `n * m` messages and `n * m * l` bytes, whatever
/// the interleaving of their records: the totals depend only on how many
/// records of each length were made, so no update is lost.
pub proof fn lemma_uniform_trace_totals(recs: Seq<usize>, n: nat, m: nat, l: usize)
    requires
        recs.len() == n * m,
        forall|i: int| 0 <= i < recs.len() ==> recs[i] == l,
    ensures
        stats_after(recs) == (n * m, (n * m * l) as nat),
{
    lemma_constant_trace_totals(recs, l);
    assert(recs.len() * l == n * m * l) by (nonlinear_arith)
        requires
            recs.len() == n * m,
    ;
}

/// The totals after a trace whose records all have one byte length `l` are
/// the trace's length and that length times `l`.
pub proof fn lemma_constant_trace_totals(recs: Seq<usize>, l: usize)
    requires
        forall|i: int| 0 <= i < recs.len() ==> recs[i] == l,
    ensures
        stats_after(recs) == (recs.len(), (recs.len() * l) as nat),
    decreases recs.len(),
{
    if recs.len() == 0 {
    } else {
        lemma_constant_trace_totals(recs.drop_last(), l);
        assert(recs.len() * l == (recs.len() - 1) * l + l) by (nonlinear_arith);
    }
}

/// Replay a trace of record calls against fresh counters; the result is the
/// trace's totals.
pub fn replay_records(recs: &Vec<usize>) -> (r: MessageStats)
    requires
        stats_after(recs@).0 <= usize::MAX,
        stats_after(recs@).1 <= usize::MAX,
    ensures
        r.total_messages == stats_after(recs@).0,
        r.total_bytes == stats_after(recs@).1,
{
    let mut stats = MessageStats::new();
    let mut i: usize = 0;
    proof {
        assert(recs@.take(0) =~= Seq::<usize>::empty());
    }
    while i < recs.len()
        invariant
            0 <= i <= recs@.len(),
            stats.total_messages == stats_after(recs@.take(i as int)).0,
            stats.total_bytes == stats_after(recs@.take(i as int)).1,
            stats_after(recs@).0 <= usize::MAX,
            stats_after(recs@).1 <= usize::MAX,
        decreases recs@.len() - i,
    {
        proof {
            lemma_stats_after_take_step(recs@, i as int);
            lemma_stats_after_prefix(recs@, i + 1);
        }
        stats.record_message(recs[i]);
        i = i + 1;
    }
    proof {
        assert(recs@.take(recs@.len() as int) =~= recs@);
    }
    stats
}

impl Default for MessageStats {
    fn default() -> (r: Self)
        ensures
            r.total_messages == 0,
            r.total_bytes == 0,
    {
        MessageStats::new()
    }
}

} // verus!
