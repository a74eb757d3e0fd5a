//! The shutdown guard that drains asynchronous delivery queues.
//!
//! Several backends enqueue records for a background delivery task; counts
//! read before that queue empties would miss in-flight messages. The guard is
//! a two-state machine: on release it turns to draining, polls the queue a
//! bounded number of times, then returns to idle whether or not the queue
//! ever reported empty — the wait has a fixed ceiling, never an unbounded
//! hang. The polls and sleeps themselves happen outside; the guard decides
//! when to stop.

use vstd::prelude::*;

verus! {

/// The two states of the shutdown guard.
#[derive(Clone, Copy, PartialEq, Eq, Structural, Debug)]
pub enum DrainState {
    Idle,
    Draining,
}

/// A scoped shutdown helper: tracks which asynchronous resources still need
/// to be closed and how many queue polls remain before the guard gives up.
pub struct LoggerGuard {
    pub state: DrainState,
    pub budget: usize,
    pub needs_async_close: bool,
    pub needs_ftlog_close: bool,
}

/// How many polls a drain makes from the `i`th queue-empty report on (a
/// missing report counts as "not yet empty"): it stops at the first empty
/// report, or when the budget runs out.
pub open spec fn drain_polls_from(budget: nat, reports: Seq<bool>, i: int) -> nat
    decreases budget,
{
    let first = if 0 <= i < reports.len() {
        reports[i]
    } else {
        false
    };
    if first || budget == 0 {
        1
    } else {
        (1 + drain_polls_from((budget - 1) as nat, reports, i + 1)) as nat
    }
}

/// How many polls a drain makes, given the queue-empty reports it will
/// receive in order.
pub open spec fn drain_polls(budget: nat, reports: Seq<bool>) -> nat {
    drain_polls_from(budget, reports, 0)
}

/// Law: a drain returns after at most one poll more than its budget, even
/// when the queue never reports empty.
pub proof fn lemma_drain_bounded(budget: nat, reports: Seq<bool>, i: int)
    ensures
        drain_polls_from(budget, reports, i) <= budget + 1,
    decreases budget,
{
    let first = if 0 <= i < reports.len() {
        reports[i]
    } else {
        false
    };
    if first || budget == 0 {
    } else {
        lemma_drain_bounded((budget - 1) as nat, reports, i + 1);
    }
}

impl LoggerGuard {
    /// A fresh guard: idle, with the given poll ceiling and nothing to close.
    pub fn new(budget: usize) -> (r: Self)
        ensures
            r.state == DrainState::Idle,
            r.budget == budget,
            !r.needs_async_close,
            !r.needs_ftlog_close,
    {
        LoggerGuard { state: DrainState::Idle, budget, needs_async_close: false, needs_ftlog_close: false }
    }

    /// Note that an asynchronous drain was installed and must be closed on
    /// release.
    pub fn mark_async_close(&mut self)
        ensures
            *final(self) == (LoggerGuard { needs_async_close: true, ..*old(self) }),
    {
        self.needs_async_close = true;
    }

    /// Note that the buffered file logger was installed and must be closed
    /// on release.
    pub fn mark_ftlog_close(&mut self)
        ensures
            *final(self) == (LoggerGuard { needs_ftlog_close: true, ..*old(self) }),
    {
        self.needs_ftlog_close = true;
    }

    /// On scope exit the guard turns to draining.
    pub fn begin_drain(&mut self)
        requires
            old(self).state == DrainState::Idle,
        ensures
            *final(self) == (LoggerGuard { state: DrainState::Draining, ..*old(self) }),
    {
        self.state = DrainState::Draining;
    }

    /// One poll of the delivery queue: done at the first empty report or
    /// when the budget has run out, in which case the guard turns back to
    /// idle with nothing left to close; otherwise one poll of budget is
    /// spent.
    pub fn poll_drain(&mut self, queue_empty: bool) -> (done: bool)
        requires
            old(self).state == DrainState::Draining,
        ensures
            done == (queue_empty || old(self).budget == 0),
            done ==> *final(self) == (LoggerGuard {
                state: DrainState::Idle,
                budget: old(self).budget,
                needs_async_close: false,
                needs_ftlog_close: false,
            }),
            !done ==> *final(self) == (LoggerGuard {
                budget: (old(self).budget - 1) as usize,
                ..*old(self)
            }),
    {
        if queue_empty || self.budget == 0 {
            self.state = DrainState::Idle;
            self.needs_async_close = false;
            self.needs_ftlog_close = false;
            true
        } else {
            self.budget = self.budget - 1;
            false
        }
    }

    /// Run a drain to completion against the queue-empty reports received in
    /// order (a missing report counts as "not yet empty"). The guard always
    /// comes back idle, after at most one poll more than its budget.
    pub fn drain(&mut self, reports: &Vec<bool>) -> (polls: usize)
        requires
            old(self).state == DrainState::Draining,
            old(self).budget < usize::MAX,
        ensures
            final(self).state == DrainState::Idle,
            !final(self).needs_async_close,
            !final(self).needs_ftlog_close,
            polls == drain_polls(old(self).budget as nat, reports@),
            polls <= old(self).budget + 1,
    {
        proof {
            lemma_drain_bounded(old(self).budget as nat, reports@, 0);
        }
        let ghost budget0: nat = old(self).budget as nat;
        let mut polls: usize = 0;
        let mut i: usize = 0;
        loop
            invariant
                self.state == DrainState::Draining,
                self.needs_async_close == old(self).needs_async_close,
                self.needs_ftlog_close == old(self).needs_ftlog_close,
                budget0 == old(self).budget as nat,
                polls == i,
                i <= budget0,
                self.budget == budget0 - i,
                budget0 < usize::MAX,
                drain_polls(budget0, reports@) == polls + drain_polls_from(
                    self.budget as nat,
                    reports@,
                    i as int,
                ),
            decreases budget0 - i,
        {
            let queue_empty = if i < reports.len() {
                reports[i]
            } else {
                false
            };
            proof {
                lemma_drain_bounded(self.budget as nat, reports@, i as int);
            }
            let done = self.poll_drain(queue_empty);
            polls = polls + 1;
            i = i + 1;
            if done {
                return polls;
            }
        }
    }
}

} // verus!
