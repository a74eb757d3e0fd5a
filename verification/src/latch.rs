//! One-time initialization latches.
//!
//! Most of the wrapped libraries install a process-wide dispatcher and fail,
//! or panic, when installed twice. A latch closes on its first caller, who
//! alone performs the real setup; every later caller finds it closed and
//! skips setup. The registry owns one latch per library, so callers look a
//! latch up instead of relying on ambient globals.

use crate::adapter::AdapterKind;
use vstd::prelude::*;

verus! {

/// A one-shot latch: open until its first caller closes it.
pub struct InitLatch {
    pub closed: bool,
}

impl InitLatch {
    /// A fresh, open latch.
    pub fn new() -> (r: Self)
        ensures
            !r.closed,
    {
        InitLatch { closed: false }
    }

    /// Close the latch; the caller who closed it (`won`) performs the real
    /// setup, every later caller finds it closed and skips.
    pub fn try_close(&mut self) -> (won: bool)
        ensures
            won == !old(self).closed,
            final(self).closed,
    {
        let won = !self.closed;
        self.closed = true;
        won
    }

    /// Whether the latch has been closed.
    pub fn is_closed(&self) -> (r: bool)
        ensures
            r == self.closed,
    {
        self.closed
    }
}

/// One latch per library whose setup installs a process-wide dispatcher.
pub struct SetupRegistry {
    pub env_logger: InitLatch,
    pub log4rs: InitLatch,
    pub fern: InitLatch,
    pub ftlog: InitLatch,
    pub slog: InitLatch,
    pub tracing: InitLatch,
}

impl SetupRegistry {
    /// Whether the given library's setup has already run.
    pub open spec fn spec_closed(self, kind: AdapterKind) -> bool {
        match kind {
            AdapterKind::EnvLogger => self.env_logger.closed,
            AdapterKind::Log4rs => self.log4rs.closed,
            AdapterKind::Fern => self.fern.closed,
            AdapterKind::Ftlog => self.ftlog.closed,
            AdapterKind::Slog => self.slog.closed,
            AdapterKind::Tracing => self.tracing.closed,
        }
    }

    /// A fresh registry: no library set up yet.
    pub fn new() -> (r: Self)
        ensures
            forall|kind: AdapterKind| !r.spec_closed(kind),
    {
        SetupRegistry {
            env_logger: InitLatch::new(),
            log4rs: InitLatch::new(),
            fern: InitLatch::new(),
            ftlog: InitLatch::new(),
            slog: InitLatch::new(),
            tracing: InitLatch::new(),
        }
    }

    /// Claim the one real initialization of the given library: exactly the
    /// first caller wins, later callers are told to skip, and no other
    /// library's latch moves.
    pub fn try_init(&mut self, kind: AdapterKind) -> (won: bool)
        ensures
            won == !old(self).spec_closed(kind),
            final(self).spec_closed(kind),
            forall|other: AdapterKind|
                other != kind ==> final(self).spec_closed(other) == old(self).spec_closed(other),
    {
        match kind {
            AdapterKind::EnvLogger => self.env_logger.try_close(),
            AdapterKind::Log4rs => self.log4rs.try_close(),
            AdapterKind::Fern => self.fern.try_close(),
            AdapterKind::Ftlog => self.ftlog.try_close(),
            AdapterKind::Slog => self.slog.try_close(),
            AdapterKind::Tracing => self.tracing.try_close(),
        }
    }

    /// Whether the given library's setup has already run.
    pub fn is_initialized(&self, kind: AdapterKind) -> (r: bool)
        ensures
            r == self.spec_closed(kind),
    {
        match kind {
            AdapterKind::EnvLogger => self.env_logger.is_closed(),
            AdapterKind::Log4rs => self.log4rs.is_closed(),
            AdapterKind::Fern => self.fern.is_closed(),
            AdapterKind::Ftlog => self.ftlog.is_closed(),
            AdapterKind::Slog => self.slog.is_closed(),
            AdapterKind::Tracing => self.tracing.is_closed(),
        }
    }
}

} // verus!
