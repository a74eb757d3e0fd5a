//! Severity levels and the minimum-level filter shared by every adapter.

use vstd::prelude::*;

verus! {

/// The five severities a log call can carry, from least to most severe.
#[derive(Clone, Copy, PartialEq, Eq, Structural, Debug)]
pub enum Level {
    Trace,
    Debug,
    Info,
    Warn,
    Error,
}

impl Level {
    /// Numeric severity: higher means more severe.
    pub open spec fn severity(self) -> nat {
        match self {
            Level::Trace => 0,
            Level::Debug => 1,
            Level::Info => 2,
            Level::Warn => 3,
            Level::Error => 4,
        }
    }

    /// Whether a call at this level passes a filter whose minimum level is `min`.
    pub open spec fn spec_enabled_at(self, min: Level) -> bool {
        self.severity() >= min.severity()
    }

    /// The numeric severity, as the executable filter compares it.
    pub fn severity_index(self) -> (r: u8)
        ensures
            r as nat == self.severity(),
    {
        match self {
            Level::Trace => 0,
            Level::Debug => 1,
            Level::Info => 2,
            Level::Warn => 3,
            Level::Error => 4,
        }
    }

    /// The minimum-level filter: a call is recorded exactly when its severity
    /// reaches the configured minimum.
    pub fn enabled_at(self, min: Level) -> (r: bool)
        ensures
            r == self.spec_enabled_at(min),
    {
        self.severity_index() >= min.severity_index()
    }

    /// The level's text, as the shared line format renders it.
    pub open spec fn spec_label(self) -> Seq<char> {
        match self {
            Level::Trace => "TRACE"@,
            Level::Debug => "DEBUG"@,
            Level::Info => "INFO"@,
            Level::Warn => "WARN"@,
            Level::Error => "ERROR"@,
        }
    }

    /// The level's text for rendering.
    pub fn label(self) -> (r: &'static str)
        ensures
            r@ == self.spec_label(),
    {
        match self {
            Level::Trace => "TRACE",
            Level::Debug => "DEBUG",
            Level::Info => "INFO",
            Level::Warn => "WARN",
            Level::Error => "ERROR",
        }
    }
}

/// How many of the five severities pass a filter whose minimum level is `min`.
pub open spec fn count_enabled(min: Level) -> nat {
    (if Level::Trace.spec_enabled_at(min) {
        1nat
    } else {
        0nat
    }) + (if Level::Debug.spec_enabled_at(min) {
        1nat
    } else {
        0nat
    }) + (if Level::Info.spec_enabled_at(min) {
        1nat
    } else {
        0nat
    }) + (if Level::Warn.spec_enabled_at(min) {
        1nat
    } else {
        0nat
    }) + (if Level::Error.spec_enabled_at(min) {
        1nat
    } else {
        0nat
    })
}

} // verus!
