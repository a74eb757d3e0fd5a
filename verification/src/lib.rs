//! A measurement harness for comparing logging libraries.
//!
//! The harness intercepts each library's output path and counts messages and
//! bytes without performing real I/O, so that several logging backends can be
//! benchmarked under equivalent conditions.

pub mod adapter;
pub mod clock;
pub mod driver;
pub mod guard;
pub mod latch;
pub mod level;
pub mod logger_setup;
pub mod metrics;
pub mod render;
