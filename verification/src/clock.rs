//! Wall-clock timestamps with millisecond precision, as the shared format
//! renders them.

use crate::render::byte_len;
use vstd::prelude::*;
use vstd::utf8::is_ascii_chars;
use vstd::utf8::is_ascii_chars_encode_utf8;

verus! {

/// Which wall clock an adapter stamps its lines with; for comparable
/// measurements all adapters agree on UTC.
#[derive(Clone, Copy, PartialEq, Eq, Structural, Debug)]
pub enum ClockKind {
    Utc,
    Local,
}

/// Relies on chrono::Utc::now and chrono's `%Y-%m-%d %H:%M:%S%.3f` format:
/// the rendered UTC wall-clock time with millisecond precision. Which moment
/// it is depends on the call, but every outcome is ASCII — digits and the
/// separators `-`, space, `:`, `.` — and 23 to 26 characters long: the
/// fields after the year are fixed at nineteen characters (two-digit fields,
/// a dot and exactly three fraction digits), and the year takes four digits,
/// or five to seven characters with a sign outside the years 0 through 9999
/// (chrono caps years at about ±262143).
#[verifier::external_body]
fn utc_timestamp() -> (r: String)
    ensures
        is_ascii_chars(r@),
        23 <= r@.len(),
        r@.len() <= 26,
{
    chrono::Utc::now().format("%Y-%m-%d %H:%M:%S%.3f").to_string()
}

/// Relies on chrono::Local::now and chrono's `%Y-%m-%d %H:%M:%S%.3f` format:
/// the rendered local wall-clock time with millisecond precision. Which
/// moment and which zone offset apply depend on the call and the machine,
/// but the text goes through the same formatting path as the UTC clock, so
/// every outcome is ASCII and 23 to 26 characters long.
#[verifier::external_body]
fn local_timestamp() -> (r: String)
    ensures
        is_ascii_chars(r@),
        23 <= r@.len(),
        r@.len() <= 26,
{
    chrono::Local::now().format("%Y-%m-%d %H:%M:%S%.3f").to_string()
}

/// The timestamp text for the configured clock, at the moment of the call:
/// ASCII, and 23 to 26 characters — which, being ASCII, is also its length
/// in bytes.
pub fn timestamp_for(clock: ClockKind) -> (r: String)
    ensures
        is_ascii_chars(r@),
        23 <= r@.len(),
        r@.len() <= 26,
        byte_len(r@) == r@.len(),
{
    let r = match clock {
        ClockKind::Utc => utc_timestamp(),
        ClockKind::Local => local_timestamp(),
    };
    proof {
        is_ascii_chars_encode_utf8(r@);
    }
    r
}

} // verus!
