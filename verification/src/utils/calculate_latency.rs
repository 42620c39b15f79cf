//! The round-trip time of a reply, in milliseconds.

use vstd::prelude::*;

verus! {

/// A point in time: whole seconds since the Unix epoch and the milliseconds
/// past that second.
pub struct Moment {
    pub unix_timestamp: i64,
    pub millisecond: u16,
}

/// The milliseconds from `start` to `end`.
pub open spec fn latency_ms(start: Moment, end: Moment) -> int {
    (end.unix_timestamp - start.unix_timestamp) * 1000 + (end.millisecond - start.millisecond)
}

/// The milliseconds from `start` to `end`: the difference of the seconds,
/// times a thousand, plus the difference of the milliseconds.
pub fn calculate_latency(start: Moment, end: Moment) -> (ms: i64)
    requires
        i64::MIN <= end.unix_timestamp - start.unix_timestamp,
        end.unix_timestamp - start.unix_timestamp <= i64::MAX,
        i64::MIN <= (end.unix_timestamp - start.unix_timestamp) * 1000,
        (end.unix_timestamp - start.unix_timestamp) * 1000 <= i64::MAX,
        i64::MIN <= latency_ms(start, end) <= i64::MAX,
    ensures
        ms == latency_ms(start, end),
{
    let start_ts = start.unix_timestamp;
    let start_ts_ss = start.millisecond as i64;
    let end_ts = end.unix_timestamp;
    let end_ts_ss = end.millisecond as i64;
    ((end_ts - start_ts) * 1000) + (end_ts_ss - start_ts_ss)
}

} // verus!
