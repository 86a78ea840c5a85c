use vstd::prelude::*;
use crate::portinfo::PortControlLines;

verus! {

/// Microseconds in one second.
pub const MICROS_PER_SECOND: i64 = 1_000_000;

/// Reads the wall clock: `std::time::SystemTime::now()`, taken through
/// chrono's `From<SystemTime> for DateTime<Utc>` and read by
/// `timestamp_micros`, which gives non-leap microseconds since
/// 1970-01-01 00:00:00 UTC. A clock that stands before the epoch gives a
/// negative number. The conversion gives up only on a time outside chrono's
/// range of dates, more than 262,000 years from the epoch. Nothing is claimed
/// of the value, since it depends on the machine's clock.
#[verifier::external_body]
pub(crate) fn clock_micros() -> (now: i64) {
    chrono::DateTime::<chrono::Utc>::from(std::time::SystemTime::now()).timestamp_micros()
}

/// Whole seconds since the epoch of a microsecond timestamp, rounded down.
pub open spec fn whole_seconds(timestamp: i64) -> int {
    timestamp as int / MICROS_PER_SECOND as int
}

/// Microsecond-of-second component of a microsecond timestamp, in `0..1_000_000`.
pub open spec fn subsec_micros(timestamp: i64) -> int {
    timestamp as int % MICROS_PER_SECOND as int
}

/// One captured event: the bytes of a frame, the control lines as they stood
/// when the frame was closed, and the time of capture.
#[derive(Debug, PartialEq, Eq)]
pub struct SerialEvent {
    /// Microseconds since 1970-01-01 00:00:00 UTC.
    pub timestamp: i64,
    /// Payload bytes.
    pub data: Vec<u8>,
    /// Control-line snapshot at capture time.
    pub control_lines: PortControlLines,
}

impl SerialEvent {
    /// An event stamped with the current time, holding the first `valid_len`
    /// bytes of `data`. The time is what the clock says, which may be before
    /// the epoch and may go back from one event to the next.
    pub fn new(data: Vec<u8>, valid_len: usize, control_lines: PortControlLines) -> (event: Self)
        requires
            valid_len <= data@.len(),
        ensures
            event.data@ == data@.take(valid_len as int),
            event.control_lines == control_lines,
    {
        let now = clock_micros();
        SerialEvent::at(now, data, valid_len, control_lines)
    }

    /// An event stamped with `timestamp`, holding the first `valid_len` bytes
    /// of `data`.
    pub fn at(
        timestamp: i64,
        data: Vec<u8>,
        valid_len: usize,
        control_lines: PortControlLines,
    ) -> (event: Self)
        requires
            valid_len <= data@.len(),
        ensures
            event.timestamp == timestamp,
            event.data@ == data@.take(valid_len as int),
            event.control_lines == control_lines,
    {
        let mut data = data;
        data.truncate(valid_len);
        SerialEvent { timestamp, data, control_lines }
    }

    /// True when the event carries no bytes and its control lines equal
    /// `line_status`: such an event tells a reader nothing new.
    pub fn is_insignificant(&self, line_status: &PortControlLines) -> (quiet: bool)
        ensures
            quiet == (self.data@.len() == 0 && self.control_lines == *line_status),
    {
        self.data.is_empty() && self.control_lines == *line_status
    }
}

} // verus!
