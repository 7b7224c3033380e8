//! Records extracted from a capture file.
//!
//! The capture-file reader itself is an outside collaborator: it hands the
//! replay engine an ordered sequence of timestamped payloads, one
//! [`CaptureFile`] per configured file.

use vstd::prelude::*;

verus! {

/// One timestamped payload extracted from a capture file.
pub struct PacketRecord {
    /// Capture timestamp in microseconds since the epoch.
    pub ts_us: u64,
    /// The stored frame bytes (possibly shorter than the frame was on the
    /// wire).
    pub payload: Vec<u8>,
}

/// The replayable records of one capture file, in file order.
pub struct CaptureFile {
    pub records: Vec<PacketRecord>,
}

/// Combine a record's seconds and microseconds fields into one
/// microsecond timestamp.
pub fn record_ts_us(ts_sec: u32, ts_usec: u32) -> (r: u64)
    ensures
        r == ts_sec * 1_000_000 + ts_usec,
{
    (ts_sec as u64) * 1_000_000 + (ts_usec as u64)
}

} // verus!
