//! Identification of trusted applications.

use vstd::prelude::*;

verus! {

/// The 128-bit identifier that selects which trusted application a
/// session targets, in the wire layout the driver expects: a 32-bit low
/// time field, two 16-bit fields, and an 8-byte clock-sequence-and-node
/// block.
#[derive(Clone, Copy, Debug)]
pub struct Uuid {
    /// Low field of the timestamp.
    pub time_low: u32,
    /// Middle field of the timestamp.
    pub time_mid: u16,
    /// High field of the timestamp, multiplexed with the version number.
    pub time_hi_and_version: u16,
    /// Clock sequence and node, as eight raw bytes.
    pub clock_seq_and_node: [u8; 8],
}

impl Uuid {
    /// A UUID assembled from its four wire fields.
    pub fn new(time_low: u32, time_mid: u16, time_hi_and_version: u16, clock_seq_and_node: [
        u8; 8]) -> (r: Uuid)
        ensures
            r.time_low == time_low,
            r.time_mid == time_mid,
            r.time_hi_and_version == time_hi_and_version,
            r.clock_seq_and_node == clock_seq_and_node,
    {
        Uuid { time_low, time_mid, time_hi_and_version, clock_seq_and_node }
    }
}

} // verus!
