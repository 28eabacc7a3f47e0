//! Buffer swap bookkeeping.

use vstd::prelude::*;
use crate::time::SystemTime;

verus! {

/// The state of the scan buffer swaps, as the system reports it.
#[derive(Debug, Clone, Copy)]
pub struct SwapStatus {
    /// Number of times a buffer swap was requested
    pub swaps: u32,
    /// Number of times a buffer swap was done
    pub flips: u32,
    /// Timestamp of last buffer swap
    pub last_flip: SystemTime,
    /// Timestamp of last vsync period
    pub last_vsync: SystemTime,
}

impl SwapStatus {
    /// The status before the system has filled anything in: no swaps, no flips,
    /// both time stamps at system start.
    pub fn empty() -> (r: Self)
        ensures
            r.swaps == 0 && r.flips == 0 && r.last_flip.0 == 0 && r.last_vsync.0 == 0,
    {
        SwapStatus {
            swaps: 0,
            flips: 0,
            last_flip: SystemTime::startup(),
            last_vsync: SystemTime::startup(),
        }
    }
}

} // verus!
