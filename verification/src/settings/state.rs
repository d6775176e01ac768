//! Bookkeeping of what a driver has already written to the hardware.

use vstd::prelude::*;

verus! {

/// Per-CPU bookkeeping.
#[derive(Debug, Clone, Copy)]
pub struct CpuState {
    /// Clock limits were written and must be undone when they are unset.
    pub clock_limits_set: bool,
    /// The values are being re-applied after a resume from sleep.
    pub is_resuming: bool,
    /// Whether the online state of this CPU is to be written.
    pub do_set_online: bool,
}

/// The bookkeeping of a CPU nothing was written for yet.
pub open spec fn fresh_cpu_state() -> CpuState {
    CpuState { clock_limits_set: false, is_resuming: false, do_set_online: true }
}

impl Default for CpuState {
    fn default() -> (r: Self)
        ensures
            r == fresh_cpu_state(),
    {
        CpuState { clock_limits_set: false, is_resuming: false, do_set_online: true }
    }
}

} // verus!
