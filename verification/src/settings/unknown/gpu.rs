//! GPU of a device that no limits config describes: nothing can be set.

use vstd::prelude::*;

use crate::persist::{DriverJson, GpuJson};
use crate::settings::{GpuView, MinMax, TGpu};

verus! {

/// The GPU of an unknown device: only the slow-memory switch is kept, and nothing is applied.
#[derive(Debug, Clone, Copy)]
pub struct Gpu {
    pub slow_memory: bool,
}

/// The view of a GPU where nothing but the slow-memory switch is set.
pub open spec fn empty_gpu_view(slow_memory: bool) -> GpuView {
    GpuView { fast_ppt: None, slow_ppt: None, clock_limits: None, slow_memory }
}

impl Gpu {
    /// Persisted settings are ignored.
    pub fn from_json(_other: GpuJson, _version: u64) -> (r: Self)
        ensures
            !r.slow_memory,
    {
        Gpu { slow_memory: false }
    }

    pub fn system_default() -> (r: Self)
        ensures
            !r.slow_memory,
    {
        Gpu { slow_memory: false }
    }
}

impl TGpu for Gpu {
    open spec fn gpu_view(&self) -> GpuView {
        empty_gpu_view(self.slow_memory)
    }

    open spec fn provider_view(&self) -> DriverJson {
        DriverJson::Unknown
    }

    open spec fn ppt_acceptable(&self, fast: Option<u64>, slow: Option<u64>) -> bool {
        true
    }

    open spec fn after_ppt(&self, fast: Option<u64>, slow: Option<u64>) -> GpuView {
        empty_gpu_view(self.slow_memory)
    }

    open spec fn after_clock_limits(&self, limits: Option<MinMax<u64>>) -> GpuView {
        empty_gpu_view(self.slow_memory)
    }

    open spec fn ppt_shown(&self) -> (Option<u64>, Option<u64>) {
        (None, None)
    }

    open spec fn gpu_wf(&self) -> bool {
        true
    }

    fn is_well_formed(&self) -> (r: bool) {
        true
    }

    fn accepts_ppt(&self, _fast: Option<u64>, _slow: Option<u64>) -> (r: bool) {
        true
    }

    open spec fn gpu_limits(&self) -> crate::api::GpuLimits {
        crate::api::GpuLimits {
            fast_ppt_limits: None,
            slow_ppt_limits: None,
            ppt_step: 1_000_000,
            tdp_limits: None,
            tdp_boost_limits: None,
            tdp_step: 42,
            clock_min_limits: None,
            clock_max_limits: None,
            clock_step: 100,
            memory_control_capable: false,
        }
    }

    fn limits(&self) -> (r: crate::api::GpuLimits) {
        crate::api::GpuLimits {
            fast_ppt_limits: None,
            slow_ppt_limits: None,
            ppt_step: 1_000_000,
            tdp_limits: None,
            tdp_boost_limits: None,
            tdp_step: 42,
            clock_min_limits: None,
            clock_max_limits: None,
            clock_step: 100,
            memory_control_capable: false,
        }
    }

    open spec fn persisted(&self) -> GpuJson {
        GpuJson { fast_ppt: None, slow_ppt: None, clock_limits: None, slow_memory: self.slow_memory, root: None }
    }

    fn json(&self) -> (r: GpuJson) {
        GpuJson { fast_ppt: None, slow_ppt: None, clock_limits: None, slow_memory: self.slow_memory, root: None }
    }

    fn ppt(&mut self, _fast: Option<u64>, _slow: Option<u64>) {
    }

    fn get_ppt(&self) -> (r: (Option<u64>, Option<u64>)) {
        (None, None)
    }

    fn clock_limits(&mut self, _limits: Option<MinMax<u64>>) {
    }

    fn get_clock_limits(&self) -> (r: Option<&MinMax<u64>>) {
        None
    }

    fn set_slow_memory(&mut self, slow: bool) {
        self.slow_memory = slow;
    }

    fn slow_memory(&self) -> (r: bool) {
        self.slow_memory
    }

    fn provider(&self) -> (r: DriverJson) {
        DriverJson::Unknown
    }
}

} // verus!
