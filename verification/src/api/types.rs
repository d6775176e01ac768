//! Limits as reported to the front-end.

use vstd::prelude::*;

verus! {

/// A lower and an upper bound.
#[derive(Clone, Copy, Debug)]
pub struct RangeLimit<T> {
    pub min: T,
    pub max: T,
}

/// Limits of every part of the settings.
pub struct SettingsLimits {
    pub battery: BatteryLimits,
    pub cpu: CpusLimits,
    pub gpu: GpuLimits,
    pub general: GeneralLimits,
}

/// Battery limits.
pub struct BatteryLimits {
    pub charge_current: Option<RangeLimit<u64>>,
    pub charge_current_step: u64,
    pub charge_modes: Vec<String>,
}

/// Limits of all CPUs.
pub struct CpusLimits {
    pub cpus: Vec<CpuLimits>,
    pub count: usize,
    pub smt_capable: bool,
    pub governors: Vec<String>,
}

/// Limits of one CPU.
pub struct CpuLimits {
    pub clock_min_limits: Option<RangeLimit<u64>>,
    pub clock_max_limits: Option<RangeLimit<u64>>,
    pub clock_step: u64,
    pub governors: Vec<String>,
}

/// General limits (none so far).
pub struct GeneralLimits {}

/// GPU limits.
pub struct GpuLimits {
    pub fast_ppt_limits: Option<RangeLimit<u64>>,
    pub slow_ppt_limits: Option<RangeLimit<u64>>,
    pub ppt_step: u64,
    pub tdp_limits: Option<RangeLimit<u64>>,
    pub tdp_boost_limits: Option<RangeLimit<u64>>,
    pub tdp_step: u64,
    pub clock_min_limits: Option<RangeLimit<u64>>,
    pub clock_max_limits: Option<RangeLimit<u64>>,
    pub clock_step: u64,
    pub memory_control_capable: bool,
}

/// What the front-end is shown of the battery limits.
pub struct BatteryLimitsView {
    pub charge_current: Option<RangeLimit<u64>>,
    pub charge_current_step: u64,
    pub charge_modes: Seq<Seq<char>>,
}

impl View for BatteryLimits {
    type V = BatteryLimitsView;

    open spec fn view(&self) -> BatteryLimitsView {
        BatteryLimitsView {
            charge_current: self.charge_current,
            charge_current_step: self.charge_current_step,
            charge_modes: self.charge_modes.deep_view(),
        }
    }
}

/// What the front-end is shown of one CPU's limits.
pub struct CpuLimitsView {
    pub clock_min_limits: Option<RangeLimit<u64>>,
    pub clock_max_limits: Option<RangeLimit<u64>>,
    pub clock_step: u64,
    pub governors: Seq<Seq<char>>,
}

impl View for CpuLimits {
    type V = CpuLimitsView;

    open spec fn view(&self) -> CpuLimitsView {
        CpuLimitsView {
            clock_min_limits: self.clock_min_limits,
            clock_max_limits: self.clock_max_limits,
            clock_step: self.clock_step,
            governors: self.governors.deep_view(),
        }
    }
}

/// What the front-end is shown of the limits of all CPUs.
pub struct CpusLimitsView {
    pub cpus: Seq<CpuLimitsView>,
    pub count: usize,
    pub smt_capable: bool,
    pub governors: Seq<Seq<char>>,
}

impl View for CpusLimits {
    type V = CpusLimitsView;

    open spec fn view(&self) -> CpusLimitsView {
        CpusLimitsView {
            cpus: self.cpus@.map_values(|c: CpuLimits| c@),
            count: self.count,
            smt_capable: self.smt_capable,
            governors: self.governors.deep_view(),
        }
    }
}

/// What the front-end is shown of the limits of every part.
pub struct SettingsLimitsView {
    pub battery: BatteryLimitsView,
    pub cpu: CpusLimitsView,
    pub gpu: GpuLimits,
}

impl View for SettingsLimits {
    type V = SettingsLimitsView;

    open spec fn view(&self) -> SettingsLimitsView {
        SettingsLimitsView { battery: self.battery@, cpu: self.cpu@, gpu: self.gpu }
    }
}

} // verus!
