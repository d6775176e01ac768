//! What every driver offers to the settings logic.

use vstd::prelude::*;

use super::MinMax;
use crate::api::{BatteryLimits, BatteryLimitsView, GpuLimits};
use crate::persist::{BatteryJson, DriverJson, GpuJson, MinMaxJson};

verus! {

/// What the settings logic sees of one CPU (hardware thread).
pub struct CpuView {
    pub online: bool,
    pub governor: Seq<char>,
    pub clock_limits: Option<MinMax<u64>>,
    /// Whether the driver accepts clock limits for this CPU at all.
    pub takes_clock_limits: bool,
}

/// The view of a CPU after it was set online or offline.
pub open spec fn with_online(c: CpuView, online: bool) -> CpuView {
    CpuView { online, governor: c.governor, clock_limits: c.clock_limits, takes_clock_limits: c.takes_clock_limits }
}

/// The view of a CPU after its governor was set.
pub open spec fn with_governor(c: CpuView, governor: Seq<char>) -> CpuView {
    CpuView { online: c.online, governor, clock_limits: c.clock_limits, takes_clock_limits: c.takes_clock_limits }
}

/// The view of a CPU after clock limits were requested: drivers that take none ignore them.
pub open spec fn with_clock_limits(c: CpuView, limits: Option<MinMax<u64>>) -> CpuView {
    if c.takes_clock_limits {
        CpuView { online: c.online, governor: c.governor, clock_limits: limits, takes_clock_limits: true }
    } else {
        c
    }
}

/// The clock limits of a CPU view as a reference-free option.
pub open spec fn opt_ref_view(r: Option<&MinMax<u64>>) -> Option<MinMax<u64>> {
    match r {
        Some(x) => Some(*x),
        None => None,
    }
}

/// One CPU (hardware thread) of a driver.
pub trait TCpu: Sized {
    spec fn cpu_view(&self) -> CpuView;

    fn online(&self) -> (r: bool)
        ensures
            r == self.cpu_view().online,
    ;

    fn set_online(&mut self, online: bool)
        ensures
            final(self).cpu_view() == with_online(old(self).cpu_view(), online),
    ;

    fn governor(&mut self, governor: String)
        ensures
            final(self).cpu_view() == with_governor(old(self).cpu_view(), governor@),
    ;

    fn get_governor(&self) -> (r: &str)
        ensures
            r@ == self.cpu_view().governor,
    ;

    fn clock_limits(&mut self, limits: Option<MinMax<u64>>)
        ensures
            final(self).cpu_view() == with_clock_limits(old(self).cpu_view(), limits),
    ;

    fn get_clock_limits(&self) -> (r: Option<&MinMax<u64>>)
        ensures
            opt_ref_view(r) == self.cpu_view().clock_limits,
    ;
}

/// All CPUs of a driver, and the SMT switch.
pub trait TCpus: Sized {
    spec fn cpus_view(&self) -> Seq<CpuView>;

    spec fn smt_view(&self) -> bool;

    spec fn provider_view(&self) -> DriverJson;

    fn len(&self) -> (n: usize)
        ensures
            n == self.cpus_view().len(),
    ;

    fn smt(&self) -> (r: bool)
        ensures
            r == self.smt_view(),
    ;

    fn set_smt(&mut self, smt: bool)
        ensures
            final(self).smt_view() == smt,
            final(self).cpus_view() == old(self).cpus_view(),
            final(self).provider_view() == old(self).provider_view(),
    ;

    fn cpu_online(&self, index: usize) -> (r: bool)
        requires
            index < self.cpus_view().len(),
        ensures
            r == self.cpus_view()[index as int].online,
    ;

    fn set_cpu_online(&mut self, index: usize, online: bool)
        requires
            index < old(self).cpus_view().len(),
        ensures
            final(self).cpus_view() == old(self).cpus_view().update(
                index as int,
                with_online(old(self).cpus_view()[index as int], online),
            ),
            final(self).smt_view() == old(self).smt_view(),
            final(self).provider_view() == old(self).provider_view(),
    ;

    fn set_cpu_governor(&mut self, index: usize, governor: String)
        requires
            index < old(self).cpus_view().len(),
        ensures
            final(self).cpus_view() == old(self).cpus_view().update(
                index as int,
                with_governor(old(self).cpus_view()[index as int], governor@),
            ),
            final(self).smt_view() == old(self).smt_view(),
            final(self).provider_view() == old(self).provider_view(),
    ;

    fn cpu_governor(&self, index: usize) -> (r: &str)
        requires
            index < self.cpus_view().len(),
        ensures
            r@ == self.cpus_view()[index as int].governor,
    ;

    fn set_cpu_clock_limits(&mut self, index: usize, limits: Option<MinMax<u64>>)
        requires
            index < old(self).cpus_view().len(),
        ensures
            final(self).cpus_view() == old(self).cpus_view().update(
                index as int,
                with_clock_limits(old(self).cpus_view()[index as int], limits),
            ),
            final(self).smt_view() == old(self).smt_view(),
            final(self).provider_view() == old(self).provider_view(),
    ;

    fn cpu_clock_limits(&self, index: usize) -> (r: Option<MinMax<u64>>)
        requires
            index < self.cpus_view().len(),
        ensures
            r == self.cpus_view()[index as int].clock_limits,
    ;

    fn provider(&self) -> (r: DriverJson)
        ensures
            r == self.provider_view(),
    ;
}

/// The view of an optional string.
pub open spec fn opt_string_view(o: Option<String>) -> Option<Seq<char>> {
    match o {
        Some(s) => Some(s@),
        None => None,
    }
}

/// What the settings logic sees of a battery.
pub struct BatteryView {
    pub charge_rate: Option<u64>,
    pub charge_mode: Option<Seq<char>>,
}

/// The battery of a driver.
pub trait TBattery: Sized {
    spec fn battery_view(&self) -> BatteryView;

    spec fn provider_view(&self) -> DriverJson;

    /// The view after a charge rate (in mA) was requested.
    spec fn after_charge_rate(&self, rate: Option<u64>) -> BatteryView;

    /// The view after a charge mode was requested.
    spec fn after_charge_mode(&self, mode: Option<Seq<char>>) -> BatteryView;

    /// The limits shown to the front-end.
    spec fn battery_limits(&self) -> BatteryLimitsView;

    fn limits(&self) -> (r: BatteryLimits)
        ensures
            r@ == self.battery_limits(),
    ;

    fn json(&self) -> (r: BatteryJson)
        ensures
            r.charge_rate == self.battery_view().charge_rate,
            opt_string_view(r.charge_mode) == self.battery_view().charge_mode,
            r.events@.len() == 0,
            r.root is None,
    ;

    fn charge_rate(&mut self, rate: Option<u64>)
        ensures
            final(self).battery_view() == old(self).after_charge_rate(rate),
            final(self).provider_view() == old(self).provider_view(),
    ;

    fn get_charge_rate(&self) -> (r: Option<u64>)
        ensures
            r == self.battery_view().charge_rate,
    ;

    fn charge_mode(&mut self, mode: Option<String>)
        ensures
            final(self).battery_view() == old(self).after_charge_mode(opt_string_view(mode)),
            final(self).provider_view() == old(self).provider_view(),
    ;

    fn get_charge_mode(&self) -> (r: Option<String>)
        ensures
            opt_string_view(r) == self.battery_view().charge_mode,
    ;

    fn provider(&self) -> (r: DriverJson)
        ensures
            r == self.provider_view(),
    ;
}

/// What the settings logic sees of a GPU.
pub struct GpuView {
    pub fast_ppt: Option<u64>,
    pub slow_ppt: Option<u64>,
    pub clock_limits: Option<MinMax<u64>>,
    pub slow_memory: bool,
}

/// The clock limits of persisted GPU settings.
pub open spec fn gpu_json_clock_limits(j: GpuJson) -> Option<MinMax<u64>> {
    match j.clock_limits {
        Some(x) => Some(MinMax { max: x.max, min: x.min }),
        None => None,
    }
}

/// The persisted form of optional clock limits.
pub open spec fn clock_limits_json(c: Option<MinMax<u64>>) -> Option<MinMaxJson<Option<u64>>> {
    match c {
        Some(x) => Some(MinMaxJson { max: x.max, min: x.min }),
        None => None,
    }
}

/// The GPU of a driver.
pub trait TGpu: Sized {
    spec fn gpu_view(&self) -> GpuView;

    spec fn provider_view(&self) -> DriverJson;

    /// Whether power limits can be requested (in the unit shown to the front-end).
    spec fn ppt_acceptable(&self, fast: Option<u64>, slow: Option<u64>) -> bool;

    /// The view after power limits were requested.
    spec fn after_ppt(&self, fast: Option<u64>, slow: Option<u64>) -> GpuView;

    /// The view after clock limits were requested.
    spec fn after_clock_limits(&self, limits: Option<MinMax<u64>>) -> GpuView;

    /// The power limits as shown to the front-end.
    spec fn ppt_shown(&self) -> (Option<u64>, Option<u64>);

    /// Whether the GPU's own limits are consistent.
    spec fn gpu_wf(&self) -> bool;

    /// Test `gpu_wf`.
    fn is_well_formed(&self) -> (r: bool)
        ensures
            r == self.gpu_wf(),
    ;

    /// Test `ppt_acceptable`.
    fn accepts_ppt(&self, fast: Option<u64>, slow: Option<u64>) -> (r: bool)
        ensures
            r == self.ppt_acceptable(fast, slow),
    ;

    /// The limits shown to the front-end.
    spec fn gpu_limits(&self) -> GpuLimits;

    fn limits(&self) -> (r: GpuLimits)
        requires
            self.gpu_wf(),
        ensures
            r == self.gpu_limits(),
    ;

    /// The persisted form.
    spec fn persisted(&self) -> GpuJson;

    fn json(&self) -> (r: GpuJson)
        ensures
            r == self.persisted(),
            r.fast_ppt == self.gpu_view().fast_ppt,
            r.slow_ppt == self.gpu_view().slow_ppt,
            gpu_json_clock_limits(r) == self.gpu_view().clock_limits,
    ;

    fn ppt(&mut self, fast: Option<u64>, slow: Option<u64>)
        requires
            old(self).gpu_wf(),
            old(self).ppt_acceptable(fast, slow),
        ensures
            final(self).gpu_view() == old(self).after_ppt(fast, slow),
            final(self).provider_view() == old(self).provider_view(),
            final(self).gpu_wf(),
    ;

    fn get_ppt(&self) -> (r: (Option<u64>, Option<u64>))
        requires
            self.gpu_wf(),
        ensures
            r == self.ppt_shown(),
    ;

    fn clock_limits(&mut self, limits: Option<MinMax<u64>>)
        requires
            old(self).gpu_wf(),
        ensures
            final(self).gpu_view() == old(self).after_clock_limits(limits),
            final(self).provider_view() == old(self).provider_view(),
            final(self).gpu_wf(),
    ;

    fn get_clock_limits(&self) -> (r: Option<&MinMax<u64>>)
        ensures
            opt_ref_view(r) == self.gpu_view().clock_limits,
    ;

    fn set_slow_memory(&mut self, slow: bool)
        requires
            old(self).gpu_wf(),
        ensures
            final(self).gpu_view() == (GpuView { slow_memory: slow, ..old(self).gpu_view() }),
            final(self).provider_view() == old(self).provider_view(),
            final(self).gpu_wf(),
    ;

    fn slow_memory(&self) -> (r: bool)
        ensures
            r == self.gpu_view().slow_memory,
    ;

    fn provider(&self) -> (r: DriverJson)
        ensures
            r == self.provider_view(),
    ;
}

} // verus!
