//! GPU of a generic device: power and clock limits within the device's limits config.

use vstd::prelude::*;

use crate::api::RangeLimit as ApiRange;
use crate::limits::{GenericGpuLimit, RangeLimit};
use crate::persist::{DriverJson, GpuJson};
use crate::settings::min_max::{min_max_from_json, min_max_to_json};
use crate::settings::traits::{clock_limits_json, gpu_json_clock_limits};
use crate::settings::util::{clamp, spec_clamp};
use crate::settings::{GpuView, MinMax, TGpu};

verus! {

/// The GPU of a generic device.
#[derive(Debug)]
pub struct Gpu {
    pub slow_memory: bool,
    pub fast_ppt: Option<u64>,
    pub slow_ppt: Option<u64>,
    pub clock_limits: Option<MinMax<u64>>,
    pub limits: GenericGpuLimit,
}

/// `Option::clamp`: `None` orders below every `Some`.
pub open spec fn opt_le(a: Option<u64>, b: Option<u64>) -> bool {
    match (a, b) {
        (None, _) => true,
        (Some(_), None) => false,
        (Some(x), Some(y)) => x <= y,
    }
}

/// `Option::clamp` of `x` into `[min, max]`.
pub open spec fn opt_clamp(x: Option<u64>, min: Option<u64>, max: Option<u64>) -> Option<u64> {
    if !opt_le(min, x) {
        min
    } else if !opt_le(x, max) {
        max
    } else {
        x
    }
}

fn option_clamp(x: Option<u64>, min: Option<u64>, max: Option<u64>) -> (r: Option<u64>)
    requires
        opt_le(min, max),
    ensures
        r == opt_clamp(x, min, max),
{
    let below = match (min, x) {
        (None, _) => false,
        (Some(_), None) => true,
        (Some(m), Some(v)) => v < m,
    };
    let above = match (x, max) {
        (None, _) => false,
        (Some(_), None) => true,
        (Some(v), Some(m)) => v > m,
    };
    if below {
        min
    } else if above {
        max
    } else {
        x
    }
}

/// A power limit within a limits range: a missing lower bound reads as 0, a missing upper one
/// as the largest value.
pub open spec fn clamp_ppt(v: Option<u64>, r: RangeLimit<u64>) -> Option<u64> {
    match v {
        Some(x) => Some(spec_clamp(
            x,
            match r.min { Some(m) => m, None => 0 },
            match r.max { Some(m) => m, None => u64::MAX },
        )),
        None => None,
    }
}

/// Whether a limits range is usable for power limits.
pub open spec fn ppt_range_ordered(r: Option<RangeLimit<u64>>) -> bool {
    r matches Some(x) ==> match (x.min, x.max) {
        (Some(a), Some(b)) => a <= b,
        _ => true,
    }
}

/// A range as shown to the front-end, with defaults for missing bounds.
pub open spec fn api_range_or(r: RangeLimit<u64>, min: u64, max: u64) -> ApiRange<u64> {
    ApiRange {
        min: match r.min { Some(m) => m, None => min },
        max: match r.max { Some(m) => m, None => max },
    }
}

/// A shown range: the given bounds of a limit, the defaults where it gives none.
pub open spec fn spec_range_or(r: Option<RangeLimit<u64>>, min: u64, max: u64) -> Option<ApiRange<u64>> {
    match r {
        Some(x) => Some(api_range_or(x, min, max)),
        None => None,
    }
}

fn range_or(r: Option<RangeLimit<u64>>, min: u64, max: u64) -> (o: Option<ApiRange<u64>>)
    ensures
        o == spec_range_or(r, min, max),
{
    match r {
        Some(x) => Some(ApiRange {
            min: match x.min { Some(m) => m, None => min },
            max: match x.max { Some(m) => m, None => max },
        }),
        None => None,
    }
}

fn range_ordered(r: &Option<RangeLimit<u64>>) -> (b: bool)
    ensures
        b == ppt_range_ordered(*r),
{
    match r {
        Some(x) => match (x.min, x.max) {
            (Some(a), Some(b)) => a <= b,
            _ => true,
        },
        None => true,
    }
}

fn ppt_within(v: Option<u64>, r: RangeLimit<u64>) -> (o: Option<u64>)
    requires
        ppt_range_ordered(Some(r)),
    ensures
        o == clamp_ppt(v, r),
{
    match v {
        Some(x) => {
            let min = match r.min { Some(m) => m, None => 0 };
            let max = match r.max { Some(m) => m, None => u64::MAX };
            Some(clamp(x, min, max))
        },
        None => None,
    }
}

/// The clock limits kept from a request under the GPU limits: only when both clock ranges are
/// given, with the minimum brought within the minimum range and the maximum set to the top of
/// the maximum range.
pub open spec fn clock_limits_under(limits: GenericGpuLimit, old: Option<MinMax<u64>>, req: Option<MinMax<u64>>) -> Option<MinMax<u64>> {
    match (limits.clock_min, limits.clock_max) {
        (Some(cmin), Some(cmax)) => match req {
            Some(x) => Some(MinMax { min: opt_clamp(x.min, cmin.min, cmin.max), max: opt_clamp(x.max, cmax.max, cmax.max) }),
            None => None,
        },
        _ => old,
    }
}

impl Gpu {
    /// A GPU with these limits and nothing set.
    pub fn from_limits(limits: GenericGpuLimit) -> (r: Self)
        ensures
            !r.slow_memory,
            r.fast_ppt is None && r.slow_ppt is None && r.clock_limits is None,
            r.limits == limits,
    {
        Gpu { slow_memory: false, fast_ppt: None, slow_ppt: None, clock_limits: None, limits }
    }

    /// Read persisted GPU settings under these limits: each setting is kept only when the limits
    /// allow it.
    pub fn from_json_and_limits(other: GpuJson, version: u64, limits: GenericGpuLimit) -> (r: Self)
        ensures
            !r.slow_memory,
            r.fast_ppt == if limits.fast_ppt is Some { other.fast_ppt } else { None },
            r.slow_ppt == if limits.slow_ppt is Some { other.slow_ppt } else { None },
            r.clock_limits == if limits.clock_min is Some && limits.clock_max is Some {
                gpu_json_clock_limits(other)
            } else {
                None
            },
            r.limits == limits,
    {
        let clock_lims = if limits.clock_min.is_some() && limits.clock_max.is_some() {
            match other.clock_limits {
                Some(x) => Some(min_max_from_json(x, version)),
                None => None,
            }
        } else {
            None
        };
        Gpu {
            slow_memory: false,
            fast_ppt: if limits.fast_ppt.is_some() { other.fast_ppt } else { None },
            slow_ppt: if limits.slow_ppt.is_some() { other.slow_ppt } else { None },
            clock_limits: clock_lims,
            limits,
        }
    }
}

impl TGpu for Gpu {
    open spec fn gpu_view(&self) -> GpuView {
        GpuView { fast_ppt: self.fast_ppt, slow_ppt: self.slow_ppt, clock_limits: self.clock_limits, slow_memory: self.slow_memory }
    }

    open spec fn provider_view(&self) -> DriverJson {
        DriverJson::Generic
    }

    open spec fn ppt_acceptable(&self, fast: Option<u64>, slow: Option<u64>) -> bool {
        true
    }

    open spec fn after_ppt(&self, fast: Option<u64>, slow: Option<u64>) -> GpuView {
        GpuView {
            fast_ppt: match self.limits.fast_ppt { Some(r) => clamp_ppt(fast, r), None => self.fast_ppt },
            slow_ppt: match self.limits.slow_ppt { Some(r) => clamp_ppt(slow, r), None => self.slow_ppt },
            clock_limits: self.clock_limits,
            slow_memory: self.slow_memory,
        }
    }

    open spec fn after_clock_limits(&self, limits: Option<MinMax<u64>>) -> GpuView {
        GpuView {
            fast_ppt: self.fast_ppt,
            slow_ppt: self.slow_ppt,
            clock_limits: clock_limits_under(self.limits, self.clock_limits, limits),
            slow_memory: self.slow_memory,
        }
    }

    open spec fn ppt_shown(&self) -> (Option<u64>, Option<u64>) {
        (self.fast_ppt, self.slow_ppt)
    }

    open spec fn gpu_wf(&self) -> bool {
        &&& ppt_range_ordered(self.limits.fast_ppt)
        &&& ppt_range_ordered(self.limits.slow_ppt)
        &&& (self.limits.clock_min matches Some(c) ==> opt_le(c.min, c.max))
    }

    fn is_well_formed(&self) -> (r: bool) {
        range_ordered(&self.limits.fast_ppt) && range_ordered(&self.limits.slow_ppt)
            && match self.limits.clock_min {
                Some(c) => match (c.min, c.max) {
                    (Some(_), None) => false,
                    (Some(a), Some(b)) => a <= b,
                    (None, _) => true,
                },
                None => true,
            }
    }

    fn accepts_ppt(&self, fast: Option<u64>, slow: Option<u64>) -> (r: bool) {
        true
    }

    open spec fn gpu_limits(&self) -> crate::api::GpuLimits {
        crate::api::GpuLimits {
            fast_ppt_limits: spec_range_or(self.limits.fast_ppt, 0, 15_000_000),
            slow_ppt_limits: spec_range_or(self.limits.slow_ppt, 0, 15_000_000),
            ppt_step: match self.limits.ppt_step { Some(s) => s, None => 1_000_000 },
            tdp_limits: spec_range_or(self.limits.tdp, 0, 15_000_000),
            tdp_boost_limits: spec_range_or(self.limits.tdp_boost, 0, 15_000_000),
            tdp_step: match self.limits.tdp_step { Some(s) => s, None => 42 },
            clock_min_limits: spec_range_or(self.limits.clock_min, 0, 3_000),
            clock_max_limits: spec_range_or(self.limits.clock_max, 0, 3_000),
            clock_step: match self.limits.clock_step { Some(s) => s, None => 100 },
            memory_control_capable: false,
        }
    }

    fn limits(&self) -> (r: crate::api::GpuLimits) {
        crate::api::GpuLimits {
            fast_ppt_limits: range_or(self.limits.fast_ppt, 0, 15_000_000),
            slow_ppt_limits: range_or(self.limits.slow_ppt, 0, 15_000_000),
            ppt_step: match self.limits.ppt_step { Some(s) => s, None => 1_000_000 },
            tdp_limits: range_or(self.limits.tdp, 0, 15_000_000),
            tdp_boost_limits: range_or(self.limits.tdp_boost, 0, 15_000_000),
            tdp_step: match self.limits.tdp_step { Some(s) => s, None => 42 },
            clock_min_limits: range_or(self.limits.clock_min, 0, 3_000),
            clock_max_limits: range_or(self.limits.clock_max, 0, 3_000),
            clock_step: match self.limits.clock_step { Some(s) => s, None => 100 },
            memory_control_capable: false,
        }
    }

    open spec fn persisted(&self) -> GpuJson {
        GpuJson {
            fast_ppt: self.fast_ppt,
            slow_ppt: self.slow_ppt,
            clock_limits: clock_limits_json(self.clock_limits),
            slow_memory: false,
            root: None,
        }
    }

    fn json(&self) -> (r: GpuJson) {
        GpuJson {
            fast_ppt: self.fast_ppt,
            slow_ppt: self.slow_ppt,
            clock_limits: match self.clock_limits {
                Some(x) => Some(min_max_to_json(x)),
                None => None,
            },
            slow_memory: false,
            root: None,
        }
    }

    fn ppt(&mut self, fast: Option<u64>, slow: Option<u64>)
        ensures
            final(self).limits == old(self).limits,
    {
        if let Some(fast_lims) = self.limits.fast_ppt {
            self.fast_ppt = ppt_within(fast, fast_lims);
        }
        if let Some(slow_lims) = self.limits.slow_ppt {
            self.slow_ppt = ppt_within(slow, slow_lims);
        }
    }

    fn get_ppt(&self) -> (r: (Option<u64>, Option<u64>)) {
        (self.fast_ppt, self.slow_ppt)
    }

    fn clock_limits(&mut self, limits: Option<MinMax<u64>>)
        ensures
            final(self).limits == old(self).limits,
    {
        if let Some(clock_min) = self.limits.clock_min {
            if let Some(clock_max) = self.limits.clock_max {
                self.clock_limits = match limits {
                    Some(x) => Some(MinMax {
                        min: option_clamp(x.min, clock_min.min, clock_min.max),
                        max: option_clamp(x.max, clock_max.max, clock_max.max),
                    }),
                    None => None,
                };
            }
        }
    }

    fn get_clock_limits(&self) -> (r: Option<&MinMax<u64>>) {
        self.clock_limits.as_ref()
    }

    fn set_slow_memory(&mut self, slow: bool)
        ensures
            final(self).limits == old(self).limits,
    {
        self.slow_memory = slow;
    }

    fn slow_memory(&self) -> (r: bool) {
        self.slow_memory
    }

    fn provider(&self) -> (r: DriverJson) {
        DriverJson::Generic
    }
}

} // verus!
