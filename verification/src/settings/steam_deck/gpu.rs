//! The Steam Deck GPU: power limits (PPT), clock limits and memory downclocking.

use vstd::prelude::*;

use super::oc_limits::{GpuLimits, OverclockLimits};
use super::power_dpm_force::{bit_of, PDFPLManager, GPU_BIT};
use crate::api::RangeLimit;
use crate::persist::{DriverJson, GpuJson};
use crate::settings::min_max::{min_max_from_json, min_max_to_json};
use crate::settings::traits::{clock_limits_json, gpu_json_clock_limits};
use crate::settings::util::{clamp, spec_clamp};
use crate::settings::{GpuView, MinMax, TGpu};

verus! {

/// Hardware monitor attribute of the slow power limit.
pub const SLOW_PPT_ATTRIBUTE: &'static str = "power1_cap";

/// Hardware monitor attribute of the fast power limit.
pub const FAST_PPT_ATTRIBUTE: &'static str = "power2_cap";

/// Card attribute taking clock limits.
pub const GPU_CLOCK_LIMITS_ATTRIBUTE: &'static str = "device/pp_od_clk_voltage";

/// Card attribute taking the memory downclock.
pub const GPU_MEMORY_DOWNCLOCK_ATTRIBUTE: &'static str = "device/pp_dpm_fclk";

/// Bookkeeping of what was written for the GPU.
#[derive(Debug, Clone, Copy)]
pub struct GpuState {
    pub fast_ppt_set: bool,
    pub slow_ppt_set: bool,
    pub clock_limits_set: bool,
    pub is_resuming: bool,
}

/// The bookkeeping of a GPU nothing was written for yet.
pub open spec fn fresh_gpu_state() -> GpuState {
    GpuState { fast_ppt_set: false, slow_ppt_set: false, clock_limits_set: false, is_resuming: false }
}

impl Default for GpuState {
    fn default() -> (r: Self)
        ensures
            r == fresh_gpu_state(),
    {
        GpuState { fast_ppt_set: false, slow_ppt_set: false, clock_limits_set: false, is_resuming: false }
    }
}

/// The Steam Deck GPU. Power limits are kept in µW; the front-end sees them divided by `ppt_divisor`.
#[derive(Debug)]
pub struct Gpu {
    pub fast_ppt: Option<u64>,
    pub slow_ppt: Option<u64>,
    pub clock_limits: Option<MinMax<u64>>,
    pub slow_memory: bool,
    pub limits: GpuLimits,
    pub state: GpuState,
    pub driver_mode: DriverJson,
    /// Root of the sysfs tree the GPU was found in (the system's own when `None`).
    pub root: Option<String>,
}

/// A power limit scaled up from the unit shown to the front-end.
pub open spec fn scaled_up(v: Option<u64>, divisor: u64) -> Option<u64> {
    match v {
        Some(x) => Some((x * divisor) as u64),
        None => None,
    }
}

/// A power limit scaled down to the unit shown to the front-end.
pub open spec fn scaled_down(v: Option<u64>, divisor: u64) -> Option<u64> {
    match v {
        Some(x) => Some(x / divisor),
        None => None,
    }
}

/// Whether a power limit can be scaled up without overflow.
pub open spec fn scalable(v: Option<u64>, divisor: u64) -> bool {
    v matches Some(x) ==> x * divisor <= u64::MAX
}

/// A value brought within a range, when there is one.
pub open spec fn clamp_opt(v: Option<u64>, min: u64, max: u64) -> Option<u64> {
    match v {
        Some(x) => Some(spec_clamp(x, min, max)),
        None => None,
    }
}

/// Whether the GPU limits are usable ranges and a usable divisor.
pub open spec fn gpu_limits_ordered(l: GpuLimits) -> bool {
    &&& l.ppt_divisor != 0
    &&& l.fast_ppt.min <= l.fast_ppt.max
    &&& l.slow_ppt.min <= l.slow_ppt.max
    &&& l.clock_min.min <= l.clock_min.max
    &&& l.clock_max.min <= l.clock_max.max
}

/// Test `gpu_limits_ordered`.
pub fn limits_ordered(l: &GpuLimits) -> (r: bool)
    ensures
        r == gpu_limits_ordered(*l),
{
    l.ppt_divisor != 0 && l.fast_ppt.min <= l.fast_ppt.max && l.slow_ppt.min <= l.slow_ppt.max
        && l.clock_min.min <= l.clock_min.max && l.clock_max.min <= l.clock_max.max
}

fn scale_up(v: Option<u64>, divisor: u64) -> (r: Option<u64>)
    requires
        scalable(v, divisor),
    ensures
        r == scaled_up(v, divisor),
{
    match v {
        Some(x) => Some(x * divisor),
        None => None,
    }
}

fn scale_down(v: Option<u64>, divisor: u64) -> (r: Option<u64>)
    requires
        divisor != 0,
    ensures
        r == scaled_down(v, divisor),
{
    match v {
        Some(x) => Some(x / divisor),
        None => None,
    }
}

fn clamp_option(v: Option<u64>, min: u64, max: u64) -> (r: Option<u64>)
    requires
        min <= max,
    ensures
        r == clamp_opt(v, min, max),
{
    match v {
        Some(x) => Some(clamp(x, min, max)),
        None => None,
    }
}

impl Gpu {
    /// Read persisted GPU settings, with the Steam Deck limits in force.
    pub fn from_json(other: GpuJson, version: u64, oc_limits: &OverclockLimits, is_default: bool) -> (r: Self)
        ensures
            r.fast_ppt == other.fast_ppt,
            r.slow_ppt == other.slow_ppt,
            r.clock_limits == gpu_json_clock_limits(other),
            r.slow_memory == other.slow_memory,
            r.limits == oc_limits.gpu,
            r.state == fresh_gpu_state(),
            r.driver_mode == super::battery::deck_driver(is_default),
            r.root == other.root,
    {
        Gpu {
            fast_ppt: other.fast_ppt,
            slow_ppt: other.slow_ppt,
            clock_limits: match other.clock_limits {
                Some(x) => Some(min_max_from_json(x, version)),
                None => None,
            },
            slow_memory: other.slow_memory,
            limits: oc_limits.gpu,
            state: GpuState::default(),
            driver_mode: if is_default { DriverJson::SteamDeck } else { DriverJson::SteamDeckAdvance },
            root: other.root,
        }
    }

    /// The GPU as found on the system: nothing set.
    pub fn system_default(oc_limits: &OverclockLimits, is_default: bool) -> (r: Self)
        ensures
            r.fast_ppt is None && r.slow_ppt is None && r.clock_limits is None,
            !r.slow_memory,
            r.limits == oc_limits.gpu,
            r.state == fresh_gpu_state(),
            r.driver_mode == super::battery::deck_driver(is_default),
            r.root is None,
    {
        Gpu {
            fast_ppt: None,
            slow_ppt: None,
            clock_limits: None,
            slow_memory: false,
            limits: oc_limits.gpu,
            state: GpuState::default(),
            driver_mode: if is_default { DriverJson::SteamDeck } else { DriverJson::SteamDeckAdvance },
            root: None,
        }
    }

    /// Bring power and clock limits within the limits of the GPU.
    pub fn clamp_all(&mut self)
        requires
            gpu_limits_ordered(old(self).limits),
        ensures
            final(self).fast_ppt == clamp_opt(old(self).fast_ppt, old(self).limits.fast_ppt.min, old(self).limits.fast_ppt.max),
            final(self).slow_ppt == clamp_opt(old(self).slow_ppt, old(self).limits.slow_ppt.min, old(self).limits.slow_ppt.max),
            final(self).clock_limits == match old(self).clock_limits {
                Some(cl) => Some(MinMax {
                    min: clamp_opt(cl.min, old(self).limits.clock_min.min, old(self).limits.clock_min.max),
                    max: clamp_opt(cl.max, old(self).limits.clock_max.min, old(self).limits.clock_max.max),
                }),
                None => None,
            },
            final(self).slow_memory == old(self).slow_memory,
            final(self).limits == old(self).limits,
            final(self).state == old(self).state,
            final(self).driver_mode == old(self).driver_mode,
            final(self).root == old(self).root,
    {
        self.fast_ppt = clamp_option(self.fast_ppt, self.limits.fast_ppt.min, self.limits.fast_ppt.max);
        self.slow_ppt = clamp_option(self.slow_ppt, self.limits.slow_ppt.min, self.limits.slow_ppt.max);
        if let Some(cl) = self.clock_limits {
            let min = clamp_option(cl.min, self.limits.clock_min.min, self.limits.clock_min.max);
            let max = clamp_option(cl.max, self.limits.clock_max.min, self.limits.clock_max.max);
            self.clock_limits = Some(MinMax { min, max });
        }
    }
}

impl TGpu for Gpu {
    open spec fn gpu_view(&self) -> GpuView {
        GpuView { fast_ppt: self.fast_ppt, slow_ppt: self.slow_ppt, clock_limits: self.clock_limits, slow_memory: self.slow_memory }
    }

    open spec fn provider_view(&self) -> DriverJson {
        self.driver_mode
    }

    open spec fn ppt_acceptable(&self, fast: Option<u64>, slow: Option<u64>) -> bool {
        scalable(fast, self.limits.ppt_divisor) && scalable(slow, self.limits.ppt_divisor)
    }

    open spec fn after_ppt(&self, fast: Option<u64>, slow: Option<u64>) -> GpuView {
        GpuView {
            fast_ppt: scaled_up(fast, self.limits.ppt_divisor),
            slow_ppt: scaled_up(slow, self.limits.ppt_divisor),
            clock_limits: self.clock_limits,
            slow_memory: self.slow_memory,
        }
    }

    open spec fn after_clock_limits(&self, limits: Option<MinMax<u64>>) -> GpuView {
        GpuView { fast_ppt: self.fast_ppt, slow_ppt: self.slow_ppt, clock_limits: limits, slow_memory: self.slow_memory }
    }

    open spec fn ppt_shown(&self) -> (Option<u64>, Option<u64>) {
        (scaled_down(self.fast_ppt, self.limits.ppt_divisor), scaled_down(self.slow_ppt, self.limits.ppt_divisor))
    }

    open spec fn gpu_wf(&self) -> bool {
        self.limits.ppt_divisor != 0
    }

    fn is_well_formed(&self) -> (r: bool) {
        self.limits.ppt_divisor != 0
    }

    fn accepts_ppt(&self, fast: Option<u64>, slow: Option<u64>) -> (r: bool) {
        let d = self.limits.ppt_divisor;
        let fast_ok = match fast { Some(x) => x.checked_mul(d).is_some(), None => true };
        let slow_ok = match slow { Some(x) => x.checked_mul(d).is_some(), None => true };
        fast_ok && slow_ok
    }

    open spec fn gpu_limits(&self) -> crate::api::GpuLimits {
        crate::api::GpuLimits {
            fast_ppt_limits: Some(RangeLimit {
                min: self.limits.fast_ppt.min / self.limits.ppt_divisor,
                max: self.limits.fast_ppt.max / self.limits.ppt_divisor,
            }),
            slow_ppt_limits: Some(RangeLimit {
                min: self.limits.slow_ppt.min / self.limits.ppt_divisor,
                max: self.limits.slow_ppt.max / self.limits.ppt_divisor,
            }),
            ppt_step: self.limits.ppt_step,
            tdp_limits: None,
            tdp_boost_limits: None,
            tdp_step: 42,
            clock_min_limits: Some(RangeLimit { min: self.limits.clock_min.min, max: self.limits.clock_min.max }),
            clock_max_limits: Some(RangeLimit { min: self.limits.clock_max.min, max: self.limits.clock_max.max }),
            clock_step: self.limits.clock_step,
            memory_control_capable: true,
        }
    }

    fn limits(&self) -> (r: crate::api::GpuLimits) {
        crate::api::GpuLimits {
            fast_ppt_limits: Some(RangeLimit {
                min: self.limits.fast_ppt.min / self.limits.ppt_divisor,
                max: self.limits.fast_ppt.max / self.limits.ppt_divisor,
            }),
            slow_ppt_limits: Some(RangeLimit {
                min: self.limits.slow_ppt.min / self.limits.ppt_divisor,
                max: self.limits.slow_ppt.max / self.limits.ppt_divisor,
            }),
            ppt_step: self.limits.ppt_step,
            tdp_limits: None,
            tdp_boost_limits: None,
            tdp_step: 42,
            clock_min_limits: Some(RangeLimit { min: self.limits.clock_min.min, max: self.limits.clock_min.max }),
            clock_max_limits: Some(RangeLimit { min: self.limits.clock_max.min, max: self.limits.clock_max.max }),
            clock_step: self.limits.clock_step,
            memory_control_capable: true,
        }
    }

    open spec fn persisted(&self) -> GpuJson {
        GpuJson {
            fast_ppt: self.fast_ppt,
            slow_ppt: self.slow_ppt,
            clock_limits: clock_limits_json(self.clock_limits),
            slow_memory: self.slow_memory,
            root: self.root,
        }
    }

    fn json(&self) -> (r: GpuJson) {
        GpuJson {
            fast_ppt: self.fast_ppt,
            slow_ppt: self.slow_ppt,
            clock_limits: match self.clock_limits {
                Some(x) => Some(min_max_to_json(x)),
                None => None,
            },
            slow_memory: self.slow_memory,
            root: match &self.root {
                Some(r) => Some(r.clone()),
                None => None,
            },
        }
    }

    /// Keeps everything else, the limits (with the scale divisor) among them, so the limits read
    /// back are those set.
    fn ppt(&mut self, fast: Option<u64>, slow: Option<u64>)
        ensures
            *final(self) == (Gpu {
                fast_ppt: scaled_up(fast, old(self).limits.ppt_divisor),
                slow_ppt: scaled_up(slow, old(self).limits.ppt_divisor),
                ..*old(self)
            }),
            final(self).limits == old(self).limits,
            final(self).ppt_shown() == (fast, slow),
    {
        self.fast_ppt = scale_up(fast, self.limits.ppt_divisor);
        self.slow_ppt = scale_up(slow, self.limits.ppt_divisor);
        proof {
            ppt_read_back(fast, self.limits.ppt_divisor);
            ppt_read_back(slow, self.limits.ppt_divisor);
        }
    }

    fn get_ppt(&self) -> (r: (Option<u64>, Option<u64>)) {
        (scale_down(self.fast_ppt, self.limits.ppt_divisor), scale_down(self.slow_ppt, self.limits.ppt_divisor))
    }

    fn clock_limits(&mut self, limits: Option<MinMax<u64>>)
        ensures
            *final(self) == (Gpu { clock_limits: limits, ..*old(self) }),
            final(self).limits == old(self).limits,
    {
        self.clock_limits = limits;
    }

    fn get_clock_limits(&self) -> (r: Option<&MinMax<u64>>) {
        self.clock_limits.as_ref()
    }

    fn set_slow_memory(&mut self, slow: bool)
        ensures
            *final(self) == (Gpu { slow_memory: slow, ..*old(self) }),
            final(self).limits == old(self).limits,
    {
        self.slow_memory = slow;
    }

    fn slow_memory(&self) -> (r: bool) {
        self.slow_memory
    }

    fn provider(&self) -> (r: DriverJson) {
        self.driver_mode
    }
}

/// Power limits set in the front-end's unit are read back unchanged.
pub proof fn ppt_read_back(v: Option<u64>, divisor: u64)
    requires
        divisor != 0,
        scalable(v, divisor),
    ensures
        scaled_down(scaled_up(v, divisor), divisor) == v,
{
    if let Some(x) = v {
        let xi = x as int;
        let di = divisor as int;
        assert((xi * di) / di == xi) by (nonlinear_arith)
            requires di > 0;
    }
}

/// A write the Steam Deck GPU driver makes to the system.
#[derive(Debug, Clone, Copy, PartialEq, Eq, Structural)]
pub enum GpuWrite {
    /// Write the fast power limit (µW) to `FAST_PPT_ATTRIBUTE`.
    FastPpt(u64),
    /// Write the slow power limit (µW) to `SLOW_PPT_ATTRIBUTE`.
    SlowPpt(u64),
    /// Bring the performance level in line with the manager: read it, then write what
    /// `PDFPLManager::enforce_level_action` gives for the manager as left by the step.
    EnforceLevel,
    /// Write 1 or 0 to `GPU_MEMORY_DOWNCLOCK_ATTRIBUTE`.
    SlowMemory(bool),
    /// Write `s 0 <MHz>` to `GPU_CLOCK_LIMITS_ATTRIBUTE`: the lowest clock.
    ClockMin(u64),
    /// Write `s 1 <MHz>` to `GPU_CLOCK_LIMITS_ATTRIBUTE`: the highest clock.
    ClockMax(u64),
    /// Write `c` to `GPU_CLOCK_LIMITS_ATTRIBUTE`: commit the clocks.
    Confirm,
}

/// Which way the clocks are being applied.
#[derive(Debug, Clone, Copy, PartialEq, Eq, Structural)]
pub enum ClockPlan {
    /// Nothing to do for the clocks.
    Untouched,
    /// Set clock limits, once manual control is in force.
    Apply,
    /// Restore the full clock range, once manual control is in force.
    Restore,
    /// Only bring the performance level back to automatic.
    AutoOnly,
}

/// The power limit writes: the set limits, or the defaults to undo limits set before.
pub open spec fn ppt_writes(g: Gpu) -> Seq<GpuWrite> {
    (match g.fast_ppt {
        Some(f) => seq![GpuWrite::FastPpt(f)],
        None => if g.state.fast_ppt_set { seq![GpuWrite::FastPpt(g.limits.fast_ppt_default)] } else { seq![] },
    }) + (match g.slow_ppt {
        Some(f) => seq![GpuWrite::SlowPpt(f)],
        None => if g.state.slow_ppt_set { seq![GpuWrite::SlowPpt(g.limits.slow_ppt_default)] } else { seq![] },
    })
}

/// The GPU's bit of a manager changed, the others kept.
pub open spec fn with_gpu_bit(before: PDFPLManager, after: PDFPLManager, manual: bool) -> bool {
    forall|k: u64| k < 64 ==> #[trigger] bit_of(after.bits, k) == if k == GPU_BIT { manual } else { bit_of(before.bits, k) }
}

/// The writes applying a set clock range: maximum, minimum (each when given), commit.
pub open spec fn clock_limit_writes(c: MinMax<u64>) -> Seq<GpuWrite> {
    (match c.max { Some(m) => seq![GpuWrite::ClockMax(m)], None => seq![] })
        + (match c.min { Some(m) => seq![GpuWrite::ClockMin(m)], None => seq![] })
        + seq![GpuWrite::Confirm]
}

fn push_ppt(out: &mut Vec<GpuWrite>, w: GpuWrite)
    ensures
        final(out)@ == old(out)@.push(w),
{
    out.push(w);
}

impl Gpu {
    /// The power limit writes, and the bookkeeping for them (first step of applying the GPU).
    pub fn set_ppts(&mut self) -> (r: Vec<GpuWrite>)
        ensures
            r@ == ppt_writes(*old(self)),
            final(self).state == (GpuState {
                fast_ppt_set: old(self).fast_ppt is Some,
                slow_ppt_set: old(self).slow_ppt is Some,
                ..old(self).state
            }),
            final(self).fast_ppt == old(self).fast_ppt && final(self).slow_ppt == old(self).slow_ppt,
            final(self).clock_limits == old(self).clock_limits && final(self).slow_memory == old(self).slow_memory,
            final(self).limits == old(self).limits,
    {
        let ghost g = *self;
        let mut writes: Vec<GpuWrite> = Vec::new();
        match self.fast_ppt {
            Some(f) => {
                self.state.fast_ppt_set = true;
                push_ppt(&mut writes, GpuWrite::FastPpt(f));
            },
            None => if self.state.fast_ppt_set {
                self.state.fast_ppt_set = false;
                push_ppt(&mut writes, GpuWrite::FastPpt(self.limits.fast_ppt_default));
            },
        }
        let ghost mid = writes@;
        match self.slow_ppt {
            Some(f) => {
                self.state.slow_ppt_set = true;
                push_ppt(&mut writes, GpuWrite::SlowPpt(f));
            },
            None => if self.state.slow_ppt_set {
                self.state.slow_ppt_set = false;
                push_ppt(&mut writes, GpuWrite::SlowPpt(self.limits.slow_ppt_default));
            },
        }
        assert(writes@ =~= ppt_writes(g));
        writes
    }

    /// The memory downclock and performance level writes (second step): with slow memory, the
    /// GPU asks for manual control and downclocks; otherwise, while anybody asks for manual
    /// control, the memory clock is restored and the GPU asks for it only if clock limits are set.
    pub fn force_level_start(&self, mgr: &mut PDFPLManager) -> (r: Vec<GpuWrite>)
        ensures
            self.slow_memory ==> {
                &&& r@ == seq![GpuWrite::EnforceLevel, GpuWrite::SlowMemory(true)]
                &&& with_gpu_bit(*old(mgr), *final(mgr), true)
            },
            !self.slow_memory && old(mgr).bits != 0 ==> {
                &&& r@ == seq![GpuWrite::SlowMemory(false), GpuWrite::EnforceLevel]
                &&& with_gpu_bit(*old(mgr), *final(mgr), self.clock_limits is Some)
            },
            !self.slow_memory && old(mgr).bits == 0 ==> r@.len() == 0 && *final(mgr) == *old(mgr),
    {
        if self.slow_memory {
            mgr.set_gpu(true);
            let v = vec![GpuWrite::EnforceLevel, GpuWrite::SlowMemory(true)];
            v
        } else if mgr.needs_manual() {
            mgr.set_gpu(self.clock_limits.is_some());
            let v = vec![GpuWrite::SlowMemory(false), GpuWrite::EnforceLevel];
            v
        } else {
            Vec::new()
        }
    }

    /// The clock step (third step): which way the clocks go, and the level enforcement it needs
    /// first. The bookkeeping of set clock limits is cleared when they are undone.
    pub fn set_clocks_start(&mut self, mgr: &mut PDFPLManager) -> (r: (ClockPlan, Vec<GpuWrite>))
        ensures
            old(self).clock_limits is Some ==> {
                &&& r.0 == ClockPlan::Apply
                &&& r.1@ == seq![GpuWrite::EnforceLevel]
                &&& with_gpu_bit(*old(mgr), *final(mgr), true)
                &&& final(self).state == old(self).state
            },
            old(self).clock_limits is None ==> if old(self).state.clock_limits_set
                || (old(self).state.is_resuming && !old(self).limits.skip_resume_reclock) || old(mgr).bits != 0 {
                &&& with_gpu_bit(*old(mgr), *final(mgr), old(self).slow_memory)
                &&& r.0 == (if final(mgr).bits != 0 { ClockPlan::Restore } else { ClockPlan::AutoOnly })
                &&& r.1@ == seq![GpuWrite::EnforceLevel]
                &&& final(self).state == (GpuState { clock_limits_set: false, ..old(self).state })
            } else {
                &&& r.0 == ClockPlan::Untouched
                &&& r.1@.len() == 0
                &&& *final(mgr) == *old(mgr)
                &&& final(self).state == old(self).state
            },
            final(self).fast_ppt == old(self).fast_ppt && final(self).slow_ppt == old(self).slow_ppt,
            final(self).clock_limits == old(self).clock_limits && final(self).slow_memory == old(self).slow_memory,
            final(self).limits == old(self).limits,
    {
        if self.clock_limits.is_some() {
            mgr.set_gpu(true);
            let v = vec![GpuWrite::EnforceLevel];
            (ClockPlan::Apply, v)
        } else if self.state.clock_limits_set || (self.state.is_resuming && !self.limits.skip_resume_reclock)
            || mgr.needs_manual() {
            self.state.clock_limits_set = false;
            mgr.set_gpu(self.slow_memory);
            let v = vec![GpuWrite::EnforceLevel];
            if mgr.needs_manual() {
                (ClockPlan::Restore, v)
            } else {
                (ClockPlan::AutoOnly, v)
            }
        } else {
            (ClockPlan::Untouched, Vec::new())
        }
    }

    /// The clock writes once the level enforcement of the clock step is done (fourth step):
    /// nothing when it failed; otherwise the set limits (noting that they are set), or the full
    /// range of the limits.
    pub fn set_clocks_finish(&mut self, plan: ClockPlan, enforced: bool) -> (r: Vec<GpuWrite>)
        ensures
            r@ == if !enforced {
                seq![]
            } else {
                match plan {
                    ClockPlan::Apply => match old(self).clock_limits {
                        Some(c) => clock_limit_writes(c),
                        None => seq![],
                    },
                    ClockPlan::Restore => seq![
                        GpuWrite::ClockMax(old(self).limits.clock_max.max),
                        GpuWrite::ClockMin(old(self).limits.clock_min.min),
                        GpuWrite::Confirm,
                    ],
                    _ => seq![],
                }
            },
            final(self).state == if enforced && plan == ClockPlan::Apply && old(self).clock_limits is Some {
                GpuState { clock_limits_set: true, ..old(self).state }
            } else {
                old(self).state
            },
            final(self).fast_ppt == old(self).fast_ppt && final(self).slow_ppt == old(self).slow_ppt,
            final(self).clock_limits == old(self).clock_limits && final(self).slow_memory == old(self).slow_memory,
            final(self).limits == old(self).limits,
    {
        let mut writes: Vec<GpuWrite> = Vec::new();
        if !enforced {
            return writes;
        }
        match plan {
            ClockPlan::Apply => {
                if let Some(c) = self.clock_limits {
                    self.state.clock_limits_set = true;
                    if let Some(m) = c.max {
                        writes.push(GpuWrite::ClockMax(m));
                    }
                    let ghost a = writes@;
                    if let Some(m) = c.min {
                        writes.push(GpuWrite::ClockMin(m));
                    }
                    writes.push(GpuWrite::Confirm);
                    assert(writes@ =~= clock_limit_writes(c));
                }
            },
            ClockPlan::Restore => {
                writes.push(GpuWrite::ClockMax(self.limits.clock_max.max));
                writes.push(GpuWrite::ClockMin(self.limits.clock_min.min));
                writes.push(GpuWrite::Confirm);
            },
            _ => {},
        }
        writes
    }

    /// The final commit (last step): only when no write of the level, memory or clock steps
    /// failed, and slow memory or clock limits are set.
    pub fn force_level_finish(&self, failed: bool) -> (r: Vec<GpuWrite>)
        ensures
            r@ == if !failed && (self.slow_memory || self.clock_limits is Some) { seq![GpuWrite::Confirm] } else { seq![] },
    {
        if !failed && (self.slow_memory || self.clock_limits.is_some()) {
            let v = vec![GpuWrite::Confirm];
            v
        } else {
            Vec::new()
        }
    }

    /// A copy marked as resuming, to re-apply the settings after a resume without touching the
    /// bookkeeping of this GPU.
    pub fn resuming_copy(&self) -> (r: Self)
        ensures
            r == (Gpu { state: GpuState { is_resuming: true, ..self.state }, ..*self }),
    {
        Gpu {
            fast_ppt: self.fast_ppt,
            slow_ppt: self.slow_ppt,
            clock_limits: self.clock_limits,
            slow_memory: self.slow_memory,
            limits: self.limits,
            state: GpuState { is_resuming: true, ..self.state },
            driver_mode: self.driver_mode,
            root: match &self.root {
                Some(r) => Some(r.clone()),
                None => None,
            },
        }
    }
}

} // verus!
