//! Limits of the Steam Deck, which users may widen with a `pt_oc.json` file.

use vstd::prelude::*;

use crate::api::RangeLimit as MinMax;

verus! {

/// File (in the settings directory) holding widened Steam Deck limits.
pub const OC_LIMITS_FILEPATH: &'static str = "pt_oc.json";

/// All Steam Deck limits.
#[derive(Debug, Clone)]
pub struct OverclockLimits {
    pub battery: BatteryLimits,
    pub cpus: CpusLimits,
    pub gpu: GpuLimits,
}

/// Battery limits of the Steam Deck.
#[derive(Debug, Clone, Copy)]
pub struct BatteryLimits {
    pub charge_rate: MinMax<u64>,
    pub extra_readouts: bool,
}

/// CPU limits of the Steam Deck.
#[derive(Debug)]
pub struct CpusLimits {
    pub cpus: Vec<CpuLimits>,
    pub global_governors: bool,
}

impl CpusLimits {
    /// Whether two sets of CPU limits hold the same limits.
    pub open spec fn same(self, other: CpusLimits) -> bool {
        self.cpus@ == other.cpus@ && self.global_governors == other.global_governors
    }
}

impl Clone for CpusLimits {
    fn clone(&self) -> (r: Self)
        ensures
            r.same(*self),
    {
        let cpus = self.cpus.clone();
        assert(cpus@ =~= self.cpus@);
        CpusLimits { cpus, global_governors: self.global_governors }
    }
}

/// Limits of one Steam Deck CPU.
#[derive(Debug, Clone, Copy)]
pub struct CpuLimits {
    pub clock_min: MinMax<u64>,
    pub clock_max: MinMax<u64>,
    pub clock_step: u64,
    pub skip_resume_reclock: bool,
}

/// GPU limits of the Steam Deck.
#[derive(Debug, Clone, Copy)]
pub struct GpuLimits {
    pub fast_ppt: MinMax<u64>,
    pub fast_ppt_default: u64,
    pub slow_ppt: MinMax<u64>,
    pub slow_ppt_default: u64,
    pub ppt_divisor: u64,
    pub ppt_step: u64,
    pub clock_min: MinMax<u64>,
    pub clock_max: MinMax<u64>,
    pub clock_step: u64,
    pub skip_resume_reclock: bool,
}

/// The stock battery limits.
pub open spec fn default_battery_limits() -> BatteryLimits {
    BatteryLimits { charge_rate: MinMax { min: 250, max: 2500 }, extra_readouts: false }
}

/// The stock limits of one CPU.
pub open spec fn default_cpu_limits() -> CpuLimits {
    CpuLimits {
        clock_min: MinMax { min: 1400, max: 3500 },
        clock_max: MinMax { min: 400, max: 3500 },
        clock_step: 100,
        skip_resume_reclock: false,
    }
}

/// The stock GPU limits.
pub open spec fn default_gpu_limits() -> GpuLimits {
    GpuLimits {
        fast_ppt: MinMax { min: 1000000, max: 30_000_000 },
        fast_ppt_default: 15_000_000,
        slow_ppt: MinMax { min: 1000000, max: 29_000_000 },
        slow_ppt_default: 15_000_000,
        ppt_divisor: 1_000_000,
        ppt_step: 1,
        clock_min: MinMax { min: 400, max: 1600 },
        clock_max: MinMax { min: 400, max: 1600 },
        clock_step: 100,
        skip_resume_reclock: false,
    }
}

impl Default for BatteryLimits {
    fn default() -> (r: Self)
        ensures
            r == default_battery_limits(),
    {
        BatteryLimits { charge_rate: MinMax { min: 250, max: 2500 }, extra_readouts: false }
    }
}

impl Default for CpuLimits {
    fn default() -> (r: Self)
        ensures
            r == default_cpu_limits(),
    {
        CpuLimits {
            clock_min: MinMax { min: 1400, max: 3500 },
            clock_max: MinMax { min: 400, max: 3500 },
            clock_step: 100,
            skip_resume_reclock: false,
        }
    }
}

impl Default for CpusLimits {
    fn default() -> (r: Self)
        ensures
            r.cpus@.len() == 8,
            forall|i: int| 0 <= i < 8 ==> #[trigger] r.cpus@[i] == default_cpu_limits(),
            r.global_governors,
    {
        let mut cpus: Vec<CpuLimits> = Vec::with_capacity(8);
        let mut i: usize = 0;
        while i < 8
            invariant
                i <= 8,
                cpus@.len() == i,
                forall|j: int| 0 <= j < i ==> #[trigger] cpus@[j] == default_cpu_limits(),
            decreases 8 - i,
        {
            cpus.push(CpuLimits::default());
            i = i + 1;
        }
        CpusLimits { cpus, global_governors: true }
    }
}

impl Default for GpuLimits {
    fn default() -> (r: Self)
        ensures
            r == default_gpu_limits(),
    {
        GpuLimits {
            fast_ppt: MinMax { min: 1000000, max: 30_000_000 },
            fast_ppt_default: 15_000_000,
            slow_ppt: MinMax { min: 1000000, max: 29_000_000 },
            slow_ppt_default: 15_000_000,
            ppt_divisor: 1_000_000,
            ppt_step: 1,
            clock_min: MinMax { min: 400, max: 1600 },
            clock_max: MinMax { min: 400, max: 1600 },
            clock_step: 100,
            skip_resume_reclock: false,
        }
    }
}

/// Whether limits are the stock ones.
pub open spec fn is_stock(l: OverclockLimits) -> bool {
    &&& l.battery == default_battery_limits()
    &&& l.cpus.cpus@.len() == 8
    &&& forall|i: int| 0 <= i < 8 ==> #[trigger] l.cpus.cpus@[i] == default_cpu_limits()
    &&& l.cpus.global_governors
    &&& l.gpu == default_gpu_limits()
}

impl Default for OverclockLimits {
    fn default() -> (r: Self)
        ensures
            is_stock(r),
    {
        OverclockLimits { battery: BatteryLimits::default(), cpus: CpusLimits::default(), gpu: GpuLimits::default() }
    }
}

impl OverclockLimits {
    /// The limits to use, given those loaded from the limits file (if it was found and valid),
    /// and whether they are the stock ones.
    pub fn load_or_default(loaded: Option<OverclockLimits>) -> (r: (Self, bool))
        ensures
            match loaded {
                Some(l) => r.0 == l && !r.1,
                None => is_stock(r.0) && r.1,
            },
    {
        match loaded {
            Some(l) => (l, false),
            None => (OverclockLimits::default(), true),
        }
    }
}

/// Where the Steam Deck limits file is, given the settings directory.
pub fn oc_limits_filepath(settings_dir: &str) -> (r: String)
    ensures
        r@ == crate::settings::util::joined(settings_dir@, OC_LIMITS_FILEPATH@),
{
    crate::settings::util::join_path(settings_dir, OC_LIMITS_FILEPATH)
}

} // verus!
