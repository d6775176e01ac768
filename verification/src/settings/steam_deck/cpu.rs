//! Steam Deck CPUs: online state, governor and per-core clock limits.

use vstd::prelude::*;

use super::oc_limits::{default_cpu_limits, CpuLimits, CpusLimits};
use crate::api::{CpuLimitsView, CpusLimitsView, RangeLimit};
use crate::persist::{CpuJson, DriverJson};
use crate::settings::min_max::{min_max_from_json, min_max_to_json};
use crate::settings::state::{fresh_cpu_state, CpuState};
use crate::settings::system::SystemFacts;
use crate::settings::traits::{with_clock_limits, with_governor, with_online};
use crate::settings::util::{clamp, guess_smt, json_onlines, pairs_agree, spec_clamp};
use crate::settings::{CpuView, MinMax, TCpu, TCpus};

verus! {

/// The Steam Deck CPUs.
#[derive(Debug)]
pub struct Cpus {
    pub cpus: Vec<Cpu>,
    pub smt: bool,
    pub smt_capable: bool,
    pub limits: CpusLimits,
    pub driver_mode: DriverJson,
}

/// One Steam Deck CPU.
#[derive(Debug)]
pub struct Cpu {
    pub online: bool,
    pub clock_limits: Option<MinMax<u64>>,
    pub governor: String,
    pub limits: CpuLimits,
    pub index: usize,
    pub state: CpuState,
}

/// The limits of CPU `i`: those given for it, or the stock ones.
pub open spec fn cpu_limits_at(l: CpusLimits, i: int) -> CpuLimits {
    if 0 <= i < l.cpus@.len() {
        l.cpus@[i]
    } else {
        default_cpu_limits()
    }
}

/// The clock limits of a persisted CPU.
pub open spec fn json_clock_limits(j: CpuJson) -> Option<MinMax<u64>> {
    match j.clock_limits {
        Some(x) => Some(MinMax { max: x.max, min: x.min }),
        None => None,
    }
}

/// `c` is the persisted CPU `j` as CPU `i` with limits `l`.
pub open spec fn is_json_cpu(c: Cpu, j: CpuJson, i: int, l: CpuLimits) -> bool {
    &&& c.online == j.online
    &&& c.clock_limits == json_clock_limits(j)
    &&& c.governor == j.governor
    &&& c.limits == l
    &&& c.index == i
    &&& c.state == fresh_cpu_state()
}

/// `c` is CPU `i` with limits `l` as found on the system.
pub open spec fn is_system_cpu(c: Cpu, i: int, l: CpuLimits) -> bool {
    &&& c.online
    &&& c.clock_limits is None
    &&& c.governor@ == "schedutil"@
    &&& c.limits == l
    &&& c.index == i
    &&& c.state == fresh_cpu_state()
}

/// A clock value brought within a range, when there is one.
pub open spec fn clamp_opt(v: Option<u64>, r: RangeLimit<u64>) -> Option<u64> {
    match v {
        Some(x) => Some(spec_clamp(x, r.min, r.max)),
        None => None,
    }
}

/// The clock limits of a CPU brought within its limits.
pub open spec fn clamped_clock_limits(c: Cpu) -> Option<MinMax<u64>> {
    match c.clock_limits {
        Some(cl) => Some(MinMax { min: clamp_opt(cl.min, c.limits.clock_min), max: clamp_opt(cl.max, c.limits.clock_max) }),
        None => None,
    }
}

/// Whether the limits of a CPU are usable ranges.
pub open spec fn cpu_limits_ordered(l: CpuLimits) -> bool {
    l.clock_min.min <= l.clock_min.max && l.clock_max.min <= l.clock_max.max
}

fn cpu_limits_or_default(l: &CpusLimits, i: usize) -> (r: CpuLimits)
    ensures
        r == cpu_limits_at(*l, i as int),
{
    if i < l.cpus.len() {
        l.cpus[i]
    } else {
        CpuLimits::default()
    }
}

impl Cpu {
    /// Read persisted CPU `i`.
    pub fn from_json(other: CpuJson, version: u64, i: usize, oc_limits: CpuLimits) -> (r: Self)
        ensures
            is_json_cpu(r, other, i as int, oc_limits),
    {
        let clock_limits = match other.clock_limits {
            Some(x) => Some(min_max_from_json(x, version)),
            None => None,
        };
        Cpu {
            online: other.online,
            clock_limits,
            governor: other.governor,
            limits: oc_limits,
            index: i,
            state: CpuState::default(),
        }
    }

    /// CPU `i` as found on the system: online, no clock limits, `schedutil` governor.
    pub fn system_default(cpu_index: usize, oc_limits: CpuLimits) -> (r: Self)
        ensures
            is_system_cpu(r, cpu_index as int, oc_limits),
    {
        Cpu {
            online: true,
            clock_limits: None,
            governor: String::from_str("schedutil"),
            limits: oc_limits,
            index: cpu_index,
            state: CpuState::default(),
        }
    }

    /// Bring the clock limits within the limits of this CPU.
    pub fn clamp_all(&mut self)
        requires
            cpu_limits_ordered(old(self).limits),
        ensures
            final(self).clock_limits == clamped_clock_limits(*old(self)),
            final(self).online == old(self).online,
            final(self).governor == old(self).governor,
            final(self).limits == old(self).limits,
            final(self).index == old(self).index,
            final(self).state == old(self).state,
    {
        if let Some(clock_limits) = self.clock_limits {
            let min = match clock_limits.min {
                Some(m) => Some(clamp(m, self.limits.clock_min.min, self.limits.clock_min.max)),
                None => None,
            };
            let max = match clock_limits.max {
                Some(m) => Some(clamp(m, self.limits.clock_max.min, self.limits.clock_max.max)),
                None => None,
            };
            self.clock_limits = Some(MinMax { min, max });
        }
    }

    /// The limits shown for this CPU when it offers `governors`. The lowest minimum clock is
    /// that of the maximum clock range (the kernel allows it).
    pub open spec fn limits_shown(&self, governors: Seq<Seq<char>>) -> CpuLimitsView {
        CpuLimitsView {
            clock_min_limits: Some(RangeLimit { min: self.limits.clock_max.min, max: self.limits.clock_min.max }),
            clock_max_limits: Some(RangeLimit { min: self.limits.clock_max.min, max: self.limits.clock_max.max }),
            clock_step: self.limits.clock_step,
            governors,
        }
    }

    /// The limits of this CPU as shown to the front-end, with the governors it offers.
    pub fn limits(&self, governors: Vec<String>) -> (r: crate::api::CpuLimits)
        ensures
            r@ == self.limits_shown(governors.deep_view()),
            r.clock_min_limits == Some(RangeLimit { min: self.limits.clock_max.min, max: self.limits.clock_min.max }),
            r.clock_max_limits == Some(RangeLimit { min: self.limits.clock_max.min, max: self.limits.clock_max.max }),
            r.clock_step == self.limits.clock_step,
            r.governors == governors,
    {
        crate::api::CpuLimits {
            clock_min_limits: Some(RangeLimit { min: self.limits.clock_max.min, max: self.limits.clock_min.max }),
            clock_max_limits: Some(RangeLimit { min: self.limits.clock_max.min, max: self.limits.clock_max.max }),
            clock_step: self.limits.clock_step,
            governors,
        }
    }

    /// The persisted form of this CPU.
    pub fn json(&self) -> (r: CpuJson)
        ensures
            r.online == self.online,
            json_clock_limits(r) == self.clock_limits,
            r.governor@ == self.governor@,
    {
        CpuJson {
            online: self.online,
            clock_limits: match self.clock_limits {
                Some(x) => Some(min_max_to_json(x)),
                None => None,
            },
            governor: self.governor.clone(),
        }
    }
}

impl TCpu for Cpu {
    open spec fn cpu_view(&self) -> CpuView {
        CpuView { online: self.online, governor: self.governor@, clock_limits: self.clock_limits, takes_clock_limits: true }
    }

    fn online(&self) -> (r: bool) {
        self.online
    }

    fn set_online(&mut self, online: bool) {
        self.online = online;
    }

    fn governor(&mut self, governor: String) {
        self.governor = governor;
    }

    fn get_governor(&self) -> (r: &str) {
        self.governor.as_str()
    }

    fn clock_limits(&mut self, limits: Option<MinMax<u64>>) {
        self.clock_limits = limits;
    }

    fn get_clock_limits(&self) -> (r: Option<&MinMax<u64>>) {
        self.clock_limits.as_ref()
    }
}

/// The number of persisted CPUs that are kept: all of them, up to the number of CPUs present.
pub open spec fn kept_cpus(n_json: int, cpu_count: Option<usize>) -> int {
    match cpu_count {
        Some(m) => if n_json < m { n_json } else { m as int },
        None => n_json,
    }
}

/// Persisted CPUs can be read when there are an even number of them (pairs of sibling threads)
/// and at most one fewer than the CPUs present.
pub open spec fn json_cpus_readable(n_json: int, cpu_count: Option<usize>) -> bool {
    &&& n_json % 2 == 0
    &&& cpu_count matches Some(m) ==> n_json + 1 >= m
}

impl Cpus {
    /// Whether these are the CPUs as found on the system, with the Steam Deck limits in force.
    pub open spec fn is_system_default(&self, facts: SystemFacts) -> bool {
        &&& self.cpus@.len() == match facts.cpu_count { Some(m) => m as int, None => 0 }
        &&& forall|i: int| 0 <= i < self.cpus@.len() ==> is_system_cpu(#[trigger] self.cpus@[i], i, cpu_limits_at(facts.oc_limits.cpus, i))
        &&& self.smt == facts.cpu_count is Some
        &&& self.smt_capable == (facts.cpu_count is Some && facts.smt_capable)
        &&& self.limits.same(facts.oc_limits.cpus)
        &&& self.driver_mode == super::battery::deck_driver(facts.oc_is_default)
    }

    /// Whether these are the persisted CPUs `other` as read on this system: those beyond the CPUs
    /// present dropped, a missing last one as found on the system, SMT guessed from the persisted
    /// online states.
    pub open spec fn is_from_json(&self, other: Seq<CpuJson>, facts: SystemFacts) -> bool {
        let kept = kept_cpus(other.len() as int, facts.cpu_count);
        &&& self.cpus@.len() == match facts.cpu_count { Some(m) => m as int, None => kept }
        &&& forall|i: int| 0 <= i < kept ==> is_json_cpu(#[trigger] self.cpus@[i], other[i], i, cpu_limits_at(facts.oc_limits.cpus, i))
        &&& forall|i: int| kept <= i < self.cpus@.len() ==> is_system_cpu(#[trigger] self.cpus@[i], i, cpu_limits_at(facts.oc_limits.cpus, i))
        &&& self.smt == (pairs_agree(json_onlines(other)) && facts.smt_capable)
        &&& self.smt_capable == facts.smt_capable
        &&& self.limits.same(facts.oc_limits.cpus)
        &&& self.driver_mode == super::battery::deck_driver(facts.oc_is_default)
    }

    /// The CPUs as found on the system, with the Steam Deck limits in force.
    pub fn system_default(facts: &SystemFacts) -> (r: Self)
        ensures
            r.is_system_default(*facts),
    {
        let oc_limits = facts.oc_limits.cpus.clone();
        let driver = if facts.oc_is_default { DriverJson::SteamDeck } else { DriverJson::SteamDeckAdvance };
        if let Some(max_cpu) = facts.cpu_count {
            let mut sys_cpus: Vec<Cpu> = Vec::with_capacity(max_cpu);
            let mut i: usize = 0;
            while i < max_cpu
                invariant
                    i <= max_cpu,
                    oc_limits.same(facts.oc_limits.cpus),
                    sys_cpus@.len() == i,
                    forall|j: int| 0 <= j < i ==> is_system_cpu(#[trigger] sys_cpus@[j], j, cpu_limits_at(facts.oc_limits.cpus, j)),
                decreases max_cpu - i,
            {
                sys_cpus.push(Cpu::system_default(i, cpu_limits_or_default(&oc_limits, i)));
                i = i + 1;
            }
            Cpus { cpus: sys_cpus, smt: true, smt_capable: facts.smt_capable, limits: oc_limits, driver_mode: driver }
        } else {
            Cpus { cpus: Vec::new(), smt: false, smt_capable: false, limits: oc_limits, driver_mode: driver }
        }
    }

    /// Read persisted CPUs: those beyond the CPUs present are dropped, and a missing last one is
    /// taken as found on the system. SMT is guessed from the persisted online states.
    pub fn from_json(other: Vec<CpuJson>, version: u64, facts: &SystemFacts) -> (r: Self)
        requires
            json_cpus_readable(other@.len() as int, facts.cpu_count),
        ensures
            r.is_from_json(other@, *facts),
    {
        let oc_limits = facts.oc_limits.cpus.clone();
        let driver = if facts.oc_is_default { DriverJson::SteamDeck } else { DriverJson::SteamDeckAdvance };
        let can_smt = facts.smt_capable;
        let smt_guess = guess_smt(&other) && can_smt;
        let max_cpus = facts.cpu_count;
        let n_json = other.len();
        let ghost json = other@;
        let mut rest = other;
        let mut result: Vec<Cpu> = Vec::with_capacity(n_json);
        let mut i: usize = 0;
        // take the persisted CPUs from the back, so that each is moved out once
        let kept: usize = match max_cpus {
            Some(m) => if n_json < m { n_json } else { m },
            None => n_json,
        };
        rest.truncate(kept);
        let mut taken: Vec<Cpu> = Vec::with_capacity(kept);
        let mut k: usize = kept;
        while k > 0
            invariant
                kept as int == kept_cpus(json.len() as int, max_cpus),
                k <= kept <= json.len(),
                rest@ == json.take(k as int),
                taken@.len() == kept - k,
                oc_limits.same(facts.oc_limits.cpus),
                forall|j: int| 0 <= j < kept - k ==> is_json_cpu(#[trigger] taken@[j], json[kept - 1 - j], kept - 1 - j, cpu_limits_at(facts.oc_limits.cpus, kept - 1 - j)),
            decreases k,
        {
            let cpu = rest.pop().unwrap();
            k = k - 1;
            assert(cpu == json[k as int]);
            taken.push(Cpu::from_json(cpu, version, k, cpu_limits_or_default(&oc_limits, k)));
            assert(rest@ =~= json.take(k as int));
        }
        while i < kept
            invariant
                i <= kept,
                taken@.len() == kept - i,
                result@.len() == i,
                oc_limits.same(facts.oc_limits.cpus),
                forall|j: int| 0 <= j < kept - i ==> is_json_cpu(#[trigger] taken@[j], json[kept - 1 - j], kept - 1 - j, cpu_limits_at(facts.oc_limits.cpus, kept - 1 - j)),
                forall|j: int| 0 <= j < i ==> is_json_cpu(#[trigger] result@[j], json[j], j, cpu_limits_at(facts.oc_limits.cpus, j)),
            decreases kept - i,
        {
            let cpu = taken.pop().unwrap();
            result.push(cpu);
            i = i + 1;
        }
        if let Some(max_cpus) = max_cpus {
            if result.len() != max_cpus {
                result.push(Cpu::system_default(kept, cpu_limits_or_default(&oc_limits, kept)));
            }
        }
        Cpus { cpus: result, smt: smt_guess, smt_capable: can_smt, limits: oc_limits, driver_mode: driver }
    }

    /// The limits shown for all CPUs when CPU `i` offers `governors[i]`; the first CPU's are also
    /// offered for all CPUs when the limits say so.
    pub open spec fn limits_shown(&self, governors: Seq<Seq<Seq<char>>>) -> CpusLimitsView {
        CpusLimitsView {
            cpus: Seq::new(self.cpus@.len(), |i: int| self.cpus@[i].limits_shown(governors[i])),
            count: self.cpus@.len() as usize,
            smt_capable: self.smt_capable,
            governors: if self.limits.global_governors && self.cpus@.len() > 0 { governors[0] } else { Seq::empty() },
        }
    }

    /// The limits of all CPUs as shown to the front-end; `governors[i]` are the governors CPU `i`
    /// offers.
    pub fn limits(&self, governors: Vec<Vec<String>>) -> (r: crate::api::CpusLimits)
        requires
            governors@.len() == self.cpus@.len(),
        ensures
            r@ == self.limits_shown(governors.deep_view()),
            r.cpus@.len() == self.cpus@.len(),
            r.count == self.cpus@.len(),
            r.smt_capable == self.smt_capable,
            r.governors@ == if self.limits.global_governors && self.cpus@.len() > 0 { governors@[0]@ } else { Seq::<String>::empty() },
    {
        let global: Vec<String> = if self.limits.global_governors && self.cpus.len() > 0 {
            governors[0].clone()
        } else {
            Vec::new()
        };
        let mut cpus: Vec<crate::api::CpuLimits> = Vec::with_capacity(self.cpus.len());
        let mut govs = governors;
        let mut i: usize = 0;
        while i < self.cpus.len()
            invariant
                cpus@.len() == i,
                i <= self.cpus@.len(),
                govs@.len() == self.cpus@.len(),
                govs.deep_view() == governors.deep_view(),
                forall|j: int| 0 <= j < i ==> #[trigger] cpus@[j]@ == self.cpus@[j].limits_shown(governors.deep_view()[j]),
            decreases self.cpus@.len() - i,
        {
            let g = govs[i].clone();
            assert(g.deep_view() =~= governors.deep_view()[i as int]);
            cpus.push(self.cpus[i].limits(g));
            i = i + 1;
        }
        let r = crate::api::CpusLimits { cpus, count: self.cpus.len(), smt_capable: self.smt_capable, governors: global };
        assert(r@.cpus =~= self.limits_shown(governors.deep_view()).cpus);
        assert(r@.governors =~= self.limits_shown(governors.deep_view()).governors);
        r
    }

    /// The persisted form of all CPUs.
    pub fn json(&self) -> (r: Vec<CpuJson>)
        ensures
            r@.len() == self.cpus@.len(),
            forall|i: int| 0 <= i < r@.len() ==> {
                &&& #[trigger] r@[i].online == self.cpus@[i].online
                &&& json_clock_limits(r@[i]) == self.cpus@[i].clock_limits
                &&& r@[i].governor@ == self.cpus@[i].governor@
            },
    {
        let mut out: Vec<CpuJson> = Vec::with_capacity(self.cpus.len());
        let mut i: usize = 0;
        while i < self.cpus.len()
            invariant
                out@.len() == i,
                i <= self.cpus@.len(),
                forall|j: int| 0 <= j < i ==> {
                    &&& #[trigger] out@[j].online == self.cpus@[j].online
                    &&& json_clock_limits(out@[j]) == self.cpus@[j].clock_limits
                    &&& out@[j].governor@ == self.cpus@[j].governor@
                },
            decreases self.cpus@.len() - i,
        {
            out.push(self.cpus[i].json());
            i = i + 1;
        }
        out
    }
}

impl TCpus for Cpus {
    open spec fn cpus_view(&self) -> Seq<CpuView> {
        self.cpus@.map_values(|c: Cpu| c.cpu_view())
    }

    open spec fn smt_view(&self) -> bool {
        self.smt
    }

    open spec fn provider_view(&self) -> DriverJson {
        self.driver_mode
    }

    fn len(&self) -> (n: usize) {
        self.cpus.len()
    }

    fn smt(&self) -> (r: bool) {
        self.smt
    }

    fn set_smt(&mut self, smt: bool) {
        self.smt = smt;
    }

    fn cpu_online(&self, index: usize) -> (r: bool) {
        self.cpus[index].online()
    }

    fn set_cpu_online(&mut self, index: usize, online: bool) {
        self.cpus[index].set_online(online);
        assert(self.cpus_view() =~= old(self).cpus_view().update(
            index as int,
            with_online(old(self).cpus_view()[index as int], online),
        ));
    }

    fn set_cpu_governor(&mut self, index: usize, governor: String) {
        let ghost g = governor@;
        self.cpus[index].governor(governor);
        assert(self.cpus_view() =~= old(self).cpus_view().update(
            index as int,
            with_governor(old(self).cpus_view()[index as int], g),
        ));
    }

    fn cpu_governor(&self, index: usize) -> (r: &str) {
        self.cpus[index].get_governor()
    }

    fn set_cpu_clock_limits(&mut self, index: usize, limits: Option<MinMax<u64>>) {
        self.cpus[index].clock_limits(limits);
        assert(self.cpus_view() =~= old(self).cpus_view().update(
            index as int,
            with_clock_limits(old(self).cpus_view()[index as int], limits),
        ));
    }

    fn cpu_clock_limits(&self, index: usize) -> (r: Option<MinMax<u64>>) {
        self.cpus[index].clock_limits
    }

    fn provider(&self) -> (r: DriverJson) {
        self.driver_mode
    }
}

/// The file that sets the clock limits (`p <core> <0|1> <MHz>`, then `c` to commit).
pub const CPU_CLOCK_LIMITS_PATH: &'static str = "/sys/class/drm/card0/device/pp_od_clk_voltage";

/// The file that switches the performance level (`manual` for manual clocks).
pub const CPU_FORCE_LIMITS_PATH: &'static str = "/sys/class/drm/card0/device/power_dpm_force_performance_level";

/// A write the Steam Deck CPU driver makes to the system.
#[derive(Debug)]
pub enum CpuWrite {
    /// Write `on` or `off` to the SMT control file.
    Smt(bool),
    /// Write `value` (0 or 1) to the online file of CPU `index`.
    Online { index: usize, value: u8 },
    /// Write `manual` to `CPU_FORCE_LIMITS_PATH`.
    ForceManualLevel,
    /// Write `p <core> 1 <mhz>` to `CPU_CLOCK_LIMITS_PATH`: the highest clock of a core.
    ClockMax { core: usize, mhz: u64 },
    /// Write `p <core> 0 <mhz>` to `CPU_CLOCK_LIMITS_PATH`: the lowest clock of a core.
    ClockMin { core: usize, mhz: u64 },
    /// Write `c` to `CPU_CLOCK_LIMITS_PATH`: commit the clocks.
    Commit,
    /// Write the governor to the governor file of CPU `index`.
    Governor { index: usize, governor: String },
}

/// The SMT write when the system can switch SMT.
pub open spec fn smt_writes(capable: bool, smt: bool) -> Seq<CpuWrite> {
    if capable { seq![CpuWrite::Smt(smt)] } else { seq![] }
}

/// The writes of a CPU without clock control: its online state (never for CPU 0, and only
/// when marked), then its governor (for CPU 0 or an online CPU).
pub open spec fn simple_cpu_writes(index: usize, online: bool, governor: String, set_online: bool) -> Seq<CpuWrite> {
    (if index != 0 && set_online {
        seq![CpuWrite::Online { index, value: if online { 1u8 } else { 0u8 } }]
    } else {
        seq![]
    }) + (if index == 0 || online {
        seq![CpuWrite::Governor { index, governor }]
    } else {
        seq![]
    })
}

/// Push the writes of a CPU without clock control.
pub fn push_simple_cpu_writes(out: &mut Vec<CpuWrite>, index: usize, online: bool, governor: &String, set_online: bool)
    ensures
        final(out)@ == old(out)@ + simple_cpu_writes(index, online, *governor, set_online),
{
    let ghost start = out@;
    if index != 0 && set_online {
        out.push(CpuWrite::Online { index, value: if online { 1 } else { 0 } });
    }
    if index == 0 || online {
        out.push(CpuWrite::Governor { index, governor: governor.clone() });
    }
    assert(out@ =~= start + simple_cpu_writes(index, online, *governor, set_online));
}

/// Whether the performance level reads `manual`.
pub open spec fn level_is_manual(mode: Seq<char>) -> bool {
    mode == "manual"@
}

/// The online write of a CPU: CPU 0 cannot be taken offline, and the write is skipped while
/// SMT keeps the sibling thread off.
pub open spec fn online_writes(c: Cpu) -> Seq<CpuWrite> {
    if c.index != 0 && c.state.do_set_online {
        seq![CpuWrite::Online { index: c.index, value: if c.online { 1u8 } else { 0u8 } }]
    } else {
        seq![]
    }
}

/// The clock writes of a CPU, with manual clocks enabled: the set limits (the minimum no lower
/// than the lowest allowed), or the full range to undo limits set before (also when resuming,
/// unless the limits say to skip that); then the commit.
pub open spec fn clock_writes(c: Cpu) -> Seq<CpuWrite> {
    let core = c.index / 2;
    match c.clock_limits {
        Some(cl) => (match cl.max {
            Some(m) => seq![CpuWrite::ClockMax { core, mhz: m }],
            None => seq![],
        }) + (match cl.min {
            Some(m) => seq![CpuWrite::ClockMin {
                core,
                mhz: if m < c.limits.clock_min.min { c.limits.clock_min.min } else { m },
            }],
            None => seq![],
        }) + seq![CpuWrite::Commit],
        None => if c.state.clock_limits_set || (c.state.is_resuming && !c.limits.skip_resume_reclock) {
            seq![
                CpuWrite::ClockMax { core, mhz: c.limits.clock_max.max },
                CpuWrite::ClockMin { core, mhz: c.limits.clock_min.min },
                CpuWrite::Commit,
            ]
        } else {
            seq![CpuWrite::Commit]
        },
    }
}

/// The governor write of a CPU: only for CPU 0 or an online CPU.
pub open spec fn governor_writes(c: Cpu) -> Seq<CpuWrite> {
    if c.index == 0 || c.online {
        seq![CpuWrite::Governor { index: c.index, governor: c.governor }]
    } else {
        seq![]
    }
}

fn clone_cpu(c: &Cpu) -> (r: Cpu)
    ensures
        r == *c,
{
    Cpu {
        online: c.online,
        clock_limits: c.clock_limits,
        governor: c.governor.clone(),
        limits: c.limits,
        index: c.index,
        state: c.state,
    }
}

impl Cpu {
    /// The writes that start applying this CPU, given what the performance level file reads:
    /// the online state, then manual clocks when the level is not manual yet.
    pub fn set_all_start(&self, level: &str) -> (r: Vec<CpuWrite>)
        ensures
            r@ == online_writes(*self) + (if level_is_manual(level@) { seq![] } else { seq![CpuWrite::ForceManualLevel] }),
    {
        let mut writes: Vec<CpuWrite> = Vec::new();
        if self.index != 0 && self.state.do_set_online {
            writes.push(CpuWrite::Online { index: self.index, value: if self.online { 1 } else { 0 } });
        }
        proof {
            reveal_strlit("manual");
        }
        if !crate::settings::util::str_eq(level, "manual") {
            writes.push(CpuWrite::ForceManualLevel);
        }
        assert(writes@ =~= online_writes(*self) + (if level_is_manual(level@) { seq![] } else { seq![CpuWrite::ForceManualLevel] }));
        writes
    }

    /// The clock writes, once manual clocks are enabled, and the bookkeeping for them.
    pub fn set_force_performance_related(&mut self) -> (r: Vec<CpuWrite>)
        ensures
            r@ == clock_writes(*old(self)),
            final(self).state == (CpuState { clock_limits_set: old(self).clock_limits is Some, ..old(self).state }),
            final(self).online == old(self).online,
            final(self).clock_limits == old(self).clock_limits,
            final(self).governor == old(self).governor,
            final(self).limits == old(self).limits,
            final(self).index == old(self).index,
    {
        let ghost c = *self;
        let core = self.index / 2;
        let mut writes: Vec<CpuWrite> = Vec::new();
        match self.clock_limits {
            Some(cl) => {
                self.state.clock_limits_set = true;
                if let Some(m) = cl.max {
                    writes.push(CpuWrite::ClockMax { core, mhz: m });
                }
                if let Some(m) = cl.min {
                    let valid_min = if m < self.limits.clock_min.min { self.limits.clock_min.min } else { m };
                    writes.push(CpuWrite::ClockMin { core, mhz: valid_min });
                }
            },
            None => {
                if self.state.clock_limits_set || (self.state.is_resuming && !self.limits.skip_resume_reclock) {
                    self.state.clock_limits_set = false;
                    writes.push(CpuWrite::ClockMax { core, mhz: self.limits.clock_max.max });
                    writes.push(CpuWrite::ClockMin { core, mhz: self.limits.clock_min.min });
                }
            },
        }
        writes.push(CpuWrite::Commit);
        assert(writes@ =~= clock_writes(c));
        writes
    }

    /// The writes that finish applying this CPU: the clocks when manual clocks are enabled
    /// (`level_ready`: the level read `manual`, or writing it succeeded), then the governor.
    pub fn set_all_finish(&mut self, level_ready: bool) -> (r: Vec<CpuWrite>)
        ensures
            r@ == (if level_ready { clock_writes(*old(self)) } else { seq![] }) + governor_writes(*old(self)),
            final(self).state == (if level_ready {
                CpuState { clock_limits_set: old(self).clock_limits is Some, ..old(self).state }
            } else {
                old(self).state
            }),
            final(self).online == old(self).online,
            final(self).clock_limits == old(self).clock_limits,
            final(self).governor == old(self).governor,
            final(self).limits == old(self).limits,
            final(self).index == old(self).index,
    {
        let ghost c = *self;
        let mut writes: Vec<CpuWrite> = if level_ready { self.set_force_performance_related() } else { Vec::new() };
        let ghost before = writes@;
        if self.index == 0 || self.online {
            writes.push(CpuWrite::Governor { index: self.index, governor: self.governor.clone() });
        }
        assert(writes@ =~= before + governor_writes(c));
        writes
    }

    /// The writes that finish re-applying this CPU after a resume: as `set_all_finish` on a copy
    /// that is marked as resuming; the bookkeeping is left as it is.
    pub fn resume_finish(&self, level_ready: bool) -> (r: Vec<CpuWrite>)
        ensures
            r@ == (if level_ready {
                clock_writes((Cpu { state: (CpuState { is_resuming: true, ..self.state }), ..*self }))
            } else {
                seq![]
            }) + governor_writes(*self),
    {
        let mut copy = clone_cpu(self);
        copy.state.is_resuming = true;
        copy.set_all_finish(level_ready)
    }
}

impl Cpus {
    /// Whether the limits of every CPU are usable ranges.
    pub fn limits_ordered(&self) -> (r: bool)
        ensures
            r == forall|i: int| 0 <= i < self.cpus@.len() ==> cpu_limits_ordered(#[trigger] self.cpus@[i].limits),
    {
        let mut i: usize = 0;
        while i < self.cpus.len()
            invariant
                i <= self.cpus@.len(),
                forall|j: int| 0 <= j < i ==> cpu_limits_ordered(#[trigger] self.cpus@[j].limits),
            decreases self.cpus@.len() - i,
        {
            let l = &self.cpus[i].limits;
            if !(l.clock_min.min <= l.clock_min.max && l.clock_max.min <= l.clock_max.max) {
                return false;
            }
            i = i + 1;
        }
        true
    }

    /// Prepare applying the CPUs: clamp their clock limits and mark which online states are to
    /// be written (all with SMT on, every even CPU without). Gives the SMT write, when the
    /// system can switch SMT.
    pub fn on_set_prepare(&mut self) -> (r: Option<CpuWrite>)
        requires
            forall|i: int| 0 <= i < old(self).cpus@.len() ==> cpu_limits_ordered(#[trigger] old(self).cpus@[i].limits),
        ensures
            r matches Some(w) ==> (w matches CpuWrite::Smt(on) && on == old(self).smt),
            r is Some <==> old(self).smt_capable,
            final(self).cpus@.len() == old(self).cpus@.len(),
            final(self).smt == old(self).smt,
            final(self).smt_capable == old(self).smt_capable,
            forall|i: int| 0 <= i < final(self).cpus@.len() ==> {
                let (o, n) = (old(self).cpus@[i], #[trigger] final(self).cpus@[i]);
                &&& n.clock_limits == clamped_clock_limits(o)
                &&& n.state.do_set_online == (old(self).smt || i % 2 == 0)
                &&& n.state.clock_limits_set == o.state.clock_limits_set
                &&& n.state.is_resuming == o.state.is_resuming
                &&& n.online == o.online && n.governor == o.governor && n.limits == o.limits && n.index == o.index
            },
    {
        let w = if self.smt_capable { Some(CpuWrite::Smt(self.smt)) } else { None };
        let n = self.cpus.len();
        let mut i: usize = 0;
        while i < n
            invariant
                n == old(self).cpus@.len(),
                self.cpus@.len() == n,
                i <= n,
                self.smt == old(self).smt,
                self.smt_capable == old(self).smt_capable,
                forall|j: int| 0 <= j < n ==> cpu_limits_ordered(#[trigger] old(self).cpus@[j].limits),
                forall|j: int| i <= j < n ==> #[trigger] self.cpus@[j] == old(self).cpus@[j],
                forall|j: int| 0 <= j < i ==> {
                    let (o, c) = (old(self).cpus@[j], #[trigger] self.cpus@[j]);
                    &&& c.clock_limits == clamped_clock_limits(o)
                    &&& c.state.do_set_online == (old(self).smt || j % 2 == 0)
                    &&& c.state.clock_limits_set == o.state.clock_limits_set
                    &&& c.state.is_resuming == o.state.is_resuming
                    &&& c.online == o.online && c.governor == o.governor && c.limits == o.limits && c.index == o.index
                },
            decreases n - i,
        {
            let mut cpu = clone_cpu(&self.cpus[i]);
            cpu.state.do_set_online = self.smt || i % 2 == 0;
            cpu.clamp_all();
            self.cpus.set(i, cpu);
            i = i + 1;
        }
        w
    }
}

/// Whenever manual clocks are enabled, the clock writes of a CPU end with a commit, and
/// nothing else commits.
pub proof fn clock_writes_commit_last(c: Cpu)
    ensures
        clock_writes(c).len() >= 1,
        clock_writes(c).last() is Commit,
        forall|i: int| 0 <= i < clock_writes(c).len() - 1 ==> !(#[trigger] clock_writes(c)[i] is Commit),
{
}

/// The clock writes of a CPU go to its core, and stay in the allowed range: without limits of its
/// own a CPU gets the full stock range back (the highest clock of the `clock_max` range, the
/// lowest of the `clock_min` range); with limits, the highest clock is the one set and the lowest
/// is the one set, raised to the bottom of the `clock_min` range when it lies below it.
pub proof fn clock_writes_within_range(c: Cpu)
    ensures
        forall|i: int| 0 <= i < clock_writes(c).len() ==> {
            &&& (#[trigger] clock_writes(c)[i]) matches CpuWrite::ClockMin { core, mhz } ==> {
                &&& core == c.index / 2
                &&& mhz >= c.limits.clock_min.min
                &&& c.clock_limits is None ==> mhz == c.limits.clock_min.min
                &&& c.clock_limits matches Some(cl) ==> cl.min matches Some(m) && (m >= c.limits.clock_min.min ==> mhz == m)
            }
            &&& clock_writes(c)[i] matches CpuWrite::ClockMax { core, mhz } ==> {
                &&& core == c.index / 2
                &&& c.clock_limits is None ==> mhz == c.limits.clock_max.max
                &&& c.clock_limits matches Some(cl) ==> cl.max == Some(mhz)
            }
        },
        c.clock_limits is None && (c.state.clock_limits_set || (c.state.is_resuming && !c.limits.skip_resume_reclock))
            ==> clock_writes(c).contains(CpuWrite::ClockMax { core: c.index / 2, mhz: c.limits.clock_max.max })
                && clock_writes(c).contains(CpuWrite::ClockMin { core: c.index / 2, mhz: c.limits.clock_min.min }),
        c.clock_limits is None && !(c.state.clock_limits_set || (c.state.is_resuming && !c.limits.skip_resume_reclock))
            ==> clock_writes(c) == seq![CpuWrite::Commit],
        c.clock_limits matches Some(cl) ==> (cl.min is Some <==> exists|i: int| 0 <= i < clock_writes(c).len() && (#[trigger] clock_writes(c)[i]) is ClockMin),
        c.clock_limits matches Some(cl) ==> (cl.max is Some <==> exists|i: int| 0 <= i < clock_writes(c).len() && (#[trigger] clock_writes(c)[i]) is ClockMax),
{
    let w = clock_writes(c);
    if c.clock_limits is None && (c.state.clock_limits_set || (c.state.is_resuming && !c.limits.skip_resume_reclock)) {
        assert(w[0] == CpuWrite::ClockMax { core: c.index / 2, mhz: c.limits.clock_max.max });
        assert(w[1] == CpuWrite::ClockMin { core: c.index / 2, mhz: c.limits.clock_min.min });
    }
    if let Some(cl) = c.clock_limits {
        if let Some(m) = cl.max {
            assert(w[0] is ClockMax);
        }
        if let Some(m) = cl.min {
            if cl.max is Some {
                assert(w[1] is ClockMin);
            } else {
                assert(w[0] is ClockMin);
            }
        }
    }
}

} // verus!
