//! CPUs of a device that no limits config describes: online state and governor only.

use vstd::prelude::*;

use crate::persist::{CpuJson, DriverJson};
use crate::settings::state::{fresh_cpu_state, CpuState};
use crate::settings::system::{CpuReading, SystemFacts};
use crate::settings::traits::{with_clock_limits, with_governor, with_online};
use crate::settings::steam_deck::cpu::{push_simple_cpu_writes, simple_cpu_writes, smt_writes, CpuWrite};
use crate::settings::{CpuView, MinMax, TCpu, TCpus};

verus! {

/// The CPUs of an unknown device.
#[derive(Debug, Clone)]
pub struct Cpus {
    pub cpus: Vec<Cpu>,
    pub smt: bool,
    pub smt_capable: bool,
}

/// One CPU of an unknown device.
#[derive(Debug, Clone)]
pub struct Cpu {
    pub online: bool,
    pub governor: String,
    pub index: usize,
    pub state: CpuState,
}

/// What was read of CPU `i`, if anything.
pub open spec fn reading_at(readings: Seq<CpuReading>, i: int) -> Option<CpuReading> {
    if 0 <= i < readings.len() { Some(readings[i]) } else { None }
}

/// A CPU as found on the system: online unless its online file reads 0, governor as read,
/// `schedutil` when unreadable.
pub open spec fn is_sys_cpu(c: Cpu, readings: Seq<CpuReading>, i: int) -> bool {
    &&& c.online == match reading_at(readings, i) {
        Some(r) => match r.online { Some(v) => v != 0, None => true },
        None => true,
    }
    &&& c.governor@ == match reading_at(readings, i) {
        Some(r) => match r.governor { Some(g) => g@, None => "schedutil"@ },
        None => "schedutil"@,
    }
    &&& c.index == i
    &&& c.state == fresh_cpu_state()
}

/// Persisted CPUs can be read when at most one fewer than the CPUs present.
pub open spec fn unknown_json_readable(n_json: int, cpu_count: Option<usize>) -> bool {
    cpu_count matches Some(m) ==> n_json + 1 >= m
}

/// How many persisted CPUs are kept: no more than are present.
pub open spec fn kept_json_cpus(n_json: int, cpu_count: Option<usize>) -> int {
    match cpu_count {
        Some(m) => if n_json < m { n_json } else { m as int },
        None => n_json,
    }
}

impl Cpu {
    /// CPU `cpu_index` as found on the system.
    pub fn from_sys(cpu_index: usize, readings: &Vec<CpuReading>) -> (r: Self)
        ensures
            is_sys_cpu(r, readings@, cpu_index as int),
    {
        let (online, governor) = if cpu_index < readings.len() {
            let reading = &readings[cpu_index];
            (
                match reading.online { Some(v) => v != 0, None => true },
                match &reading.governor { Some(g) => g.clone(), None => String::from_str("schedutil") },
            )
        } else {
            (true, String::from_str("schedutil"))
        };
        Cpu { online, governor, index: cpu_index, state: CpuState::default() }
    }

    /// The limits shown for this CPU: no clock limits, no governors offered.
    pub open spec fn limits_shown(&self) -> crate::api::CpuLimitsView {
        crate::api::CpuLimitsView { clock_min_limits: None, clock_max_limits: None, clock_step: 100, governors: Seq::empty() }
    }

    /// The limits of this CPU as shown to the front-end: no clock limits, no governors offered.
    pub fn limits(&self) -> (r: crate::api::CpuLimits)
        ensures
            r@ == self.limits_shown(),
            r.clock_min_limits is None && r.clock_max_limits is None,
            r.clock_step == 100,
            r.governors@.len() == 0,
    {
        let r = crate::api::CpuLimits { clock_min_limits: None, clock_max_limits: None, clock_step: 100, governors: Vec::new() };
        assert(r@.governors =~= Seq::<Seq<char>>::empty());
        r
    }

    /// The persisted form of this CPU.
    pub fn json(&self) -> (r: CpuJson)
        ensures
            r.online == self.online,
            r.clock_limits is None,
            r.governor@ == self.governor@,
    {
        CpuJson { online: self.online, clock_limits: None, governor: self.governor.clone() }
    }

    /// Read a persisted CPU.
    pub fn from_json(other: CpuJson, _version: u64, i: usize) -> (r: Self)
        ensures
            r.online == other.online,
            r.governor@ == other.governor@,
            r.index == i,
            r.state == fresh_cpu_state(),
    {
        Cpu { online: other.online, governor: other.governor, index: i, state: CpuState::default() }
    }
}

impl Cpus {
    /// Whether these are the CPUs as found on the system: as many as are present, SMT as the
    /// system reports it.
    pub open spec fn is_system_default(&self, facts: SystemFacts) -> bool {
        &&& self.cpus@.len() == match facts.cpu_count { Some(m) => m as int, None => 0 }
        &&& forall|i: int| 0 <= i < self.cpus@.len() ==> is_sys_cpu(#[trigger] self.cpus@[i], facts.cpus@, i)
        &&& self.smt == (facts.cpu_count is Some && facts.smt_status)
        &&& self.smt_capable == (facts.cpu_count is Some && facts.smt_capable)
    }

    /// Whether these are the persisted CPUs `other` as read on this system: those beyond the CPUs
    /// present dropped, a missing last one as found on the system, SMT on.
    pub open spec fn is_from_json(&self, other: Seq<CpuJson>, facts: SystemFacts) -> bool {
        let kept = kept_json_cpus(other.len() as int, facts.cpu_count);
        &&& self.cpus@.len() == match facts.cpu_count { Some(m) => m as int, None => kept }
        &&& forall|i: int| 0 <= i < kept ==> {
            &&& (#[trigger] self.cpus@[i]).online == other[i].online
            &&& self.cpus@[i].governor@ == other[i].governor@
            &&& self.cpus@[i].index == i
            &&& self.cpus@[i].state == fresh_cpu_state()
        }
        &&& forall|i: int| kept <= i < self.cpus@.len() ==> is_sys_cpu(#[trigger] self.cpus@[i], facts.cpus@, i)
        &&& self.smt
        &&& self.smt_capable == facts.smt_capable
    }

    /// The CPUs as found on the system: as many as are present, SMT as the system reports it.
    pub fn system_default(facts: &SystemFacts) -> (r: Self)
        ensures
            r.is_system_default(*facts),
    {
        if let Some(max_cpu) = facts.cpu_count {
            let mut sys_cpus: Vec<Cpu> = Vec::with_capacity(max_cpu);
            let mut i: usize = 0;
            while i < max_cpu
                invariant
                    i <= max_cpu,
                    sys_cpus@.len() == i,
                    forall|j: int| 0 <= j < i ==> is_sys_cpu(#[trigger] sys_cpus@[j], facts.cpus@, j),
                decreases max_cpu - i,
            {
                sys_cpus.push(Cpu::from_sys(i, &facts.cpus));
                i = i + 1;
            }
            Cpus { cpus: sys_cpus, smt: facts.smt_status, smt_capable: facts.smt_capable }
        } else {
            Cpus { cpus: Vec::new(), smt: false, smt_capable: false }
        }
    }

    /// Read persisted CPUs: those beyond the CPUs present are dropped, and a missing last one is
    /// taken as found on the system. SMT is on.
    pub fn from_json(other: Vec<CpuJson>, version: u64, facts: &SystemFacts) -> (r: Self)
        requires
            unknown_json_readable(other@.len() as int, facts.cpu_count),
        ensures
            r.is_from_json(other@, *facts),
    {
        let max_cpus = facts.cpu_count;
        let n_json = other.len();
        let ghost json = other@;
        let kept: usize = match max_cpus {
            Some(m) => if n_json < m { n_json } else { m },
            None => n_json,
        };
        let mut result: Vec<Cpu> = Vec::with_capacity(kept);
        let mut i: usize = 0;
        while i < kept
            invariant
                kept as int == kept_json_cpus(json.len() as int, max_cpus),
                kept <= json.len(),
                other@ == json,
                i <= kept,
                result@.len() == i,
                forall|j: int| 0 <= j < i ==> {
                    &&& (#[trigger] result@[j]).online == json[j].online
                    &&& result@[j].governor@ == json[j].governor@
                    &&& result@[j].index == j
                    &&& result@[j].state == fresh_cpu_state()
                },
            decreases kept - i,
        {
            let c = &other[i];
            result.push(Cpu { online: c.online, governor: c.governor.clone(), index: i, state: CpuState::default() });
            i = i + 1;
        }
        if let Some(max_cpus) = max_cpus {
            if result.len() != max_cpus {
                result.push(Cpu::from_sys(kept, &facts.cpus));
            }
        }
        Cpus { cpus: result, smt: true, smt_capable: facts.smt_capable }
    }

    /// The limits shown for all CPUs.
    pub open spec fn limits_shown(&self) -> crate::api::CpusLimitsView {
        crate::api::CpusLimitsView {
            cpus: Seq::new(self.cpus@.len(), |i: int| self.cpus@[i].limits_shown()),
            count: self.cpus@.len() as usize,
            smt_capable: self.smt_capable,
            governors: Seq::empty(),
        }
    }

    /// The limits of all CPUs as shown to the front-end.
    pub fn limits(&self) -> (r: crate::api::CpusLimits)
        ensures
            r@ == self.limits_shown(),
            r.cpus@.len() == self.cpus@.len(),
            r.count == self.cpus@.len(),
            r.smt_capable == self.smt_capable,
            r.governors@.len() == 0,
    {
        let mut cpus: Vec<crate::api::CpuLimits> = Vec::with_capacity(self.cpus.len());
        let mut i: usize = 0;
        while i < self.cpus.len()
            invariant
                cpus@.len() == i,
                i <= self.cpus@.len(),
                forall|j: int| 0 <= j < i ==> #[trigger] cpus@[j]@ == self.cpus@[j].limits_shown(),
            decreases self.cpus@.len() - i,
        {
            cpus.push(self.cpus[i].limits());
            i = i + 1;
        }
        let r = crate::api::CpusLimits { cpus, count: self.cpus.len(), smt_capable: self.smt_capable, governors: Vec::new() };
        assert(r@.cpus =~= self.limits_shown().cpus);
        assert(r@.governors =~= Seq::<Seq<char>>::empty());
        r
    }

    /// The persisted form of all CPUs.
    pub fn json(&self) -> (r: Vec<CpuJson>)
        ensures
            r@.len() == self.cpus@.len(),
            forall|i: int| 0 <= i < r@.len() ==> {
                &&& #[trigger] r@[i].online == self.cpus@[i].online
                &&& r@[i].governor@ == self.cpus@[i].governor@
                &&& r@[i].clock_limits is None
            },
    {
        let mut out: Vec<CpuJson> = Vec::with_capacity(self.cpus.len());
        let mut i: usize = 0;
        while i < self.cpus.len()
            invariant
                out@.len() == i,
                i <= self.cpus@.len(),
                forall|j: int| 0 <= j < i ==> {
                    &&& #[trigger] out@[j].online == self.cpus@[j].online
                    &&& out@[j].governor@ == self.cpus@[j].governor@
                    &&& out@[j].clock_limits is None
                },
            decreases self.cpus@.len() - i,
        {
            out.push(self.cpus[i].json());
            i = i + 1;
        }
        out
    }
}

impl TCpu for Cpu {
    open spec fn cpu_view(&self) -> CpuView {
        CpuView { online: self.online, governor: self.governor@, clock_limits: None, takes_clock_limits: false }
    }

    fn online(&self) -> (r: bool) {
        self.online
    }

    fn set_online(&mut self, online: bool) {
        self.online = online;
    }

    fn governor(&mut self, governor: String) {
        self.governor = governor;
    }

    fn get_governor(&self) -> (r: &str) {
        self.governor.as_str()
    }

    fn clock_limits(&mut self, _limits: Option<MinMax<u64>>)
        ensures
            *final(self) == *old(self),
    {
    }

    fn get_clock_limits(&self) -> (r: Option<&MinMax<u64>>) {
        None
    }
}

impl TCpus for Cpus {
    open spec fn cpus_view(&self) -> Seq<CpuView> {
        self.cpus@.map_values(|c: Cpu| c.cpu_view())
    }

    open spec fn smt_view(&self) -> bool {
        self.smt
    }

    open spec fn provider_view(&self) -> DriverJson {
        DriverJson::Unknown
    }

    fn len(&self) -> (n: usize) {
        self.cpus.len()
    }

    fn smt(&self) -> (r: bool) {
        self.smt
    }

    fn set_smt(&mut self, smt: bool) {
        self.smt = smt;
    }

    fn cpu_online(&self, index: usize) -> (r: bool) {
        self.cpus[index].online()
    }

    fn set_cpu_online(&mut self, index: usize, online: bool) {
        self.cpus[index].set_online(online);
        assert(self.cpus_view() =~= old(self).cpus_view().update(
            index as int,
            with_online(old(self).cpus_view()[index as int], online),
        ));
    }

    fn set_cpu_governor(&mut self, index: usize, governor: String) {
        let ghost g = governor@;
        self.cpus[index].governor(governor);
        assert(self.cpus_view() =~= old(self).cpus_view().update(
            index as int,
            with_governor(old(self).cpus_view()[index as int], g),
        ));
    }

    fn cpu_governor(&self, index: usize) -> (r: &str) {
        self.cpus[index].get_governor()
    }

    /// Clock limits are not supported on this driver: the request changes nothing.
    fn set_cpu_clock_limits(&mut self, index: usize, limits: Option<MinMax<u64>>)
        ensures
            final(self).cpus@ == old(self).cpus@,
            final(self).smt == old(self).smt,
            final(self).smt_capable == old(self).smt_capable,
    {
        self.cpus[index].clock_limits(limits);
        assert(self.cpus@ =~= old(self).cpus@);
        assert(self.cpus_view() =~= old(self).cpus_view().update(
            index as int,
            with_clock_limits(old(self).cpus_view()[index as int], limits),
        ));
    }

    fn cpu_clock_limits(&self, index: usize) -> (r: Option<MinMax<u64>>) {
        match self.cpus[index].get_clock_limits() {
            Some(x) => Some(*x),
            None => None,
        }
    }

    fn provider(&self) -> (r: DriverJson) {
        DriverJson::Unknown
    }
}

/// The writes of the first `n` CPUs, each online state written when `set_online(i)`.
pub open spec fn unknown_cpu_writes(cpus: Seq<Cpu>, n: int, set_online: spec_fn(int) -> bool) -> Seq<CpuWrite>
    decreases n,
{
    if n <= 0 {
        seq![]
    } else {
        unknown_cpu_writes(cpus, n - 1, set_online)
            + simple_cpu_writes(cpus[n - 1].index, cpus[n - 1].online, cpus[n - 1].governor, set_online(n - 1))
    }
}

impl Cpus {
    /// The writes that apply the CPUs, in order (the first that fails ends them): SMT when the
    /// system can switch it, then each CPU's online state (all with SMT on, every even CPU
    /// without) and governor. The CPUs remember which online states were written.
    pub fn on_set(&mut self) -> (r: Vec<CpuWrite>)
        ensures
            r@ == smt_writes(old(self).smt_capable, old(self).smt)
                + unknown_cpu_writes(old(self).cpus@, old(self).cpus@.len() as int, |i: int| old(self).smt || i % 2 == 0),
            final(self).smt == old(self).smt,
            final(self).smt_capable == old(self).smt_capable,
            final(self).cpus@.len() == old(self).cpus@.len(),
            forall|i: int| 0 <= i < final(self).cpus@.len() ==> {
                let (o, n) = (old(self).cpus@[i], #[trigger] final(self).cpus@[i]);
                &&& n.state == CpuState { do_set_online: old(self).smt || i % 2 == 0, ..o.state }
                &&& n.online == o.online && n.governor == o.governor && n.index == o.index
            },
    {
        let ghost old_cpus = self.cpus@;
        let ghost f = |i: int| old(self).smt || i % 2 == 0;
        let mut out: Vec<CpuWrite> = Vec::new();
        if self.smt_capable {
            out.push(CpuWrite::Smt(self.smt));
        }
        assert(out@ =~= smt_writes(self.smt_capable, self.smt) + unknown_cpu_writes(old_cpus, 0, f));
        let n = self.cpus.len();
        let mut i: usize = 0;
        while i < n
            invariant
                n == old_cpus.len(),
                self.cpus@.len() == n,
                i <= n,
                self.smt == old(self).smt,
                self.smt_capable == old(self).smt_capable,
                f == (|i: int| old(self).smt || i % 2 == 0),
                out@ == smt_writes(self.smt_capable, self.smt) + unknown_cpu_writes(old_cpus, i as int, f),
                forall|j: int| i <= j < n ==> #[trigger] self.cpus@[j] == old_cpus[j],
                forall|j: int| 0 <= j < i ==> {
                    let (o, c) = (old_cpus[j], #[trigger] self.cpus@[j]);
                    &&& c.state == CpuState { do_set_online: old(self).smt || j % 2 == 0, ..o.state }
                    &&& c.online == o.online && c.governor == o.governor && c.index == o.index
                },
            decreases n - i,
        {
            let set_online = self.smt || i % 2 == 0;
            let c = &self.cpus[i];
            let ghost before = out@;
            push_simple_cpu_writes(&mut out, c.index, c.online, &c.governor, set_online);
            assert(out@ =~= smt_writes(self.smt_capable, self.smt) + unknown_cpu_writes(old_cpus, i as int + 1, f));
            let mut updated = Cpu { online: c.online, governor: c.governor.clone(), index: c.index, state: c.state };
            updated.state.do_set_online = set_online;
            self.cpus.set(i, updated);
            i = i + 1;
        }
        out
    }

    /// The writes that apply the CPUs again after a resume, in order (the first that fails ends
    /// them), with the online states marked by the last `on_set`.
    pub fn on_resume(&self) -> (r: Vec<CpuWrite>)
        ensures
            r@ == unknown_cpu_writes(self.cpus@, self.cpus@.len() as int, |i: int| self.cpus@[i].state.do_set_online),
    {
        let ghost f = |i: int| self.cpus@[i].state.do_set_online;
        let mut out: Vec<CpuWrite> = Vec::new();
        let n = self.cpus.len();
        let mut i: usize = 0;
        while i < n
            invariant
                n == self.cpus@.len(),
                i <= n,
                f == (|i: int| self.cpus@[i].state.do_set_online),
                out@ == unknown_cpu_writes(self.cpus@, i as int, f),
            decreases n - i,
        {
            let c = &self.cpus[i];
            push_simple_cpu_writes(&mut out, c.index, c.online, &c.governor, c.state.do_set_online);
            i = i + 1;
        }
        out
    }
}

} // verus!
