//! CPUs of a generic device, with optional clock limits from the device's limits config.

use vstd::prelude::*;

use super::traits::{has_clock_ranges, json_clock_limits_under, FromGenericCpuInfo};
use crate::api::{CpuLimitsView, CpusLimitsView, RangeLimit as ApiRange};
use crate::limits::{GenericCpuLimit, RangeLimit};
use crate::persist::{CpuJson, DriverJson};
use crate::settings::min_max::{min_max_from_json, min_max_to_json};
use crate::settings::state::{fresh_cpu_state, CpuState};
use crate::settings::system::SystemFacts;
use crate::settings::traits::{clock_limits_json, with_clock_limits, with_governor, with_online};
use crate::settings::util::{guess_smt, json_onlines, pairs_agree};
use crate::settings::steam_deck::cpu::{push_simple_cpu_writes, simple_cpu_writes, smt_writes, CpuWrite};
use crate::settings::{CpuView, MinMax, TCpu, TCpus};

verus! {

/// The CPUs of a generic device.
#[derive(Debug)]
pub struct Cpus<C> {
    pub cpus: Vec<C>,
    pub smt: bool,
    pub smt_capable: bool,
}

/// One CPU of a generic device.
#[derive(Debug)]
pub struct Cpu {
    pub online: bool,
    pub governor: String,
    pub clock_limits: Option<MinMax<u64>>,
    pub limits: GenericCpuLimit,
    pub index: usize,
    pub state: CpuState,
}

/// A limits range as shown to the front-end: absent bounds read as 0.
pub open spec fn api_range(r: RangeLimit<u64>) -> ApiRange<u64> {
    ApiRange {
        min: match r.min { Some(m) => m, None => 0 },
        max: match r.max { Some(m) => m, None => 0 },
    }
}

fn to_api_range(r: Option<RangeLimit<u64>>) -> (o: Option<ApiRange<u64>>)
    ensures
        o == match r { Some(x) => Some(api_range(x)), None => None },
{
    match r {
        Some(x) => Some(ApiRange {
            min: match x.min { Some(m) => m, None => 0 },
            max: match x.max { Some(m) => m, None => 0 },
        }),
        None => None,
    }
}

fn clone_limits(l: &GenericCpuLimit) -> (r: GenericCpuLimit)
    ensures
        r == *l,
{
    GenericCpuLimit { clock_min: l.clock_min, clock_max: l.clock_max, clock_step: l.clock_step }
}

impl Cpu {
    /// The limits shown for this CPU when it offers `governors`.
    pub open spec fn limits_shown(&self, governors: Seq<Seq<char>>) -> CpuLimitsView {
        CpuLimitsView {
            clock_min_limits: match self.limits.clock_min { Some(x) => Some(api_range(x)), None => None },
            clock_max_limits: match self.limits.clock_max { Some(x) => Some(api_range(x)), None => None },
            clock_step: self.limits.clock_step,
            governors,
        }
    }

    /// The limits of this CPU as shown to the front-end, with the governors it offers.
    pub fn limits(&self, governors: Vec<String>) -> (r: crate::api::CpuLimits)
        ensures
            r@ == self.limits_shown(governors.deep_view()),
            r.clock_min_limits == match self.limits.clock_min { Some(x) => Some(api_range(x)), None => None },
            r.clock_max_limits == match self.limits.clock_max { Some(x) => Some(api_range(x)), None => None },
            r.clock_step == self.limits.clock_step,
            r.governors == governors,
    {
        crate::api::CpuLimits {
            clock_min_limits: to_api_range(self.limits.clock_min),
            clock_max_limits: to_api_range(self.limits.clock_max),
            clock_step: self.limits.clock_step,
            governors,
        }
    }

    /// The persisted form of this CPU.
    pub fn json(&self) -> (r: CpuJson)
        ensures
            r.online == self.online,
            r.governor@ == self.governor@,
            r.clock_limits == clock_limits_json(self.clock_limits),
    {
        CpuJson {
            online: self.online,
            clock_limits: match self.clock_limits {
                Some(x) => Some(min_max_to_json(x)),
                None => None,
            },
            governor: self.governor.clone(),
        }
    }
}

impl TCpu for Cpu {
    open spec fn cpu_view(&self) -> CpuView {
        CpuView {
            online: self.online,
            governor: self.governor@,
            clock_limits: self.clock_limits,
            takes_clock_limits: has_clock_ranges(self.limits),
        }
    }

    fn online(&self) -> (r: bool) {
        self.online
    }

    fn set_online(&mut self, online: bool) {
        self.online = online;
    }

    fn governor(&mut self, governor: String) {
        self.governor = governor;
    }

    fn get_governor(&self) -> (r: &str) {
        self.governor.as_str()
    }

    fn clock_limits(&mut self, limits: Option<MinMax<u64>>) {
        if self.limits.clock_min.is_some() && self.limits.clock_max.is_some() {
            self.clock_limits = limits;
        }
    }

    fn get_clock_limits(&self) -> (r: Option<&MinMax<u64>>) {
        self.clock_limits.as_ref()
    }
}

impl FromGenericCpuInfo for Cpu {
    open spec fn takes_clock_limits_with(limits: GenericCpuLimit) -> bool {
        has_clock_ranges(limits)
    }

    fn from_limits(cpu_index: usize, limits: GenericCpuLimit) -> (r: Self) {
        Cpu {
            online: true,
            governor: String::from_str("schedutil"),
            clock_limits: None,
            limits,
            index: cpu_index,
            state: CpuState::default(),
        }
    }

    fn from_json_and_limits(other: CpuJson, version: u64, cpu_index: usize, limits: GenericCpuLimit) -> (r: Self) {
        let clock_lims = if limits.clock_min.is_some() && limits.clock_max.is_some() {
            match other.clock_limits {
                Some(x) => Some(min_max_from_json(x, version)),
                None => None,
            }
        } else {
            None
        };
        Cpu {
            online: other.online,
            governor: other.governor,
            clock_limits: clock_lims,
            limits,
            index: cpu_index,
            state: CpuState::default(),
        }
    }

    open spec fn generic_view(&self) -> Cpu {
        *self
    }

    fn as_generic(&self) -> (r: &Cpu) {
        self
    }

    fn set_do_set_online(&mut self, set_online: bool) {
        self.state.do_set_online = set_online;
    }
}

/// The number of persisted CPUs that are kept: all of them, up to the number of CPUs present.
pub open spec fn kept_cpus(n_json: int, cpu_count: Option<usize>) -> int {
    match cpu_count {
        Some(m) => if n_json < m { n_json } else { m as int },
        None => n_json,
    }
}

impl<C: FromGenericCpuInfo> Cpus<C> {
    /// Whether these are the CPUs of a device with these limits: as many as are present (8 when
    /// that is unknown), all online, SMT on.
    pub open spec fn is_from_limits(&self, limits: GenericCpuLimit, facts: SystemFacts) -> bool {
        &&& self.cpus@.len() == match facts.cpu_count { Some(m) => m as int, None => 8 }
        &&& forall|i: int| 0 <= i < self.cpus@.len() ==> {
            &&& (#[trigger] self.cpus@[i]).cpu_view().online
            &&& self.cpus@[i].cpu_view().governor == "schedutil"@
            &&& self.cpus@[i].cpu_view().clock_limits is None
            &&& self.cpus@[i].cpu_view().takes_clock_limits == C::takes_clock_limits_with(limits)
            &&& self.cpus@[i].generic_view().index == i
            &&& self.cpus@[i].generic_view().limits == limits
            &&& self.cpus@[i].generic_view().state == fresh_cpu_state()
        }
        &&& self.smt
        &&& self.smt_capable == facts.smt_capable
    }

    /// Whether these are the persisted CPUs `other` as read under these limits: those beyond the
    /// CPUs present dropped, a missing last one built from the limits, SMT guessed from the
    /// persisted online states.
    pub open spec fn is_from_json_and_limits(&self, other: Seq<CpuJson>, limits: GenericCpuLimit, facts: SystemFacts) -> bool {
        let kept = kept_cpus(other.len() as int, facts.cpu_count);
        &&& self.cpus@.len() == match facts.cpu_count { Some(m) => m as int, None => kept }
        &&& forall|i: int| 0 <= i < kept ==> {
            &&& (#[trigger] self.cpus@[i]).cpu_view().online == other[i].online
            &&& self.cpus@[i].cpu_view().governor == other[i].governor@
            &&& self.cpus@[i].cpu_view().clock_limits == json_clock_limits_under(other[i], limits)
            &&& self.cpus@[i].cpu_view().takes_clock_limits == C::takes_clock_limits_with(limits)
            &&& self.cpus@[i].generic_view().index == i
            &&& self.cpus@[i].generic_view().limits == limits
            &&& self.cpus@[i].generic_view().state == fresh_cpu_state()
        }
        &&& forall|i: int| kept <= i < self.cpus@.len() ==> {
            &&& (#[trigger] self.cpus@[i]).cpu_view().online
            &&& self.cpus@[i].cpu_view().governor == "schedutil"@
            &&& self.cpus@[i].cpu_view().clock_limits is None
            &&& self.cpus@[i].cpu_view().takes_clock_limits == C::takes_clock_limits_with(limits)
            &&& self.cpus@[i].generic_view().index == i
            &&& self.cpus@[i].generic_view().limits == limits
            &&& self.cpus@[i].generic_view().state == fresh_cpu_state()
        }
        &&& self.smt == (pairs_agree(json_onlines(other)) && facts.smt_capable)
        &&& self.smt_capable == facts.smt_capable
    }

    /// The CPUs of a device with these limits: as many as are present (8 when that is unknown),
    /// all online, SMT on.
    pub fn from_limits(limits: GenericCpuLimit, facts: &SystemFacts) -> (r: Self)
        ensures
            r.is_from_limits(limits, *facts),
    {
        let cpu_count = match facts.cpu_count {
            Some(c) => c,
            None => 8,
        };
        let mut new_cpus: Vec<C> = Vec::with_capacity(cpu_count);
        let mut i: usize = 0;
        while i < cpu_count
            invariant
                i <= cpu_count,
                new_cpus@.len() == i,
                forall|j: int| 0 <= j < i ==> {
                    &&& (#[trigger] new_cpus@[j]).cpu_view().online
                    &&& new_cpus@[j].cpu_view().governor == "schedutil"@
                    &&& new_cpus@[j].cpu_view().clock_limits is None
                    &&& new_cpus@[j].cpu_view().takes_clock_limits == C::takes_clock_limits_with(limits)
                    &&& new_cpus@[j].generic_view().index == j
                    &&& new_cpus@[j].generic_view().limits == limits
                    &&& new_cpus@[j].generic_view().state == fresh_cpu_state()
                },
            decreases cpu_count - i,
        {
            new_cpus.push(C::from_limits(i, clone_limits(&limits)));
            i = i + 1;
        }
        Cpus { cpus: new_cpus, smt: true, smt_capable: facts.smt_capable }
    }

    /// Read persisted CPUs under these limits: those beyond the CPUs present are dropped, and a
    /// missing last one is built from the limits. SMT is guessed from the persisted online states.
    pub fn from_json_and_limits(other: Vec<CpuJson>, version: u64, limits: GenericCpuLimit, facts: &SystemFacts) -> (r: Self)
        requires
            crate::settings::steam_deck::cpu::json_cpus_readable(other@.len() as int, facts.cpu_count),
        ensures
            r.is_from_json_and_limits(other@, limits, *facts),
    {
        let can_smt = facts.smt_capable;
        let smt_guess = guess_smt(&other) && can_smt;
        let max_cpus = facts.cpu_count;
        let n_json = other.len();
        let ghost json = other@;
        let mut rest = other;
        let kept: usize = match max_cpus {
            Some(m) => if n_json < m { n_json } else { m },
            None => n_json,
        };
        rest.truncate(kept);
        let mut taken: Vec<C> = Vec::with_capacity(kept);
        let mut k: usize = kept;
        while k > 0
            invariant
                kept as int == kept_cpus(json.len() as int, max_cpus),
                k <= kept <= json.len(),
                rest@ == json.take(k as int),
                taken@.len() == kept - k,
                forall|j: int| 0 <= j < kept - k ==> {
                    &&& (#[trigger] taken@[j]).cpu_view().online == json[kept - 1 - j].online
                    &&& taken@[j].cpu_view().governor == json[kept - 1 - j].governor@
                    &&& taken@[j].cpu_view().clock_limits == json_clock_limits_under(json[kept - 1 - j], limits)
                    &&& taken@[j].cpu_view().takes_clock_limits == C::takes_clock_limits_with(limits)
                    &&& taken@[j].generic_view().index == kept - 1 - j
                    &&& taken@[j].generic_view().limits == limits
                    &&& taken@[j].generic_view().state == fresh_cpu_state()
                },
            decreases k,
        {
            let cpu = rest.pop().unwrap();
            k = k - 1;
            assert(cpu == json[k as int]);
            taken.push(C::from_json_and_limits(cpu, version, k, clone_limits(&limits)));
            assert(rest@ =~= json.take(k as int));
        }
        let mut result: Vec<C> = Vec::with_capacity(n_json);
        let mut i: usize = 0;
        while i < kept
            invariant
                i <= kept,
                taken@.len() == kept - i,
                result@.len() == i,
                forall|j: int| 0 <= j < kept - i ==> {
                    &&& (#[trigger] taken@[j]).cpu_view().online == json[kept - 1 - j].online
                    &&& taken@[j].cpu_view().governor == json[kept - 1 - j].governor@
                    &&& taken@[j].cpu_view().clock_limits == json_clock_limits_under(json[kept - 1 - j], limits)
                    &&& taken@[j].cpu_view().takes_clock_limits == C::takes_clock_limits_with(limits)
                    &&& taken@[j].generic_view().index == kept - 1 - j
                    &&& taken@[j].generic_view().limits == limits
                    &&& taken@[j].generic_view().state == fresh_cpu_state()
                },
                forall|j: int| 0 <= j < i ==> {
                    &&& (#[trigger] result@[j]).cpu_view().online == json[j].online
                    &&& result@[j].cpu_view().governor == json[j].governor@
                    &&& result@[j].cpu_view().clock_limits == json_clock_limits_under(json[j], limits)
                    &&& result@[j].cpu_view().takes_clock_limits == C::takes_clock_limits_with(limits)
                    &&& result@[j].generic_view().index == j
                    &&& result@[j].generic_view().limits == limits
                    &&& result@[j].generic_view().state == fresh_cpu_state()
                },
            decreases kept - i,
        {
            let cpu = taken.pop().unwrap();
            result.push(cpu);
            i = i + 1;
        }
        if let Some(max_cpus) = max_cpus {
            if result.len() != max_cpus {
                result.push(C::from_limits(kept, clone_limits(&limits)));
            }
        }
        Cpus { cpus: result, smt: smt_guess, smt_capable: can_smt }
    }

    /// The limits shown for all CPUs when CPU `i` offers `governors[i]`.
    pub open spec fn limits_shown(&self, governors: Seq<Seq<Seq<char>>>) -> CpusLimitsView {
        CpusLimitsView {
            cpus: Seq::new(self.cpus@.len(), |i: int| self.cpus@[i].generic_view().limits_shown(governors[i])),
            count: self.cpus@.len() as usize,
            smt_capable: self.smt_capable,
            governors: Seq::empty(),
        }
    }

    /// The limits of all CPUs as shown to the front-end; `governors[i]` are the governors CPU `i` offers.
    pub fn limits(&self, governors: Vec<Vec<String>>) -> (r: crate::api::CpusLimits)
        requires
            governors@.len() == self.cpus@.len(),
        ensures
            r@ == self.limits_shown(governors.deep_view()),
            r.cpus@.len() == self.cpus@.len(),
            r.count == self.cpus@.len(),
            r.smt_capable == self.smt_capable,
            r.governors@.len() == 0,
    {
        let mut cpus: Vec<crate::api::CpuLimits> = Vec::with_capacity(self.cpus.len());
        let mut i: usize = 0;
        while i < self.cpus.len()
            invariant
                cpus@.len() == i,
                i <= self.cpus@.len(),
                governors@.len() == self.cpus@.len(),
                forall|j: int| 0 <= j < i ==> #[trigger] cpus@[j]@ == self.cpus@[j].generic_view().limits_shown(governors.deep_view()[j]),
            decreases self.cpus@.len() - i,
        {
            let g = governors[i].clone();
            assert(g.deep_view() =~= governors.deep_view()[i as int]);
            cpus.push(self.cpus[i].as_generic().limits(g));
            i = i + 1;
        }
        let r = crate::api::CpusLimits { cpus, count: self.cpus.len(), smt_capable: self.smt_capable, governors: Vec::new() };
        assert(r@.cpus =~= self.limits_shown(governors.deep_view()).cpus);
        assert(r@.governors =~= Seq::<Seq<char>>::empty());
        r
    }

    /// The persisted form of all CPUs.
    pub fn json(&self) -> (r: Vec<CpuJson>)
        ensures
            r@.len() == self.cpus@.len(),
            forall|i: int| 0 <= i < r@.len() ==> {
                &&& #[trigger] r@[i].online == self.cpus@[i].generic_view().online
                &&& r@[i].governor@ == self.cpus@[i].generic_view().governor@
                &&& r@[i].clock_limits == clock_limits_json(self.cpus@[i].generic_view().clock_limits)
            },
    {
        let mut out: Vec<CpuJson> = Vec::with_capacity(self.cpus.len());
        let mut i: usize = 0;
        while i < self.cpus.len()
            invariant
                out@.len() == i,
                i <= self.cpus@.len(),
                forall|j: int| 0 <= j < i ==> {
                    &&& #[trigger] out@[j].online == self.cpus@[j].generic_view().online
                    &&& out@[j].governor@ == self.cpus@[j].generic_view().governor@
                    &&& out@[j].clock_limits == clock_limits_json(self.cpus@[j].generic_view().clock_limits)
                },
            decreases self.cpus@.len() - i,
        {
            out.push(self.cpus[i].as_generic().json());
            i = i + 1;
        }
        out
    }
}

impl<C: FromGenericCpuInfo> TCpus for Cpus<C> {
    open spec fn cpus_view(&self) -> Seq<CpuView> {
        self.cpus@.map_values(|c: C| c.cpu_view())
    }

    open spec fn smt_view(&self) -> bool {
        self.smt
    }

    open spec fn provider_view(&self) -> DriverJson {
        DriverJson::Generic
    }

    fn len(&self) -> (n: usize) {
        self.cpus.len()
    }

    fn smt(&self) -> (r: bool) {
        self.smt
    }

    fn set_smt(&mut self, smt: bool) {
        self.smt = smt;
    }

    fn cpu_online(&self, index: usize) -> (r: bool) {
        self.cpus[index].online()
    }

    fn set_cpu_online(&mut self, index: usize, online: bool) {
        self.cpus[index].set_online(online);
        assert(self.cpus_view() =~= old(self).cpus_view().update(
            index as int,
            with_online(old(self).cpus_view()[index as int], online),
        ));
    }

    fn set_cpu_governor(&mut self, index: usize, governor: String) {
        let ghost g = governor@;
        self.cpus[index].governor(governor);
        assert(self.cpus_view() =~= old(self).cpus_view().update(
            index as int,
            with_governor(old(self).cpus_view()[index as int], g),
        ));
    }

    fn cpu_governor(&self, index: usize) -> (r: &str) {
        self.cpus[index].get_governor()
    }

    fn set_cpu_clock_limits(&mut self, index: usize, limits: Option<MinMax<u64>>) {
        self.cpus[index].clock_limits(limits);
        assert(self.cpus_view() =~= old(self).cpus_view().update(
            index as int,
            with_clock_limits(old(self).cpus_view()[index as int], limits),
        ));
    }

    fn cpu_clock_limits(&self, index: usize) -> (r: Option<MinMax<u64>>) {
        match self.cpus[index].get_clock_limits() {
            Some(x) => Some(*x),
            None => None,
        }
    }

    fn provider(&self) -> (r: DriverJson) {
        DriverJson::Generic
    }
}

/// The writes of the first `n` CPUs, each online state written when `set_online(i)`.
pub open spec fn generic_cpu_writes(cpus: Seq<Cpu>, n: int, set_online: spec_fn(int) -> bool) -> Seq<CpuWrite>
    decreases n,
{
    if n <= 0 {
        seq![]
    } else {
        generic_cpu_writes(cpus, n - 1, set_online)
            + simple_cpu_writes(cpus[n - 1].index, cpus[n - 1].online, cpus[n - 1].governor, set_online(n - 1))
    }
}

/// The generic CPUs inside.
pub open spec fn generic_views<C: FromGenericCpuInfo>(cpus: Seq<C>) -> Seq<Cpu> {
    cpus.map_values(|c: C| c.generic_view())
}

impl<C: FromGenericCpuInfo> Cpus<C> {
    /// The writes that apply the CPUs, in order (the first that fails ends them): SMT when the
    /// system can switch it, then each CPU's online state (all with SMT on or when SMT cannot
    /// be switched, every even CPU otherwise) and governor. The CPUs remember which online
    /// states were written.
    pub fn on_set(&mut self) -> (r: Vec<CpuWrite>)
        ensures
            r@ == smt_writes(old(self).smt_capable, old(self).smt) + generic_cpu_writes(
                generic_views(old(self).cpus@),
                old(self).cpus@.len() as int,
                |i: int| old(self).smt || i % 2 == 0 || !old(self).smt_capable,
            ),
            final(self).smt == old(self).smt,
            final(self).smt_capable == old(self).smt_capable,
            final(self).cpus@.len() == old(self).cpus@.len(),
            forall|i: int| 0 <= i < final(self).cpus@.len() ==> {
                let (o, n) = (old(self).cpus@[i].generic_view(), #[trigger] final(self).cpus@[i].generic_view());
                &&& n == Cpu { state: CpuState { do_set_online: old(self).smt || i % 2 == 0 || !old(self).smt_capable, ..o.state }, ..o }
            },
            final(self).cpus_view() == old(self).cpus_view(),
    {
        let ghost old_cpus = generic_views(self.cpus@);
        let ghost old_views = self.cpus_view();
        let ghost f = |i: int| old(self).smt || i % 2 == 0 || !old(self).smt_capable;
        let mut out: Vec<CpuWrite> = Vec::new();
        if self.smt_capable {
            out.push(CpuWrite::Smt(self.smt));
        }
        assert(out@ =~= smt_writes(self.smt_capable, self.smt) + generic_cpu_writes(old_cpus, 0, f));
        let n = self.cpus.len();
        let mut i: usize = 0;
        while i < n
            invariant
                n == old_cpus.len(),
                old_cpus == generic_views(old(self).cpus@),
                old_views == old(self).cpus_view(),
                self.cpus@.len() == n,
                i <= n,
                self.smt == old(self).smt,
                self.smt_capable == old(self).smt_capable,
                f == (|i: int| old(self).smt || i % 2 == 0 || !old(self).smt_capable),
                out@ == smt_writes(self.smt_capable, self.smt) + generic_cpu_writes(old_cpus, i as int, f),
                forall|j: int| i <= j < n ==> #[trigger] self.cpus@[j] == old(self).cpus@[j],
                forall|j: int| 0 <= j < n ==> (#[trigger] self.cpus@[j]).cpu_view() == old_views[j],
                forall|j: int| 0 <= j < i ==> {
                    let (o, c) = (old_cpus[j], #[trigger] self.cpus@[j].generic_view());
                    &&& c == Cpu { state: CpuState { do_set_online: old(self).smt || j % 2 == 0 || !old(self).smt_capable, ..o.state }, ..o }
                },
            decreases n - i,
        {
            let set_online = self.smt || i % 2 == 0 || !self.smt_capable;
            let g = self.cpus[i].as_generic();
            push_simple_cpu_writes(&mut out, g.index, g.online, &g.governor, set_online);
            assert(out@ =~= smt_writes(self.smt_capable, self.smt) + generic_cpu_writes(old_cpus, i as int + 1, f));
            self.cpus[i].set_do_set_online(set_online);
            i = i + 1;
        }
        assert(self.cpus_view() =~= old_views);
        out
    }

    /// The writes that apply the CPUs again after a resume, in order (the first that fails ends
    /// them), with the online states marked by the last `on_set`.
    pub fn on_resume(&self) -> (r: Vec<CpuWrite>)
        ensures
            r@ == generic_cpu_writes(
                generic_views(self.cpus@),
                self.cpus@.len() as int,
                |i: int| self.cpus@[i].generic_view().state.do_set_online,
            ),
    {
        let ghost views = generic_views(self.cpus@);
        let ghost f = |i: int| self.cpus@[i].generic_view().state.do_set_online;
        let mut out: Vec<CpuWrite> = Vec::new();
        let n = self.cpus.len();
        let mut i: usize = 0;
        while i < n
            invariant
                n == self.cpus@.len(),
                views == generic_views(self.cpus@),
                i <= n,
                f == (|i: int| self.cpus@[i].generic_view().state.do_set_online),
                out@ == generic_cpu_writes(views, i as int, f),
            decreases n - i,
        {
            let g = self.cpus[i].as_generic();
            push_simple_cpu_writes(&mut out, g.index, g.online, &g.governor, g.state.do_set_online);
            assert(out@ =~= generic_cpu_writes(views, i as int + 1, f));
            i = i + 1;
        }
        out
    }
}

} // verus!
