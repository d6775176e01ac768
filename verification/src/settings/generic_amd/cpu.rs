//! CPUs of a generic AMD device: the generic CPUs, without clock limits.

use vstd::prelude::*;

use crate::limits::GenericCpuLimit;
use crate::persist::{CpuJson, DriverJson};
use crate::settings::generic::traits::{json_clock_limits_under, FromGenericCpuInfo};
use crate::settings::generic::{Cpu as GenericCpu, Cpus as GenericCpus};
use crate::settings::system::SystemFacts;
use crate::settings::util::{json_onlines, pairs_agree};
use crate::settings::{CpuView, MinMax, TCpu, TCpus};

verus! {

/// The CPUs of a generic AMD device.
#[derive(Debug)]
pub struct Cpus {
    pub generic: GenericCpus<Cpu>,
}

/// One CPU of a generic AMD device.
#[derive(Debug)]
pub struct Cpu {
    pub generic: GenericCpu,
}

impl Cpus {
    /// The CPUs of a device with these limits (see the generic CPUs).
    pub fn from_limits(limits: GenericCpuLimit, facts: &SystemFacts) -> (r: Self)
        ensures
            r.generic.is_from_limits(limits, *facts),
    {
        Cpus { generic: GenericCpus::from_limits(limits, facts) }
    }

    /// Read persisted CPUs under these limits (see the generic CPUs).
    pub fn from_json_and_limits(other: Vec<CpuJson>, version: u64, limits: GenericCpuLimit, facts: &SystemFacts) -> (r: Self)
        requires
            crate::settings::steam_deck::cpu::json_cpus_readable(other@.len() as int, facts.cpu_count),
        ensures
            r.generic.is_from_json_and_limits(other@, limits, *facts),
    {
        Cpus { generic: GenericCpus::from_json_and_limits(other, version, limits, facts) }
    }

    /// The limits of all CPUs as shown to the front-end (see the generic CPUs).
    pub fn limits(&self, governors: Vec<Vec<String>>) -> (r: crate::api::CpusLimits)
        requires
            governors@.len() == self.generic.cpus@.len(),
        ensures
            r@ == self.generic.limits_shown(governors.deep_view()),
            r.cpus@.len() == self.generic.cpus@.len(),
            r.count == self.generic.cpus@.len(),
            r.smt_capable == self.generic.smt_capable,
    {
        self.generic.limits(governors)
    }

    /// The writes that apply the CPUs (see the generic CPUs).
    pub fn on_set(&mut self) -> (r: Vec<crate::settings::steam_deck::cpu::CpuWrite>)
        ensures
            r@ == crate::settings::steam_deck::cpu::smt_writes(old(self).generic.smt_capable, old(self).generic.smt)
                + crate::settings::generic::cpu::generic_cpu_writes(
                crate::settings::generic::cpu::generic_views(old(self).generic.cpus@),
                old(self).generic.cpus@.len() as int,
                |i: int| old(self).generic.smt || i % 2 == 0 || !old(self).generic.smt_capable,
            ),
            final(self).cpus_view() == old(self).cpus_view(),
    {
        self.generic.on_set()
    }

    /// The writes that apply the CPUs again after a resume (see the generic CPUs).
    pub fn on_resume(&self) -> (r: Vec<crate::settings::steam_deck::cpu::CpuWrite>)
        ensures
            r@ == crate::settings::generic::cpu::generic_cpu_writes(
                crate::settings::generic::cpu::generic_views(self.generic.cpus@),
                self.generic.cpus@.len() as int,
                |i: int| self.generic.cpus@[i].generic_view().state.do_set_online,
            ),
    {
        self.generic.on_resume()
    }

    /// The persisted form of all CPUs.
    pub fn json(&self) -> (r: Vec<CpuJson>)
        ensures
            r@.len() == self.generic.cpus@.len(),
            forall|i: int| 0 <= i < r@.len() ==> {
                &&& #[trigger] r@[i].online == self.generic.cpus@[i].generic.online
                &&& r@[i].governor@ == self.generic.cpus@[i].generic.governor@
                &&& r@[i].clock_limits == crate::settings::traits::clock_limits_json(self.generic.cpus@[i].generic.clock_limits)
            },
    {
        self.generic.json()
    }
}

impl TCpu for Cpu {
    open spec fn cpu_view(&self) -> CpuView {
        CpuView {
            online: self.generic.online,
            governor: self.generic.governor@,
            clock_limits: self.generic.clock_limits,
            takes_clock_limits: false,
        }
    }

    fn online(&self) -> (r: bool) {
        self.generic.online
    }

    fn set_online(&mut self, online: bool) {
        self.generic.online = online;
    }

    fn governor(&mut self, governor: String) {
        self.generic.governor = governor;
    }

    fn get_governor(&self) -> (r: &str) {
        self.generic.governor.as_str()
    }

    /// Clock limits are not supported on this driver: the request is ignored.
    fn clock_limits(&mut self, _limits: Option<MinMax<u64>>)
        ensures
            *final(self) == *old(self),
    {
    }

    fn get_clock_limits(&self) -> (r: Option<&MinMax<u64>>) {
        self.generic.clock_limits.as_ref()
    }
}

impl FromGenericCpuInfo for Cpu {
    open spec fn takes_clock_limits_with(limits: GenericCpuLimit) -> bool {
        false
    }

    fn from_limits(cpu_index: usize, limits: GenericCpuLimit) -> (r: Self) {
        Cpu { generic: <GenericCpu as FromGenericCpuInfo>::from_limits(cpu_index, limits) }
    }

    fn from_json_and_limits(other: CpuJson, version: u64, cpu_index: usize, limits: GenericCpuLimit) -> (r: Self) {
        Cpu { generic: <GenericCpu as FromGenericCpuInfo>::from_json_and_limits(other, version, cpu_index, limits) }
    }

    open spec fn generic_view(&self) -> GenericCpu {
        self.generic
    }

    fn as_generic(&self) -> (r: &GenericCpu) {
        &self.generic
    }

    fn set_do_set_online(&mut self, set_online: bool) {
        self.generic.state.do_set_online = set_online;
    }
}

impl TCpus for Cpus {
    open spec fn cpus_view(&self) -> Seq<CpuView> {
        self.generic.cpus_view()
    }

    open spec fn smt_view(&self) -> bool {
        self.generic.smt
    }

    open spec fn provider_view(&self) -> DriverJson {
        DriverJson::GenericAMD
    }

    fn len(&self) -> (n: usize) {
        self.generic.len()
    }

    fn smt(&self) -> (r: bool) {
        self.generic.smt
    }

    fn set_smt(&mut self, smt: bool) {
        self.generic.set_smt(smt);
    }

    fn cpu_online(&self, index: usize) -> (r: bool) {
        self.generic.cpu_online(index)
    }

    fn set_cpu_online(&mut self, index: usize, online: bool) {
        self.generic.set_cpu_online(index, online);
    }

    fn set_cpu_governor(&mut self, index: usize, governor: String) {
        self.generic.set_cpu_governor(index, governor);
    }

    fn cpu_governor(&self, index: usize) -> (r: &str) {
        self.generic.cpu_governor(index)
    }

    /// Clock limits are not supported on this driver: the request changes nothing.
    fn set_cpu_clock_limits(&mut self, index: usize, limits: Option<MinMax<u64>>)
        ensures
            final(self).generic.cpus@ == old(self).generic.cpus@,
            final(self).generic.smt == old(self).generic.smt,
            final(self).generic.smt_capable == old(self).generic.smt_capable,
    {
        self.generic.cpus[index].clock_limits(limits);
        assert(self.generic.cpus@ =~= old(self).generic.cpus@);
        assert(self.cpus_view() =~= old(self).cpus_view().update(
            index as int,
            crate::settings::traits::with_clock_limits(old(self).cpus_view()[index as int], limits),
        ));
    }

    fn cpu_clock_limits(&self, index: usize) -> (r: Option<MinMax<u64>>) {
        self.generic.cpu_clock_limits(index)
    }

    fn provider(&self) -> (r: DriverJson) {
        DriverJson::GenericAMD
    }
}

} // verus!
