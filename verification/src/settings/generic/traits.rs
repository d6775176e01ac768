//! Building generic CPUs from limits.

use vstd::prelude::*;

use super::cpu::Cpu;
use crate::limits::GenericCpuLimit;
use crate::persist::CpuJson;
use crate::settings::traits::TCpu;
use crate::settings::state::{fresh_cpu_state, CpuState};
use crate::settings::MinMax;

verus! {

/// Whether generic CPU limits give both clock ranges.
pub open spec fn has_clock_ranges(limits: GenericCpuLimit) -> bool {
    limits.clock_min is Some && limits.clock_max is Some
}

/// The clock limits read from a persisted CPU under generic limits: kept only when the limits
/// give both clock ranges.
pub open spec fn json_clock_limits_under(other: CpuJson, limits: GenericCpuLimit) -> Option<MinMax<u64>> {
    if has_clock_ranges(limits) {
        match other.clock_limits {
            Some(x) => Some(MinMax { max: x.max, min: x.min }),
            None => None,
        }
    } else {
        None
    }
}

/// A CPU that can be built from generic CPU limits.
pub trait FromGenericCpuInfo: TCpu {
    /// Whether CPUs of this kind built with these limits take clock limits.
    spec fn takes_clock_limits_with(limits: GenericCpuLimit) -> bool;

    fn from_limits(cpu_index: usize, limits: GenericCpuLimit) -> (r: Self)
        ensures
            r.cpu_view().online,
            r.cpu_view().governor == "schedutil"@,
            r.cpu_view().clock_limits is None,
            r.cpu_view().takes_clock_limits == Self::takes_clock_limits_with(limits),
            r.generic_view().index == cpu_index,
            r.generic_view().limits == limits,
            r.generic_view().state == fresh_cpu_state(),
    ;

    fn from_json_and_limits(other: CpuJson, version: u64, cpu_index: usize, limits: GenericCpuLimit) -> (r: Self)
        ensures
            r.cpu_view().online == other.online,
            r.cpu_view().governor == other.governor@,
            r.cpu_view().clock_limits == json_clock_limits_under(other, limits),
            r.cpu_view().takes_clock_limits == Self::takes_clock_limits_with(limits),
            r.generic_view().index == cpu_index,
            r.generic_view().limits == limits,
            r.generic_view().state == fresh_cpu_state(),
    ;

    /// The generic CPU inside.
    spec fn generic_view(&self) -> Cpu;

    fn as_generic(&self) -> (r: &Cpu)
        ensures
            *r == self.generic_view(),
    ;

    /// Mark whether the online state is to be written.
    fn set_do_set_online(&mut self, set_online: bool)
        ensures
            final(self).generic_view() == (Cpu {
                state: CpuState { do_set_online: set_online, ..old(self).generic_view().state },
                ..old(self).generic_view()
            }),
            final(self).cpu_view() == old(self).cpu_view(),
    ;
}

} // verus!
