//! GPU of a generic AMD device: the generic GPU, applied through RyzenAdj.
//!
//! The library decides which RyzenAdj commands to run and keeps the bookkeeping of what was
//! overridden; the commands themselves are run by the caller, which owns the RyzenAdj handle.

use vstd::prelude::*;

use crate::limits::GenericGpuLimit;
use crate::persist::{DriverJson, GpuJson};
use crate::settings::generic::Gpu as GenericGpu;
use crate::settings::{GpuView, MinMax, SettingError, SettingVariant, TGpu};

verus! {

/// One RyzenAdj command.
#[derive(Debug, Clone, Copy, PartialEq, Eq, Structural)]
pub enum RyzenAdjCommand {
    /// Read the current fast power limit.
    ReadFastLimit,
    /// Read the current slow power limit.
    ReadSlowLimit,
    SetFastLimit(u64),
    SetSlowLimit(u64),
    SetMaxGfxClock(u64),
    SetMinGfxClock(u64),
}

/// What was overridden on the hardware, to be restored when a setting is unset.
#[derive(Debug, Clone, Copy, PartialEq, Eq, Structural)]
pub struct GpuState {
    pub old_fast_ppt: Option<u64>,
    pub old_slow_ppt: Option<u64>,
    pub clock_limits_set: bool,
}

/// Nothing overridden yet.
pub open spec fn fresh_gpu_state() -> GpuState {
    GpuState { old_fast_ppt: None, old_slow_ppt: None, clock_limits_set: false }
}

impl Default for GpuState {
    fn default() -> (r: Self)
        ensures
            r == fresh_gpu_state(),
    {
        GpuState { old_fast_ppt: None, old_slow_ppt: None, clock_limits_set: false }
    }
}

/// The GPU of a generic AMD device.
#[derive(Debug)]
pub struct Gpu {
    pub generic: GenericGpu,
    /// Whether a RyzenAdj handle could be opened on this machine.
    pub implementor_available: bool,
    pub state: GpuState,
}

/// The error when RyzenAdj cannot be used.
pub open spec fn is_unavailable_error(e: SettingError) -> bool {
    e.msg@ == "RyzenAdj unavailable"@ && e.setting == SettingVariant::Gpu
}

/// Commands for the fast power limit: apply it (remembering the previous value the first time),
/// or restore the remembered value once it is unset.
pub open spec fn fast_commands(g: Gpu) -> Seq<RyzenAdjCommand> {
    match g.generic.fast_ppt {
        Some(f) => if g.state.old_fast_ppt is None {
            seq![RyzenAdjCommand::ReadFastLimit, RyzenAdjCommand::SetFastLimit(f)]
        } else {
            seq![RyzenAdjCommand::SetFastLimit(f)]
        },
        None => match g.state.old_fast_ppt {
            Some(o) => seq![RyzenAdjCommand::SetFastLimit(o)],
            None => seq![],
        },
    }
}

/// Commands for the slow power limit, in the same way as the fast one.
pub open spec fn slow_commands(g: Gpu) -> Seq<RyzenAdjCommand> {
    match g.generic.slow_ppt {
        Some(s) => if g.state.old_slow_ppt is None {
            seq![RyzenAdjCommand::ReadSlowLimit, RyzenAdjCommand::SetSlowLimit(s)]
        } else {
            seq![RyzenAdjCommand::SetSlowLimit(s)]
        },
        None => match g.state.old_slow_ppt {
            Some(o) => seq![RyzenAdjCommand::SetSlowLimit(o)],
            None => seq![],
        },
    }
}

/// The clock commands for set clock limits: maximum first, then minimum, each when present.
pub open spec fn clock_limit_commands(c: MinMax<u64>) -> Seq<RyzenAdjCommand> {
    (match c.max { Some(m) => seq![RyzenAdjCommand::SetMaxGfxClock(m)], None => seq![] })
        + (match c.min { Some(m) => seq![RyzenAdjCommand::SetMinGfxClock(m)], None => seq![] })
}

/// Clock commands: apply the set limits, or, once they are unset, restore the full range of the
/// device's limits (only when both clock ranges are configured).
pub open spec fn clock_commands(g: Gpu) -> Seq<RyzenAdjCommand> {
    match g.generic.clock_limits {
        Some(c) => clock_limit_commands(c),
        None => if g.state.clock_limits_set {
            match (g.generic.limits.clock_min, g.generic.limits.clock_max) {
                (Some(cmin), Some(cmax)) => seq![
                    RyzenAdjCommand::SetMaxGfxClock(match cmax.max { Some(m) => m, None => 3_000 }),
                    RyzenAdjCommand::SetMinGfxClock(match cmin.min { Some(m) => m, None => 0 }),
                ],
                _ => seq![],
            }
        } else {
            seq![]
        },
    }
}

/// The bookkeeping after the commands of `set_all` were issued, before any reading came back.
pub open spec fn state_after_set(g: Gpu) -> GpuState {
    GpuState {
        old_fast_ppt: if g.generic.fast_ppt is None { None } else { g.state.old_fast_ppt },
        old_slow_ppt: if g.generic.slow_ppt is None { None } else { g.state.old_slow_ppt },
        clock_limits_set: g.generic.clock_limits is Some,
    }
}

/// The commands that re-apply the current settings after a resume.
pub open spec fn resume_commands(g: Gpu) -> Seq<RyzenAdjCommand> {
    (match g.generic.fast_ppt { Some(f) => seq![RyzenAdjCommand::SetFastLimit(f)], None => seq![] })
        + (match g.generic.slow_ppt { Some(s) => seq![RyzenAdjCommand::SetSlowLimit(s)], None => seq![] })
        + (match g.generic.clock_limits { Some(c) => clock_limit_commands(c), None => seq![] })
}

fn unavailable() -> (e: SettingError)
    ensures
        is_unavailable_error(e),
{
    SettingError { msg: String::from_str("RyzenAdj unavailable"), setting: SettingVariant::Gpu }
}

fn push_clock_limits(out: &mut Vec<RyzenAdjCommand>, c: MinMax<u64>)
    ensures
        final(out)@ == old(out)@ + clock_limit_commands(c),
{
    let ghost start = out@;
    if let Some(m) = c.max {
        out.push(RyzenAdjCommand::SetMaxGfxClock(m));
    }
    let ghost mid = out@;
    if let Some(m) = c.min {
        out.push(RyzenAdjCommand::SetMinGfxClock(m));
    }
    assert(out@ =~= start + clock_limit_commands(c));
}

impl Gpu {
    /// A GPU with these limits and nothing set.
    pub fn from_limits(limits: GenericGpuLimit, implementor_available: bool) -> (r: Self)
        ensures
            !r.generic.slow_memory,
            r.generic.fast_ppt is None && r.generic.slow_ppt is None && r.generic.clock_limits is None,
            r.generic.limits == limits,
            r.implementor_available == implementor_available,
            r.state == fresh_gpu_state(),
    {
        Gpu { generic: GenericGpu::from_limits(limits), implementor_available, state: GpuState::default() }
    }

    /// Read persisted GPU settings under these limits (see the generic GPU).
    pub fn from_json_and_limits(other: GpuJson, version: u64, limits: GenericGpuLimit, implementor_available: bool) -> (r: Self)
        ensures
            !r.generic.slow_memory,
            r.generic.fast_ppt == if limits.fast_ppt is Some { other.fast_ppt } else { None },
            r.generic.slow_ppt == if limits.slow_ppt is Some { other.slow_ppt } else { None },
            r.generic.clock_limits == if limits.clock_min is Some && limits.clock_max is Some {
                crate::settings::traits::gpu_json_clock_limits(other)
            } else {
                None
            },
            r.generic.limits == limits,
            r.implementor_available == implementor_available,
            r.state == fresh_gpu_state(),
    {
        Gpu {
            generic: GenericGpu::from_json_and_limits(other, version, limits),
            implementor_available,
            state: GpuState::default(),
        }
    }

    /// The RyzenAdj commands that apply the settings, in order, and the bookkeeping for them.
    ///
    /// A power limit is read before it is first overridden; the caller hands each value read back
    /// through `record_reading`. Without RyzenAdj nothing is issued and the error says so.
    pub fn set_all(&mut self) -> (r: Result<Vec<RyzenAdjCommand>, SettingError>)
        ensures
            !old(self).implementor_available ==> {
                &&& r matches Err(e) && is_unavailable_error(e)
                &&& *final(self) == *old(self)
            },
            old(self).implementor_available ==> {
                &&& r matches Ok(cmds) && cmds@ == set_all_commands(*old(self))
                &&& final(self).state == state_after_set(*old(self))
                &&& final(self).generic == old(self).generic
                &&& final(self).implementor_available
            },
    {
        if !self.implementor_available {
            return Err(unavailable());
        }
        let ghost g = *self;
        let mut cmds: Vec<RyzenAdjCommand> = Vec::new();
        match self.generic.fast_ppt {
            Some(f) => {
                if self.state.old_fast_ppt.is_none() {
                    cmds.push(RyzenAdjCommand::ReadFastLimit);
                }
                cmds.push(RyzenAdjCommand::SetFastLimit(f));
            },
            None => {
                if let Some(o) = self.state.old_fast_ppt {
                    cmds.push(RyzenAdjCommand::SetFastLimit(o));
                    self.state.old_fast_ppt = None;
                }
            },
        }
        assert(cmds@ =~= fast_commands(g));
        match self.generic.slow_ppt {
            Some(s) => {
                if self.state.old_slow_ppt.is_none() {
                    cmds.push(RyzenAdjCommand::ReadSlowLimit);
                }
                cmds.push(RyzenAdjCommand::SetSlowLimit(s));
            },
            None => {
                if let Some(o) = self.state.old_slow_ppt {
                    cmds.push(RyzenAdjCommand::SetSlowLimit(o));
                    self.state.old_slow_ppt = None;
                }
            },
        }
        assert(cmds@ =~= fast_commands(g) + slow_commands(g));
        match self.generic.clock_limits {
            Some(c) => {
                self.state.clock_limits_set = true;
                push_clock_limits(&mut cmds, c);
            },
            None => {
                if self.state.clock_limits_set {
                    self.state.clock_limits_set = false;
                    if let Some(cmin) = self.generic.limits.clock_min {
                        if let Some(cmax) = self.generic.limits.clock_max {
                            cmds.push(RyzenAdjCommand::SetMaxGfxClock(match cmax.max { Some(m) => m, None => 3_000 }));
                            cmds.push(RyzenAdjCommand::SetMinGfxClock(match cmin.min { Some(m) => m, None => 0 }));
                        }
                    }
                }
            },
        }
        assert(cmds@ =~= fast_commands(g) + slow_commands(g) + clock_commands(g));
        Ok(cmds)
    }

    /// Record a power limit that a read command of `set_all` returned, as the value to restore.
    ///
    /// Both readings are kept as the fast limit to restore: the slow limit read is recorded in
    /// the same place, so that only the fast limit is ever restored from a reading.
    pub fn record_reading(&mut self, command: RyzenAdjCommand, value: u64)
        ensures
            final(self).generic == old(self).generic,
            final(self).implementor_available == old(self).implementor_available,
            final(self).state == match command {
                RyzenAdjCommand::ReadFastLimit | RyzenAdjCommand::ReadSlowLimit =>
                    GpuState { old_fast_ppt: Some(value), ..old(self).state },
                _ => old(self).state,
            },
    {
        match command {
            RyzenAdjCommand::ReadFastLimit | RyzenAdjCommand::ReadSlowLimit => {
                self.state.old_fast_ppt = Some(value);
            },
            _ => {},
        }
    }

    /// The RyzenAdj commands that re-apply the current settings after a resume, bookkeeping
    /// unchanged. Failures of these commands are not reported.
    pub fn resume_all(&self) -> (r: Result<Vec<RyzenAdjCommand>, SettingError>)
        ensures
            !self.implementor_available ==> (r matches Err(e) && is_unavailable_error(e)),
            self.implementor_available ==> (r matches Ok(cmds) && cmds@ == resume_commands(*self)),
    {
        if !self.implementor_available {
            return Err(unavailable());
        }
        let mut cmds: Vec<RyzenAdjCommand> = Vec::new();
        if let Some(f) = self.generic.fast_ppt {
            cmds.push(RyzenAdjCommand::SetFastLimit(f));
        }
        if let Some(s) = self.generic.slow_ppt {
            cmds.push(RyzenAdjCommand::SetSlowLimit(s));
        }
        let ghost before = cmds@;
        if let Some(c) = self.generic.clock_limits {
            push_clock_limits(&mut cmds, c);
        }
        assert(cmds@ =~= resume_commands(*self));
        Ok(cmds)
    }
}

impl TGpu for Gpu {
    open spec fn gpu_view(&self) -> GpuView {
        self.generic.gpu_view()
    }

    open spec fn provider_view(&self) -> DriverJson {
        DriverJson::GenericAMD
    }

    open spec fn ppt_acceptable(&self, fast: Option<u64>, slow: Option<u64>) -> bool {
        true
    }

    open spec fn after_ppt(&self, fast: Option<u64>, slow: Option<u64>) -> GpuView {
        self.generic.after_ppt(fast, slow)
    }

    open spec fn after_clock_limits(&self, limits: Option<MinMax<u64>>) -> GpuView {
        self.generic.after_clock_limits(limits)
    }

    open spec fn ppt_shown(&self) -> (Option<u64>, Option<u64>) {
        self.generic.ppt_shown()
    }

    open spec fn gpu_wf(&self) -> bool {
        self.generic.gpu_wf()
    }

    fn is_well_formed(&self) -> (r: bool) {
        self.generic.is_well_formed()
    }

    fn accepts_ppt(&self, fast: Option<u64>, slow: Option<u64>) -> (r: bool) {
        self.generic.accepts_ppt(fast, slow)
    }

    open spec fn gpu_limits(&self) -> crate::api::GpuLimits {
        self.generic.gpu_limits()
    }

    fn limits(&self) -> (r: crate::api::GpuLimits) {
        self.generic.limits()
    }

    open spec fn persisted(&self) -> GpuJson {
        self.generic.persisted()
    }

    fn json(&self) -> (r: GpuJson) {
        self.generic.json()
    }

    fn ppt(&mut self, fast: Option<u64>, slow: Option<u64>)
        ensures
            final(self).generic.limits == old(self).generic.limits,
            final(self).implementor_available == old(self).implementor_available,
            final(self).state == old(self).state,
    {
        self.generic.ppt(fast, slow);
    }

    fn get_ppt(&self) -> (r: (Option<u64>, Option<u64>)) {
        self.generic.get_ppt()
    }

    fn clock_limits(&mut self, limits: Option<MinMax<u64>>)
        ensures
            final(self).generic.limits == old(self).generic.limits,
            final(self).implementor_available == old(self).implementor_available,
            final(self).state == old(self).state,
    {
        self.generic.clock_limits(limits);
    }

    fn get_clock_limits(&self) -> (r: Option<&MinMax<u64>>) {
        self.generic.get_clock_limits()
    }

    fn set_slow_memory(&mut self, slow: bool)
        ensures
            final(self).generic.limits == old(self).generic.limits,
            final(self).implementor_available == old(self).implementor_available,
            final(self).state == old(self).state,
    {
        self.generic.set_slow_memory(slow);
    }

    fn slow_memory(&self) -> (r: bool) {
        self.generic.slow_memory()
    }

    fn provider(&self) -> (r: DriverJson) {
        DriverJson::GenericAMD
    }
}

/// The fast power limit read before the first override is the one restored once the limit is
/// unset (when no slow power limit is read in the same pass: that reading is kept in the same
/// place).
pub proof fn fast_limit_restored(g: Gpu, reading: u64)
    requires
        g.generic.fast_ppt is Some,
        g.state.old_fast_ppt is None,
        !(g.generic.slow_ppt is Some && g.state.old_slow_ppt is None),
    ensures
        fast_commands(g)[0] == RyzenAdjCommand::ReadFastLimit,
        ({
            let after = Gpu { state: GpuState { old_fast_ppt: Some(reading), ..state_after_set(g) }, ..g };
            let unset = Gpu { generic: crate::settings::generic::Gpu { fast_ppt: None, ..g.generic }, ..after };
            fast_commands(unset) == seq![RyzenAdjCommand::SetFastLimit(reading)]
        }),
{
}

/// The RyzenAdj commands of `set_all`.
pub open spec fn set_all_commands(g: Gpu) -> Seq<RyzenAdjCommand> {
    fast_commands(g) + slow_commands(g) + clock_commands(g)
}

/// Each power limit command of `set_all` touches only the limit of the setting it comes from:
/// the slow limit is set to the slow setting (or, once unset, back to the value read before),
/// the fast limit to the fast setting (or back to its own value read before), a limit is read
/// only before its first override, and a set limit is always written.
pub proof fn power_limit_commands_match_settings(g: Gpu)
    ensures
        forall|i: int| 0 <= i < slow_commands(g).len() ==>
            (#[trigger] slow_commands(g)[i]) is ReadSlowLimit || slow_commands(g)[i] is SetSlowLimit,
        forall|i: int| 0 <= i < fast_commands(g).len() ==>
            (#[trigger] fast_commands(g)[i]) is ReadFastLimit || fast_commands(g)[i] is SetFastLimit,
        forall|i: int| 0 <= i < set_all_commands(g).len() ==> {
            &&& (#[trigger] set_all_commands(g)[i]) matches RyzenAdjCommand::SetSlowLimit(v) ==> (match g.generic.slow_ppt {
                Some(s) => v == s,
                None => g.state.old_slow_ppt == Some(v),
            })
            &&& set_all_commands(g)[i] matches RyzenAdjCommand::SetFastLimit(v) ==> (match g.generic.fast_ppt {
                Some(f) => v == f,
                None => g.state.old_fast_ppt == Some(v),
            })
            &&& set_all_commands(g)[i] is ReadSlowLimit ==> g.generic.slow_ppt is Some && g.state.old_slow_ppt is None
            &&& set_all_commands(g)[i] is ReadFastLimit ==> g.generic.fast_ppt is Some && g.state.old_fast_ppt is None
        },
        g.generic.slow_ppt matches Some(s) ==> set_all_commands(g).contains(RyzenAdjCommand::SetSlowLimit(s)),
        g.generic.fast_ppt matches Some(f) ==> set_all_commands(g).contains(RyzenAdjCommand::SetFastLimit(f)),
        g.generic.slow_ppt is None && g.state.old_slow_ppt is Some
            ==> set_all_commands(g).contains(RyzenAdjCommand::SetSlowLimit(g.state.old_slow_ppt->0)),
        g.generic.fast_ppt is None && g.state.old_fast_ppt is Some
            ==> set_all_commands(g).contains(RyzenAdjCommand::SetFastLimit(g.state.old_fast_ppt->0)),
{
    let f = fast_commands(g);
    let sl = slow_commands(g);
    let c = clock_commands(g);
    let all = set_all_commands(g);
    assert(forall|i: int| 0 <= i < c.len() ==> (#[trigger] c[i]) is SetMaxGfxClock || c[i] is SetMinGfxClock);
    assert forall|i: int| 0 <= i < all.len() implies {
        &&& (#[trigger] all[i]) matches RyzenAdjCommand::SetSlowLimit(v) ==> (match g.generic.slow_ppt {
            Some(s) => v == s,
            None => g.state.old_slow_ppt == Some(v),
        })
        &&& all[i] matches RyzenAdjCommand::SetFastLimit(v) ==> (match g.generic.fast_ppt {
            Some(f) => v == f,
            None => g.state.old_fast_ppt == Some(v),
        })
        &&& all[i] is ReadSlowLimit ==> g.generic.slow_ppt is Some && g.state.old_slow_ppt is None
        &&& all[i] is ReadFastLimit ==> g.generic.fast_ppt is Some && g.state.old_fast_ppt is None
    } by {
        if i < f.len() {
            assert(all[i] == f[i]);
        } else if i < f.len() + sl.len() {
            assert(all[i] == sl[i - f.len()]);
        } else {
            assert(all[i] == c[i - f.len() - sl.len()]);
        }
    }
    if let Some(s) = g.generic.slow_ppt {
        let k: int = if g.state.old_slow_ppt is None { 1 } else { 0 };
        assert(all[f.len() + k] == sl[k]);
    }
    if g.generic.slow_ppt is None && g.state.old_slow_ppt is Some {
        assert(all[f.len() as int] == sl[0]);
    }
    if let Some(x) = g.generic.fast_ppt {
        let k: int = if g.state.old_fast_ppt is None { 1 } else { 0 };
        assert(all[k] == f[k]);
    }
    if g.generic.fast_ppt is None && g.state.old_fast_ppt is Some {
        assert(all[0] == f[0]);
    }
}

} // verus!
