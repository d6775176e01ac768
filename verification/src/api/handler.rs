//! Requests from the front-end, and how each one changes the settings.

use vstd::prelude::*;

use crate::settings::general::{GeneralView, TGeneral};
use crate::settings::traits::{opt_string_view, with_clock_limits, with_governor, with_online};
use crate::persist::{DriverJson, SettingsJson};
use crate::settings::detect::EvaluatedConfig;
use crate::settings::driver::init_readable;
use crate::settings::general::{loaded_file, LoadedProfile, Settings};
use crate::settings::system::SystemFacts;
use crate::settings::util::str_eq;
use crate::settings::{CpuView, GpuView, MinMax, SettingError, TBattery, TCpus, TGpu};
use crate::api::{SettingsLimits, SettingsLimitsView};

verus! {

/// The online flags of a sequence of CPU views.
pub open spec fn onlines_of(v: Seq<CpuView>) -> Seq<bool> {
    v.map_values(|c: CpuView| c.online)
}

/// The governors of a sequence of CPU views.
pub open spec fn governors_of(v: Seq<CpuView>) -> Seq<Seq<char>> {
    v.map_values(|c: CpuView| c.governor)
}

/// CPU views with new online flags and everything else kept.
pub open spec fn with_onlines(v: Seq<CpuView>, onlines: Seq<bool>) -> Seq<CpuView> {
    Seq::new(v.len(), |j: int| with_online(v[j], onlines[j]))
}

/// The index of the highest online CPU, or -1 when none is online.
pub open spec fn last_online(s: Seq<bool>) -> int
    decreases s.len(),
{
    if s.len() == 0 {
        -1
    } else if s.last() {
        s.len() - 1
    } else {
        last_online(s.drop_last())
    }
}

/// Whether CPU `j` is online once SMT is switched on: every CPU up to the highest online one,
/// plus the sibling thread right after it when that one is an even CPU.
pub open spec fn online_after_smt_on(s: Seq<bool>, j: int) -> bool {
    let h = last_online(s);
    j <= h || (h >= 0 && h % 2 == 0 && j == h + 1)
}

/// Online flags after switching SMT on.
pub open spec fn smt_on_onlines(s: Seq<bool>) -> Seq<bool> {
    Seq::new(s.len(), |j: int| online_after_smt_on(s, j))
}

/// Online flags after switching SMT off: every odd CPU (a sibling thread) goes offline.
pub open spec fn smt_off_onlines(s: Seq<bool>) -> Seq<bool> {
    Seq::new(s.len(), |j: int| s[j] && j % 2 == 0)
}

/// Online flags after setting the first ones to `values`; CPUs past the end of `values` keep theirs.
pub open spec fn onlines_set_prefix(s: Seq<bool>, values: Seq<bool>) -> Seq<bool> {
    Seq::new(s.len(), |j: int| if j < values.len() { values[j] } else { s[j] })
}

/// CPU views after setting the governors of the first CPUs.
pub open spec fn governors_set_prefix(v: Seq<CpuView>, values: Seq<Seq<char>>) -> Seq<CpuView> {
    Seq::new(v.len(), |j: int| if j < values.len() { with_governor(v[j], values[j]) } else { v[j] })
}

/// The views of a list of strings.
pub open spec fn strings_view(v: Seq<String>) -> Seq<Seq<char>> {
    v.map_values(|s: String| s@)
}

proof fn lemma_last_online(s: Seq<bool>)
    ensures
        -1 <= last_online(s) < s.len(),
        last_online(s) >= 0 ==> s[last_online(s)],
        forall|j: int| last_online(s) < j < s.len() ==> !#[trigger] s[j],
    decreases s.len(),
{
    if s.len() > 0 && !s.last() {
        lemma_last_online(s.drop_last());
        assert forall|j: int| last_online(s) < j < s.len() implies !#[trigger] s[j] by {
            if j < s.len() - 1 {
                assert(s[j] == s.drop_last()[j]);
            }
        }
    }
}

/// A request about the CPUs.
pub enum CpuMessage {
    SetCpuOnline(usize, bool),
    SetCpusOnline(Vec<bool>),
    SetSmt(bool),
    GetSmt,
    GetCpusOnline,
    SetClockLimits(usize, Option<MinMax<u64>>),
    GetClockLimits(usize),
    SetCpuGovernor(usize, String),
    SetCpusGovernor(Vec<String>),
    GetCpusGovernor,
}

/// The answer to a request about the CPUs.
pub enum CpuReply {
    /// The request asks for no answer (or named no existing CPU).
    Nothing,
    Onlines(Vec<bool>),
    Smt(bool),
    ClockLimits(Option<MinMax<u64>>),
    Governors(Vec<String>),
}

/// Whether a CPU request modifies the settings.
pub open spec fn cpu_message_modifies(m: CpuMessage) -> bool {
    match m {
        CpuMessage::SetCpuOnline(..) | CpuMessage::SetCpusOnline(..) | CpuMessage::SetSmt(..)
        | CpuMessage::SetClockLimits(..) | CpuMessage::SetCpuGovernor(..)
        | CpuMessage::SetCpusGovernor(..) => true,
        _ => false,
    }
}

/// The CPU views after a request.
pub open spec fn cpu_message_cpus(m: CpuMessage, v: Seq<CpuView>, smt: bool) -> Seq<CpuView> {
    match m {
        CpuMessage::SetCpuOnline(i, online) => if i < v.len() {
            v.update(i as int, with_online(v[i as int], online))
        } else {
            v
        },
        CpuMessage::SetCpusOnline(values) => with_onlines(v, onlines_set_prefix(onlines_of(v), values@)),
        CpuMessage::SetSmt(status) => if smt == status {
            v
        } else if status {
            with_onlines(v, smt_on_onlines(onlines_of(v)))
        } else {
            with_onlines(v, smt_off_onlines(onlines_of(v)))
        },
        CpuMessage::SetClockLimits(i, limits) => if i < v.len() {
            v.update(i as int, with_clock_limits(v[i as int], limits))
        } else {
            v
        },
        CpuMessage::SetCpuGovernor(i, g) => if i < v.len() {
            v.update(i as int, with_governor(v[i as int], g@))
        } else {
            v
        },
        CpuMessage::SetCpusGovernor(values) => governors_set_prefix(v, strings_view(values@)),
        _ => v,
    }
}

/// The SMT switch after a request.
pub open spec fn cpu_message_smt(m: CpuMessage, smt: bool) -> bool {
    match m {
        CpuMessage::SetSmt(status) => status,
        _ => smt,
    }
}

/// Whether a reply answers a request, given the CPU views and SMT switch after it.
pub open spec fn cpu_reply_matches(m: CpuMessage, r: CpuReply, after: Seq<CpuView>, smt: bool) -> bool {
    match m {
        CpuMessage::SetSmt(_) | CpuMessage::GetCpusOnline => r matches CpuReply::Onlines(o) && o@ == onlines_of(after),
        CpuMessage::GetSmt => r == CpuReply::Smt(smt),
        CpuMessage::GetClockLimits(i) => if i < after.len() {
            r == CpuReply::ClockLimits(after[i as int].clock_limits)
        } else {
            r is Nothing
        },
        CpuMessage::GetCpusGovernor => r matches CpuReply::Governors(g) && strings_view(g@) == governors_of(after),
        _ => r is Nothing,
    }
}

fn collect_onlines<C: TCpus>(settings: &C) -> (r: Vec<bool>)
    ensures
        r@ == onlines_of(settings.cpus_view()),
{
    let n = settings.len();
    let mut result: Vec<bool> = Vec::with_capacity(n);
    let mut i: usize = 0;
    while i < n
        invariant
            n == settings.cpus_view().len(),
            i <= n,
            result@ =~= onlines_of(settings.cpus_view()).take(i as int),
        decreases n - i,
    {
        let online = settings.cpu_online(i);
        result.push(online);
        i = i + 1;
    }
    assert(onlines_of(settings.cpus_view()).take(n as int) =~= onlines_of(settings.cpus_view()));
    result
}

fn switch_smt_on<C: TCpus>(settings: &mut C)
    ensures
        final(settings).smt_view(),
        final(settings).provider_view() == old(settings).provider_view(),
        final(settings).cpus_view() == with_onlines(
            old(settings).cpus_view(),
            smt_on_onlines(onlines_of(old(settings).cpus_view())),
        ),
{
    let ghost old_views = settings.cpus_view();
    let ghost s = onlines_of(old_views);
    let ghost h = last_online(s);
    proof {
        lemma_last_online(s);
    }
    settings.set_smt(true);
    let n = settings.len();
    let mut should_be_online = false;
    let mut i = n;
    while i > 0
        invariant
            n == old_views.len(),
            s == onlines_of(old_views),
            h == last_online(s),
            -1 <= h < n,
            h >= 0 ==> s[h],
            forall|j: int| h < j < n ==> !#[trigger] s[j],
            settings.smt_view(),
            settings.provider_view() == old(settings).provider_view(),
            settings.cpus_view().len() == n,
            i <= n,
            should_be_online == (h >= i),
            forall|j: int| 0 <= j < n ==> #[trigger] settings.cpus_view()[j] == with_online(old_views[j], settings.cpus_view()[j].online),
            forall|j: int| 0 <= j < i ==> #[trigger] settings.cpus_view()[j].online == s[j],
            forall|j: int| i <= j < n ==> #[trigger] settings.cpus_view()[j].online == (if h >= i { online_after_smt_on(s, j) } else { false }),
        decreases i,
    {
        i = i - 1;
        let online = settings.cpu_online(i);
        if online && !should_be_online {
            assert(s[i as int]);
            should_be_online = true;
            if i % 2 == 0 && i + 1 != n {
                settings.set_cpu_online(i + 1, true);
            }
        } else {
            settings.set_cpu_online(i, should_be_online);
        }
    }
    assert(settings.cpus_view() =~= with_onlines(old_views, smt_on_onlines(s)));
}

fn switch_smt_off<C: TCpus>(settings: &mut C)
    ensures
        !final(settings).smt_view(),
        final(settings).provider_view() == old(settings).provider_view(),
        final(settings).cpus_view() == with_onlines(
            old(settings).cpus_view(),
            smt_off_onlines(onlines_of(old(settings).cpus_view())),
        ),
{
    let ghost old_views = settings.cpus_view();
    let ghost s = onlines_of(old_views);
    settings.set_smt(false);
    let n = settings.len();
    let mut i: usize = 0;
    while i < n
        invariant
            n == old_views.len(),
            s == onlines_of(old_views),
            !settings.smt_view(),
            settings.provider_view() == old(settings).provider_view(),
            settings.cpus_view().len() == n,
            i <= n,
            forall|j: int| 0 <= j < n ==> #[trigger] settings.cpus_view()[j] == with_online(old_views[j], settings.cpus_view()[j].online),
            forall|j: int| 0 <= j < i ==> #[trigger] settings.cpus_view()[j].online == (s[j] && j % 2 == 0),
            forall|j: int| i <= j < n ==> #[trigger] settings.cpus_view()[j].online == s[j],
        decreases n - i,
    {
        let online = settings.cpu_online(i);
        settings.set_cpu_online(i, online && i % 2 == 0);
        i = i + 1;
    }
    assert(settings.cpus_view() =~= with_onlines(old_views, smt_off_onlines(s)));
}

impl CpuMessage {
    /// Apply the request to the CPUs; returns whether the settings were modified, and the answer.
    pub fn process<C: TCpus>(self, settings: &mut C) -> (r: (bool, CpuReply))
        ensures
            r.0 == cpu_message_modifies(self),
            final(settings).cpus_view() == cpu_message_cpus(self, old(settings).cpus_view(), old(settings).smt_view()),
            final(settings).smt_view() == cpu_message_smt(self, old(settings).smt_view()),
            final(settings).provider_view() == old(settings).provider_view(),
            cpu_reply_matches(self, r.1, final(settings).cpus_view(), final(settings).smt_view()),
    {
        let dirty = self.is_modify();
        let ghost msg = self;
        let ghost old_views = settings.cpus_view();
        let reply = match self {
            CpuMessage::SetCpuOnline(index, status) => {
                if index < settings.len() {
                    settings.set_cpu_online(index, status);
                }
                CpuReply::Nothing
            },
            CpuMessage::SetCpusOnline(cpus) => {
                let n = settings.len();
                let mut i: usize = 0;
                while i < cpus.len()
                    invariant
                        n == old_views.len(),
                        settings.cpus_view().len() == n,
                        settings.smt_view() == old(settings).smt_view(),
                        settings.provider_view() == old(settings).provider_view(),
                        forall|j: int| 0 <= j < n ==> #[trigger] settings.cpus_view()[j] == with_online(old_views[j], settings.cpus_view()[j].online),
                        forall|j: int| 0 <= j < n ==> #[trigger] settings.cpus_view()[j].online == (if j < i && j < cpus@.len() { cpus@[j] } else { old_views[j].online }),
                    decreases cpus@.len() - i,
                {
                    if i < n {
                        settings.set_cpu_online(i, cpus[i]);
                    }
                    i = i + 1;
                }
                assert(settings.cpus_view() =~= with_onlines(old_views, onlines_set_prefix(onlines_of(old_views), cpus@)));
                CpuReply::Nothing
            },
            CpuMessage::SetSmt(status) => {
                if settings.smt() == status {
                    // already set, nothing to do
                } else if status {
                    switch_smt_on(settings);
                } else {
                    switch_smt_off(settings);
                }
                CpuReply::Onlines(collect_onlines(settings))
            },
            CpuMessage::GetSmt => CpuReply::Smt(settings.smt()),
            CpuMessage::GetCpusOnline => CpuReply::Onlines(collect_onlines(settings)),
            CpuMessage::SetClockLimits(index, clocks) => {
                if index < settings.len() {
                    settings.set_cpu_clock_limits(index, clocks);
                }
                CpuReply::Nothing
            },
            CpuMessage::GetClockLimits(index) => {
                if index < settings.len() {
                    CpuReply::ClockLimits(settings.cpu_clock_limits(index))
                } else {
                    CpuReply::Nothing
                }
            },
            CpuMessage::SetCpuGovernor(index, gov) => {
                if index < settings.len() {
                    settings.set_cpu_governor(index, gov);
                }
                CpuReply::Nothing
            },
            CpuMessage::SetCpusGovernor(govs) => {
                let n = settings.len();
                let mut i: usize = 0;
                while i < govs.len()
                    invariant
                        n == old_views.len(),
                        settings.cpus_view().len() == n,
                        settings.smt_view() == old(settings).smt_view(),
                        settings.provider_view() == old(settings).provider_view(),
                        forall|j: int| 0 <= j < n ==> #[trigger] settings.cpus_view()[j] == (if j < i && j < govs@.len() { with_governor(old_views[j], govs@[j]@) } else { old_views[j] }),
                    decreases govs@.len() - i,
                {
                    if i < n {
                        settings.set_cpu_governor(i, govs[i].clone());
                    }
                    i = i + 1;
                }
                assert(settings.cpus_view() =~= governors_set_prefix(old_views, strings_view(govs@)));
                CpuReply::Nothing
            },
            CpuMessage::GetCpusGovernor => {
                let n = settings.len();
                let mut result: Vec<String> = Vec::with_capacity(n);
                let mut i: usize = 0;
                while i < n
                    invariant
                        n == settings.cpus_view().len(),
                        i <= n,
                        result@.len() == i,
                        strings_view(result@) =~= governors_of(settings.cpus_view()).take(i as int),
                    decreases n - i,
                {
                    let g = settings.cpu_governor(i);
                    let owned = g.to_owned();
                    let ghost prev = result@;
                    result.push(owned);
                    proof {
                        assert(result@ == prev.push(owned));
                        assert forall|k: int| 0 <= k < i + 1 implies #[trigger] strings_view(result@)[k] == governors_of(settings.cpus_view())[k] by {
                            if k < i {
                                assert(strings_view(prev)[k] == governors_of(settings.cpus_view())[k]);
                            }
                        }
                        assert(strings_view(result@) =~= governors_of(settings.cpus_view()).take(i + 1));
                    }
                    i = i + 1;
                }
                assert(governors_of(settings.cpus_view()).take(n as int) =~= governors_of(settings.cpus_view()));
                CpuReply::Governors(result)
            },
        };
        (dirty, reply)
    }

    /// Whether the request modifies the settings.
    pub fn is_modify(&self) -> (r: bool)
        ensures
            r == cpu_message_modifies(*self),
    {
        match self {
            CpuMessage::SetCpuOnline(..) | CpuMessage::SetCpusOnline(..) | CpuMessage::SetSmt(..)
            | CpuMessage::SetClockLimits(..) | CpuMessage::SetCpuGovernor(..)
            | CpuMessage::SetCpusGovernor(..) => true,
            _ => false,
        }
    }
}

/// A request about the GPU.
pub enum GpuMessage {
    /// Set the (fast, slow) power limits.
    SetPpt(Option<u64>, Option<u64>),
    GetPpt,
    SetClockLimits(Option<MinMax<u64>>),
    GetClockLimits,
    SetSlowMemory(bool),
    GetSlowMemory,
}

/// The answer to a request about the GPU.
pub enum GpuReply {
    Nothing,
    Ppt(Option<u64>, Option<u64>),
    ClockLimits(Option<MinMax<u64>>),
    SlowMemory(bool),
}

/// Whether a GPU request modifies the settings.
pub open spec fn gpu_message_modifies(m: GpuMessage) -> bool {
    m is SetPpt || m is SetClockLimits || m is SetSlowMemory
}

/// Whether a GPU request can be applied to a GPU.
pub open spec fn gpu_message_acceptable<G: TGpu>(m: GpuMessage, g: G) -> bool {
    m matches GpuMessage::SetPpt(fast, slow) ==> g.ppt_acceptable(fast, slow)
}

/// The GPU view after a request.
pub open spec fn gpu_message_view<G: TGpu>(m: GpuMessage, g: G) -> GpuView {
    match m {
        GpuMessage::SetPpt(fast, slow) => g.after_ppt(fast, slow),
        GpuMessage::SetClockLimits(limits) => g.after_clock_limits(limits),
        GpuMessage::SetSlowMemory(slow) => GpuView { slow_memory: slow, ..g.gpu_view() },
        _ => g.gpu_view(),
    }
}

/// Whether a reply answers a GPU request, given the GPU after it.
pub open spec fn gpu_reply_matches<G: TGpu>(m: GpuMessage, r: GpuReply, g: G) -> bool {
    match m {
        GpuMessage::GetPpt => r == GpuReply::Ppt(g.ppt_shown().0, g.ppt_shown().1),
        GpuMessage::GetClockLimits => r == GpuReply::ClockLimits(g.gpu_view().clock_limits),
        GpuMessage::GetSlowMemory => r == GpuReply::SlowMemory(g.gpu_view().slow_memory),
        _ => r is Nothing,
    }
}

impl GpuMessage {
    /// Whether the request modifies the settings.
    pub fn is_modify(&self) -> (r: bool)
        ensures
            r == gpu_message_modifies(*self),
    {
        match self {
            GpuMessage::SetPpt(..) | GpuMessage::SetClockLimits(..) | GpuMessage::SetSlowMemory(..) => true,
            _ => false,
        }
    }

    /// Apply the request to the GPU; returns whether the settings were modified, and the answer.
    pub fn process<G: TGpu>(self, settings: &mut G) -> (r: (bool, GpuReply))
        requires
            old(settings).gpu_wf(),
            gpu_message_acceptable(self, *old(settings)),
        ensures
            r.0 == gpu_message_modifies(self),
            final(settings).gpu_view() == gpu_message_view(self, *old(settings)),
            final(settings).provider_view() == old(settings).provider_view(),
            final(settings).gpu_wf(),
            gpu_reply_matches(self, r.1, *final(settings)),
    {
        let dirty = self.is_modify();
        let reply = match self {
            GpuMessage::SetPpt(fast, slow) => {
                settings.ppt(fast, slow);
                GpuReply::Nothing
            },
            GpuMessage::GetPpt => {
                let (fast, slow) = settings.get_ppt();
                GpuReply::Ppt(fast, slow)
            },
            GpuMessage::SetClockLimits(limits) => {
                settings.clock_limits(limits);
                GpuReply::Nothing
            },
            GpuMessage::GetClockLimits => {
                let limits = match settings.get_clock_limits() {
                    Some(x) => Some(*x),
                    None => None,
                };
                GpuReply::ClockLimits(limits)
            },
            GpuMessage::SetSlowMemory(slow) => {
                settings.set_slow_memory(slow);
                GpuReply::Nothing
            },
            GpuMessage::GetSlowMemory => GpuReply::SlowMemory(settings.slow_memory()),
        };
        (dirty, reply)
    }
}

/// A request about the general settings.
pub enum GeneralMessage {
    SetPersistent(bool),
    GetPersistent,
    GetCurrentProfileName,
}

/// The answer to a request about the general settings.
pub enum GeneralReply {
    Nothing,
    Persistent(bool),
    ProfileName(String),
}

/// Whether a general request modifies the settings.
pub open spec fn general_message_modifies(m: GeneralMessage) -> bool {
    m is SetPersistent
}

impl GeneralMessage {
    /// Whether the request modifies the settings.
    pub fn is_modify(&self) -> (r: bool)
        ensures
            r == general_message_modifies(*self),
    {
        match self {
            GeneralMessage::SetPersistent(_) => true,
            _ => false,
        }
    }

    /// Apply the request to the general settings; returns whether they were modified, and the
    /// answer.
    pub fn process<T: TGeneral>(self, settings: &mut T) -> (r: (bool, GeneralReply))
        ensures
            r.0 == general_message_modifies(self),
            final(settings).general_view() == match self {
                GeneralMessage::SetPersistent(p) => GeneralView { persistent: p, ..old(settings).general_view() },
                _ => old(settings).general_view(),
            },
            final(settings).events_view() == old(settings).events_view(),
            match self {
                GeneralMessage::GetPersistent => r.1 == GeneralReply::Persistent(final(settings).general_view().persistent),
                GeneralMessage::GetCurrentProfileName => r.1 matches GeneralReply::ProfileName(n) && n@ == final(settings).general_view().name,
                _ => r.1 is Nothing,
            },
    {
        let dirty = self.is_modify();
        let reply = match self {
            GeneralMessage::SetPersistent(p) => {
                settings.set_persistent(p);
                GeneralReply::Nothing
            },
            GeneralMessage::GetPersistent => GeneralReply::Persistent(settings.get_persistent()),
            GeneralMessage::GetCurrentProfileName => GeneralReply::ProfileName(String::from_str(settings.get_name())),
        };
        (dirty, reply)
    }
}

/// A request about the battery (readings of the battery's charge are answered by the program
/// around the library).
pub enum BatteryMessage {
    SetChargeRate(Option<u64>),
    GetChargeRate,
    SetChargeMode(Option<String>),
    GetChargeMode,
}

/// The answer to a request about the battery.
pub enum BatteryReply {
    Nothing,
    ChargeRate(Option<u64>),
    ChargeMode(Option<String>),
}

/// Whether a battery request modifies the settings.
pub open spec fn battery_message_modifies(m: BatteryMessage) -> bool {
    m is SetChargeRate || m is SetChargeMode
}

impl BatteryMessage {
    /// Whether the request modifies the settings.
    pub fn is_modify(&self) -> (r: bool)
        ensures
            r == battery_message_modifies(*self),
    {
        match self {
            BatteryMessage::SetChargeRate(_) | BatteryMessage::SetChargeMode(_) => true,
            _ => false,
        }
    }

    /// Apply the request to the battery; returns whether it was modified, and the answer.
    pub fn process<B: TBattery>(self, settings: &mut B) -> (r: (bool, BatteryReply))
        ensures
            r.0 == battery_message_modifies(self),
            final(settings).battery_view() == match self {
                BatteryMessage::SetChargeRate(rate) => old(settings).after_charge_rate(rate),
                BatteryMessage::SetChargeMode(mode) => old(settings).after_charge_mode(opt_string_view(mode)),
                _ => old(settings).battery_view(),
            },
            final(settings).provider_view() == old(settings).provider_view(),
            match self {
                BatteryMessage::GetChargeRate => r.1 == BatteryReply::ChargeRate(final(settings).battery_view().charge_rate),
                BatteryMessage::GetChargeMode => r.1 matches BatteryReply::ChargeMode(m) && opt_string_view(m) == final(settings).battery_view().charge_mode,
                _ => r.1 is Nothing,
            },
    {
        let dirty = self.is_modify();
        let reply = match self {
            BatteryMessage::SetChargeRate(rate) => {
                settings.charge_rate(rate);
                BatteryReply::Nothing
            },
            BatteryMessage::GetChargeRate => BatteryReply::ChargeRate(settings.get_charge_rate()),
            BatteryMessage::SetChargeMode(mode) => {
                settings.charge_mode(mode);
                BatteryReply::Nothing
            },
            BatteryMessage::GetChargeMode => BatteryReply::ChargeMode(settings.get_charge_mode()),
        };
        (dirty, reply)
    }
}

/// A request to the settings worker.
pub enum ApiMessage {
    Battery(BatteryMessage),
    Cpu(CpuMessage),
    Gpu(GpuMessage),
    General(GeneralMessage),
    /// The device resumed from sleep.
    OnResume,
    /// Answer once the requests queued so far are applied.
    WaitForEmptyQueue,
    /// Load the profile `path` under `name`; `json_path` is where its file is, `file` the outcome
    /// of reading it (see `Settings::load_file`).
    LoadSettings { path: String, name: String, json_path: String, file: Option<Result<SettingsJson, String>> },
    /// Load the main profile, falling back to the system's settings.
    LoadMainSettings { json_path: String, file: Option<Result<SettingsJson, String>> },
    /// Reset to the system's settings, keeping the profile name.
    LoadSystemSettings,
    /// The limits of all parts; `governors[i]` are those CPU `i` offers.
    GetLimits(Vec<Vec<String>>),
    /// The driver of a part: `battery`, `cpu` or `cpus`, `gpu`, or anything else for the general
    /// settings.
    GetProvider(String),
}

/// The answer to a request to the settings worker.
pub enum ApiReply {
    Nothing,
    Battery(BatteryReply),
    Cpu(CpuReply),
    Gpu(GpuReply),
    General(GeneralReply),
    /// Re-apply the settings (see the drivers' resume plans).
    Resume,
    /// The caller waits for the end of the batch of requests.
    Queued,
    Loaded(Result<LoadedProfile, SettingError>),
    Limits(SettingsLimits),
    Provider(DriverJson),
}

/// Whether a request modifies the settings.
pub open spec fn api_message_modifies(m: ApiMessage) -> bool {
    match m {
        ApiMessage::Battery(x) => battery_message_modifies(x),
        ApiMessage::Cpu(x) => cpu_message_modifies(x),
        ApiMessage::Gpu(x) => gpu_message_modifies(x),
        ApiMessage::General(x) => general_message_modifies(x),
        ApiMessage::LoadSettings { .. } | ApiMessage::LoadMainSettings { .. } | ApiMessage::LoadSystemSettings => true,
        _ => false,
    }
}

/// Whether a request can be applied to the settings: GPU requests and limits need consistent
/// GPU limits, power limits must be representable, and a persistent profile's CPUs must be
/// readable by the driver it leads to.
pub open spec fn api_message_acceptable(m: ApiMessage, s: Settings, configs: Seq<EvaluatedConfig>, facts: SystemFacts) -> bool {
    match m {
        ApiMessage::Gpu(x) => s.gpu.gpu_wf() && gpu_message_acceptable(x, s.gpu),
        ApiMessage::GetLimits(_) => s.gpu.gpu_wf(),
        ApiMessage::LoadSettings { file, .. } | ApiMessage::LoadMainSettings { file, .. } => match file {
            Some(Ok(sj)) => sj.persistent ==> init_readable(sj, configs, facts),
            _ => true,
        },
        _ => true,
    }
}

/// The part a provider request names.
pub open spec fn provider_of(s: Settings, part: Seq<char>) -> DriverJson {
    if part == "battery"@ {
        s.battery.provider_view()
    } else if part == "cpu"@ || part == "cpus"@ {
        s.cpus.provider_view()
    } else if part == "gpu"@ {
        s.gpu.provider_view()
    } else {
        s.general.driver
    }
}

/// What follows the end of a batch of requests.
#[derive(Debug, Clone, Copy)]
pub enum BatchEnd {
    /// No request modified the settings: nothing to do.
    Unchanged,
    /// Apply the settings, answer the waiting callers, then save the profile (when persistent)
    /// or delete its file (when not).
    Apply { save: bool },
}

/// The settings worker: applies requests to the settings.
#[derive(Debug)]
pub struct ApiMessageHandler {}

/// The governors each CPU is shown to offer: those given when there is one list per CPU, else none.
pub open spec fn governors_offered(given: Seq<Seq<Seq<char>>>, count: int) -> Seq<Seq<Seq<char>>> {
    if given.len() == count {
        given
    } else {
        Seq::new(count as nat, |i: int| Seq::<Seq<char>>::empty())
    }
}

fn empty_governors(n: usize) -> (r: Vec<Vec<String>>)
    ensures
        r@.len() == n,
        r.deep_view() == Seq::new(n as nat, |i: int| Seq::<Seq<char>>::empty()),
{
    let mut v: Vec<Vec<String>> = Vec::with_capacity(n);
    let mut i: usize = 0;
    while i < n
        invariant
            i <= n,
            v@.len() == i,
            forall|j: int| 0 <= j < i ==> (#[trigger] v@[j])@.len() == 0,
        decreases n - i,
    {
        v.push(Vec::new());
        i = i + 1;
    }
    assert(v.deep_view() =~= Seq::new(n as nat, |i: int| Seq::<Seq<char>>::empty())) by {
        assert forall|j: int| 0 <= j < n implies #[trigger] v.deep_view()[j] =~= Seq::<Seq<char>>::empty() by {
            assert(v@[j]@.len() == 0);
        }
    }
    v
}

impl ApiMessageHandler {
    pub fn new() -> (r: Self) {
        ApiMessageHandler {}
    }

    /// Apply a request; returns whether the settings were modified, and the answer.
    pub fn process(
        &mut self,
        settings: &mut Settings,
        message: ApiMessage,
        configs: &Vec<EvaluatedConfig>,
        facts: &SystemFacts,
    ) -> (r: (bool, ApiReply))
        requires
            api_message_acceptable(message, *old(settings), configs@, *facts),
        ensures
            r.0 == api_message_modifies(message),
            match message {
                ApiMessage::Battery(x) => {
                    &&& final(settings).battery.battery_view() == match x {
                        BatteryMessage::SetChargeRate(rate) => old(settings).battery.after_charge_rate(rate),
                        BatteryMessage::SetChargeMode(mode) => old(settings).battery.after_charge_mode(opt_string_view(mode)),
                        _ => old(settings).battery.battery_view(),
                    }
                    &&& final(settings).battery.provider_view() == old(settings).battery.provider_view()
                    &&& r.1 matches ApiReply::Battery(b) && match x {
                        BatteryMessage::GetChargeRate => b == BatteryReply::ChargeRate(final(settings).battery.battery_view().charge_rate),
                        BatteryMessage::GetChargeMode => b matches BatteryReply::ChargeMode(m)
                            && opt_string_view(m) == final(settings).battery.battery_view().charge_mode,
                        _ => b is Nothing,
                    }
                    &&& final(settings).general == old(settings).general
                    &&& final(settings).cpus == old(settings).cpus
                    &&& final(settings).gpu == old(settings).gpu
                },
                ApiMessage::Cpu(x) => {
                    &&& final(settings).cpus.cpus_view() == cpu_message_cpus(x, old(settings).cpus.cpus_view(), old(settings).cpus.smt_view())
                    &&& final(settings).cpus.smt_view() == cpu_message_smt(x, old(settings).cpus.smt_view())
                    &&& final(settings).cpus.provider_view() == old(settings).cpus.provider_view()
                    &&& r.1 matches ApiReply::Cpu(c) && cpu_reply_matches(x, c, final(settings).cpus.cpus_view(), final(settings).cpus.smt_view())
                    &&& final(settings).general == old(settings).general
                    &&& final(settings).gpu == old(settings).gpu
                    &&& final(settings).battery == old(settings).battery
                },
                ApiMessage::Gpu(x) => {
                    &&& final(settings).gpu.gpu_view() == gpu_message_view(x, old(settings).gpu)
                    &&& final(settings).gpu.provider_view() == old(settings).gpu.provider_view()
                    &&& final(settings).gpu.gpu_wf()
                    &&& r.1 matches ApiReply::Gpu(g) && gpu_reply_matches(x, g, final(settings).gpu)
                    &&& final(settings).general == old(settings).general
                    &&& final(settings).cpus == old(settings).cpus
                    &&& final(settings).battery == old(settings).battery
                },
                ApiMessage::General(x) => {
                    &&& final(settings).general.persistent == match x {
                        GeneralMessage::SetPersistent(p) => p,
                        _ => old(settings).general.persistent,
                    }
                    &&& final(settings).general.name@ == old(settings).general.name@
                    &&& final(settings).general.path@ == old(settings).general.path@
                    &&& final(settings).general.driver == old(settings).general.driver
                    &&& final(settings).general.events == old(settings).general.events
                    &&& r.1 matches ApiReply::General(g) && match x {
                        GeneralMessage::GetPersistent => g == GeneralReply::Persistent(final(settings).general.persistent),
                        GeneralMessage::GetCurrentProfileName => g matches GeneralReply::ProfileName(n)
                            && n@ == final(settings).general.name@,
                        _ => g is Nothing,
                    }
                    &&& final(settings).cpus == old(settings).cpus
                    &&& final(settings).gpu == old(settings).gpu
                    &&& final(settings).battery == old(settings).battery
                },
                ApiMessage::LoadSettings { path, name, json_path, file } => r.1 matches ApiReply::Loaded(l)
                    && loaded_file(*old(settings), *final(settings), l, path@, json_path@, name@, false, file, configs@, *facts),
                ApiMessage::LoadMainSettings { json_path, file } => r.1 matches ApiReply::Loaded(l)
                    && loaded_file(
                        *old(settings), *final(settings), l, crate::consts::DEFAULT_SETTINGS_FILE@, json_path@,
                        crate::consts::DEFAULT_SETTINGS_NAME@, true, file, configs@, *facts,
                    ),
                ApiMessage::LoadSystemSettings => crate::settings::detect::detected(
                    crate::settings::general::as_driver(*final(settings)),
                    configs@, None, old(settings).general.path@, old(settings).general.name@, *facts,
                ) && r.1 is Nothing,
                ApiMessage::OnResume => *final(settings) == *old(settings) && r.1 is Resume,
                ApiMessage::WaitForEmptyQueue => *final(settings) == *old(settings) && r.1 is Queued,
                ApiMessage::GetLimits(governors) => *final(settings) == *old(settings) && (r.1 matches ApiReply::Limits(l)
                    && l@ == (SettingsLimitsView {
                        battery: old(settings).battery.battery_limits(),
                        cpu: old(settings).cpus.limits_shown(
                            governors_offered(governors.deep_view(), old(settings).cpus.cpu_count()),
                        ),
                        gpu: old(settings).gpu.gpu_limits(),
                    })),
                ApiMessage::GetProvider(part) => *final(settings) == *old(settings)
                    && r.1 == ApiReply::Provider(provider_of(*old(settings), part@)),
            },
    {
        let dirty = match &message {
            ApiMessage::Battery(x) => x.is_modify(),
            ApiMessage::Cpu(x) => x.is_modify(),
            ApiMessage::Gpu(x) => x.is_modify(),
            ApiMessage::General(x) => x.is_modify(),
            ApiMessage::LoadSettings { .. } | ApiMessage::LoadMainSettings { .. } | ApiMessage::LoadSystemSettings => true,
            _ => false,
        };
        let reply = match message {
            ApiMessage::Battery(x) => ApiReply::Battery(x.process(&mut settings.battery).1),
            ApiMessage::Cpu(x) => ApiReply::Cpu(x.process(&mut settings.cpus).1),
            ApiMessage::Gpu(x) => ApiReply::Gpu(x.process(&mut settings.gpu).1),
            ApiMessage::General(x) => ApiReply::General(x.process(&mut settings.general).1),
            ApiMessage::OnResume => ApiReply::Resume,
            ApiMessage::WaitForEmptyQueue => ApiReply::Queued,
            ApiMessage::LoadSettings { path, name, json_path, file } => {
                ApiReply::Loaded(settings.load_file(path, json_path, name, false, file, configs, facts))
            },
            ApiMessage::LoadMainSettings { json_path, file } => {
                ApiReply::Loaded(settings.load_file(
                    String::from_str(crate::consts::DEFAULT_SETTINGS_FILE),
                    json_path,
                    String::from_str(crate::consts::DEFAULT_SETTINGS_NAME),
                    true,
                    file,
                    configs,
                    facts,
                ))
            },
            ApiMessage::LoadSystemSettings => {
                let name = settings.general.name.clone();
                settings.load_system_default(name, configs, facts);
                ApiReply::Nothing
            },
            ApiMessage::GetLimits(governors) => {
                let govs = if governors.len() == settings.cpus.len() { governors } else { empty_governors(settings.cpus.len()) };
                ApiReply::Limits(SettingsLimits {
                    battery: settings.battery.limits(),
                    cpu: settings.cpus.limits(govs),
                    gpu: settings.gpu.limits(),
                    general: crate::api::GeneralLimits {},
                })
            },
            ApiMessage::GetProvider(part) => {
                let p = if str_eq(part.as_str(), "battery") {
                    settings.battery.provider()
                } else if str_eq(part.as_str(), "cpu") || str_eq(part.as_str(), "cpus") {
                    settings.cpus.provider()
                } else if str_eq(part.as_str(), "gpu") {
                    settings.gpu.provider()
                } else {
                    settings.general.driver
                };
                ApiReply::Provider(p)
            },
        };
        (dirty, reply)
    }

    /// What follows a batch of requests, given whether any modified the settings and whether
    /// the profile is persistent.
    pub fn finish_batch(&self, dirty: bool, persistent: bool) -> (r: BatchEnd)
        ensures
            !dirty ==> r is Unchanged,
            dirty ==> (r matches BatchEnd::Apply { save } && save == persistent),
    {
        if dirty {
            BatchEnd::Apply { save: persistent }
        } else {
            BatchEnd::Unchanged
        }
    }
}

/// Setting a CPU online or offline is what reading the online states gives back for it, and the
/// other CPUs keep theirs.
pub proof fn cpu_online_read_back(v: Seq<CpuView>, smt: bool, index: usize, online: bool)
    requires
        index < v.len(),
    ensures
        onlines_of(cpu_message_cpus(CpuMessage::SetCpuOnline(index, online), v, smt))[index as int] == online,
        forall|j: int| 0 <= j < v.len() && j != index ==>
            #[trigger] onlines_of(cpu_message_cpus(CpuMessage::SetCpuOnline(index, online), v, smt))[j] == v[j].online,
{
}

/// Setting a CPU's governor is what reading the governors gives back for it.
pub proof fn cpu_governor_read_back(v: Seq<CpuView>, smt: bool, index: usize, governor: String)
    requires
        index < v.len(),
    ensures
        governors_of(cpu_message_cpus(CpuMessage::SetCpuGovernor(index, governor), v, smt))[index as int] == governor@,
{
}

/// Switching SMT off takes every odd CPU (a sibling thread) offline and keeps the even ones as
/// they were.
pub proof fn smt_off_keeps_even_cpus(v: Seq<CpuView>)
    ensures
        ({
            let after = onlines_of(cpu_message_cpus(CpuMessage::SetSmt(false), v, true));
            &&& after.len() == v.len()
            &&& forall|j: int| 0 <= j < v.len() ==> #[trigger] after[j] == (v[j].online && j % 2 == 0)
        }),
{
}

proof fn lemma_last_online_of_smt_off(n: int)
    requires
        n >= 1,
    ensures
        last_online(Seq::new(n as nat, |j: int| j % 2 == 0)) == if n % 2 == 1 { n - 1 } else { n - 2 },
{
    let s = Seq::new(n as nat, |j: int| j % 2 == 0);
    if n % 2 == 1 {
        assert(s.last());
    } else {
        assert(!s.last());
        let t = s.drop_last();
        assert(t.last());
        assert(last_online(t) == n - 2);
        assert(last_online(s) == last_online(t));
    }
}

/// With all CPUs online, switching SMT off and on again brings all of them back online.
pub proof fn smt_off_on_restores_all(v: Seq<CpuView>)
    requires
        forall|j: int| 0 <= j < v.len() ==> #[trigger] v[j].online,
    ensures
        ({
            let off = cpu_message_cpus(CpuMessage::SetSmt(false), v, true);
            let on = cpu_message_cpus(CpuMessage::SetSmt(true), off, false);
            forall|j: int| 0 <= j < v.len() ==> #[trigger] on[j].online
        }),
{
    let n = v.len() as int;
    if n > 0 {
        let off = cpu_message_cpus(CpuMessage::SetSmt(false), v, true);
        let s = onlines_of(off);
        assert(s =~= Seq::new(n as nat, |j: int| j % 2 == 0));
        lemma_last_online_of_smt_off(n);
        let on = cpu_message_cpus(CpuMessage::SetSmt(true), off, false);
        assert forall|j: int| 0 <= j < v.len() implies #[trigger] on[j].online by {
            assert(online_after_smt_on(s, j));
        }
    }
}

} // verus!
