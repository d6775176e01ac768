//! Device detection: which drivers a device gets, from the limits configs whose conditions hold.
//!
//! The conditions of a config are regular expressions over system texts (`/proc/cpuinfo`,
//! `/etc/os-release`, `dmidecode` output), a shell command and a file that must exist. The
//! texts, the command outcomes and the file checks are read by the caller; the regular
//! expressions are matched here.

use vstd::prelude::*;

use crate::limits::{
    Base, BatteryLimit, Config, CpuLimit, GenericBatteryLimit, GenericCpuLimit, GenericGpuLimit,
    GpuLimit, Limits,
};
use crate::persist::{BatteryJson, CpuJson, DriverJson, GpuJson, OnEventJson, SettingsJson};
use crate::settings::driver::{BatteryDriver, CpusDriver, Driver, GpuDriver};
use crate::settings::general::{no_events, General};
use crate::settings::steam_deck::battery::{deck_driver, requested_charge_mode};
use crate::settings::traits::{gpu_json_clock_limits, opt_string_view};
use crate::settings::steam_deck::cpu::json_cpus_readable;
use crate::settings::system::SystemFacts;
use crate::settings::unknown::cpu::unknown_json_readable;
use crate::settings::{generic, generic_amd, steam_deck, unknown, TBattery, TCpus, TGpu};

verus! {

/// The system texts the conditions' patterns are matched against.
#[derive(Debug, Clone)]
pub struct DetectTexts {
    pub cpu_info: String,
    pub os_info: String,
    pub dmi_info: String,
}

/// What the outside checks of one config gave.
#[derive(Debug, Clone, Copy)]
pub struct ConditionProbe {
    /// Whether the config's command exited with status 0; `None` when it could not be run (the
    /// condition is then ignored).
    pub command_succeeded: Option<bool>,
    /// Whether the config's file exists.
    pub file_exists: bool,
}

/// The outcome of each condition of a config; `None` for a condition that is not given (or
/// that is ignored).
#[derive(Debug, Clone, Copy, PartialEq, Eq, Structural)]
pub struct ConditionResults {
    /// The config has no condition at all.
    pub empty: bool,
    pub dmi: Option<bool>,
    pub cpuinfo: Option<bool>,
    pub os: Option<bool>,
    pub command: Option<bool>,
    pub file_exists: Option<bool>,
}

/// A config with the outcome of its conditions.
pub struct EvaluatedConfig {
    pub results: ConditionResults,
    pub limits: Vec<Limits>,
}

/// Whether `text` matches `pattern` as a multi-line regular expression (`^` and `$` also match
/// at line breaks); `None` when the pattern does not compile.
pub uninterp spec fn multiline_regex_match(pattern: Seq<char>, text: Seq<char>) -> Option<bool>;

/// `regex::RegexBuilder::new(pattern).multi_line(true).build()`, then `is_match(text)`.
///
/// The contract only names the outcome: it depends on the pattern and the text alone, with
/// `None` exactly when building the expression fails.
#[verifier::external_body]
fn multiline_match(pattern: &str, text: &str) -> (r: Option<bool>)
    ensures
        r == multiline_regex_match(pattern@, text@),
{
    match regex::RegexBuilder::new(pattern).multi_line(true).build() {
        Ok(re) => Some(re.is_match(text)),
        Err(_) => None,
    }
}

/// Whether a pattern, if given, compiles.
pub open spec fn pattern_compiles(p: Option<String>, text: Seq<char>) -> bool {
    p matches Some(x) ==> multiline_regex_match(x@, text) is Some
}

/// The outcome of a pattern condition.
pub open spec fn pattern_outcome(p: Option<String>, text: Seq<char>) -> Option<bool> {
    match p {
        Some(x) => multiline_regex_match(x@, text),
        None => None,
    }
}

/// Whether all patterns of a config compile.
pub open spec fn config_compiles(c: Config, t: DetectTexts) -> bool {
    &&& pattern_compiles(c.conditions.dmi, t.dmi_info@)
    &&& pattern_compiles(c.conditions.cpuinfo, t.cpu_info@)
    &&& pattern_compiles(c.conditions.os, t.os_info@)
}

/// The probe of config `i`; a config without one has its command ignored and its file missing.
pub open spec fn probe_at(probes: Seq<ConditionProbe>, i: int) -> ConditionProbe {
    if 0 <= i < probes.len() { probes[i] } else { ConditionProbe { command_succeeded: None, file_exists: false } }
}

/// The outcomes of the conditions of a config.
pub open spec fn condition_results(c: Config, t: DetectTexts, p: ConditionProbe) -> ConditionResults {
    ConditionResults {
        empty: c.conditions.spec_is_empty(),
        dmi: pattern_outcome(c.conditions.dmi, t.dmi_info@),
        cpuinfo: pattern_outcome(c.conditions.cpuinfo, t.cpu_info@),
        os: pattern_outcome(c.conditions.os, t.os_info@),
        command: if c.conditions.command is Some { p.command_succeeded } else { None },
        file_exists: if c.conditions.file_exists is Some { Some(p.file_exists) } else { None },
    }
}

fn pattern_match(p: &Option<String>, text: &String) -> (r: Option<Option<bool>>)
    ensures
        r is None <==> !pattern_compiles(*p, text@),
        r matches Some(o) ==> o == pattern_outcome(*p, text@),
{
    match p {
        Some(x) => match multiline_match(x.as_str(), text.as_str()) {
            Some(b) => Some(Some(b)),
            None => None,
        },
        None => Some(None),
    }
}

fn evaluate_config(c: Config, t: &DetectTexts, p: ConditionProbe) -> (r: Option<EvaluatedConfig>)
    ensures
        r is None <==> !config_compiles(c, *t),
        r matches Some(e) ==> e.results == condition_results(c, *t, p) && e.limits == c.limits,
{
    let empty = c.conditions.is_empty();
    let dmi = match pattern_match(&c.conditions.dmi, &t.dmi_info) { Some(o) => o, None => return None };
    let cpuinfo = match pattern_match(&c.conditions.cpuinfo, &t.cpu_info) { Some(o) => o, None => return None };
    let os = match pattern_match(&c.conditions.os, &t.os_info) { Some(o) => o, None => return None };
    let command = if c.conditions.command.is_some() { p.command_succeeded } else { None };
    let file_exists = if c.conditions.file_exists.is_some() { Some(p.file_exists) } else { None };
    Some(EvaluatedConfig {
        results: ConditionResults { empty, dmi, cpuinfo, os, command, file_exists },
        limits: c.limits,
    })
}

/// Match the conditions of every config of the limits; `None` when a pattern of some config
/// does not compile. `probes[i]` holds the outside checks of config `i`.
pub fn evaluate_conditions(base: Base, texts: &DetectTexts, probes: &Vec<ConditionProbe>) -> (r: Option<Vec<EvaluatedConfig>>)
    ensures
        r is None <==> exists|i: int| 0 <= i < base.configs@.len() && !config_compiles(#[trigger] base.configs@[i], *texts),
        r matches Some(v) ==> {
            &&& v@.len() == base.configs@.len()
            &&& forall|i: int| 0 <= i < v@.len() ==> {
                &&& (#[trigger] v@[i]).results == condition_results(base.configs@[i], *texts, probe_at(probes@, i))
                &&& v@[i].limits == base.configs@[i].limits
            }
        },
{
    let ghost configs = base.configs@;
    let mut rest = base.configs;
    let n = rest.len();
    // evaluate from the back, so that each config is moved out once
    let mut reversed: Vec<EvaluatedConfig> = Vec::with_capacity(n);
    let mut k: usize = n;
    while k > 0
        invariant
            configs == base.configs@,
            n == configs.len(),
            k <= n,
            rest@ == configs.take(k as int),
            reversed@.len() == n - k,
            forall|j: int| k <= j < n ==> config_compiles(#[trigger] configs[j], *texts),
            forall|j: int| 0 <= j < n - k ==> {
                &&& (#[trigger] reversed@[j]).results == condition_results(configs[n - 1 - j], *texts, probe_at(probes@, n - 1 - j))
                &&& reversed@[j].limits == configs[n - 1 - j].limits
            },
        decreases k,
    {
        let c = rest.pop().unwrap();
        k = k - 1;
        assert(c == configs[k as int]);
        assert(rest@ =~= configs.take(k as int));
        let probe = if k < probes.len() { probes[k] } else { ConditionProbe { command_succeeded: None, file_exists: false } };
        match evaluate_config(c, texts, probe) {
            Some(e) => reversed.push(e),
            None => {
                assert(!config_compiles(configs[k as int], *texts));
                return None;
            },
        }
    }
    let mut out: Vec<EvaluatedConfig> = Vec::with_capacity(n);
    let mut i: usize = 0;
    while i < n
        invariant
            n == configs.len(),
            i <= n,
            reversed@.len() == n - i,
            out@.len() == i,
            forall|j: int| 0 <= j < n - i ==> {
                &&& (#[trigger] reversed@[j]).results == condition_results(configs[n - 1 - j], *texts, probe_at(probes@, n - 1 - j))
                &&& reversed@[j].limits == configs[n - 1 - j].limits
            },
            forall|j: int| 0 <= j < i ==> {
                &&& (#[trigger] out@[j]).results == condition_results(configs[j], *texts, probe_at(probes@, j))
                &&& out@[j].limits == configs[j].limits
            },
        decreases n - i,
    {
        let e = reversed.pop().unwrap();
        out.push(e);
        i = i + 1;
    }
    Some(out)
}

/// Whether a condition outcome allows a match: absent conditions do.
pub open spec fn outcome_holds(o: Option<bool>) -> bool {
    o matches Some(b) ==> b
}

/// Whether a config applies: one without conditions applies while some part has no driver
/// yet; otherwise all of its conditions must hold.
pub open spec fn results_hold(r: ConditionResults, complete: bool) -> bool {
    if r.empty {
        !complete
    } else {
        &&& outcome_holds(r.dmi)
        &&& outcome_holds(r.cpuinfo)
        &&& outcome_holds(r.os)
        &&& outcome_holds(r.command)
        &&& outcome_holds(r.file_exists)
    }
}

/// Whether a config applies, given the outcome of its conditions and whether every part of the
/// device already has a driver.
pub fn conditions_hold(r: &ConditionResults, complete: bool) -> (b: bool)
    ensures
        b == results_hold(*r, complete),
{
    if r.empty {
        !complete
    } else {
        let mut matches = true;
        if let Some(m) = r.dmi {
            matches = matches && m;
        }
        if let Some(m) = r.cpuinfo {
            matches = matches && m;
        }
        if let Some(m) = r.os {
            matches = matches && m;
        }
        if let Some(m) = r.command {
            matches = matches && m;
        }
        if let Some(m) = r.file_exists {
            matches = matches && m;
        }
        matches
    }
}

/// The limits chosen so far, and whether any config applied.
pub struct Choice {
    pub cpu: Option<CpuLimit>,
    pub gpu: Option<GpuLimit>,
    pub battery: Option<BatteryLimit>,
    pub matched: bool,
}

/// Nothing chosen.
pub open spec fn no_choice() -> Choice {
    Choice { cpu: None, gpu: None, battery: None, matched: false }
}

/// Every part has a driver.
pub open spec fn choice_complete(c: Choice) -> bool {
    c.cpu is Some && c.gpu is Some && c.battery is Some
}

/// A limit replaces the one chosen before for its part.
pub open spec fn with_limit(c: Choice, l: Limits) -> Choice {
    match l {
        Limits::Cpu(x) => Choice { cpu: Some(x), ..c },
        Limits::Gpu(x) => Choice { gpu: Some(x), ..c },
        Limits::Battery(x) => Choice { battery: Some(x), ..c },
    }
}

/// The limits of a config, applied in order.
pub open spec fn with_limits(c: Choice, ls: Seq<Limits>) -> Choice
    decreases ls.len(),
{
    if ls.len() == 0 {
        c
    } else {
        with_limit(with_limits(c, ls.drop_last()), ls.last())
    }
}

/// One config considered: when it applies, its limits are taken.
pub open spec fn step_choice(c: Choice, e: EvaluatedConfig) -> Choice {
    if results_hold(e.results, choice_complete(c)) {
        Choice { matched: true, ..with_limits(c, e.limits@) }
    } else {
        c
    }
}

/// The choice after considering the configs in order.
pub open spec fn detect_choice(configs: Seq<EvaluatedConfig>) -> Choice
    decreases configs.len(),
{
    if configs.len() == 0 {
        no_choice()
    } else {
        step_choice(detect_choice(configs.drop_last()), configs.last())
    }
}

/// The CPU driver a choice gives.
pub open spec fn cpus_provider_for(l: Option<CpuLimit>, oc_is_default: bool) -> DriverJson {
    match l {
        None => DriverJson::Unknown,
        Some(CpuLimit::SteamDeck) | Some(CpuLimit::SteamDeckAdvance) => deck_driver(oc_is_default),
        Some(CpuLimit::Generic(_)) => DriverJson::Generic,
        Some(CpuLimit::GenericAMD(_)) => DriverJson::GenericAMD,
        Some(CpuLimit::Unknown) => DriverJson::Unknown,
    }
}

/// The GPU driver a choice gives.
pub open spec fn gpu_provider_for(l: Option<GpuLimit>, oc_is_default: bool) -> DriverJson {
    match l {
        None => DriverJson::Unknown,
        Some(GpuLimit::SteamDeck) | Some(GpuLimit::SteamDeckAdvance) => deck_driver(oc_is_default),
        Some(GpuLimit::Generic(_)) => DriverJson::Generic,
        Some(GpuLimit::GenericAMD(_)) => DriverJson::GenericAMD,
        Some(GpuLimit::Unknown) => DriverJson::Unknown,
    }
}

/// The battery driver a choice gives (the unknown battery reports `AutoDetect`).
pub open spec fn battery_provider_for(l: Option<BatteryLimit>, oc_is_default: bool) -> DriverJson {
    match l {
        None => DriverJson::AutoDetect,
        Some(BatteryLimit::SteamDeck) | Some(BatteryLimit::SteamDeckAdvance) => deck_driver(oc_is_default),
        Some(BatteryLimit::Generic(_)) => DriverJson::Generic,
        Some(BatteryLimit::Unknown) => DriverJson::AutoDetect,
    }
}

/// Whether CPUs are those a detection builds for the chosen limits: read from the persisted
/// CPUs `json` when given, else as the system or the limits give them.
pub open spec fn cpus_built(r: CpusDriver, l: Option<CpuLimit>, json: Option<Seq<CpuJson>>, facts: SystemFacts) -> bool {
    match l {
        Some(CpuLimit::SteamDeck) | Some(CpuLimit::SteamDeckAdvance) => r matches CpusDriver::SteamDeck(c) && (match json {
            Some(j) => c.is_from_json(j, facts),
            None => c.is_system_default(facts),
        }),
        Some(CpuLimit::Generic(x)) => r matches CpusDriver::Generic(c) && (match json {
            Some(j) => c.is_from_json_and_limits(j, x, facts),
            None => c.is_from_limits(x, facts),
        }),
        Some(CpuLimit::GenericAMD(x)) => r matches CpusDriver::GenericAMD(c) && (match json {
            Some(j) => c.generic.is_from_json_and_limits(j, x, facts),
            None => c.generic.is_from_limits(x, facts),
        }),
        Some(CpuLimit::Unknown) => r matches CpusDriver::Unknown(c) && (match json {
            Some(j) => c.is_from_json(j, facts),
            None => c.is_system_default(facts),
        }),
        None => r matches CpusDriver::Unknown(c) && c.is_system_default(facts),
    }
}

/// Whether a generic GPU is the one read under these limits: each persisted setting is kept only
/// when the limits allow it; without persisted settings nothing is set.
pub open spec fn generic_gpu_read(g: generic::Gpu, limits: GenericGpuLimit, json: Option<GpuJson>) -> bool {
    &&& g.limits == limits
    &&& !g.slow_memory
    &&& match json {
        Some(j) => {
            &&& g.fast_ppt == if limits.fast_ppt is Some { j.fast_ppt } else { None }
            &&& g.slow_ppt == if limits.slow_ppt is Some { j.slow_ppt } else { None }
            &&& g.clock_limits == if limits.clock_min is Some && limits.clock_max is Some {
                gpu_json_clock_limits(j)
            } else {
                None
            }
        },
        None => g.fast_ppt is None && g.slow_ppt is None && g.clock_limits is None,
    }
}

/// Whether a GPU is the one a detection builds for the chosen limits, from the persisted
/// settings `json` when given.
pub open spec fn gpu_built(r: GpuDriver, l: Option<GpuLimit>, json: Option<GpuJson>, facts: SystemFacts) -> bool {
    match l {
        Some(GpuLimit::SteamDeck) | Some(GpuLimit::SteamDeckAdvance) => r matches GpuDriver::SteamDeck(g) && {
            &&& g.limits == facts.oc_limits.gpu
            &&& g.state == steam_deck::gpu::fresh_gpu_state()
            &&& g.driver_mode == deck_driver(facts.oc_is_default)
            &&& match json {
                Some(j) => {
                    &&& g.fast_ppt == j.fast_ppt
                    &&& g.slow_ppt == j.slow_ppt
                    &&& g.clock_limits == gpu_json_clock_limits(j)
                    &&& g.slow_memory == j.slow_memory
                    &&& g.root == j.root
                },
                None => g.fast_ppt is None && g.slow_ppt is None && g.clock_limits is None && !g.slow_memory && g.root is None,
            }
        },
        Some(GpuLimit::Generic(x)) => r matches GpuDriver::Generic(g) && generic_gpu_read(g, x, json),
        Some(GpuLimit::GenericAMD(x)) => r matches GpuDriver::GenericAMD(g) && {
            &&& generic_gpu_read(g.generic, x, json)
            &&& g.implementor_available == facts.ryzenadj_available
            &&& g.state == generic_amd::gpu::fresh_gpu_state()
        },
        Some(GpuLimit::Unknown) | None => r matches GpuDriver::Unknown(g) && !g.slow_memory,
    }
}

/// Whether a battery is the one a detection builds for the chosen limits, from the persisted
/// settings `json` when given.
pub open spec fn battery_built(r: BatteryDriver, l: Option<BatteryLimit>, json: Option<BatteryJson>, facts: SystemFacts) -> bool {
    match l {
        Some(BatteryLimit::SteamDeck) | Some(BatteryLimit::SteamDeckAdvance) => r matches BatteryDriver::SteamDeck(b) && {
            &&& b.limits == facts.oc_limits.battery
            &&& !b.state.charge_rate_set && !b.state.charge_mode_set
            &&& b.driver_mode == deck_driver(facts.oc_is_default)
            &&& match json {
                Some(j) => b.charge_rate == j.charge_rate && b.charge_mode == requested_charge_mode(opt_string_view(j.charge_mode)),
                None => b.charge_rate is None && b.charge_mode is None,
            }
        },
        Some(BatteryLimit::Generic(_)) => r is Generic,
        Some(BatteryLimit::Unknown) | None => r is Unknown,
    }
}

/// Whether a detection picks the Steam Deck for every part.
pub open spec fn deck_chosen(c: Choice) -> bool {
    &&& c.cpu matches Some(x) && (x is SteamDeck || x is SteamDeckAdvance)
    &&& c.gpu matches Some(x) && (x is SteamDeck || x is SteamDeckAdvance)
    &&& c.battery matches Some(x) && (x is SteamDeck || x is SteamDeckAdvance)
}

/// Persisted CPUs can be read by the CPU driver chosen.
pub open spec fn cpus_json_ok(l: Option<CpuLimit>, settings: Option<SettingsJson>, facts: SystemFacts) -> bool {
    match (l, settings) {
        (Some(c), Some(s)) => match c {
            CpuLimit::Unknown => unknown_json_readable(s.cpus@.len() as int, facts.cpu_count),
            _ => json_cpus_readable(s.cpus@.len() as int, facts.cpu_count),
        },
        _ => true,
    }
}

fn clone_cpu_limit(l: &CpuLimit) -> (r: CpuLimit)
    ensures
        r == *l,
{
    match l {
        CpuLimit::SteamDeck => CpuLimit::SteamDeck,
        CpuLimit::SteamDeckAdvance => CpuLimit::SteamDeckAdvance,
        CpuLimit::Generic(x) => CpuLimit::Generic(GenericCpuLimit { clock_min: x.clock_min, clock_max: x.clock_max, clock_step: x.clock_step }),
        CpuLimit::GenericAMD(x) => CpuLimit::GenericAMD(GenericCpuLimit { clock_min: x.clock_min, clock_max: x.clock_max, clock_step: x.clock_step }),
        CpuLimit::Unknown => CpuLimit::Unknown,
    }
}

fn clone_gpu_limits(x: &GenericGpuLimit) -> (r: GenericGpuLimit)
    ensures
        r == *x,
{
    GenericGpuLimit {
        fast_ppt: x.fast_ppt,
        slow_ppt: x.slow_ppt,
        ppt_step: x.ppt_step,
        tdp: x.tdp,
        tdp_boost: x.tdp_boost,
        tdp_step: x.tdp_step,
        clock_min: x.clock_min,
        clock_max: x.clock_max,
        clock_step: x.clock_step,
    }
}

fn clone_gpu_limit(l: &GpuLimit) -> (r: GpuLimit)
    ensures
        r == *l,
{
    match l {
        GpuLimit::SteamDeck => GpuLimit::SteamDeck,
        GpuLimit::SteamDeckAdvance => GpuLimit::SteamDeckAdvance,
        GpuLimit::Generic(x) => GpuLimit::Generic(clone_gpu_limits(x)),
        GpuLimit::GenericAMD(x) => GpuLimit::GenericAMD(clone_gpu_limits(x)),
        GpuLimit::Unknown => GpuLimit::Unknown,
    }
}

fn clone_battery_limit(l: &BatteryLimit) -> (r: BatteryLimit)
    ensures
        r == *l,
{
    match l {
        BatteryLimit::SteamDeck => BatteryLimit::SteamDeck,
        BatteryLimit::SteamDeckAdvance => BatteryLimit::SteamDeckAdvance,
        BatteryLimit::Generic(_) => BatteryLimit::Generic(GenericBatteryLimit {}),
        BatteryLimit::Unknown => BatteryLimit::Unknown,
    }
}

/// The drivers being put together by the detection.
struct DriverBuilder {
    cpus: Option<CpuLimit>,
    gpu: Option<GpuLimit>,
    battery: Option<BatteryLimit>,
    matched: bool,
}

impl DriverBuilder {
    spec fn choice(&self) -> Choice {
        Choice { cpu: self.cpus, gpu: self.gpu, battery: self.battery, matched: self.matched }
    }

    fn new() -> (r: Self)
        ensures
            r.choice() == no_choice(),
    {
        DriverBuilder { cpus: None, gpu: None, battery: None, matched: false }
    }

    fn is_complete(&self) -> (r: bool)
        ensures
            r == choice_complete(self.choice()),
    {
        self.cpus.is_some() && self.gpu.is_some() && self.battery.is_some()
    }

    /// Take the limits of an applying config.
    fn take_limits(&mut self, limits: &Vec<Limits>)
        ensures
            final(self).choice() == with_limits(old(self).choice(), limits@),
    {
        let mut j: usize = 0;
        while j < limits.len()
            invariant
                j <= limits@.len(),
                self.choice() == with_limits(old(self).choice(), limits@.take(j as int)),
            decreases limits@.len() - j,
        {
            assert(limits@.take(j as int + 1).drop_last() =~= limits@.take(j as int));
            match &limits[j] {
                Limits::Cpu(c) => self.cpus = Some(clone_cpu_limit(c)),
                Limits::Gpu(g) => self.gpu = Some(clone_gpu_limit(g)),
                Limits::Battery(b) => self.battery = Some(clone_battery_limit(b)),
            }
            j = j + 1;
        }
        assert(limits@.take(limits@.len() as int) =~= limits@);
    }
}

fn build_cpus(l: Option<CpuLimit>, settings: Option<(u64, Vec<crate::persist::CpuJson>)>, facts: &SystemFacts) -> (r: CpusDriver)
    requires
        match (l, settings) {
            (Some(c), Some((_, cpus))) => match c {
                CpuLimit::Unknown => unknown_json_readable(cpus@.len() as int, facts.cpu_count),
                _ => json_cpus_readable(cpus@.len() as int, facts.cpu_count),
            },
            _ => true,
        },
    ensures
        r.provider_view() == cpus_provider_for(l, facts.oc_is_default),
        cpus_built(r, l, match settings { Some((_, j)) => Some(j@), None => None }, *facts),
{
    match l {
        None => CpusDriver::Unknown(unknown::Cpus::system_default(facts)),
        Some(CpuLimit::SteamDeck) | Some(CpuLimit::SteamDeckAdvance) => match settings {
            Some((version, cpus)) => CpusDriver::SteamDeck(steam_deck::Cpus::from_json(cpus, version, facts)),
            None => CpusDriver::SteamDeck(steam_deck::Cpus::system_default(facts)),
        },
        Some(CpuLimit::Generic(x)) => match settings {
            Some((version, cpus)) => CpusDriver::Generic(generic::Cpus::from_json_and_limits(cpus, version, x, facts)),
            None => CpusDriver::Generic(generic::Cpus::from_limits(x, facts)),
        },
        Some(CpuLimit::GenericAMD(x)) => match settings {
            Some((version, cpus)) => CpusDriver::GenericAMD(generic_amd::Cpus::from_json_and_limits(cpus, version, x, facts)),
            None => CpusDriver::GenericAMD(generic_amd::Cpus::from_limits(x, facts)),
        },
        Some(CpuLimit::Unknown) => match settings {
            Some((version, cpus)) => CpusDriver::Unknown(unknown::Cpus::from_json(cpus, version, facts)),
            None => CpusDriver::Unknown(unknown::Cpus::system_default(facts)),
        },
    }
}

fn build_gpu(l: Option<GpuLimit>, settings: Option<(u64, crate::persist::GpuJson)>, facts: &SystemFacts) -> (r: GpuDriver)
    ensures
        r.provider_view() == gpu_provider_for(l, facts.oc_is_default),
        gpu_built(r, l, match settings { Some((_, j)) => Some(j), None => None }, *facts),
{
    match l {
        None => GpuDriver::Unknown(unknown::Gpu::system_default()),
        Some(GpuLimit::SteamDeck) | Some(GpuLimit::SteamDeckAdvance) => match settings {
            Some((version, gpu)) => GpuDriver::SteamDeck(steam_deck::Gpu::from_json(gpu, version, &facts.oc_limits, facts.oc_is_default)),
            None => GpuDriver::SteamDeck(steam_deck::Gpu::system_default(&facts.oc_limits, facts.oc_is_default)),
        },
        Some(GpuLimit::Generic(x)) => match settings {
            Some((version, gpu)) => GpuDriver::Generic(generic::Gpu::from_json_and_limits(gpu, version, x)),
            None => GpuDriver::Generic(generic::Gpu::from_limits(x)),
        },
        Some(GpuLimit::GenericAMD(x)) => match settings {
            Some((version, gpu)) => GpuDriver::GenericAMD(generic_amd::Gpu::from_json_and_limits(gpu, version, x, facts.ryzenadj_available)),
            None => GpuDriver::GenericAMD(generic_amd::Gpu::from_limits(x, facts.ryzenadj_available)),
        },
        Some(GpuLimit::Unknown) => match settings {
            Some((version, gpu)) => GpuDriver::Unknown(unknown::Gpu::from_json(gpu, version)),
            None => GpuDriver::Unknown(unknown::Gpu::system_default()),
        },
    }
}

fn build_battery(l: Option<BatteryLimit>, settings: Option<(u64, crate::persist::BatteryJson)>, facts: &SystemFacts) -> (r: BatteryDriver)
    ensures
        r.provider_view() == battery_provider_for(l, facts.oc_is_default),
        battery_built(r, l, match settings { Some((_, j)) => Some(j), None => None }, *facts),
{
    match l {
        None => BatteryDriver::Unknown(unknown::Battery),
        Some(BatteryLimit::SteamDeck) | Some(BatteryLimit::SteamDeckAdvance) => match settings {
            Some((version, b)) => BatteryDriver::SteamDeck(steam_deck::Battery::from_json(b, version, &facts.oc_limits, facts.oc_is_default)),
            None => BatteryDriver::SteamDeck(steam_deck::Battery::system_default(&facts.oc_limits, facts.oc_is_default)),
        },
        Some(BatteryLimit::Generic(x)) => match settings {
            Some((version, b)) => BatteryDriver::Generic(generic::Battery::from_json_and_limits(b, version, x)),
            None => BatteryDriver::Generic(generic::Battery::from_limits(x)),
        },
        Some(BatteryLimit::Unknown) => BatteryDriver::Unknown(unknown::Battery),
    }
}

/// Consider the configs in order (see `detect_choice`).
fn consider_configs(configs: &Vec<EvaluatedConfig>) -> (b: DriverBuilder)
    ensures
        b.choice() == detect_choice(configs@),
{
    let mut builder = DriverBuilder::new();
    let mut i: usize = 0;
    while i < configs.len()
        invariant
            i <= configs@.len(),
            builder.choice() == detect_choice(configs@.take(i as int)),
        decreases configs@.len() - i,
    {
        assert(configs@.take(i as int + 1).drop_last() =~= configs@.take(i as int));
        let e = &configs[i];
        if conditions_hold(&e.results, builder.is_complete()) {
            builder.take_limits(&e.limits);
            builder.matched = true;
        }
        i = i + 1;
    }
    assert(configs@.take(configs@.len() as int) =~= configs@);
    builder
}

/// Test `cpus_json_ok` for the CPU limits the configs lead to.
pub fn detect_readable(settings: &Option<SettingsJson>, configs: &Vec<EvaluatedConfig>, facts: &SystemFacts) -> (r: bool)
    ensures
        r == cpus_json_ok(detect_choice(configs@).cpu, *settings, *facts),
{
    match settings {
        Some(s) => detect_readable_for(s.cpus.len(), configs, facts),
        None => true,
    }
}

/// Whether `n_json` persisted CPUs can be read by the CPU driver the configs lead to.
pub fn detect_readable_for(n_json: usize, configs: &Vec<EvaluatedConfig>, facts: &SystemFacts) -> (r: bool)
    ensures
        r == match detect_choice(configs@).cpu {
            Some(CpuLimit::Unknown) => unknown_json_readable(n_json as int, facts.cpu_count),
            Some(_) => json_cpus_readable(n_json as int, facts.cpu_count),
            None => true,
        },
{
    let builder = consider_configs(configs);
    match &builder.cpus {
        Some(CpuLimit::Unknown) => cpus_readable_unknown(n_json, facts.cpu_count),
        Some(_) => cpus_readable(n_json, facts.cpu_count),
        None => true,
    }
}

/// Test `json_cpus_readable`.
pub fn cpus_readable(n_json: usize, cpu_count: Option<usize>) -> (r: bool)
    ensures
        r == json_cpus_readable(n_json as int, cpu_count),
{
    n_json % 2 == 0 && match cpu_count {
        Some(m) => n_json as u128 + 1 >= m as u128,
        None => true,
    }
}

/// Test `unknown_json_readable`.
pub fn cpus_readable_unknown(n_json: usize, cpu_count: Option<usize>) -> (r: bool)
    ensures
        r == unknown_json_readable(n_json as int, cpu_count),
{
    match cpu_count {
        Some(m) => n_json as u128 + 1 >= m as u128,
        None => true,
    }
}

/// The drivers a detection gives: general settings and one driver per part.
pub open spec fn detected(
    r: Driver,
    configs: Seq<EvaluatedConfig>,
    settings: Option<SettingsJson>,
    json_path: Seq<char>,
    name: Seq<char>,
    facts: SystemFacts,
) -> bool {
    let c = detect_choice(configs);
    let loaded = settings is Some && c.matched;
    &&& r.general.persistent == loaded
    &&& r.general.name@ == if loaded { settings->0.name@ } else { name }
    &&& r.general.path@ == json_path
    &&& r.general.driver == DriverJson::AutoDetect
    &&& no_events(r.general.events)
    &&& r.cpus.provider_view() == cpus_provider_for(c.cpu, facts.oc_is_default)
    &&& r.gpu.provider_view() == gpu_provider_for(c.gpu, facts.oc_is_default)
    &&& r.battery.provider_view() == battery_provider_for(c.battery, facts.oc_is_default)
    &&& cpus_built(r.cpus, c.cpu, match settings { Some(s) => Some(s.cpus@), None => None }, facts)
    &&& gpu_built(r.gpu, c.gpu, match settings { Some(s) => Some(s.gpu), None => None }, facts)
    &&& battery_built(r.battery, c.battery, match settings { Some(s) => Some(s.battery), None => None }, facts)
}

/// Detect the device's drivers from the evaluated limits configs, taken in order: each config
/// that applies replaces the limits of the parts it names. Parts that no config names get the
/// unknown drivers. With persisted settings, the drivers are built from them, and the profile is
/// marked persistent under their name when some config applied.
pub fn auto_detect0(
    settings_opt: Option<SettingsJson>,
    json_path: String,
    name: String,
    configs: &Vec<EvaluatedConfig>,
    facts: &SystemFacts,
) -> (r: Driver)
    requires
        cpus_json_ok(detect_choice(configs@).cpu, settings_opt, *facts),
    ensures
        detected(r, configs@, settings_opt, json_path@, name@, *facts),
{
    let builder = consider_configs(configs);
    let ghost c = builder.choice();
    let (loaded_name, cpus_json, gpu_json, battery_json) = match settings_opt {
        Some(s) => (Some(s.name), Some((s.version, s.cpus)), Some((s.version, s.gpu)), Some((s.version, s.battery))),
        None => (None, None, None, None),
    };
    let general = match loaded_name {
        Some(n) if builder.matched => General {
            persistent: true,
            path: json_path,
            name: n,
            driver: DriverJson::AutoDetect,
            events: OnEventJson::default(),
        },
        _ => General {
            persistent: false,
            path: json_path,
            name,
            driver: DriverJson::AutoDetect,
            events: OnEventJson::default(),
        },
    };
    Driver {
        general,
        cpus: build_cpus(builder.cpus, cpus_json, facts),
        gpu: build_gpu(builder.gpu, gpu_json, facts),
        battery: build_battery(builder.battery, battery_json, facts),
    }
}

/// The battery provider of the detected device, as used to tell what the device is.
pub fn auto_detect_provider(configs: &Vec<EvaluatedConfig>, facts: &SystemFacts) -> (r: DriverJson)
    ensures
        r == battery_provider_for(detect_choice(configs@).battery, facts.oc_is_default),
{
    auto_detect0(None, String::new(), String::new(), configs, facts).battery.provider()
}

/// A config that applies replaces the CPU limits chosen before it with its own.
pub proof fn later_config_wins(configs: Seq<EvaluatedConfig>, e: EvaluatedConfig, x: CpuLimit)
    requires
        results_hold(e.results, choice_complete(detect_choice(configs))),
        e.limits@ == seq![Limits::Cpu(x)],
    ensures
        detect_choice(configs.push(e)).cpu == Some(x),
        detect_choice(configs.push(e)).matched,
{
    assert(configs.push(e).drop_last() =~= configs);
    assert(e.limits@.drop_last() =~= Seq::<Limits>::empty());
}

/// A config whose conditions do not hold changes nothing.
pub proof fn unmatched_config_changes_nothing(configs: Seq<EvaluatedConfig>, e: EvaluatedConfig)
    requires
        !results_hold(e.results, choice_complete(detect_choice(configs))),
    ensures
        detect_choice(configs.push(e)) == detect_choice(configs),
{
    assert(configs.push(e).drop_last() =~= configs);
}

/// A config with conditions applies exactly when none of its given conditions failed: each of
/// the DMI, cpuinfo, OS, command and file checks that came out false keeps it from applying, and
/// conditions that were not given do not matter. A config without conditions applies exactly
/// while some part still has no driver.
pub proof fn conditions_all_must_hold(r: ConditionResults, complete: bool)
    ensures
        r.empty ==> (results_hold(r, complete) <==> !complete),
        !r.empty ==> (results_hold(r, complete) <==> (
            r.dmi != Some(false)
            && r.cpuinfo != Some(false)
            && r.os != Some(false)
            && r.command != Some(false)
            && r.file_exists != Some(false))),
{
}

/// A config with a condition that came out false is skipped: the drivers chosen are those
/// chosen without it.
pub proof fn failed_condition_changes_nothing(configs: Seq<EvaluatedConfig>, e: EvaluatedConfig)
    requires
        !e.results.empty,
        e.results.dmi == Some(false)
            || e.results.cpuinfo == Some(false)
            || e.results.os == Some(false)
            || e.results.command == Some(false)
            || e.results.file_exists == Some(false),
    ensures
        detect_choice(configs.push(e)) == detect_choice(configs),
{
    conditions_all_must_hold(e.results, choice_complete(detect_choice(configs)));
    unmatched_config_changes_nothing(configs, e);
}

} // verus!
