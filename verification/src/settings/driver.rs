//! The drivers a device can have, one enum per part, and the dispatch to them.

use vstd::prelude::*;

use crate::limits::{BatteryLimit, CpuLimit, GenericBatteryLimit, GenericCpuLimit, GenericGpuLimit, GpuLimit};
use crate::persist::{BatteryJson, CpuJson, DriverJson, GpuJson, OnEventJson, SettingsJson};
use crate::settings::detect::{
    auto_detect0, auto_detect_provider, battery_built, battery_provider_for, cpus_built, cpus_json_ok,
    detect_choice, detected, gpu_built, EvaluatedConfig,
};
use crate::settings::general::{no_events, General};
use crate::settings::steam_deck::battery::deck_driver;
use crate::settings::steam_deck::cpu::json_cpus_readable;
use crate::settings::system::SystemFacts;
use crate::settings::SettingError;
use crate::api::BatteryLimitsView;
use crate::settings::traits::clock_limits_json;
use crate::settings::{
    generic, generic_amd, steam_deck, unknown, BatteryView, CpuView, GpuView, MinMax, TBattery,
    TCpus, TGpu,
};

verus! {

/// The general settings and the drivers of a device.
#[derive(Debug)]
pub struct Driver {
    pub general: General,
    pub cpus: CpusDriver,
    pub gpu: GpuDriver,
    pub battery: BatteryDriver,
}

/// The CPU driver of a device.
#[derive(Debug)]
pub enum CpusDriver {
    SteamDeck(steam_deck::Cpus),
    Generic(generic::Cpus<generic::Cpu>),
    GenericAMD(generic_amd::Cpus),
    Unknown(unknown::Cpus),
}

/// The GPU driver of a device.
#[derive(Debug)]
pub enum GpuDriver {
    SteamDeck(steam_deck::Gpu),
    Generic(generic::Gpu),
    GenericAMD(generic_amd::Gpu),
    Unknown(unknown::Gpu),
}

/// The battery driver of a device.
#[derive(Debug)]
pub enum BatteryDriver {
    SteamDeck(steam_deck::Battery),
    Generic(generic::Battery),
    Unknown(unknown::Battery),
}

impl CpusDriver {
    /// How many CPUs the driver has.
    pub open spec fn cpu_count(&self) -> int {
        self.cpus_view().len() as int
    }

    /// The limits shown for all CPUs when CPU `i` offers `governors[i]`.
    pub open spec fn limits_shown(&self, governors: Seq<Seq<Seq<char>>>) -> crate::api::CpusLimitsView {
        match self {
            CpusDriver::SteamDeck(c) => c.limits_shown(governors),
            CpusDriver::Generic(c) => c.limits_shown(governors),
            CpusDriver::GenericAMD(c) => c.generic.limits_shown(governors),
            CpusDriver::Unknown(c) => c.limits_shown(),
        }
    }

    /// The limits of all CPUs as shown to the front-end; `governors[i]` are the governors CPU `i`
    /// offers (drivers that show none ignore them).
    pub fn limits(&self, governors: Vec<Vec<String>>) -> (r: crate::api::CpusLimits)
        requires
            governors@.len() == self.cpu_count(),
        ensures
            r@ == self.limits_shown(governors.deep_view()),
            r.cpus@.len() == self.cpu_count(),
            r.count == self.cpu_count(),
    {
        match self {
            CpusDriver::SteamDeck(c) => c.limits(governors),
            CpusDriver::Generic(c) => c.limits(governors),
            CpusDriver::GenericAMD(c) => c.limits(governors),
            CpusDriver::Unknown(c) => c.limits(),
        }
    }

    /// The persisted form of all CPUs.
    pub fn json(&self) -> (r: Vec<CpuJson>)
        ensures
            r@.len() == self.cpu_count(),
            forall|i: int| 0 <= i < r@.len() ==> {
                &&& #[trigger] r@[i].online == self.cpus_view()[i].online
                &&& r@[i].governor@ == self.cpus_view()[i].governor
                &&& r@[i].clock_limits == clock_limits_json(self.cpus_view()[i].clock_limits)
            },
    {
        match self {
            CpusDriver::SteamDeck(c) => c.json(),
            CpusDriver::Generic(c) => c.json(),
            CpusDriver::GenericAMD(c) => c.json(),
            CpusDriver::Unknown(c) => c.json(),
        }
    }
}

impl TCpus for CpusDriver {
    open spec fn cpus_view(&self) -> Seq<CpuView> {
        match self {
            CpusDriver::SteamDeck(c) => c.cpus_view(),
            CpusDriver::Generic(c) => c.cpus_view(),
            CpusDriver::GenericAMD(c) => c.cpus_view(),
            CpusDriver::Unknown(c) => c.cpus_view(),
        }
    }

    open spec fn smt_view(&self) -> bool {
        match self {
            CpusDriver::SteamDeck(c) => c.smt_view(),
            CpusDriver::Generic(c) => c.smt_view(),
            CpusDriver::GenericAMD(c) => c.smt_view(),
            CpusDriver::Unknown(c) => c.smt_view(),
        }
    }

    open spec fn provider_view(&self) -> DriverJson {
        match self {
            CpusDriver::SteamDeck(c) => c.provider_view(),
            CpusDriver::Generic(c) => c.provider_view(),
            CpusDriver::GenericAMD(c) => c.provider_view(),
            CpusDriver::Unknown(c) => c.provider_view(),
        }
    }

    fn len(&self) -> (n: usize) {
        match self {
            CpusDriver::SteamDeck(c) => c.len(),
            CpusDriver::Generic(c) => c.len(),
            CpusDriver::GenericAMD(c) => c.len(),
            CpusDriver::Unknown(c) => c.len(),
        }
    }

    fn smt(&self) -> (r: bool) {
        match self {
            CpusDriver::SteamDeck(c) => c.smt(),
            CpusDriver::Generic(c) => c.smt(),
            CpusDriver::GenericAMD(c) => c.smt(),
            CpusDriver::Unknown(c) => c.smt(),
        }
    }

    fn set_smt(&mut self, smt: bool) {
        match self {
            CpusDriver::SteamDeck(c) => c.set_smt(smt),
            CpusDriver::Generic(c) => c.set_smt(smt),
            CpusDriver::GenericAMD(c) => c.set_smt(smt),
            CpusDriver::Unknown(c) => c.set_smt(smt),
        }
    }

    fn cpu_online(&self, index: usize) -> (r: bool) {
        match self {
            CpusDriver::SteamDeck(c) => c.cpu_online(index),
            CpusDriver::Generic(c) => c.cpu_online(index),
            CpusDriver::GenericAMD(c) => c.cpu_online(index),
            CpusDriver::Unknown(c) => c.cpu_online(index),
        }
    }

    fn set_cpu_online(&mut self, index: usize, online: bool) {
        match self {
            CpusDriver::SteamDeck(c) => c.set_cpu_online(index, online),
            CpusDriver::Generic(c) => c.set_cpu_online(index, online),
            CpusDriver::GenericAMD(c) => c.set_cpu_online(index, online),
            CpusDriver::Unknown(c) => c.set_cpu_online(index, online),
        }
    }

    fn set_cpu_governor(&mut self, index: usize, governor: String) {
        match self {
            CpusDriver::SteamDeck(c) => c.set_cpu_governor(index, governor),
            CpusDriver::Generic(c) => c.set_cpu_governor(index, governor),
            CpusDriver::GenericAMD(c) => c.set_cpu_governor(index, governor),
            CpusDriver::Unknown(c) => c.set_cpu_governor(index, governor),
        }
    }

    fn cpu_governor(&self, index: usize) -> (r: &str) {
        match self {
            CpusDriver::SteamDeck(c) => c.cpu_governor(index),
            CpusDriver::Generic(c) => c.cpu_governor(index),
            CpusDriver::GenericAMD(c) => c.cpu_governor(index),
            CpusDriver::Unknown(c) => c.cpu_governor(index),
        }
    }

    fn set_cpu_clock_limits(&mut self, index: usize, limits: Option<MinMax<u64>>) {
        match self {
            CpusDriver::SteamDeck(c) => c.set_cpu_clock_limits(index, limits),
            CpusDriver::Generic(c) => c.set_cpu_clock_limits(index, limits),
            CpusDriver::GenericAMD(c) => c.set_cpu_clock_limits(index, limits),
            CpusDriver::Unknown(c) => c.set_cpu_clock_limits(index, limits),
        }
    }

    fn cpu_clock_limits(&self, index: usize) -> (r: Option<MinMax<u64>>) {
        match self {
            CpusDriver::SteamDeck(c) => c.cpu_clock_limits(index),
            CpusDriver::Generic(c) => c.cpu_clock_limits(index),
            CpusDriver::GenericAMD(c) => c.cpu_clock_limits(index),
            CpusDriver::Unknown(c) => c.cpu_clock_limits(index),
        }
    }

    fn provider(&self) -> (r: DriverJson) {
        match self {
            CpusDriver::SteamDeck(c) => c.provider(),
            CpusDriver::Generic(c) => c.provider(),
            CpusDriver::GenericAMD(c) => c.provider(),
            CpusDriver::Unknown(c) => c.provider(),
        }
    }
}

impl TGpu for GpuDriver {
    open spec fn gpu_view(&self) -> GpuView {
        match self {
            GpuDriver::SteamDeck(g) => g.gpu_view(),
            GpuDriver::Generic(g) => g.gpu_view(),
            GpuDriver::GenericAMD(g) => g.gpu_view(),
            GpuDriver::Unknown(g) => g.gpu_view(),
        }
    }

    open spec fn provider_view(&self) -> DriverJson {
        match self {
            GpuDriver::SteamDeck(g) => g.provider_view(),
            GpuDriver::Generic(g) => g.provider_view(),
            GpuDriver::GenericAMD(g) => g.provider_view(),
            GpuDriver::Unknown(g) => g.provider_view(),
        }
    }

    open spec fn ppt_acceptable(&self, fast: Option<u64>, slow: Option<u64>) -> bool {
        match self {
            GpuDriver::SteamDeck(g) => g.ppt_acceptable(fast, slow),
            GpuDriver::Generic(g) => g.ppt_acceptable(fast, slow),
            GpuDriver::GenericAMD(g) => g.ppt_acceptable(fast, slow),
            GpuDriver::Unknown(g) => g.ppt_acceptable(fast, slow),
        }
    }

    open spec fn after_ppt(&self, fast: Option<u64>, slow: Option<u64>) -> GpuView {
        match self {
            GpuDriver::SteamDeck(g) => g.after_ppt(fast, slow),
            GpuDriver::Generic(g) => g.after_ppt(fast, slow),
            GpuDriver::GenericAMD(g) => g.after_ppt(fast, slow),
            GpuDriver::Unknown(g) => g.after_ppt(fast, slow),
        }
    }

    open spec fn after_clock_limits(&self, limits: Option<MinMax<u64>>) -> GpuView {
        match self {
            GpuDriver::SteamDeck(g) => g.after_clock_limits(limits),
            GpuDriver::Generic(g) => g.after_clock_limits(limits),
            GpuDriver::GenericAMD(g) => g.after_clock_limits(limits),
            GpuDriver::Unknown(g) => g.after_clock_limits(limits),
        }
    }

    open spec fn ppt_shown(&self) -> (Option<u64>, Option<u64>) {
        match self {
            GpuDriver::SteamDeck(g) => g.ppt_shown(),
            GpuDriver::Generic(g) => g.ppt_shown(),
            GpuDriver::GenericAMD(g) => g.ppt_shown(),
            GpuDriver::Unknown(g) => g.ppt_shown(),
        }
    }

    open spec fn gpu_wf(&self) -> bool {
        match self {
            GpuDriver::SteamDeck(g) => g.gpu_wf(),
            GpuDriver::Generic(g) => g.gpu_wf(),
            GpuDriver::GenericAMD(g) => g.gpu_wf(),
            GpuDriver::Unknown(g) => g.gpu_wf(),
        }
    }

    fn is_well_formed(&self) -> (r: bool) {
        match self {
            GpuDriver::SteamDeck(g) => g.is_well_formed(),
            GpuDriver::Generic(g) => g.is_well_formed(),
            GpuDriver::GenericAMD(g) => g.is_well_formed(),
            GpuDriver::Unknown(g) => g.is_well_formed(),
        }
    }

    fn accepts_ppt(&self, fast: Option<u64>, slow: Option<u64>) -> (r: bool) {
        match self {
            GpuDriver::SteamDeck(g) => g.accepts_ppt(fast, slow),
            GpuDriver::Generic(g) => g.accepts_ppt(fast, slow),
            GpuDriver::GenericAMD(g) => g.accepts_ppt(fast, slow),
            GpuDriver::Unknown(g) => g.accepts_ppt(fast, slow),
        }
    }

    open spec fn gpu_limits(&self) -> crate::api::GpuLimits {
        match self {
            GpuDriver::SteamDeck(g) => g.gpu_limits(),
            GpuDriver::Generic(g) => g.gpu_limits(),
            GpuDriver::GenericAMD(g) => g.gpu_limits(),
            GpuDriver::Unknown(g) => g.gpu_limits(),
        }
    }

    fn limits(&self) -> (r: crate::api::GpuLimits) {
        match self {
            GpuDriver::SteamDeck(g) => g.limits(),
            GpuDriver::Generic(g) => g.limits(),
            GpuDriver::GenericAMD(g) => g.limits(),
            GpuDriver::Unknown(g) => g.limits(),
        }
    }

    open spec fn persisted(&self) -> GpuJson {
        match self {
            GpuDriver::SteamDeck(g) => g.persisted(),
            GpuDriver::Generic(g) => g.persisted(),
            GpuDriver::GenericAMD(g) => g.persisted(),
            GpuDriver::Unknown(g) => g.persisted(),
        }
    }

    fn json(&self) -> (r: GpuJson) {
        match self {
            GpuDriver::SteamDeck(g) => g.json(),
            GpuDriver::Generic(g) => g.json(),
            GpuDriver::GenericAMD(g) => g.json(),
            GpuDriver::Unknown(g) => g.json(),
        }
    }

    fn ppt(&mut self, fast: Option<u64>, slow: Option<u64>) {
        match self {
            GpuDriver::SteamDeck(g) => g.ppt(fast, slow),
            GpuDriver::Generic(g) => g.ppt(fast, slow),
            GpuDriver::GenericAMD(g) => g.ppt(fast, slow),
            GpuDriver::Unknown(g) => g.ppt(fast, slow),
        }
    }

    fn get_ppt(&self) -> (r: (Option<u64>, Option<u64>)) {
        match self {
            GpuDriver::SteamDeck(g) => g.get_ppt(),
            GpuDriver::Generic(g) => g.get_ppt(),
            GpuDriver::GenericAMD(g) => g.get_ppt(),
            GpuDriver::Unknown(g) => g.get_ppt(),
        }
    }

    fn clock_limits(&mut self, limits: Option<MinMax<u64>>) {
        match self {
            GpuDriver::SteamDeck(g) => g.clock_limits(limits),
            GpuDriver::Generic(g) => g.clock_limits(limits),
            GpuDriver::GenericAMD(g) => g.clock_limits(limits),
            GpuDriver::Unknown(g) => g.clock_limits(limits),
        }
    }

    fn get_clock_limits(&self) -> (r: Option<&MinMax<u64>>) {
        match self {
            GpuDriver::SteamDeck(g) => g.get_clock_limits(),
            GpuDriver::Generic(g) => g.get_clock_limits(),
            GpuDriver::GenericAMD(g) => g.get_clock_limits(),
            GpuDriver::Unknown(g) => g.get_clock_limits(),
        }
    }

    fn set_slow_memory(&mut self, slow: bool) {
        match self {
            GpuDriver::SteamDeck(g) => g.set_slow_memory(slow),
            GpuDriver::Generic(g) => g.set_slow_memory(slow),
            GpuDriver::GenericAMD(g) => g.set_slow_memory(slow),
            GpuDriver::Unknown(g) => g.set_slow_memory(slow),
        }
    }

    fn slow_memory(&self) -> (r: bool) {
        match self {
            GpuDriver::SteamDeck(g) => g.slow_memory(),
            GpuDriver::Generic(g) => g.slow_memory(),
            GpuDriver::GenericAMD(g) => g.slow_memory(),
            GpuDriver::Unknown(g) => g.slow_memory(),
        }
    }

    fn provider(&self) -> (r: DriverJson) {
        match self {
            GpuDriver::SteamDeck(g) => g.provider(),
            GpuDriver::Generic(g) => g.provider(),
            GpuDriver::GenericAMD(g) => g.provider(),
            GpuDriver::Unknown(g) => g.provider(),
        }
    }
}

impl TBattery for BatteryDriver {
    open spec fn battery_view(&self) -> BatteryView {
        match self {
            BatteryDriver::SteamDeck(b) => b.battery_view(),
            BatteryDriver::Generic(b) => b.battery_view(),
            BatteryDriver::Unknown(b) => b.battery_view(),
        }
    }

    open spec fn provider_view(&self) -> DriverJson {
        match self {
            BatteryDriver::SteamDeck(b) => b.provider_view(),
            BatteryDriver::Generic(b) => b.provider_view(),
            BatteryDriver::Unknown(b) => b.provider_view(),
        }
    }

    open spec fn after_charge_rate(&self, rate: Option<u64>) -> BatteryView {
        match self {
            BatteryDriver::SteamDeck(b) => b.after_charge_rate(rate),
            BatteryDriver::Generic(b) => b.after_charge_rate(rate),
            BatteryDriver::Unknown(b) => b.after_charge_rate(rate),
        }
    }

    open spec fn after_charge_mode(&self, mode: Option<Seq<char>>) -> BatteryView {
        match self {
            BatteryDriver::SteamDeck(b) => b.after_charge_mode(mode),
            BatteryDriver::Generic(b) => b.after_charge_mode(mode),
            BatteryDriver::Unknown(b) => b.after_charge_mode(mode),
        }
    }

    open spec fn battery_limits(&self) -> BatteryLimitsView {
        match self {
            BatteryDriver::SteamDeck(b) => b.battery_limits(),
            BatteryDriver::Generic(b) => b.battery_limits(),
            BatteryDriver::Unknown(b) => b.battery_limits(),
        }
    }

    fn limits(&self) -> (r: crate::api::BatteryLimits) {
        match self {
            BatteryDriver::SteamDeck(b) => b.limits(),
            BatteryDriver::Generic(b) => b.limits(),
            BatteryDriver::Unknown(b) => b.limits(),
        }
    }

    fn json(&self) -> (r: BatteryJson) {
        match self {
            BatteryDriver::SteamDeck(b) => b.json(),
            BatteryDriver::Generic(b) => b.json(),
            BatteryDriver::Unknown(b) => b.json(),
        }
    }

    fn charge_rate(&mut self, rate: Option<u64>) {
        match self {
            BatteryDriver::SteamDeck(b) => b.charge_rate(rate),
            BatteryDriver::Generic(b) => b.charge_rate(rate),
            BatteryDriver::Unknown(b) => b.charge_rate(rate),
        }
    }

    fn get_charge_rate(&self) -> (r: Option<u64>) {
        match self {
            BatteryDriver::SteamDeck(b) => b.get_charge_rate(),
            BatteryDriver::Generic(b) => b.get_charge_rate(),
            BatteryDriver::Unknown(b) => b.get_charge_rate(),
        }
    }

    fn charge_mode(&mut self, mode: Option<String>) {
        match self {
            BatteryDriver::SteamDeck(b) => b.charge_mode(mode),
            BatteryDriver::Generic(b) => b.charge_mode(mode),
            BatteryDriver::Unknown(b) => b.charge_mode(mode),
        }
    }

    fn get_charge_mode(&self) -> (r: Option<String>) {
        match self {
            BatteryDriver::SteamDeck(b) => b.get_charge_mode(),
            BatteryDriver::Generic(b) => b.get_charge_mode(),
            BatteryDriver::Unknown(b) => b.get_charge_mode(),
        }
    }

    fn provider(&self) -> (r: DriverJson) {
        match self {
            BatteryDriver::SteamDeck(b) => b.provider(),
            BatteryDriver::Generic(b) => b.provider(),
            BatteryDriver::Unknown(b) => b.provider(),
        }
    }
}

} // verus!

verus! {

/// Persisted CPUs are readable by the driver their settings lead to.
pub open spec fn init_readable(s: SettingsJson, configs: Seq<EvaluatedConfig>, facts: SystemFacts) -> bool {
    if s.version == 0 && !(s.provider matches Some(p) && (p == DriverJson::SteamDeck
        || p == DriverJson::SteamDeckAdvance || p == DriverJson::Generic)) {
        cpus_json_ok(detect_choice(configs).cpu, Some(s), facts)
    } else {
        json_cpus_readable(s.cpus@.len() as int, facts.cpu_count)
    }
}

/// Test `init_readable`.
pub fn settings_readable(s: &SettingsJson, configs: &Vec<EvaluatedConfig>, facts: &SystemFacts) -> (r: bool)
    ensures
        r == init_readable(*s, configs@, *facts),
{
    let named = match s.provider {
        Some(p) => p == DriverJson::SteamDeck || p == DriverJson::SteamDeckAdvance || p == DriverJson::Generic,
        None => false,
    };
    if s.version == 0 && !named {
        crate::settings::detect::detect_readable_for(s.cpus.len(), configs, facts)
    } else {
        crate::settings::detect::cpus_readable(s.cpus.len(), facts.cpu_count)
    }
}

/// The general settings read from persisted settings, for a driver.
pub open spec fn general_from(g: General, s: SettingsJson, json_path: Seq<char>, driver: DriverJson) -> bool {
    &&& g.persistent == s.persistent
    &&& g.path@ == json_path
    &&& g.name@ == s.name@
    &&& g.driver == driver
    &&& match s.events {
        Some(e) => g.events == e,
        None => no_events(g.events),
    }
}

/// Whether the drivers are the Steam Deck's, read from persisted settings.
pub open spec fn deck_drivers_read(d: Driver, s: SettingsJson, facts: SystemFacts) -> bool {
    let deck = deck_driver(facts.oc_is_default);
    &&& d.cpus.provider_view() == deck && d.gpu.provider_view() == deck && d.battery.provider_view() == deck
    &&& cpus_built(d.cpus, Some(CpuLimit::SteamDeck), Some(s.cpus@), facts)
    &&& gpu_built(d.gpu, Some(GpuLimit::SteamDeck), Some(s.gpu), facts)
    &&& battery_built(d.battery, Some(BatteryLimit::SteamDeck), Some(s.battery), facts)
}

/// What the drivers read from persisted settings are.
pub open spec fn init_driver(d: Driver, s: SettingsJson, json_path: Seq<char>, configs: Seq<EvaluatedConfig>, facts: SystemFacts) -> bool {
    if s.version != 0 || s.provider == Some(DriverJson::SteamDeck) {
        &&& general_from(d.general, s, json_path, DriverJson::SteamDeck)
        &&& deck_drivers_read(d, s, facts)
    } else if s.provider == Some(DriverJson::SteamDeckAdvance) {
        &&& general_from(d.general, s, json_path, DriverJson::SteamDeckAdvance)
        &&& deck_drivers_read(d, s, facts)
    } else if s.provider == Some(DriverJson::Generic) {
        &&& general_from(d.general, s, json_path, DriverJson::Unknown)
        &&& d.cpus.provider_view() == DriverJson::Generic
        &&& d.gpu.provider_view() == DriverJson::Generic
        &&& d.battery.provider_view() == DriverJson::Generic
        &&& cpus_built(d.cpus, Some(CpuLimit::Generic(GenericCpuLimit { clock_min: None, clock_max: None, clock_step: 0 })), Some(s.cpus@), facts)
        &&& gpu_built(d.gpu, Some(GpuLimit::Generic(GenericGpuLimit {
            fast_ppt: None,
            slow_ppt: None,
            ppt_step: None,
            tdp: None,
            tdp_boost: None,
            tdp_step: None,
            clock_min: None,
            clock_max: None,
            clock_step: None,
        })), Some(s.gpu), facts)
        &&& battery_built(d.battery, Some(BatteryLimit::Generic(GenericBatteryLimit {})), Some(s.battery), facts)
    } else {
        detected(d, configs, Some(s), json_path, s.name@, facts)
    }
}

fn general_of(persistent: bool, path: String, name: String, driver: DriverJson, events: Option<OnEventJson>) -> (g: General)
    ensures
        g.persistent == persistent,
        g.path@ == path@,
        g.name@ == name@,
        g.driver == driver,
        match events {
            Some(e) => g.events == e,
            None => no_events(g.events),
        },
{
    let events = match events {
        Some(e) => e,
        None => OnEventJson::default(),
    };
    General { persistent, path, name, driver, events }
}

impl Driver {
    /// The drivers for persisted settings: by their version and provider, or detected.
    pub fn init(settings: SettingsJson, json_path: String, configs: &Vec<EvaluatedConfig>, facts: &SystemFacts) -> (r: Result<Self, SettingError>)
        requires
            init_readable(settings, configs@, *facts),
        ensures
            r matches Ok(d) && init_driver(d, settings, json_path@, configs@, *facts),
    {
        if settings.version == 0 {
            Self::version0(settings, json_path, configs, facts)
        } else {
            let SettingsJson { version, name, persistent, cpus, gpu, battery, events, .. } = settings;
            Ok(Driver {
                general: general_of(persistent, json_path, name, DriverJson::SteamDeck, events),
                cpus: CpusDriver::SteamDeck(steam_deck::Cpus::from_json(cpus, version, facts)),
                gpu: GpuDriver::SteamDeck(steam_deck::Gpu::from_json(gpu, version, &facts.oc_limits, facts.oc_is_default)),
                battery: BatteryDriver::SteamDeck(steam_deck::Battery::from_json(battery, version, &facts.oc_limits, facts.oc_is_default)),
            })
        }
    }

    fn version0(settings: SettingsJson, json_path: String, configs: &Vec<EvaluatedConfig>, facts: &SystemFacts) -> (r: Result<Self, SettingError>)
        requires
            settings.version == 0,
            init_readable(settings, configs@, *facts),
        ensures
            r matches Ok(d) && init_driver(d, settings, json_path@, configs@, *facts),
    {
        let ghost s = settings;
        match settings.provider {
            Some(DriverJson::SteamDeck) | Some(DriverJson::SteamDeckAdvance) => {
                let driver = if settings.provider == Some(DriverJson::SteamDeck) {
                    DriverJson::SteamDeck
                } else {
                    DriverJson::SteamDeckAdvance
                };
                let SettingsJson { version, name, persistent, cpus, gpu, battery, events, .. } = settings;
                Ok(Driver {
                    general: general_of(persistent, json_path, name, driver, events),
                    cpus: CpusDriver::SteamDeck(steam_deck::Cpus::from_json(cpus, version, facts)),
                    gpu: GpuDriver::SteamDeck(steam_deck::Gpu::from_json(gpu, version, &facts.oc_limits, facts.oc_is_default)),
                    battery: BatteryDriver::SteamDeck(steam_deck::Battery::from_json(battery, version, &facts.oc_limits, facts.oc_is_default)),
                })
            },
            Some(DriverJson::Generic) => {
                let SettingsJson { version, name, persistent, cpus, gpu, battery, events, .. } = settings;
                Ok(Driver {
                    general: general_of(persistent, json_path, name, DriverJson::Unknown, events),
                    cpus: CpusDriver::Generic(generic::Cpus::from_json_and_limits(cpus, version, GenericCpuLimit::default(), facts)),
                    gpu: GpuDriver::Generic(generic::Gpu::from_json_and_limits(gpu, version, GenericGpuLimit::default())),
                    battery: BatteryDriver::Generic(generic::Battery::from_json_and_limits(battery, version, GenericBatteryLimit {})),
                })
            },
            _ => {
                let name = settings.name.clone();
                Ok(auto_detect0(Some(settings), json_path, name, configs, facts))
            },
        }
    }

    /// The drivers of a device without persisted settings: detected.
    pub fn system_default(json_path: String, name: String, configs: &Vec<EvaluatedConfig>, facts: &SystemFacts) -> (r: Self)
        ensures
            detected(r, configs@, None, json_path@, name@, *facts),
    {
        auto_detect0(None, json_path, name, configs, facts)
    }
}

/// What pressing the secret button does on a device.
#[derive(Debug, Clone, Copy)]
pub enum ButtonAction {
    /// Flash the Steam Deck's power LED.
    FlashLed,
    /// Nothing can be done: warn with this message.
    Warn(&'static str),
}

/// What the secret button does on the detected device: the Steam Deck family flashes its LED;
/// elsewhere a warning is logged.
pub fn maybe_do_button(configs: &Vec<EvaluatedConfig>, facts: &SystemFacts) -> (r: ButtonAction)
    ensures
        ({
            let p = battery_provider_for(detect_choice(configs@).battery, facts.oc_is_default);
            (r is FlashLed) <==> (p == DriverJson::SteamDeck || p == DriverJson::SteamDeckAdvance)
        }),
{
    match auto_detect_provider(configs, facts) {
        DriverJson::SteamDeck | DriverJson::SteamDeckAdvance => ButtonAction::FlashLed,
        DriverJson::Generic => ButtonAction::Warn("You need to come up with something fun on generic"),
        DriverJson::GenericAMD => ButtonAction::Warn("You need to come up with something fun on generic"),
        DriverJson::Unknown => ButtonAction::Warn("Can't do button activities on unknown platform"),
        DriverJson::AutoDetect => ButtonAction::Warn("WTF, why is auto_detect detecting AutoDetect???"),
    }
}

} // verus!
