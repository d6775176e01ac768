//! General settings (profile name, persistence, event commands) and the settings as a whole.

use vstd::prelude::*;

use crate::persist::{DriverJson, MemoryJson, OnEventJson, SettingsJson};
use crate::settings::detect::{deck_chosen, detect_choice, detected, EvaluatedConfig};
use crate::settings::driver::{init_driver, init_readable, BatteryDriver, CpusDriver, Driver, GpuDriver};
use crate::settings::system::SystemFacts;
use crate::settings::traits::{clock_limits_json, gpu_json_clock_limits, opt_string_view};
use crate::settings::{SettingError, SettingVariant, TBattery, TCpus, TGpu};

verus! {

/// General settings of a profile.
#[derive(Debug, Clone)]
pub struct General {
    pub persistent: bool,
    /// Where the profile is saved.
    pub path: String,
    pub name: String,
    pub driver: DriverJson,
    pub events: OnEventJson,
}

/// No event commands.
pub open spec fn no_events(e: OnEventJson) -> bool {
    e.on_save is None && e.on_load is None && e.on_set is None && e.on_resume is None
}

/// The command an event runs: the configured one, unless it is empty.
pub open spec fn event_command(e: Option<String>) -> Option<Seq<char>> {
    match e {
        Some(c) => if c@.len() > 0 { Some(c@) } else { None },
        None => None,
    }
}

/// The view of an optional string.
pub open spec fn opt_view(o: Option<String>) -> Option<Seq<char>> {
    match o {
        Some(s) => Some(s@),
        None => None,
    }
}

/// The command to run for an event, if one is configured and not empty.
pub fn event_to_run(e: &Option<String>) -> (r: Option<String>)
    ensures
        opt_view(r) == event_command(*e),
{
    match e {
        Some(c) => if c.unicode_len() > 0 { Some(c.clone()) } else { None },
        None => None,
    }
}

/// What the general settings look like to the rest of the program.
pub struct GeneralView {
    pub persistent: bool,
    pub path: Seq<char>,
    pub name: Seq<char>,
    pub driver: DriverJson,
}

/// The general settings of a profile.
pub trait TGeneral: Sized {
    spec fn general_view(&self) -> GeneralView;

    spec fn events_view(&self) -> OnEventJson;

    fn limits(&self) -> crate::api::GeneralLimits;

    fn get_persistent(&self) -> (r: bool)
        ensures
            r == self.general_view().persistent,
    ;

    fn set_persistent(&mut self, persistent: bool)
        ensures
            final(self).general_view() == (GeneralView { persistent, ..old(self).general_view() }),
            final(self).events_view() == old(self).events_view(),
    ;

    fn get_path(&self) -> (r: &str)
        ensures
            r@ == self.general_view().path,
    ;

    fn path(&mut self, path: String)
        ensures
            final(self).general_view() == (GeneralView { path: path@, ..old(self).general_view() }),
            final(self).events_view() == old(self).events_view(),
    ;

    fn get_name(&self) -> (r: &str)
        ensures
            r@ == self.general_view().name,
    ;

    fn name(&mut self, name: String)
        ensures
            final(self).general_view() == (GeneralView { name: name@, ..old(self).general_view() }),
            final(self).events_view() == old(self).events_view(),
    ;

    fn provider(&self) -> (r: DriverJson)
        ensures
            r == self.general_view().driver,
    ;

    fn on_event(&self) -> (r: &OnEventJson)
        ensures
            *r == self.events_view(),
    ;
}

impl General {
    /// The command to run when settings are applied, if any.
    pub fn on_set(&self) -> (r: Option<String>)
        ensures
            opt_view(r) == event_command(self.events.on_set),
    {
        event_to_run(&self.events.on_set)
    }

    /// The command to run after a resume, if any.
    pub fn on_resume(&self) -> (r: Option<String>)
        ensures
            opt_view(r) == event_command(self.events.on_resume),
    {
        event_to_run(&self.events.on_resume)
    }
}

impl TGeneral for General {
    open spec fn general_view(&self) -> GeneralView {
        GeneralView { persistent: self.persistent, path: self.path@, name: self.name@, driver: self.driver }
    }

    open spec fn events_view(&self) -> OnEventJson {
        self.events
    }

    fn limits(&self) -> crate::api::GeneralLimits {
        crate::api::GeneralLimits {}
    }

    fn get_persistent(&self) -> (r: bool) {
        self.persistent
    }

    fn set_persistent(&mut self, persistent: bool) {
        self.persistent = persistent;
    }

    fn get_path(&self) -> (r: &str) {
        self.path.as_str()
    }

    fn path(&mut self, path: String) {
        self.path = path;
    }

    fn get_name(&self) -> (r: &str) {
        self.name.as_str()
    }

    fn name(&mut self, name: String) {
        self.name = name;
    }

    fn provider(&self) -> (r: DriverJson) {
        self.driver
    }

    fn on_event(&self) -> (r: &OnEventJson) {
        &self.events
    }
}

fn clone_opt_string(o: &Option<String>) -> (r: Option<String>)
    ensures
        r == *o,
{
    match o {
        Some(s) => Some(s.clone()),
        None => None,
    }
}

/// A copy of event commands.
pub fn clone_events(e: &OnEventJson) -> (r: OnEventJson)
    ensures
        r == *e,
{
    OnEventJson {
        on_save: clone_opt_string(&e.on_save),
        on_load: clone_opt_string(&e.on_load),
        on_set: clone_opt_string(&e.on_set),
        on_resume: clone_opt_string(&e.on_resume),
    }
}

/// All settings of a profile: general settings and one driver per part of the device.
#[derive(Debug)]
pub struct Settings {
    pub general: General,
    pub cpus: CpusDriver,
    pub gpu: GpuDriver,
    pub battery: BatteryDriver,
}

/// The settings as the drivers they are made of.
pub open spec fn as_driver(s: Settings) -> Driver {
    Driver { general: s.general, cpus: s.cpus, gpu: s.gpu, battery: s.battery }
}

/// The settings with another path for their profile.
pub open spec fn with_path(s: Settings, path: String) -> Settings {
    Settings { general: General { path, ..s.general }, ..s }
}

/// What loading a profile file gave.
#[derive(Debug)]
pub struct LoadedProfile {
    /// Whether the profile is persistent.
    pub persistent: bool,
    /// The load event command to run, if any.
    pub on_load: Option<String>,
}

/// What loading a profile does (see `Settings::load_file`): `old` and `new` are the settings
/// before and after, `r` the outcome.
pub open spec fn loaded_file(
    old: Settings,
    new: Settings,
    r: Result<LoadedProfile, SettingError>,
    filename: Seq<char>,
    json_path: Seq<char>,
    name: Seq<char>,
    system_defaults: bool,
    file: Option<Result<SettingsJson, String>>,
    configs: Seq<EvaluatedConfig>,
    facts: SystemFacts,
) -> bool {
    &&& match file {
        Some(Err(m)) => {
            &&& r matches Err(e) && e.msg@ == m@ && e.setting == SettingVariant::General
            &&& new == old
        },
        Some(Ok(sj)) => {
            &&& new.general.path@ == filename
            &&& if sj.persistent {
                exists|p: String| p@ == json_path
                    && init_driver(#[trigger] as_driver(with_path(new, p)), sj, json_path, configs, facts)
            } else {
                &&& !new.general.persistent
                &&& new.general.name@ == name
                &&& new.general.driver == old.general.driver
                &&& new.general.events == old.general.events
                &&& new.cpus == old.cpus
                &&& new.gpu == old.gpu
                &&& new.battery == old.battery
            }
        },
        None => {
            &&& new.general.path@ == filename
            &&& !new.general.persistent
            &&& if system_defaults {
                detected(
                    as_driver(with_path(new, old.general.path)),
                    configs, None, old.general.path@, name, facts,
                )
            } else {
                &&& new.general.name@ == name
                &&& new.general.driver == old.general.driver
                &&& new.general.events == old.general.events
                &&& new.cpus == old.cpus
                &&& new.gpu == old.gpu
                &&& new.battery == old.battery
            }
        },
    }
    &&& r matches Ok(l) ==> {
        &&& l.persistent == new.general.persistent
        &&& opt_view(l.on_load) == event_command(new.general.events.on_load)
    }
    &&& file is Some ==> (r is Ok <==> file matches Some(Ok(_)))
    &&& file is None ==> r is Ok
}

/// Whether `r` is the persisted form of the settings `s`.
pub open spec fn saved_as(s: Settings, r: SettingsJson) -> bool {
    &&& r.version == crate::consts::LATEST_VERSION
    &&& r.name@ == s.general.name@
    &&& r.persistent == s.general.persistent
    &&& r.cpus@.len() == s.cpus.cpu_count()
    &&& forall|i: int| 0 <= i < r.cpus@.len() ==> {
        &&& #[trigger] r.cpus@[i].online == s.cpus.cpus_view()[i].online
        &&& r.cpus@[i].governor@ == s.cpus.cpus_view()[i].governor
        &&& r.cpus@[i].clock_limits == clock_limits_json(s.cpus.cpus_view()[i].clock_limits)
    }
    &&& r.gpu == s.gpu.persisted()
    &&& r.gpu.fast_ppt == s.gpu.gpu_view().fast_ppt
    &&& r.gpu.slow_ppt == s.gpu.gpu_view().slow_ppt
    &&& gpu_json_clock_limits(r.gpu) == s.gpu.gpu_view().clock_limits
    &&& r.battery.charge_rate == s.battery.battery_view().charge_rate
    &&& opt_string_view(r.battery.charge_mode) == s.battery.battery_view().charge_mode
    &&& r.battery.events@.len() == 0
    &&& r.battery.root is None
    &&& r.memory.transparent_hugepages is None
    &&& r.provider == Some(s.general.driver)
    &&& r.events == Some(s.general.events)
}

impl Settings {
    /// The settings from persisted settings (see `Driver::init`).
    pub fn from_json(other: SettingsJson, json_path: String, configs: &Vec<EvaluatedConfig>, facts: &SystemFacts) -> (r: Self)
        requires
            init_readable(other, configs@, *facts),
        ensures
            init_driver(as_driver(r), other, json_path@, configs@, *facts),
    {
        let ghost path = json_path@;
        match Driver::init(other, json_path, configs, facts) {
            Ok(x) => Settings { general: x.general, cpus: x.cpus, gpu: x.gpu, battery: x.battery },
            Err(_) => {
                assert(false);
                Settings::system_default(String::new(), String::new(), configs, facts)
            },
        }
    }

    /// The settings of the detected device, nothing persisted.
    pub fn system_default(json_path: String, name: String, configs: &Vec<EvaluatedConfig>, facts: &SystemFacts) -> (r: Self)
        ensures
            detected(as_driver(r), configs@, None, json_path@, name@, *facts),
    {
        let driver = Driver::system_default(json_path, name, configs, facts);
        Settings { general: driver.general, cpus: driver.cpus, gpu: driver.gpu, battery: driver.battery }
    }

    /// Replace all settings by those of the detected device, keeping the profile path.
    pub fn load_system_default(&mut self, name: String, configs: &Vec<EvaluatedConfig>, facts: &SystemFacts)
        ensures
            detected(as_driver(*final(self)), configs@, None, old(self).general.path@, name@, *facts),
    {
        let driver = Driver::system_default(self.general.path.clone(), name, configs, facts);
        self.cpus = driver.cpus;
        self.gpu = driver.gpu;
        self.battery = driver.battery;
        self.general = driver.general;
    }

    /// Load a profile, given the outcome of reading its file (`None`: there is no file; `Err`: it
    /// could not be read or parsed, with the message). `json_path` is where the file is,
    /// `filename` the profile path kept in the settings.
    ///
    /// A non-persistent profile only takes the new name; a persistent one replaces the drivers;
    /// without a file the settings are reset to the system's (when `system_defaults`) or only
    /// renamed. Gives whether the profile is persistent, and the load event command to run.
    pub fn load_file(
        &mut self,
        filename: String,
        json_path: String,
        name: String,
        system_defaults: bool,
        file: Option<Result<SettingsJson, String>>,
        configs: &Vec<EvaluatedConfig>,
        facts: &SystemFacts,
    ) -> (r: Result<LoadedProfile, SettingError>)
        requires
            match file {
                Some(Ok(sj)) => sj.persistent ==> init_readable(sj, configs@, *facts),
                _ => true,
            },
        ensures
            loaded_file(*old(self), *final(self), r, filename@, json_path@, name@, system_defaults, file, configs@, *facts),
    {
        match file {
            Some(Err(msg)) => {
                return Err(SettingError { msg, setting: SettingVariant::General });
            },
            Some(Ok(settings_json)) => {
                if !settings_json.persistent {
                    self.general.persistent = false;
                    self.general.name = name;
                } else {
                    let ghost sj = settings_json;
                    match Driver::init(settings_json, json_path, configs, facts) {
                        Ok(x) => {
                            self.general = x.general;
                            self.cpus = x.cpus;
                            self.gpu = x.gpu;
                            self.battery = x.battery;
                        },
                        Err(e) => {
                            assert(false);
                            return Err(e);
                        },
                    }
                }
            },
            None => {
                if system_defaults {
                    self.load_system_default(name, configs, facts);
                } else {
                    self.general.name = name;
                }
                self.general.persistent = false;
            },
        }
        let ghost before_path = *self;
        self.general.path = filename;
        assert(with_path(*self, before_path.general.path) == before_path);
        assert(as_driver(with_path(*self, before_path.general.path)) == as_driver(before_path));
        Ok(LoadedProfile {
            persistent: self.general.persistent,
            on_load: event_to_run(&self.general.events.on_load),
        })
    }

    /// The persisted form of the settings.
    pub fn json(&self) -> (r: SettingsJson)
        ensures
            saved_as(*self, r),
    {
        SettingsJson {
            version: crate::consts::LATEST_VERSION,
            name: self.general.name.clone(),
            persistent: self.general.persistent,
            cpus: self.cpus.json(),
            gpu: self.gpu.json(),
            battery: self.battery.json(),
            memory: MemoryJson::default(),
            provider: Some(self.general.driver),
            events: Some(clone_events(&self.general.events)),
        }
    }
}

/// Steam Deck settings, saved and read back on the same device (the same CPUs present and, unless
/// the profile names the Steam Deck driver, a detection that picks the Steam Deck again), give
/// back the same CPU, GPU and battery settings under the same profile name.
pub proof fn deck_settings_read_back(
    s: Settings,
    saved: SettingsJson,
    d: Driver,
    json_path: Seq<char>,
    configs: Seq<EvaluatedConfig>,
    facts: SystemFacts,
)
    requires
        s.cpus is SteamDeck,
        s.gpu is SteamDeck,
        s.battery is SteamDeck,
        s.general.driver == DriverJson::SteamDeck || s.general.driver == DriverJson::SteamDeckAdvance
            || (s.general.driver != DriverJson::Generic && deck_chosen(detect_choice(configs))),
        facts.cpu_count matches Some(m) ==> m == s.cpus.cpu_count(),
        saved_as(s, saved),
        init_driver(d, saved, json_path, configs, facts),
    ensures
        d.cpus.cpus_view() == s.cpus.cpus_view(),
        d.gpu.gpu_view() == s.gpu.gpu_view(),
        d.battery.battery_view() == s.battery.battery_view(),
        d.general.name@ == s.general.name@,
{
}

} // verus!
