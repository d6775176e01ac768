//! The settings as they are saved to and loaded from disk.

use vstd::prelude::*;

verus! {

/// Persisted range.
#[derive(Clone, Copy, Debug)]
pub struct MinMaxJson<T> {
    pub max: T,
    pub min: T,
}

/// Persisted settings of one CPU (hardware thread).
#[derive(Clone, Debug)]
pub struct CpuJson {
    pub online: bool,
    pub clock_limits: Option<MinMaxJson<Option<u64>>>,
    pub governor: String,
}

/// Persisted GPU settings.
#[derive(Clone, Debug)]
pub struct GpuJson {
    pub fast_ppt: Option<u64>,
    pub slow_ppt: Option<u64>,
    pub clock_limits: Option<MinMaxJson<Option<u64>>>,
    pub slow_memory: bool,
    pub root: Option<String>,
}

impl Default for GpuJson {
    fn default() -> (r: Self)
        ensures
            r.fast_ppt is None,
            r.slow_ppt is None,
            r.clock_limits is None,
            !r.slow_memory,
            r.root is None,
    {
        GpuJson { fast_ppt: None, slow_ppt: None, clock_limits: None, slow_memory: false, root: None }
    }
}

/// Persisted battery settings.
#[derive(Clone, Debug)]
pub struct BatteryJson {
    pub charge_rate: Option<u64>,
    pub charge_mode: Option<String>,
    pub events: Vec<BatteryEventJson>,
    pub root: Option<String>,
}

/// Battery settings that apply on a power event.
#[derive(Clone, Debug)]
pub struct BatteryEventJson {
    pub trigger: String,
    pub charge_rate: Option<u64>,
    pub charge_mode: Option<String>,
}

impl Default for BatteryJson {
    fn default() -> (r: Self)
        ensures
            r.charge_rate is None,
            r.charge_mode is None,
            r.events@.len() == 0,
            r.root is None,
    {
        BatteryJson { charge_rate: None, charge_mode: None, events: Vec::new(), root: None }
    }
}

/// Persisted memory settings.
#[derive(Clone, Debug)]
pub struct MemoryJson {
    pub transparent_hugepages: Option<String>,
}

impl Default for MemoryJson {
    fn default() -> (r: Self)
        ensures
            r.transparent_hugepages is None,
    {
        MemoryJson { transparent_hugepages: None }
    }
}

/// Which driver (device family) a setting was made for.
#[derive(Clone, Copy, Debug, PartialEq, Eq, Structural)]
pub enum DriverJson {
    SteamDeck,
    SteamDeckAdvance,
    Generic,
    GenericAMD,
    Unknown,
    AutoDetect,
}

impl Default for DriverJson {
    fn default() -> (r: Self)
        ensures
            r == DriverJson::AutoDetect,
    {
        DriverJson::AutoDetect
    }
}

/// Shell commands run on settings events.
#[derive(Clone, Debug)]
pub struct OnEventJson {
    pub on_save: Option<String>,
    pub on_load: Option<String>,
    pub on_set: Option<String>,
    pub on_resume: Option<String>,
}

impl Default for OnEventJson {
    fn default() -> (r: Self)
        ensures
            r.on_save is None,
            r.on_load is None,
            r.on_set is None,
            r.on_resume is None,
    {
        OnEventJson { on_save: None, on_load: None, on_set: None, on_resume: None }
    }
}

/// A complete persisted settings profile.
#[derive(Clone, Debug)]
pub struct SettingsJson {
    pub version: u64,
    pub name: String,
    pub persistent: bool,
    pub cpus: Vec<CpuJson>,
    pub gpu: GpuJson,
    pub battery: BatteryJson,
    pub memory: MemoryJson,
    pub provider: Option<DriverJson>,
    pub events: Option<OnEventJson>,
}

impl Default for SettingsJson {
    fn default() -> (r: Self)
        ensures
            r.version == 0,
            r.name@ == crate::consts::DEFAULT_SETTINGS_NAME@,
            !r.persistent,
            r.cpus@.len() == 0,
            r.gpu.fast_ppt is None && r.gpu.slow_ppt is None && r.gpu.clock_limits is None,
            !r.gpu.slow_memory && r.gpu.root is None,
            r.battery.charge_rate is None && r.battery.charge_mode is None,
            r.battery.events@.len() == 0 && r.battery.root is None,
            r.memory.transparent_hugepages is None,
            r.provider is None,
            r.events is None,
    {
        SettingsJson {
            version: 0,
            name: String::from_str(crate::consts::DEFAULT_SETTINGS_NAME),
            persistent: false,
            cpus: Vec::with_capacity(8),
            gpu: GpuJson::default(),
            battery: BatteryJson::default(),
            memory: MemoryJson::default(),
            provider: None,
            events: None,
        }
    }
}

} // verus!
