//! Device limits as published by the limits service: which drivers a device
//! gets, under which conditions, and with which ranges.

use vstd::prelude::*;

verus! {

/// An optional lower and upper bound.
#[derive(Clone, Copy, Debug)]
pub struct RangeLimit<T> {
    pub min: Option<T>,
    pub max: Option<T>,
}

/// Conditions under which a config applies (ANDed together).
pub struct Conditions {
    /// Regex pattern for dmidecode output
    pub dmi: Option<String>,
    /// Regex pattern for /proc/cpuinfo reading
    pub cpuinfo: Option<String>,
    /// Regex pattern for /etc/os-release reading
    pub os: Option<String>,
    /// Custom command to run, where an exit code of 0 means a successful match
    pub command: Option<String>,
    /// Check if file exists
    pub file_exists: Option<String>,
}

impl Conditions {
    /// No condition is given at all.
    pub open spec fn spec_is_empty(&self) -> bool {
        &&& self.dmi is None
        &&& self.cpuinfo is None
        &&& self.os is None
        &&& self.command is None
        &&& self.file_exists is None
    }

    pub fn is_empty(&self) -> (r: bool)
        ensures
            r == self.spec_is_empty(),
    {
        self.dmi.is_none() && self.cpuinfo.is_none() && self.os.is_none()
            && self.command.is_none() && self.file_exists.is_none()
    }
}

/// A device configuration: the drivers to use when its conditions hold.
pub struct Config {
    pub name: String,
    pub conditions: Conditions,
    pub limits: Vec<Limits>,
}

/// Limits of the CPUs.
pub enum CpuLimit {
    SteamDeck,
    SteamDeckAdvance,
    Generic(GenericCpuLimit),
    GenericAMD(GenericCpuLimit),
    Unknown,
}

/// Clock limits of a generic CPU.
#[derive(Clone, Debug)]
pub struct GenericCpuLimit {
    pub clock_min: Option<RangeLimit<u64>>,
    pub clock_max: Option<RangeLimit<u64>>,
    pub clock_step: u64,
}

impl Default for GenericCpuLimit {
    fn default() -> (r: Self)
        ensures
            r.clock_min is None,
            r.clock_max is None,
            r.clock_step == 0,
    {
        GenericCpuLimit { clock_min: None, clock_max: None, clock_step: 0 }
    }
}

/// Limits of the GPU.
pub enum GpuLimit {
    SteamDeck,
    SteamDeckAdvance,
    Generic(GenericGpuLimit),
    GenericAMD(GenericGpuLimit),
    Unknown,
}

/// Power and clock limits of a generic GPU.
#[derive(Clone, Debug)]
pub struct GenericGpuLimit {
    pub fast_ppt: Option<RangeLimit<u64>>,
    pub slow_ppt: Option<RangeLimit<u64>>,
    pub ppt_step: Option<u64>,
    pub tdp: Option<RangeLimit<u64>>,
    pub tdp_boost: Option<RangeLimit<u64>>,
    pub tdp_step: Option<u64>,
    pub clock_min: Option<RangeLimit<u64>>,
    pub clock_max: Option<RangeLimit<u64>>,
    pub clock_step: Option<u64>,
}

impl Default for GenericGpuLimit {
    fn default() -> (r: Self)
        ensures
            r.fast_ppt is None,
            r.slow_ppt is None,
            r.ppt_step is None,
            r.tdp is None,
            r.tdp_boost is None,
            r.tdp_step is None,
            r.clock_min is None,
            r.clock_max is None,
            r.clock_step is None,
    {
        GenericGpuLimit {
            fast_ppt: None,
            slow_ppt: None,
            ppt_step: None,
            tdp: None,
            tdp_boost: None,
            tdp_step: None,
            clock_min: None,
            clock_max: None,
            clock_step: None,
        }
    }
}

/// Limits of the battery.
pub enum BatteryLimit {
    SteamDeck,
    SteamDeckAdvance,
    Generic(GenericBatteryLimit),
    Unknown,
}

/// Limits of a generic battery (none are known yet).
#[derive(Clone, Debug)]
pub struct GenericBatteryLimit {}

/// Limits of one kind of device component.
pub enum Limits {
    Cpu(CpuLimit),
    Gpu(GpuLimit),
    Battery(BatteryLimit),
}

/// Message from the developers.
pub struct DeveloperMessage {
    /// Message identifier
    pub id: u64,
    /// Message title
    pub title: String,
    /// Message content
    pub body: String,
    /// Link for further information
    pub url: Option<String>,
}

/// Device family a limit targets.
pub enum Target {
    SteamDeck,
    SteamDeckAdvance,
    Generic,
    Unknown,
}

/// Base JSON limits information.
pub struct Base {
    /// System-specific configurations
    pub configs: Vec<Config>,
    /// Server messages
    pub messages: Vec<DeveloperMessage>,
    /// URL from which to grab the next update
    pub refresh: Option<String>,
}


/// A range with both bounds given.
pub open spec fn spec_range(min: u64, max: u64) -> RangeLimit<u64> {
    RangeLimit { min: Some(min), max: Some(max) }
}

/// Conditions that only look at /proc/cpuinfo (and possibly at a file's existence).
pub open spec fn cpuinfo_conditions(c: Conditions, cpuinfo: Seq<char>, file: Option<Seq<char>>) -> bool {
    &&& c.dmi is None
    &&& c.cpuinfo matches Some(p) && p@ == cpuinfo
    &&& c.os is None
    &&& c.command is None
    &&& match file {
        Some(f) => c.file_exists matches Some(x) && x@ == f,
        None => c.file_exists is None,
    }
}

/// A Steam Deck config: all three drivers of the Steam Deck family.
pub open spec fn deck_config(c: Config, name: Seq<char>, file: Option<Seq<char>>, advance: bool) -> bool {
    &&& c.name@ == name
    &&& cpuinfo_conditions(c.conditions, "model name\t: AMD Custom APU 0405\n"@, file)
    &&& c.limits@.len() == 3
    &&& c.limits@[0] == if advance { Limits::Cpu(CpuLimit::SteamDeckAdvance) } else { Limits::Cpu(CpuLimit::SteamDeck) }
    &&& c.limits@[1] == if advance { Limits::Gpu(GpuLimit::SteamDeckAdvance) } else { Limits::Gpu(GpuLimit::SteamDeck) }
    &&& c.limits@[2] == if advance { Limits::Battery(BatteryLimit::SteamDeckAdvance) } else { Limits::Battery(BatteryLimit::SteamDeck) }
}

/// The CPU limits of a known generic AMD APU.
pub open spec fn apu_cpu_limit(cpu_max: u64) -> GenericCpuLimit {
    GenericCpuLimit {
        clock_min: Some(spec_range(1000, cpu_max)),
        clock_max: Some(spec_range(1000, cpu_max)),
        clock_step: 100,
    }
}

/// The GPU limits of a known generic AMD APU.
pub open spec fn apu_gpu_limit(ppt_max: u64, gpu_max: u64) -> GenericGpuLimit {
    GenericGpuLimit {
        fast_ppt: Some(spec_range(1_000_000, ppt_max)),
        slow_ppt: Some(spec_range(1_000_000, ppt_max)),
        ppt_step: Some(1_000_000),
        tdp: None,
        tdp_boost: None,
        tdp_step: None,
        clock_min: Some(spec_range(400, gpu_max)),
        clock_max: Some(spec_range(400, gpu_max)),
        clock_step: Some(100),
    }
}

/// A config for a known AMD APU; `amd` selects the AMD-specific drivers over the generic ones.
pub open spec fn apu_config(
    c: Config,
    name: Seq<char>,
    cpuinfo: Seq<char>,
    cpu_max: u64,
    ppt_max: u64,
    gpu_max: u64,
    amd: bool,
) -> bool {
    &&& c.name@ == name
    &&& cpuinfo_conditions(c.conditions, cpuinfo, None)
    &&& c.limits@.len() == 3
    &&& c.limits@[0] == if amd { Limits::Cpu(CpuLimit::GenericAMD(apu_cpu_limit(cpu_max))) } else { Limits::Cpu(CpuLimit::Generic(apu_cpu_limit(cpu_max))) }
    &&& c.limits@[1] == if amd { Limits::Gpu(GpuLimit::GenericAMD(apu_gpu_limit(ppt_max, gpu_max))) } else { Limits::Gpu(GpuLimit::Generic(apu_gpu_limit(ppt_max, gpu_max))) }
    &&& c.limits@[2] == Limits::Battery(BatteryLimit::Generic(GenericBatteryLimit {}))
}

/// The catch-all config: no conditions, unknown drivers.
pub open spec fn fallback_config(c: Config) -> bool {
    &&& c.name@ == "Fallback"@
    &&& c.conditions.spec_is_empty()
    &&& c.limits@ == seq![
        Limits::Cpu(CpuLimit::Unknown),
        Limits::Gpu(GpuLimit::Unknown),
        Limits::Battery(BatteryLimit::Unknown),
    ]
}

fn range(min: u64, max: u64) -> (r: RangeLimit<u64>)
    ensures
        r == spec_range(min, max),
{
    RangeLimit { min: Some(min), max: Some(max) }
}

fn deck_config_value(name: &str, file: Option<&str>, advance: bool) -> (c: Config)
    ensures
        deck_config(c, name@, match file { Some(f) => Some(f@), None => None }, advance),
{
    let file_exists = match file {
        Some(f) => Some(String::from_str(f)),
        None => None,
    };
    let limits = if advance {
        vec![
            Limits::Cpu(CpuLimit::SteamDeckAdvance),
            Limits::Gpu(GpuLimit::SteamDeckAdvance),
            Limits::Battery(BatteryLimit::SteamDeckAdvance),
        ]
    } else {
        vec![
            Limits::Cpu(CpuLimit::SteamDeck),
            Limits::Gpu(GpuLimit::SteamDeck),
            Limits::Battery(BatteryLimit::SteamDeck),
        ]
    };
    Config {
        name: String::from_str(name),
        conditions: Conditions {
            dmi: None,
            cpuinfo: Some(String::from_str("model name\t: AMD Custom APU 0405\n")),
            os: None,
            command: None,
            file_exists,
        },
        limits,
    }
}

fn apu_config_value(name: &str, cpuinfo: &str, cpu_max: u64, ppt_max: u64, gpu_max: u64, amd: bool) -> (c: Config)
    ensures
        apu_config(c, name@, cpuinfo@, cpu_max, ppt_max, gpu_max, amd),
{
    let cpu_limit = GenericCpuLimit {
        clock_min: Some(range(1000, cpu_max)),
        clock_max: Some(range(1000, cpu_max)),
        clock_step: 100,
    };
    let gpu_limit = GenericGpuLimit {
        fast_ppt: Some(range(1_000_000, ppt_max)),
        slow_ppt: Some(range(1_000_000, ppt_max)),
        ppt_step: Some(1_000_000),
        clock_min: Some(range(400, gpu_max)),
        clock_max: Some(range(400, gpu_max)),
        clock_step: Some(100),
        ..Default::default()
    };
    let limits = if amd {
        vec![
            Limits::Cpu(CpuLimit::GenericAMD(cpu_limit)),
            Limits::Gpu(GpuLimit::GenericAMD(gpu_limit)),
            Limits::Battery(BatteryLimit::Generic(GenericBatteryLimit {})),
        ]
    } else {
        vec![
            Limits::Cpu(CpuLimit::Generic(cpu_limit)),
            Limits::Gpu(GpuLimit::Generic(gpu_limit)),
            Limits::Battery(BatteryLimit::Generic(GenericBatteryLimit {})),
        ]
    };
    Config {
        name: String::from_str(name),
        conditions: Conditions {
            dmi: None,
            cpuinfo: Some(String::from_str(cpuinfo)),
            os: None,
            command: None,
            file_exists: None,
        },
        limits,
    }
}

impl Default for Base {
    /// The built-in limits, used when no limits file can be had.
    fn default() -> (b: Self)
        ensures
            b.configs@.len() == 7,
            deck_config(b.configs@[0], "Steam Deck Custom"@, Some("./pt_oc.json"@), true),
            deck_config(b.configs@[1], "Steam Deck"@, None, false),
            apu_config(b.configs@[2], "AMD R3 2300U"@, "model name\t+: AMD Ryzen 3 2300U\n"@, 3700, 25_000_000, 1100, true),
            apu_config(b.configs@[3], "AMD R5 5560U"@, "model name\t+: AMD Ryzen 5 5560U\n"@, 4000, 25_000_000, 1600, true),
            apu_config(b.configs@[4], "AMD R7 5825U"@, "model name\t+: AMD Ryzen 7 5825U\n"@, 4500, 25_000_000, 2000, true),
            apu_config(b.configs@[5], "AMD R7 6800U"@, "model name\t+: AMD Ryzen 7 6800U\n"@, 4700, 28_000_000, 2200, false),
            fallback_config(b.configs@[6]),
            b.messages@.len() == 1,
            b.messages@[0].id == 1,
            b.messages@[0].title@ == "Welcome"@,
            b.messages@[0].body@ == "Thanks for installing PowerTools! For more information, please check the wiki. For bugs and requests, please create an issue on GitHub."@,
            b.messages@[0].url matches Some(u) && u@ == "https://github.com/NGnius/PowerTools/wiki"@,
            b.refresh matches Some(r) && r@ == "http://limits.ngni.us:45000/powertools/v1"@,
    {
        let fallback = Config {
            name: String::from_str("Fallback"),
            conditions: Conditions { dmi: None, cpuinfo: None, os: None, command: None, file_exists: None },
            limits: vec![
                Limits::Cpu(CpuLimit::Unknown),
                Limits::Gpu(GpuLimit::Unknown),
                Limits::Battery(BatteryLimit::Unknown),
            ],
        };
        let configs = vec![
            deck_config_value("Steam Deck Custom", Some("./pt_oc.json"), true),
            deck_config_value("Steam Deck", None, false),
            apu_config_value("AMD R3 2300U", "model name\t+: AMD Ryzen 3 2300U\n", 3700, 25_000_000, 1100, true),
            apu_config_value("AMD R5 5560U", "model name\t+: AMD Ryzen 5 5560U\n", 4000, 25_000_000, 1600, true),
            apu_config_value("AMD R7 5825U", "model name\t+: AMD Ryzen 7 5825U\n", 4500, 25_000_000, 2000, true),
            apu_config_value("AMD R7 6800U", "model name\t+: AMD Ryzen 7 6800U\n", 4700, 28_000_000, 2200, false),
            fallback,
        ];
        let messages = vec![
            DeveloperMessage {
                id: 1,
                title: String::from_str("Welcome"),
                body: String::from_str("Thanks for installing PowerTools! For more information, please check the wiki. For bugs and requests, please create an issue on GitHub."),
                url: Some(String::from_str("https://github.com/NGnius/PowerTools/wiki")),
            },
        ];
        Base {
            configs,
            messages,
            refresh: Some(String::from_str("http://limits.ngni.us:45000/powertools/v1")),
        }
    }
}

} // verus!
