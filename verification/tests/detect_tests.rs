use powertools::limits::{
    Base, BatteryLimit, Conditions, Config, CpuLimit, GenericCpuLimit, GpuLimit, Limits,
};
use powertools::persist::{CpuJson, DriverJson, SettingsJson};
use powertools::settings::detect::{
    auto_detect0, auto_detect_provider, conditions_hold, evaluate_conditions, ConditionProbe,
    ConditionResults, DetectTexts, EvaluatedConfig,
};
use powertools::settings::driver::{maybe_do_button, ButtonAction, CpusDriver, Driver, GpuDriver};
use powertools::settings::general::Settings;
use powertools::settings::system::{SystemFacts, SystemInfo};
use powertools::settings::{TBattery, TCpus, TGpu};

fn facts() -> SystemFacts {
    SystemFacts::from_info(SystemInfo {
        cpu_present: Some("0-7".to_owned()),
        smt_control: Some("on".to_owned()),
        cpus: vec![],
        oc_limits: None,
        ryzenadj_available: false,
    })
}

/// Persisted settings with all eight CPUs of the device.
fn settings_json() -> SettingsJson {
    let mut s = SettingsJson::default();
    s.cpus = (0..8).map(|_| CpuJson { online: true, clock_limits: None, governor: "schedutil".to_owned() }).collect();
    s
}

fn no_conditions() -> Conditions {
    Conditions { dmi: None, cpuinfo: None, os: None, command: None, file_exists: None }
}

fn deck_config() -> Config {
    Config {
        name: "Steam Deck".to_owned(),
        conditions: Conditions {
            dmi: None,
            cpuinfo: Some("vendor_id\\s+: AuthenticAMD\\s+cpu family\\s+: 23\\s+model\\s+: 144\\s+model name\\s+: AMD Custom APU 0405".to_owned()),
            os: None,
            command: None,
            file_exists: None,
        },
        limits: vec![
            Limits::Cpu(CpuLimit::SteamDeck),
            Limits::Gpu(GpuLimit::SteamDeck),
            Limits::Battery(BatteryLimit::SteamDeck),
        ],
    }
}

fn fallback_config() -> Config {
    Config {
        name: "Fallback".to_owned(),
        conditions: no_conditions(),
        limits: vec![
            Limits::Cpu(CpuLimit::Generic(GenericCpuLimit { clock_min: None, clock_max: None, clock_step: 100 })),
            Limits::Gpu(GpuLimit::Unknown),
            Limits::Battery(BatteryLimit::Unknown),
        ],
    }
}

fn base(configs: Vec<Config>) -> Base {
    Base { configs, messages: vec![], refresh: None }
}

fn texts(cpu_info: &str) -> DetectTexts {
    DetectTexts { cpu_info: cpu_info.to_owned(), os_info: String::new(), dmi_info: String::new() }
}

const DECK_CPUINFO: &str = "processor\t: 0\nvendor_id\t: AuthenticAMD\ncpu family\t: 23\nmodel\t\t: 144\nmodel name\t: AMD Custom APU 0405\n";

#[test]
fn empty_conditions_apply_only_while_incomplete() {
    let r = ConditionResults { empty: true, dmi: None, cpuinfo: None, os: None, command: None, file_exists: None };
    assert!(conditions_hold(&r, false));
    assert!(!conditions_hold(&r, true));
    let r = ConditionResults { empty: false, dmi: Some(true), cpuinfo: None, os: None, command: Some(false), file_exists: None };
    assert!(!conditions_hold(&r, false));
    let r = ConditionResults { empty: false, dmi: Some(true), cpuinfo: None, os: None, command: None, file_exists: Some(true) };
    assert!(conditions_hold(&r, true));
}

#[test]
fn regex_conditions_are_matched() {
    let probes = vec![ConditionProbe { command_succeeded: None, file_exists: false }; 2];
    let evaluated = evaluate_conditions(base(vec![deck_config(), fallback_config()]), &texts(DECK_CPUINFO), &probes).unwrap();
    assert_eq!(evaluated.len(), 2);
    assert_eq!(evaluated[0].results.cpuinfo, Some(true));
    assert!(!evaluated[0].results.empty);
    assert!(evaluated[1].results.empty);
    let evaluated = evaluate_conditions(base(vec![deck_config()]), &texts("vendor_id : GenuineIntel"), &probes).unwrap();
    assert_eq!(evaluated[0].results.cpuinfo, Some(false));
}

#[test]
fn multi_line_anchors() {
    let mut c = deck_config();
    c.conditions.cpuinfo = Some("^model\\s+: 144$".to_owned());
    let evaluated = evaluate_conditions(base(vec![c]), &texts(DECK_CPUINFO), &vec![]).unwrap();
    assert_eq!(evaluated[0].results.cpuinfo, Some(true));
}

#[test]
fn invalid_pattern_gives_none() {
    let mut c = deck_config();
    c.conditions.dmi = Some("(unclosed".to_owned());
    assert!(evaluate_conditions(base(vec![c]), &texts(DECK_CPUINFO), &vec![]).is_none());
}

fn evaluated(cpu_info: &str) -> Vec<EvaluatedConfig> {
    evaluate_conditions(base(vec![deck_config(), fallback_config()]), &texts(cpu_info), &vec![]).unwrap()
}

#[test]
fn steam_deck_is_detected() {
    let f = facts();
    let d = auto_detect0(None, "x.json".to_owned(), "Main".to_owned(), &evaluated(DECK_CPUINFO), &f);
    assert!(matches!(d.cpus, CpusDriver::SteamDeck(_)));
    assert!(matches!(d.gpu, GpuDriver::SteamDeck(_)));
    assert_eq!(d.battery.provider(), DriverJson::SteamDeck);
    assert_eq!(d.general.name, "Main");
    assert!(!d.general.persistent);
    assert_eq!(d.general.driver, DriverJson::AutoDetect);
    assert_eq!(d.cpus.len(), 8);
    assert_eq!(auto_detect_provider(&evaluated(DECK_CPUINFO), &f), DriverJson::SteamDeck);
    assert!(matches!(maybe_do_button(&evaluated(DECK_CPUINFO), &f), ButtonAction::FlashLed));
}

#[test]
fn other_device_falls_back() {
    let f = facts();
    let d = auto_detect0(None, "x.json".to_owned(), "Main".to_owned(), &evaluated("vendor_id : GenuineIntel"), &f);
    assert!(matches!(d.cpus, CpusDriver::Generic(_)));
    assert_eq!(d.gpu.provider(), DriverJson::Unknown);
    assert_eq!(d.battery.provider(), DriverJson::AutoDetect);
    assert!(matches!(maybe_do_button(&evaluated("x"), &f), ButtonAction::Warn(_)));
}

#[test]
fn no_config_gives_unknown_drivers() {
    let f = facts();
    let d = auto_detect0(None, "x.json".to_owned(), "Main".to_owned(), &vec![], &f);
    assert_eq!(d.cpus.provider(), DriverJson::Unknown);
    assert_eq!(d.gpu.provider(), DriverJson::Unknown);
    assert_eq!(d.battery.provider(), DriverJson::AutoDetect);
}

#[test]
fn persisted_settings_are_detected_under_their_name() {
    let f = facts();
    let mut s = settings_json();
    s.name = "Gaming".to_owned();
    let d = auto_detect0(Some(s), "x.json".to_owned(), "ignored".to_owned(), &evaluated(DECK_CPUINFO), &f);
    assert!(d.general.persistent);
    assert_eq!(d.general.name, "Gaming");
    assert_eq!(d.cpus.len(), 8);
}

#[test]
fn driver_init_by_provider() {
    let f = facts();
    let mut s = settings_json();
    s.provider = Some(DriverJson::Generic);
    s.persistent = true;
    let d = Driver::init(s, "p.json".to_owned(), &vec![], &f).ok().unwrap();
    assert_eq!(d.general.driver, DriverJson::Unknown);
    assert_eq!(d.cpus.provider(), DriverJson::Generic);
    assert!(d.general.persistent);
    let mut s = settings_json();
    s.version = 1;
    let d = Driver::init(s, "p.json".to_owned(), &vec![], &f).ok().unwrap();
    assert_eq!(d.general.driver, DriverJson::SteamDeck);
    assert_eq!(d.gpu.provider(), DriverJson::SteamDeck);
}

#[test]
fn load_file_outcomes() {
    let f = facts();
    let configs = evaluated(DECK_CPUINFO);
    let mut settings = Settings::system_default("main.json".to_owned(), "Main".to_owned(), &configs, &f);
    let err = settings
        .load_file("a.json".to_owned(), "/x/a.json".to_owned(), "A".to_owned(), false, Some(Err("bad json".to_owned())), &configs, &f)
        .err()
        .unwrap();
    assert_eq!(err.msg, "bad json");
    assert_eq!(settings.general.path, "main.json");
    let loaded = settings
        .load_file("b.json".to_owned(), "/x/b.json".to_owned(), "B".to_owned(), false, None, &configs, &f)
        .ok()
        .unwrap();
    assert!(!loaded.persistent);
    assert_eq!(settings.general.name, "B");
    assert_eq!(settings.general.path, "b.json");
    let mut persisted = settings_json();
    persisted.persistent = true;
    persisted.name = "C".to_owned();
    persisted.provider = Some(DriverJson::SteamDeck);
    let loaded = settings
        .load_file("c.json".to_owned(), "/x/c.json".to_owned(), "ignored".to_owned(), false, Some(Ok(persisted)), &configs, &f)
        .ok()
        .unwrap();
    assert!(loaded.persistent);
    assert_eq!(settings.general.name, "C");
    assert_eq!(settings.general.path, "c.json");
    let json = settings.json();
    assert!(json.persistent);
    assert_eq!(json.name, "C");
    assert_eq!(json.provider, Some(DriverJson::SteamDeck));
    assert_eq!(json.cpus.len(), 8);
}

#[test]
fn deck_settings_saved_and_read_back() {
    let f = facts();
    let mut s = settings_json();
    s.provider = Some(DriverJson::SteamDeck);
    s.persistent = true;
    s.name = "Game".to_owned();
    let mut settings = Settings::from_json(s, "game.json".to_owned(), &vec![], &f);
    settings.cpus.set_cpu_online(3, false);
    settings.cpus.set_cpu_governor(5, "powersave".to_owned());
    settings.cpus.set_cpu_clock_limits(1, Some(powertools::settings::MinMax { min: Some(1500), max: Some(3000) }));
    settings.gpu.ppt(Some(12), Some(10));
    settings.battery.charge_rate(Some(1000));
    settings.battery.charge_mode(Some("idle".to_owned()));
    let saved = settings.json();
    assert_eq!(saved.provider, Some(DriverJson::SteamDeck));
    assert_eq!(saved.cpus.len(), 8);
    let back = Settings::from_json(saved, "game.json".to_owned(), &vec![], &f);
    assert_eq!(back.general.name, "Game");
    assert!(back.general.persistent);
    for i in 0..8 {
        assert_eq!(back.cpus.cpu_online(i), settings.cpus.cpu_online(i));
        assert_eq!(back.cpus.cpu_governor(i), settings.cpus.cpu_governor(i));
        assert_eq!(
            back.cpus.cpu_clock_limits(i).map(|m| (m.min, m.max)),
            settings.cpus.cpu_clock_limits(i).map(|m| (m.min, m.max))
        );
    }
    assert!(!back.cpus.cpu_online(3));
    assert_eq!(back.cpus.cpu_governor(5), "powersave");
    assert_eq!(back.cpus.cpu_clock_limits(1).map(|m| (m.min, m.max)), Some((Some(1500), Some(3000))));
    assert_eq!(back.gpu.get_ppt(), settings.gpu.get_ppt());
    assert_eq!(back.gpu.get_ppt(), (Some(12), Some(10)));
    assert_eq!(back.battery.get_charge_rate(), Some(1000));
    assert_eq!(back.battery.get_charge_mode(), Some("idle".to_owned()));
}

#[test]
fn deck_limits_shown() {
    let f = facts();
    let mut s = settings_json();
    s.provider = Some(DriverJson::SteamDeck);
    let settings = Settings::from_json(s, "main.json".to_owned(), &vec![], &f);
    let governors: Vec<Vec<String>> = (0..8).map(|_| vec!["schedutil".to_owned(), "performance".to_owned()]).collect();
    let cpus = settings.cpus.limits(governors);
    assert_eq!(cpus.count, 8);
    assert_eq!(cpus.cpus.len(), 8);
    assert_eq!(cpus.governors, vec!["schedutil".to_owned(), "performance".to_owned()]);
    let c0 = &cpus.cpus[0];
    assert_eq!(c0.clock_min_limits.map(|r| (r.min, r.max)), Some((400, 3500)));
    assert_eq!(c0.clock_max_limits.map(|r| (r.min, r.max)), Some((400, 3500)));
    assert_eq!(c0.clock_step, 100);
    let gpu = settings.gpu.limits();
    assert_eq!(gpu.fast_ppt_limits.map(|r| (r.min, r.max)), Some((1, 30)));
    assert_eq!(gpu.slow_ppt_limits.map(|r| (r.min, r.max)), Some((1, 29)));
    assert_eq!(gpu.clock_min_limits.map(|r| (r.min, r.max)), Some((400, 1600)));
    assert!(gpu.memory_control_capable);
    let battery = settings.battery.limits();
    assert_eq!(battery.charge_current.map(|r| (r.min, r.max)), Some((250, 2500)));
    assert_eq!(battery.charge_modes, vec!["normal".to_owned(), "discharge".to_owned(), "idle".to_owned()]);
}
