use powertools::limits::{GenericCpuLimit, GenericGpuLimit, RangeLimit as LimitRange};
use powertools::persist::{BatteryJson, CpuJson, DriverJson, GpuJson, MinMaxJson};
use powertools::settings::battery::Battery as RateBattery;
use powertools::settings::generic_amd::gpu::RyzenAdjCommand;
use powertools::settings::steam_deck::battery::BatteryWrite;
use powertools::settings::steam_deck::cpu::CpuWrite;
use powertools::settings::steam_deck::gpu::{ClockPlan, GpuWrite};
use powertools::settings::steam_deck::oc_limits::OverclockLimits;
use powertools::settings::steam_deck::power_dpm_force::{DpmLevelAction, PDFPLManager};
use powertools::settings::steam_deck::util::{
    led_payload, set_led, wait_ready_for_read, wait_ready_for_write, write_read, ChargeMode, PortOp, Setting,
};
use powertools::settings::system::{CpuReading, SystemFacts, SystemInfo};
use powertools::settings::{generic, generic_amd, steam_deck, unknown};
use powertools::settings::{Memory, MinMax, TBattery, TCpus, TGpu, TransparentHugepages};

fn facts(present: &str, smt: Option<&str>) -> SystemFacts {
    SystemFacts::from_info(SystemInfo {
        cpu_present: Some(present.to_owned()),
        smt_control: smt.map(|s| s.to_owned()),
        cpus: vec![],
        oc_limits: None,
        ryzenadj_available: true,
    })
}

fn cpu(online: bool, governor: &str) -> CpuJson {
    CpuJson { online, clock_limits: None, governor: governor.to_owned() }
}

#[test]
fn system_facts_from_info() {
    let f = facts("0-3", Some("on"));
    assert_eq!(f.cpu_count, Some(4));
    assert!(f.smt_status && f.smt_capable);
    assert!(f.oc_is_default);
    let f = facts("0", None);
    assert_eq!(f.cpu_count, None);
    assert!(!f.smt_capable);
}

#[test]
fn thp_names_round_trip() {
    for t in [TransparentHugepages::Always, TransparentHugepages::MAdvise, TransparentHugepages::Never] {
        let name = t.to_string();
        assert_eq!(TransparentHugepages::from_str(&name).ok(), Some(t));
    }
    assert_eq!(TransparentHugepages::from_str("always [madvise] never").ok(), Some(TransparentHugepages::MAdvise));
    assert!(TransparentHugepages::from_str("sometimes").is_err());
}

#[test]
fn memory_writes_undo_only_what_was_set() {
    let mut m = Memory::system_default(Some(TransparentHugepages::Never));
    assert_eq!(m.on_set(), Some(TransparentHugepages::Never));
    m.transparent_hugepages = None;
    assert_eq!(m.on_set(), Some(TransparentHugepages::MAdvise));
    assert_eq!(m.on_set(), None);
}

#[test]
fn charge_mode_names_round_trip() {
    for m in [ChargeMode::Normal, ChargeMode::Discharge, ChargeMode::Idle] {
        let name = steam_deck::Battery::charge_mode_to_str(m);
        assert!(matches!(
            (m, steam_deck::Battery::str_to_charge_mode(&name)),
            (ChargeMode::Normal, Some(ChargeMode::Normal))
                | (ChargeMode::Discharge, Some(ChargeMode::Discharge))
                | (ChargeMode::Idle, Some(ChargeMode::Idle))
        ));
    }
    assert!(steam_deck::Battery::str_to_charge_mode("fast").is_none());
}

#[test]
fn deck_battery_clamps_and_restores() {
    let (oc, is_default) = OverclockLimits::load_or_default(None);
    let json = BatteryJson { charge_rate: Some(10_000), charge_mode: Some("idle".to_owned()), events: vec![], root: None };
    let mut b = steam_deck::Battery::from_json(json, 0, &oc, is_default);
    let writes = b.on_set();
    assert_eq!(b.charge_rate, Some(2500));
    assert!(matches!(writes[0], BatteryWrite::ChargeRate(2500)));
    assert!(matches!(writes[1], BatteryWrite::ChargeMode(ChargeMode::Idle)));
    b.charge_rate(None);
    b.charge_mode(None);
    let writes = b.on_set();
    assert_eq!(writes.len(), 2);
    assert!(matches!(writes[0], BatteryWrite::ChargeRate(2500)));
    assert!(matches!(writes[1], BatteryWrite::ChargeMode(ChargeMode::Normal)));
    assert_eq!(b.on_set().len(), 0);
    assert_eq!(b.provider(), DriverJson::SteamDeck);
}

#[test]
fn rate_battery_clamps_and_restores() {
    let mut b = RateBattery::from_json(BatteryJson { charge_rate: Some(100), charge_mode: None, events: vec![], root: None }, 0);
    assert_eq!(b.on_set(), Some(250));
    assert_eq!(b.on_resume(), Some(250));
    b.charge_rate = None;
    assert_eq!(b.on_set(), Some(2500));
    assert_eq!(b.on_set(), None);
    assert_eq!(RateBattery::current_now(1_234_567), 1234);
}

#[test]
fn dpm_manager_bits() {
    let mut m = PDFPLManager::new();
    assert!(!m.needs_manual());
    assert_eq!(m.enforce_level_action("manual"), DpmLevelAction::SetAuto);
    assert_eq!(m.enforce_level_action("auto"), DpmLevelAction::Keep);
    m.set_gpu(true);
    assert!(m.needs_manual());
    assert_eq!(m.get(), 0b10);
    m.set_cpu(true, 3);
    assert_eq!(m.get(), 0b10 | (1 << 5));
    assert_eq!(m.enforce_level_action("auto"), DpmLevelAction::SetManual);
    assert_eq!(m.enforce_level_action("manual"), DpmLevelAction::Keep);
    m.set_gpu(false);
    assert_eq!(m.get(), 1 << 5);
    m.reset();
    assert!(!m.needs_manual());
}

#[test]
fn led_commands() {
    assert_eq!(led_payload(false, false, false), 0x80);
    assert_eq!(led_payload(true, true, true), 0x87);
    assert_eq!(led_payload(false, true, false), 0x82);
    let ops = set_led(false, true, false);
    assert_eq!(
        ops,
        vec![
            PortOp::Write { port: 0x6c, value: 0x81 },
            PortOp::WaitReadyForWrite,
            PortOp::Write { port: 0x68, value: 199 },
            PortOp::WaitReadyForWrite,
            PortOp::Write { port: 0x68, value: 0x82 },
        ]
    );
    let ops = powertools::settings::steam_deck::util::set(Setting::ChargeMode, 0x42);
    assert_eq!(ops[2], PortOp::Write { port: 0x68, value: 0x76 });
    assert_eq!(ops[4], PortOp::Write { port: 0x68, value: 0x42 });
    let ops = write_read(199);
    assert_eq!(ops[3], PortOp::WaitReadyForRead);
    assert_eq!(ops[4], PortOp::Read { port: 0x68 });
    assert!(wait_ready_for_write(0, 0b10));
    assert!(!wait_ready_for_write(0, 0b01));
    assert!(!wait_ready_for_write(0x1ffff, 0b10));
    assert!(wait_ready_for_read(5, 0b10));
    assert!(!wait_ready_for_read(5, 0b01));
}

#[test]
fn deck_cpus_from_json_fill_and_guess_smt() {
    // one CPU fewer persisted than present: the last one is taken as found on the system
    let f = facts("0-4", Some("on"));
    let cpus = steam_deck::Cpus::from_json(
        vec![cpu(true, "powersave"), cpu(false, "performance"), cpu(true, "a"), cpu(true, "b")],
        0,
        &f,
    );
    assert_eq!(cpus.len(), 5);
    assert_eq!(cpus.cpu_governor(1), "performance");
    assert_eq!(cpus.cpu_governor(4), "schedutil");
    assert!(!cpus.smt()); // the first pair disagrees
    let f = facts("0-1", Some("on"));
    let cpus = steam_deck::Cpus::from_json(vec![cpu(true, "powersave"), cpu(true, "performance"), cpu(true, "x"), cpu(true, "y")], 0, &f);
    assert_eq!(cpus.len(), 2);
    assert_eq!(cpus.cpu_governor(1), "performance");
    assert!(cpus.smt());
}

#[test]
fn deck_cpu_writes() {
    let f = facts("0-3", Some("on"));
    let mut cpus = steam_deck::Cpus::system_default(&f);
    cpus.set_cpu_online(1, false);
    cpus.set_cpu_clock_limits(1, Some(MinMax { min: Some(100), max: Some(2000) }));
    let smt = cpus.on_set_prepare();
    assert!(matches!(smt, Some(CpuWrite::Smt(true))));
    let start = cpus.cpus[1].set_all_start("auto");
    assert!(matches!(start[0], CpuWrite::Online { index: 1, value: 0 }));
    assert!(matches!(start[1], CpuWrite::ForceManualLevel));
    let finish = cpus.cpus[1].set_all_finish(true);
    // clamped into the limits, and the minimum no lower than the lowest allowed
    assert!(matches!(finish[0], CpuWrite::ClockMax { core: 0, mhz: m } if m <= 3500));
    assert!(matches!(finish[1], CpuWrite::ClockMin { core: 0, mhz: m } if m >= 1400));
    assert!(matches!(finish[2], CpuWrite::Commit));
    assert_eq!(finish.len(), 3); // offline: no governor write
    assert!(cpus.cpus[1].state.clock_limits_set);
    // once unset, the full range is written back
    cpus.set_cpu_clock_limits(1, None);
    let finish = cpus.cpus[1].set_all_finish(true);
    assert_eq!(finish.len(), 3);
    assert!(!cpus.cpus[1].state.clock_limits_set);
    // CPU 0 keeps its online state and always gets its governor
    let start = cpus.cpus[0].set_all_start("manual");
    assert!(start.is_empty());
    let finish = cpus.cpus[0].set_all_finish(false);
    assert!(matches!(&finish[0], CpuWrite::Governor { index: 0, governor } if governor == "schedutil"));
}

#[test]
fn deck_gpu_ppt_read_back_and_writes() {
    let (oc, is_default) = OverclockLimits::load_or_default(None);
    let mut g = steam_deck::Gpu::system_default(&oc, is_default);
    assert!(g.is_well_formed());
    assert!(g.accepts_ppt(Some(15), Some(12)));
    g.ppt(Some(15), Some(12));
    assert_eq!(g.get_ppt(), (Some(15), Some(12)));
    assert_eq!(g.fast_ppt, Some(15 * oc.gpu.ppt_divisor));
    let writes = g.set_ppts();
    assert_eq!(writes, vec![GpuWrite::FastPpt(15 * oc.gpu.ppt_divisor), GpuWrite::SlowPpt(12 * oc.gpu.ppt_divisor)]);
    g.ppt(None, None);
    let writes = g.set_ppts();
    assert_eq!(writes, vec![GpuWrite::FastPpt(oc.gpu.fast_ppt_default), GpuWrite::SlowPpt(oc.gpu.slow_ppt_default)]);
    assert!(!g.accepts_ppt(Some(u64::MAX), None));
}

#[test]
fn deck_gpu_clock_steps() {
    let (oc, is_default) = OverclockLimits::load_or_default(None);
    let mut g = steam_deck::Gpu::system_default(&oc, is_default);
    let mut mgr = PDFPLManager::new();
    g.clock_limits(Some(MinMax { min: Some(400), max: Some(1000) }));
    assert!(g.force_level_start(&mut mgr).is_empty());
    let (plan, writes) = g.set_clocks_start(&mut mgr);
    assert_eq!(plan, ClockPlan::Apply);
    assert_eq!(writes, vec![GpuWrite::EnforceLevel]);
    assert!(mgr.needs_manual());
    let writes = g.set_clocks_finish(plan, true);
    assert_eq!(writes, vec![GpuWrite::ClockMax(1000), GpuWrite::ClockMin(400), GpuWrite::Confirm]);
    assert!(g.state.clock_limits_set);
    assert_eq!(g.force_level_finish(false), vec![GpuWrite::Confirm]);
    // a failed enforcement writes no clocks
    let mut g2 = steam_deck::Gpu::system_default(&oc, is_default);
    g2.clock_limits(Some(MinMax { min: Some(400), max: Some(1000) }));
    let (plan, _) = g2.set_clocks_start(&mut mgr);
    assert!(g2.set_clocks_finish(plan, false).is_empty());
    assert!(!g2.state.clock_limits_set);
    // unsetting restores the range and gives manual control back
    g.clock_limits(None);
    let mut mgr = PDFPLManager::new();
    mgr.set_gpu(true);
    let (plan, _) = g.set_clocks_start(&mut mgr);
    assert_eq!(plan, ClockPlan::AutoOnly);
    assert!(!mgr.needs_manual());
    assert!(g.set_clocks_finish(plan, true).is_empty());
    assert!(!g.state.clock_limits_set);
}

#[test]
fn generic_gpu_keeps_settings_within_limits() {
    let limits = GenericGpuLimit {
        fast_ppt: Some(LimitRange { min: Some(1_000), max: Some(30_000) }),
        slow_ppt: None,
        ppt_step: None,
        tdp: None,
        tdp_boost: None,
        tdp_step: None,
        clock_min: Some(LimitRange { min: Some(200), max: Some(1_600) }),
        clock_max: Some(LimitRange { min: Some(200), max: Some(1_600) }),
        clock_step: None,
    };
    let json = GpuJson {
        fast_ppt: Some(5_000),
        slow_ppt: Some(4_000),
        clock_limits: Some(MinMaxJson { min: Some(300), max: Some(1_000) }),
        slow_memory: false,
        root: None,
    };
    let mut g = generic::Gpu::from_json_and_limits(json, 0, limits);
    assert_eq!(g.get_ppt(), (Some(5_000), None));
    g.ppt(Some(50_000), Some(7));
    assert_eq!(g.get_ppt(), (Some(30_000), None));
    g.clock_limits(Some(MinMax { min: Some(100), max: Some(1_200) }));
    assert_eq!(g.get_clock_limits().map(|c| (c.min, c.max)), Some((Some(200), Some(1_600))));
    assert_eq!(g.provider(), DriverJson::Generic);
}

#[test]
fn amd_gpu_ryzenadj_commands() {
    let limits = GenericGpuLimit {
        fast_ppt: Some(LimitRange { min: None, max: None }),
        slow_ppt: Some(LimitRange { min: None, max: None }),
        ppt_step: None,
        tdp: None,
        tdp_boost: None,
        tdp_step: None,
        clock_min: Some(LimitRange { min: Some(200), max: Some(1_600) }),
        clock_max: Some(LimitRange { min: Some(200), max: Some(1_800) }),
        clock_step: None,
    };
    let mut g = generic_amd::Gpu::from_limits(limits.clone(), true);
    g.ppt(Some(20_000), None);
    let cmds = g.set_all().ok().unwrap();
    assert_eq!(cmds, vec![RyzenAdjCommand::ReadFastLimit, RyzenAdjCommand::SetFastLimit(20_000)]);
    g.record_reading(RyzenAdjCommand::ReadFastLimit, 15_000);
    assert_eq!(g.state.old_fast_ppt, Some(15_000));
    // unset: the value read before is restored, once
    g.ppt(None, None);
    assert_eq!(g.set_all().ok().unwrap(), vec![RyzenAdjCommand::SetFastLimit(15_000)]);
    assert_eq!(g.set_all().ok().unwrap(), vec![]);
    // clocks applied, then the full range restored
    g.clock_limits(Some(MinMax { min: Some(400), max: Some(1_000) }));
    // the highest clock is taken to the top of its range
    assert_eq!(g.set_all().ok().unwrap(), vec![RyzenAdjCommand::SetMaxGfxClock(1_800), RyzenAdjCommand::SetMinGfxClock(400)]);
    g.clock_limits(None);
    assert_eq!(g.set_all().ok().unwrap(), vec![RyzenAdjCommand::SetMaxGfxClock(1_800), RyzenAdjCommand::SetMinGfxClock(200)]);
    assert_eq!(g.provider(), DriverJson::GenericAMD);
    let mut unavailable = generic_amd::Gpu::from_limits(limits, false);
    let e = unavailable.set_all().err().unwrap();
    assert_eq!(e.msg, "RyzenAdj unavailable");
    assert!(unavailable.resume_all().is_err());
}

#[test]
fn generic_cpus_from_limits() {
    let f = facts("0-5", Some("off"));
    let limits = GenericCpuLimit { clock_min: None, clock_max: None, clock_step: 100 };
    let cpus = generic::Cpus::<generic::Cpu>::from_limits(limits.clone(), &f);
    assert_eq!(cpus.len(), 6);
    assert!(cpus.smt());
    let amd = generic_amd::Cpus::from_limits(limits, &f);
    assert_eq!(amd.len(), 6);
    assert_eq!(amd.provider(), DriverJson::GenericAMD);
}

#[test]
fn unknown_cpus_from_system_readings() {
    let f = SystemFacts::from_info(SystemInfo {
        cpu_present: Some("0-2".to_owned()),
        smt_control: None,
        cpus: vec![
            CpuReading { online: Some(1), governor: Some("performance".to_owned()) },
            CpuReading { online: Some(0), governor: None },
        ],
        oc_limits: None,
        ryzenadj_available: false,
    });
    let cpus = unknown::Cpus::system_default(&f);
    assert_eq!(cpus.len(), 3);
    assert_eq!(cpus.cpu_governor(0), "performance");
    assert!(!cpus.cpu_online(1));
    assert_eq!(cpus.cpu_governor(1), "schedutil");
    assert!(cpus.cpu_online(2));
    // two persisted, three present: the last one as found on the system
    let cpus = unknown::Cpus::from_json(vec![cpu(false, "a"), cpu(true, "b")], 0, &f);
    assert_eq!(cpus.len(), 3);
    assert!(!cpus.cpu_online(0));
    assert_eq!(cpus.cpu_governor(2), "schedutil");
    assert!(cpus.smt());
}

#[test]
fn system_defaults_test() {
    let f = facts("0-7", Some("on"));
    let settings = powertools::settings::general::Settings::system_default("idc".into(), "Cool name".into(), &vec![], &f);
    println!("Loaded system settings: {:?}", settings);
    assert_eq!(settings.general.name, "Cool name");
    assert_eq!(settings.general.path, "idc");
    assert!(!settings.general.persistent);
    assert_eq!(settings.cpus.len(), 8);
}

#[test]
fn manual_needed_while_some_last_call_asks() {
    let mut m = PDFPLManager::new();
    m.set_cpu(true, 0);
    m.set_gpu(true);
    m.set_cpu(false, 0);
    assert!(m.needs_manual());
    m.set_gpu(false);
    assert!(!m.needs_manual());
    m.set_cpu(true, 61);
    assert!(m.needs_manual());
    m.set_cpu(false, 61);
    assert!(!m.needs_manual());
}

#[test]
fn thp_sysfs_texts_select_their_option() {
    assert_eq!(TransparentHugepages::from_str("[always] madvise never").ok(), Some(TransparentHugepages::Always));
    assert_eq!(TransparentHugepages::from_str("always [madvise] never").ok(), Some(TransparentHugepages::MAdvise));
    assert_eq!(TransparentHugepages::from_str("always madvise [never]").ok(), Some(TransparentHugepages::Never));
}

#[test]
fn deck_gpu_setters_keep_limits() {
    let (oc, is_default) = OverclockLimits::load_or_default(None);
    let mut g = steam_deck::Gpu::system_default(&oc, is_default);
    let divisor = g.limits.ppt_divisor;
    g.ppt(Some(15), Some(7));
    assert_eq!(g.limits.ppt_divisor, divisor);
    assert_eq!(g.get_ppt(), (Some(15), Some(7)));
    g.clock_limits(Some(MinMax { min: Some(500), max: Some(1200) }));
    g.set_slow_memory(true);
    assert_eq!(g.limits.ppt_divisor, divisor);
    assert_eq!(g.get_ppt(), (Some(15), Some(7)));
}

#[test]
fn generic_cpus_keep_their_limits() {
    let f = facts("0-3", Some("on"));
    let range = LimitRange { min: Some(400), max: Some(3000) };
    let limits = GenericCpuLimit { clock_min: Some(range), clock_max: Some(range), clock_step: 50 };
    let cpus = generic::Cpus::<generic::Cpu>::from_limits(limits.clone(), &f);
    for c in &cpus.cpus {
        assert_eq!(c.limits.clock_step, 50);
        assert_eq!(c.limits.clock_min.map(|r| (r.min, r.max)), Some((Some(400), Some(3000))));
    }
    // one persisted CPU short: the last one is built from the limits
    let json = vec![cpu(true, "powersave"), cpu(false, "schedutil")];
    let f3 = facts("0-2", Some("on"));
    let read = generic::Cpus::<generic::Cpu>::from_json_and_limits(json, 0, limits.clone(), &f3);
    assert_eq!(read.cpus.len(), 3);
    for (i, c) in read.cpus.iter().enumerate() {
        assert_eq!(c.limits.clock_step, 50);
        assert_eq!(c.index, i);
    }
    assert_eq!(read.cpus[2].governor, "schedutil");
    assert!(read.cpus[2].online);
    assert!(read.cpus[2].clock_limits.is_none());
    let amd = generic_amd::Cpus::from_limits(limits, &f);
    assert!(amd.generic.cpus.iter().all(|c| c.generic.limits.clock_step == 50));
}
