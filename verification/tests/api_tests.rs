use powertools::api::cpu::max_cpus;
use powertools::api::handler::{
    ApiMessage, ApiMessageHandler, ApiReply, BatchEnd, BatteryMessage, BatteryReply, CpuMessage, CpuReply,
    GeneralMessage, GeneralReply, GpuMessage, GpuReply,
};
use powertools::api::memory::{get_transparent_hugepages_enabled, unset_transparent_hugepages_enabled};
use powertools::api::message::{remove_before_id, ApiMessage as DevMessage, MessageHandler};
use powertools::persist::DriverJson;
use powertools::settings::general::Settings;
use powertools::settings::steam_deck;
use powertools::settings::steam_deck::oc_limits::OverclockLimits;
use powertools::settings::system::{SystemFacts, SystemInfo};
use powertools::settings::{Memory, TCpus, TransparentHugepages};

fn facts(present: &str) -> SystemFacts {
    SystemFacts::from_info(SystemInfo {
        cpu_present: Some(present.to_owned()),
        smt_control: Some("on".to_owned()),
        cpus: vec![],
        oc_limits: None,
        ryzenadj_available: false,
    })
}

fn onlines(cpus: &steam_deck::Cpus) -> Vec<bool> {
    (0..cpus.len()).map(|i| cpus.cpu_online(i)).collect()
}

#[test]
fn smt_off_then_on() {
    let f = facts("0-7");
    let mut cpus = steam_deck::Cpus::system_default(&f);
    let (dirty, reply) = CpuMessage::SetSmt(false).process(&mut cpus);
    assert!(dirty);
    assert!(matches!(&reply, CpuReply::Onlines(o) if *o == vec![true, false, true, false, true, false, true, false]));
    assert!(!cpus.smt());
    // take the last two cores offline
    CpuMessage::SetCpuOnline(4, false).process(&mut cpus);
    CpuMessage::SetCpuOnline(6, false).process(&mut cpus);
    let (_, reply) = CpuMessage::SetSmt(true).process(&mut cpus);
    // everything up to the highest online CPU, plus its sibling thread
    assert!(matches!(&reply, CpuReply::Onlines(o) if *o == vec![true, true, true, true, false, false, false, false]));
    assert!(cpus.smt());
    // already on: nothing changes
    let (_, reply) = CpuMessage::SetSmt(true).process(&mut cpus);
    assert!(matches!(&reply, CpuReply::Onlines(o) if *o == onlines(&cpus)));
}

#[test]
fn cpu_requests_read_back() {
    let f = facts("0-3");
    let mut cpus = steam_deck::Cpus::system_default(&f);
    let (dirty, _) = CpuMessage::SetCpusOnline(vec![true, false]).process(&mut cpus);
    assert!(dirty);
    assert_eq!(onlines(&cpus), vec![true, false, true, true]);
    CpuMessage::SetCpuGovernor(2, "powersave".to_owned()).process(&mut cpus);
    let (dirty, reply) = CpuMessage::GetCpusGovernor.process(&mut cpus);
    assert!(!dirty);
    assert!(matches!(&reply, CpuReply::Governors(g) if g[2] == "powersave" && g[0] == "schedutil"));
    let (_, reply) = CpuMessage::GetSmt.process(&mut cpus);
    assert!(matches!(reply, CpuReply::Smt(true)));
    let (_, reply) = CpuMessage::GetClockLimits(9).process(&mut cpus);
    assert!(matches!(reply, CpuReply::Nothing));
}

#[test]
fn gpu_requests_read_back() {
    let (oc, is_default) = OverclockLimits::load_or_default(None);
    let mut g = steam_deck::Gpu::system_default(&oc, is_default);
    let (dirty, _) = GpuMessage::SetPpt(Some(12), None).process(&mut g);
    assert!(dirty);
    let (dirty, reply) = GpuMessage::GetPpt.process(&mut g);
    assert!(!dirty);
    assert!(matches!(reply, GpuReply::Ppt(Some(12), None)));
    GpuMessage::SetSlowMemory(true).process(&mut g);
    assert!(matches!(GpuMessage::GetSlowMemory.process(&mut g).1, GpuReply::SlowMemory(true)));
}

#[test]
fn worker_requests() {
    let f = facts("0-7");
    let configs = vec![];
    let mut settings = Settings::system_default("main.json".to_owned(), "Main".to_owned(), &configs, &f);
    let mut handler = ApiMessageHandler::new();
    let (dirty, reply) = handler.process(&mut settings, ApiMessage::General(GeneralMessage::SetPersistent(true)), &configs, &f);
    assert!(dirty);
    assert!(matches!(reply, ApiReply::General(GeneralReply::Nothing)));
    let (_, reply) = handler.process(&mut settings, ApiMessage::General(GeneralMessage::GetPersistent), &configs, &f);
    assert!(matches!(reply, ApiReply::General(GeneralReply::Persistent(true))));
    let (_, reply) = handler.process(&mut settings, ApiMessage::GetProvider("cpus".to_owned()), &configs, &f);
    assert!(matches!(reply, ApiReply::Provider(DriverJson::Unknown)));
    let (_, reply) = handler.process(&mut settings, ApiMessage::GetProvider("anything".to_owned()), &configs, &f);
    assert!(matches!(reply, ApiReply::Provider(DriverJson::AutoDetect)));
    let (dirty, reply) = handler.process(&mut settings, ApiMessage::WaitForEmptyQueue, &configs, &f);
    assert!(!dirty);
    assert!(matches!(reply, ApiReply::Queued));
    let (_, reply) = handler.process(&mut settings, ApiMessage::GetLimits(vec![]), &configs, &f);
    assert!(matches!(&reply, ApiReply::Limits(l) if l.cpu.count == 8 && l.cpu.cpus.len() == 8));
    let (dirty, _) = handler.process(&mut settings, ApiMessage::LoadSystemSettings, &configs, &f);
    assert!(dirty);
    assert_eq!(settings.general.name, "Main");
    assert!(matches!(handler.finish_batch(true, false), BatchEnd::Apply { save: false }));
    assert!(matches!(handler.finish_batch(false, true), BatchEnd::Unchanged));
}

#[test]
fn max_cpus_reply() {
    assert_eq!(max_cpus(Some(8)).ok(), Some(8));
    assert_eq!(max_cpus(None).err().unwrap().msg, "Failed to parse CPU count");
}

#[test]
fn thp_requests() {
    let mut m = Memory::system_default(Some(TransparentHugepages::Always));
    assert_eq!(get_transparent_hugepages_enabled(&m, None), "always");
    m.on_set();
    assert_eq!(unset_transparent_hugepages_enabled(&mut m), Some(TransparentHugepages::MAdvise));
    assert_eq!(get_transparent_hugepages_enabled(&m, Some(TransparentHugepages::Never)), "never");
    assert_eq!(get_transparent_hugepages_enabled(&m, None), "madvise");
}

fn dev(id: Option<u64>) -> DevMessage {
    DevMessage { id, title: format!("{:?}", id), body: String::new(), url: None }
}

#[test]
fn seen_messages() {
    let mut h = MessageHandler::new(None);
    assert_eq!(h.seen, 0);
    assert_eq!(MessageHandler::new(Some(vec![1, 2])).seen, u64::MAX);
    let bytes = h.dismiss(0x0102_0304_0506_0708);
    assert_eq!(bytes, 0x0102_0304_0506_0708u64.to_le_bytes().to_vec());
    assert_eq!(MessageHandler::new(Some(bytes)).seen, 0x0102_0304_0506_0708);
    let kept = remove_before_id(2, vec![dev(Some(1)), dev(None), dev(Some(3)), dev(Some(2))]);
    assert_eq!(kept.iter().map(|m| m.id).collect::<Vec<_>>(), vec![Some(3), Some(2)]);
}

#[test]
fn battery_and_general_answers() {
    let f = facts("0-7");
    let configs = vec![];
    let mut settings = Settings::system_default("main.json".to_owned(), "Main".to_owned(), &configs, &f);
    let mut handler = ApiMessageHandler::new();
    let (_, reply) = handler.process(&mut settings, ApiMessage::General(GeneralMessage::GetCurrentProfileName), &configs, &f);
    assert!(matches!(&reply, ApiReply::General(GeneralReply::ProfileName(n)) if n == "Main"));
    let (_, reply) = handler.process(&mut settings, ApiMessage::General(GeneralMessage::GetPersistent), &configs, &f);
    assert!(matches!(reply, ApiReply::General(GeneralReply::Persistent(false))));
    // no config names the battery here, so it is the unknown battery: nothing can be set
    let (dirty, reply) = handler.process(&mut settings, ApiMessage::Battery(BatteryMessage::SetChargeRate(Some(1000))), &configs, &f);
    assert!(dirty);
    assert!(matches!(reply, ApiReply::Battery(BatteryReply::Nothing)));
    let (dirty, reply) = handler.process(&mut settings, ApiMessage::Battery(BatteryMessage::GetChargeRate), &configs, &f);
    assert!(!dirty);
    assert!(matches!(reply, ApiReply::Battery(BatteryReply::ChargeRate(None))));
    let (_, reply) = handler.process(&mut settings, ApiMessage::Battery(BatteryMessage::GetChargeMode), &configs, &f);
    assert!(matches!(reply, ApiReply::Battery(BatteryReply::ChargeMode(None))));
}
