use powertools::persist::CpuJson;
use powertools::settings::system::{cpu_count, parse_usize, smt_capabilities, trim};
use powertools::api::general::{log_msg_by_level, FrontEndLogLevel};
use powertools::settings::steam_deck::oc_limits::oc_limits_filepath;
use powertools::settings::util::{
    clamp, cpu_available_governors_path, cpu_governor_path, cpu_online_path, find_char, guess_smt, join_path,
    limits_path, split_governors, str_eq, usize_to_decimal,
};

fn cpu_with_online(status: bool) -> CpuJson {
    CpuJson {
        online: status,
        clock_limits: None,
        governor: "schedutil".to_owned(),
    }
}

#[test]
fn smt_guess_test() {
    let input = vec![
        cpu_with_online(true),
        cpu_with_online(true),
        cpu_with_online(true),
        cpu_with_online(true),
        cpu_with_online(true),
        cpu_with_online(true),
        cpu_with_online(true),
        cpu_with_online(true),
    ];
    assert_eq!(guess_smt(&input), true);

    let input = vec![
        cpu_with_online(true),
        cpu_with_online(false),
        cpu_with_online(true),
        cpu_with_online(false),
        cpu_with_online(true),
        cpu_with_online(false),
        cpu_with_online(true),
        cpu_with_online(false),
    ];
    assert_eq!(guess_smt(&input), false);
}

#[test]
fn smt_guess_pairs_compared_only_within_pairs() {
    // pairs (0,1) and (2,3) each agree, although the pairs differ from each other
    let input = vec![
        cpu_with_online(true),
        cpu_with_online(true),
        cpu_with_online(false),
        cpu_with_online(false),
    ];
    assert!(guess_smt(&input));
    assert!(guess_smt(&Vec::new()));
}

#[test]
fn cpu_count_from_present_range() {
    assert_eq!(cpu_count(Some("0-7")), Some(8));
    assert_eq!(cpu_count(Some("0-15")), Some(16));
    assert_eq!(cpu_count(None), Some(8));
    assert_eq!(cpu_count(Some("0")), None);
    assert_eq!(cpu_count(Some("0-x")), None);
}

#[test]
fn parse_usize_like_std() {
    assert_eq!(parse_usize("42"), Some(42));
    assert_eq!(parse_usize("+7"), Some(7));
    assert_eq!(parse_usize(""), None);
    assert_eq!(parse_usize("-1"), None);
    assert_eq!(parse_usize("1 "), None);
    assert_eq!(parse_usize("18446744073709551615"), Some(usize::MAX));
    assert_eq!(parse_usize("18446744073709551616"), None);
}

#[test]
fn trim_and_smt_control() {
    assert_eq!(trim("  on\n"), "on");
    assert_eq!(trim("\t\n"), "");
    assert_eq!(smt_capabilities(Some("on\n")), (true, true));
    assert_eq!(smt_capabilities(Some("ON")), (true, true));
    assert_eq!(smt_capabilities(Some("off")), (false, true));
    assert_eq!(smt_capabilities(Some("notsupported")), (false, true));
    assert_eq!(smt_capabilities(None), (false, false));
}

#[test]
fn clamp_and_string_helpers() {
    assert_eq!(clamp(5, 1, 10), 5);
    assert_eq!(clamp(0, 1, 10), 1);
    assert_eq!(clamp(11, 1, 10), 10);
    assert!(str_eq("abc", "abc"));
    assert!(!str_eq("abc", "abd"));
    assert_eq!(find_char("0-7", '-', 0), 1);
    assert_eq!(find_char("0-7", '-', 2), 3);
    assert_eq!(find_char("07", '-', 0), 2);
}

#[test]
fn sysfs_paths() {
    assert_eq!(usize_to_decimal(0), "0");
    assert_eq!(usize_to_decimal(1_234_567), "1234567");
    assert_eq!(usize_to_decimal(usize::MAX), usize::MAX.to_string());
    assert_eq!(cpu_online_path(12), "/sys/devices/system/cpu/cpu12/online");
    assert_eq!(cpu_governor_path(3), "/sys/devices/system/cpu/cpu3/cpufreq/scaling_governor");
    assert_eq!(cpu_available_governors_path(0), "/sys/devices/system/cpu/cpu0/cpufreq/scaling_available_governors");
    assert_eq!(join_path("", "a"), "a");
    assert_eq!(join_path("/x/", "a"), "/x/a");
    assert_eq!(join_path("/x", "a"), "/x/a");
    assert_eq!(limits_path("/home/deck/.config/powertools"), "/home/deck/.config/powertools/limits_cache.json");
    assert_eq!(oc_limits_filepath("/cfg/"), "/cfg/pt_oc.json");
}

#[test]
fn front_end_log_levels() {
    assert_eq!(log_msg_by_level(4, "hi"), (FrontEndLogLevel::Warn, "FRONT-END: hi".to_owned()));
    assert_eq!(log_msg_by_level(1, "x").0, FrontEndLogLevel::Trace);
    assert_eq!(log_msg_by_level(5, "x").0, FrontEndLogLevel::Error);
    assert_eq!(log_msg_by_level(9, "x").0, FrontEndLogLevel::Trace);
}

#[test]
fn governor_lists_split_like_std() {
    for text in ["performance powersave schedutil", "schedutil", "", "a  b", "a ", " a"] {
        let expected: Vec<String> = text.split(' ').map(|s| s.to_owned()).collect();
        assert_eq!(split_governors(text), expected);
    }
    assert_eq!(split_governors("conservative ondemand"), vec!["conservative".to_owned(), "ondemand".to_owned()]);
}
