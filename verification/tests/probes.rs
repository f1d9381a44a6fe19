use apex::checks::cpu::{
    check_foreground_separation, check_hvci, check_mitigations, check_vbs, CpuReadings,
};
use apex::checks::gpu::{check_gamedvr, check_hags, check_tdr_delay, check_tdr_level, GpuReadings};
use apex::checks::latency::{
    check_dynamic_tick, check_hpet, check_mmcss_responsiveness, check_network_throttling,
    check_priority_separation, check_timer_coalescing, check_tsc_sync, LatencyReadings,
};
use apex::checks::{
    audio, copy_of, cpu, finding_with, gpu, input, latency, memory, network, note, numbered_notes,
    platform, power, push_finding, security, services, stability, storage, thermal, unsupported,
    Reading,
};
use apex::config::Config;
use apex::types::{CheckResult, CheckStatus};

fn parts(c: &CheckResult) -> (&str, &str, CheckStatus, &str) {
    (c.name.as_str(), c.category.as_str(), c.status, c.detail.as_str())
}

#[test]
fn reading_falls_back_only_where_the_value_is_missing() {
    assert_eq!(Reading::Unsupported.value_or(7), None);
    assert_eq!(Reading::Missing.value_or(7), Some(7));
    assert_eq!(Reading::Value(3).value_or(7), Some(3));
}

#[test]
fn vbs_is_good_when_off() {
    let name = "Virtualization Based Security";
    assert_eq!(
        parts(&check_vbs(Reading::Value(0))),
        (name, "CPU", CheckStatus::Okay, "VBS enabled: false")
    );
    assert_eq!(
        parts(&check_vbs(Reading::Value(1))),
        (name, "CPU", CheckStatus::Warn, "VBS enabled: true")
    );
    assert_eq!(
        parts(&check_vbs(Reading::Value(2))),
        (name, "CPU", CheckStatus::Warn, "VBS enabled: false")
    );
    assert_eq!(
        parts(&check_vbs(Reading::Missing)),
        (name, "CPU", CheckStatus::Okay, "VBS enabled: false")
    );
    assert_eq!(
        parts(&check_vbs(Reading::Unsupported)),
        (name, "CPU", CheckStatus::Info, "Windows-only check")
    );
}

#[test]
fn hvci_is_good_when_off() {
    let name = "Hypervisor-Enforced Code Integrity";
    assert_eq!(
        parts(&check_hvci(Reading::Value(0))),
        (name, "CPU", CheckStatus::Okay, "HVCI enabled: false")
    );
    assert_eq!(
        parts(&check_hvci(Reading::Value(1))),
        (name, "CPU", CheckStatus::Warn, "HVCI enabled: true")
    );
    assert_eq!(
        parts(&check_hvci(Reading::Unsupported)),
        (name, "CPU", CheckStatus::Info, "Windows-only check")
    );
}

#[test]
fn mitigations_report_the_override() {
    let name = "CPU Mitigations";
    assert_eq!(
        parts(&check_mitigations(Reading::Value(3))),
        (name, "CPU", CheckStatus::Okay, "Mitigations override: 3")
    );
    assert_eq!(
        parts(&check_mitigations(Reading::Value(4294967295))),
        (name, "CPU", CheckStatus::Info, "Mitigations override: 4294967295")
    );
    assert_eq!(
        parts(&check_mitigations(Reading::Missing)),
        (name, "CPU", CheckStatus::Info, "Mitigations override: 0")
    );
}

#[test]
fn foreground_separation_is_informational() {
    let name = "Foreground/Background Separation";
    assert_eq!(
        parts(&check_foreground_separation(Reading::Value(38))),
        (name, "CPU", CheckStatus::Info, "Priority separation: 38")
    );
    assert_eq!(
        parts(&check_foreground_separation(Reading::Missing)),
        (name, "CPU", CheckStatus::Info, "Priority separation: 2")
    );
}

#[test]
fn gpu_checks_follow_their_values() {
    assert_eq!(
        parts(&check_hags(Reading::Value(2))),
        ("Hardware Accelerated GPU Scheduling", "GPU", CheckStatus::Okay, "HAGS enabled: true")
    );
    assert_eq!(
        parts(&check_hags(Reading::Missing)),
        ("Hardware Accelerated GPU Scheduling", "GPU", CheckStatus::Info, "HAGS enabled: false")
    );
    assert_eq!(
        parts(&check_tdr_level(Reading::Missing)),
        ("TDR Level", "GPU", CheckStatus::Info, "TDR level: 3")
    );
    assert_eq!(
        parts(&check_tdr_level(Reading::Value(0))),
        ("TDR Level", "GPU", CheckStatus::Info, "TDR level: 0")
    );
    assert_eq!(
        parts(&check_tdr_delay(Reading::Value(10))),
        ("TDR Delay", "GPU", CheckStatus::Info, "TDR delay: 10 seconds")
    );
    assert_eq!(
        parts(&check_tdr_delay(Reading::Missing)),
        ("TDR Delay", "GPU", CheckStatus::Info, "TDR delay: 2 seconds")
    );
    assert_eq!(
        parts(&check_gamedvr(Reading::Value(0))),
        ("Game DVR", "GPU", CheckStatus::Okay, "Game DVR disabled: true")
    );
    assert_eq!(
        parts(&check_gamedvr(Reading::Value(1))),
        ("Game DVR", "GPU", CheckStatus::Warn, "Game DVR disabled: false")
    );
    assert_eq!(
        parts(&check_gamedvr(Reading::Unsupported)),
        ("Game DVR", "GPU", CheckStatus::Info, "Windows-only check")
    );
}

#[test]
fn latency_checks_follow_their_values() {
    assert_eq!(
        parts(&check_hpet(Reading::Value(1))),
        ("HPET Status", "Latency", CheckStatus::Okay, "HPET disabled: true")
    );
    assert_eq!(
        parts(&check_hpet(Reading::Missing)),
        ("HPET Status", "Latency", CheckStatus::Warn, "HPET disabled: false")
    );
    assert_eq!(
        parts(&check_tsc_sync(Reading::Value(0))),
        ("TSC Sync Policy", "Latency", CheckStatus::Okay, "TSC synchronized: true")
    );
    assert_eq!(
        parts(&check_tsc_sync(Reading::Value(1))),
        ("TSC Sync Policy", "Latency", CheckStatus::Warn, "TSC synchronized: false")
    );
    assert_eq!(
        parts(&check_dynamic_tick(Reading::Value(1))),
        ("Dynamic Tick", "Latency", CheckStatus::Okay, "Dynamic tick disabled: true")
    );
    assert_eq!(
        parts(&check_dynamic_tick(Reading::Value(0))),
        ("Dynamic Tick", "Latency", CheckStatus::Warn, "Dynamic tick disabled: false")
    );
    assert_eq!(
        parts(&check_timer_coalescing(Reading::Value(0))),
        ("Timer Coalescing", "Latency", CheckStatus::Okay, "Timer coalescing disabled: true")
    );
    assert_eq!(
        parts(&check_timer_coalescing(Reading::Value(5))),
        ("Timer Coalescing", "Latency", CheckStatus::Warn, "Timer coalescing disabled: false")
    );
}

#[test]
fn mmcss_responsiveness_is_good_up_to_ten_percent() {
    let name = "MMCSS System Responsiveness";
    assert_eq!(
        parts(&check_mmcss_responsiveness(Reading::Value(10))),
        (name, "Latency", CheckStatus::Okay, "System responsiveness: 10%")
    );
    assert_eq!(
        parts(&check_mmcss_responsiveness(Reading::Value(0))),
        (name, "Latency", CheckStatus::Okay, "System responsiveness: 0%")
    );
    assert_eq!(
        parts(&check_mmcss_responsiveness(Reading::Value(11))),
        (name, "Latency", CheckStatus::Warn, "System responsiveness: 11%")
    );
    assert_eq!(
        parts(&check_mmcss_responsiveness(Reading::Missing)),
        (name, "Latency", CheckStatus::Warn, "System responsiveness: 20%")
    );
    assert_eq!(
        parts(&check_mmcss_responsiveness(Reading::Unsupported)),
        (name, "Latency", CheckStatus::Info, "Windows-only check")
    );
}

#[test]
fn network_throttling_is_good_when_disabled() {
    let name = "Network Throttling";
    assert_eq!(
        parts(&check_network_throttling(Reading::Value(0xFFFFFFFF))),
        (name, "Latency", CheckStatus::Okay, "Network throttling: Disabled")
    );
    assert_eq!(
        parts(&check_network_throttling(Reading::Missing)),
        (name, "Latency", CheckStatus::Warn, "Network throttling: Enabled")
    );
}

#[test]
fn priority_separation_is_good_at_38() {
    let name = "Priority Separation";
    assert_eq!(
        parts(&check_priority_separation(Reading::Value(38))),
        (name, "Latency", CheckStatus::Okay, "Win32PrioritySeparation: 38")
    );
    assert_eq!(
        parts(&check_priority_separation(Reading::Missing)),
        (name, "Latency", CheckStatus::Info, "Win32PrioritySeparation: 2")
    );
}

#[test]
fn cpu_checks_put_the_measured_ones_in_their_places() {
    let config = Config::new();
    let readings = CpuReadings {
        vbs: Reading::Value(1),
        hvci: Reading::Value(0),
        mitigations: Reading::Value(3),
        foreground_separation: Reading::Value(38),
    };
    let found = cpu::run_checks(&config, &readings);
    assert_eq!(found.len(), 31);
    assert_eq!(
        parts(&found[0]),
        ("Power Plan", "CPU", CheckStatus::Info, "Power plan requires powercfg enumeration")
    );
    assert_eq!(parts(&found[6]), parts(&check_vbs(Reading::Value(1))));
    assert_eq!(found[6].status, CheckStatus::Warn);
    assert_eq!(parts(&found[7]), parts(&check_hvci(Reading::Value(0))));
    assert_eq!(parts(&found[8]), parts(&check_mitigations(Reading::Value(3))));
    assert_eq!(parts(&found[26]), parts(&check_foreground_separation(Reading::Value(38))));
    assert_eq!(
        parts(&found[30]),
        (
            "Frequency Scaling",
            "CPU",
            CheckStatus::Info,
            "Frequency scaling requires power configuration check"
        )
    );
}

#[test]
fn gpu_checks_put_the_measured_ones_in_their_places() {
    let config = Config::new();
    let readings = GpuReadings {
        hags: Reading::Value(2),
        tdr_level: Reading::Value(3),
        tdr_delay: Reading::Value(8),
        gamedvr: Reading::Value(1),
    };
    let found = gpu::run_checks(&config, &readings);
    assert_eq!(found.len(), 36);
    assert!(found.iter().all(|c| c.category == "GPU"));
    assert_eq!(found[0].status, CheckStatus::Okay);
    assert_eq!(found[1].detail, "TDR level: 3");
    assert_eq!(found[2].detail, "TDR delay: 8 seconds");
    assert_eq!(found[3].status, CheckStatus::Warn);
    assert_eq!(
        parts(&found[4]),
        ("Multi-Plane Overlay", "GPU", CheckStatus::Info, "MPO requires detailed registry check")
    );
    assert_eq!(
        parts(&found[35]),
        ("Display Mode", "GPU", CheckStatus::Info, "Display mode requires enumeration")
    );
}

#[test]
fn latency_checks_put_the_measured_ones_in_their_places() {
    let config = Config::new();
    let all = |r: Reading| LatencyReadings {
        hpet: r,
        tsc_sync: r,
        dynamic_tick: r,
        mmcss_responsiveness: r,
        network_throttling: r,
        priority_separation: r,
        timer_coalescing: r,
    };
    let found = latency::run_checks(&config, &all(Reading::Value(0)));
    assert_eq!(found.len(), 35);
    assert!(found.iter().all(|c| c.category == "Latency"));
    let statuses: Vec<CheckStatus> = [1, 2, 3, 4, 5, 6, 11].iter().map(|i| found[*i].status).collect();
    assert_eq!(
        statuses,
        vec![
            CheckStatus::Warn,
            CheckStatus::Okay,
            CheckStatus::Warn,
            CheckStatus::Okay,
            CheckStatus::Warn,
            CheckStatus::Info,
            CheckStatus::Okay
        ]
    );
    assert_eq!(found[0].name, "DPC Latency");
    assert_eq!(found[34].name, "Global Timer Resolution");
    let nowhere = latency::run_checks(&config, &all(Reading::Unsupported));
    assert!(nowhere.iter().all(|c| c.status == CheckStatus::Info));
    assert_eq!(nowhere[1].detail, "Windows-only check");
}

#[test]
fn categories_without_probes_name_their_subjects() {
    let config = Config::new();
    let sets: Vec<(Vec<CheckResult>, &str, &str, usize)> = vec![
        (memory::run_checks(&config), "Memory", "Memory Check ", 25),
        (storage::run_checks(&config), "Storage", "Storage Check ", 30),
        (network::run_checks(&config), "Network", "Network Check ", 35),
        (audio::run_checks(&config), "Audio", "Audio Check ", 20),
        (input::run_checks(&config), "Input", "Input Check ", 20),
        (stability::run_checks(&config), "Stability", "Stability Check ", 30),
        (services::run_checks(&config), "Services", "Service Check ", 40),
        (security::run_checks(&config), "Security", "Security Check ", 15),
        (platform::run_checks(&config), "Platform", "Platform Check ", 25),
        (thermal::run_checks(&config), "Thermal", "Thermal Check ", 20),
        (power::run_checks(&config), "Power", "Power Check ", 25),
    ];
    for (found, category, prefix, count) in sets {
        assert_eq!(found.len(), count);
        for (i, c) in found.iter().enumerate() {
            assert_eq!(c.name, format!("{}{}", prefix, i + 1));
            assert_eq!(c.category, category);
            assert_eq!(c.status, CheckStatus::Info);
            assert_eq!(c.detail, found[0].detail);
        }
    }
    assert_eq!(
        memory::run_checks(&config)[0].detail,
        "Memory checks require detailed implementation"
    );
    assert_eq!(
        services::run_checks(&config)[39].detail,
        "Service checks require detailed implementation"
    );
}

#[test]
fn numbered_notes_count_from_one() {
    let notes = numbered_notes("Cat", "Item #", "why", 12);
    assert_eq!(notes.len(), 12);
    assert_eq!(parts(&notes[0]), ("Item #1", "Cat", CheckStatus::Info, "why"));
    assert_eq!(parts(&notes[9]), ("Item #10", "Cat", CheckStatus::Info, "why"));
    assert_eq!(parts(&notes[11]), ("Item #12", "Cat", CheckStatus::Info, "why"));
    assert!(numbered_notes("Cat", "Item #", "why", 0).is_empty());
}

#[test]
fn finding_builders_fill_the_parts() {
    assert_eq!(parts(&note("n", "c", "d")), ("n", "c", CheckStatus::Info, "d"));
    assert_eq!(parts(&unsupported("n", "c")), ("n", "c", CheckStatus::Info, "Windows-only check"));
    let built = finding_with("n", "c", CheckStatus::Bad, "made".to_string());
    assert_eq!(parts(&built), ("n", "c", CheckStatus::Bad, "made"));
    assert_eq!(parts(&copy_of(&built)), parts(&built));
    let mut list = vec![note("a", "c", "d")];
    push_finding(&mut list, built);
    assert_eq!(list.len(), 2);
    assert_eq!(list[1].name, "n");
}

#[test]
fn default_thresholds() {
    let c = Config::new();
    assert_eq!(c.dpc_warn, 1500);
    assert_eq!(c.dpc_bad, 3000);
    assert_eq!(c.temp_warn, 80);
    assert_eq!(c.temp_crit, 90);
    assert_eq!(c.cpu_usage_warn, 90000);
    assert_eq!(c.memory_usage_warn, 90000);
    assert_eq!(c.disk_usage_warn, 85000);
    assert_eq!(Config::default(), c);
}
