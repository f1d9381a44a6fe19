//! The latency probes: 35 sub-checks, of which 7 go by a value of the
//! configuration store.

use crate::checks::{
    finding_of, finding_with, note, note_of, push_finding, reading_or, unsupported,
    unsupported_of, Hive, Reading,
};
use crate::config::Config;
use crate::text::{decimal, joined, labelled_number, numbered, truth, truth_text};
use crate::types::{CheckResult, CheckResultView, CheckStatus};
use vstd::prelude::*;

verus! {

/// What the configuration store says of the values that the latency probes
/// go by.
#[derive(Debug, Clone, Copy, PartialEq, Eq, Structural)]
pub struct LatencyReadings {
    pub hpet: Reading,
    pub tsc_sync: Reading,
    pub dynamic_tick: Reading,
    pub mmcss_responsiveness: Reading,
    pub network_throttling: Reading,
    pub priority_separation: Reading,
    pub timer_coalescing: Reading,
}

/// The key under which the store keeps the value of `hpet`.
pub const HPET_SUBKEY: &'static str =
    "SYSTEM\\CurrentControlSet\\Control\\TimeProviders\\TimerResolution";

/// The name of the value of `hpet`.
pub const HPET_VALUE: &'static str = "HPETDisabled";

/// The key under which the store keeps the value of `tsc_sync`.
pub const TSC_SYNC_SUBKEY: &'static str =
    "SYSTEM\\CurrentControlSet\\Control\\Session Manager\\kernel";

/// The name of the value of `tsc_sync`.
pub const TSC_SYNC_VALUE: &'static str = "UsePlatformClock";

/// The key under which the store keeps the value of `dynamic_tick`.
pub const DYNAMIC_TICK_SUBKEY: &'static str =
    "SYSTEM\\CurrentControlSet\\Control\\Session Manager\\kernel";

/// The name of the value of `dynamic_tick`.
pub const DYNAMIC_TICK_VALUE: &'static str = "DisableDynamicTick";

/// The key under which the store keeps the value of `mmcss_responsiveness`.
pub const MMCSS_RESPONSIVENESS_SUBKEY: &'static str =
    "SOFTWARE\\Microsoft\\Windows NT\\CurrentVersion\\Multimedia\\SystemProfile";

/// The name of the value of `mmcss_responsiveness`.
pub const MMCSS_RESPONSIVENESS_VALUE: &'static str = "SystemResponsiveness";

/// The key under which the store keeps the value of `network_throttling`.
pub const NETWORK_THROTTLING_SUBKEY: &'static str =
    "SOFTWARE\\Microsoft\\Windows NT\\CurrentVersion\\Multimedia\\SystemProfile";

/// The name of the value of `network_throttling`.
pub const NETWORK_THROTTLING_VALUE: &'static str = "NetworkThrottlingIndex";

/// The key under which the store keeps the value of `priority_separation`.
pub const PRIORITY_SEPARATION_SUBKEY: &'static str =
    "SYSTEM\\CurrentControlSet\\Control\\PriorityControl";

/// The name of the value of `priority_separation`.
pub const PRIORITY_SEPARATION_VALUE: &'static str = "Win32PrioritySeparation";

/// The key under which the store keeps the value of `timer_coalescing`.
pub const TIMER_COALESCING_SUBKEY: &'static str =
    "SYSTEM\\CurrentControlSet\\Control\\Session Manager\\kernel";

/// The name of the value of `timer_coalescing`.
pub const TIMER_COALESCING_VALUE: &'static str = "CoalescingTimerInterval";

/// Every reading of `readings` is what `read` gave for its place in the
/// store.
pub open spec fn latency_readings_from<F: Fn(Hive, &'static str, &'static str) -> Reading>(
    read: &F,
    readings: LatencyReadings,
) -> bool {
    &&& call_ensures(read, (Hive::Machine, HPET_SUBKEY, HPET_VALUE), readings.hpet)
    &&& call_ensures(read, (Hive::Machine, TSC_SYNC_SUBKEY, TSC_SYNC_VALUE), readings.tsc_sync)
    &&& call_ensures(
        read,
        (Hive::Machine, DYNAMIC_TICK_SUBKEY, DYNAMIC_TICK_VALUE),
        readings.dynamic_tick,
    )
    &&& call_ensures(
        read,
        (Hive::Machine, MMCSS_RESPONSIVENESS_SUBKEY, MMCSS_RESPONSIVENESS_VALUE),
        readings.mmcss_responsiveness,
    )
    &&& call_ensures(
        read,
        (Hive::Machine, NETWORK_THROTTLING_SUBKEY, NETWORK_THROTTLING_VALUE),
        readings.network_throttling,
    )
    &&& call_ensures(
        read,
        (Hive::Machine, PRIORITY_SEPARATION_SUBKEY, PRIORITY_SEPARATION_VALUE),
        readings.priority_separation,
    )
    &&& call_ensures(
        read,
        (Hive::Machine, TIMER_COALESCING_SUBKEY, TIMER_COALESCING_VALUE),
        readings.timer_coalescing,
    )
}

impl LatencyReadings {
    /// Has `read` read every value that the latency probes go by, each
    /// from its place in the store.
    pub fn collect<F: Fn(Hive, &'static str, &'static str) -> Reading>(
        read: &F,
    ) -> (readings: Self)
        requires
            forall|hive: Hive, subkey: &'static str, value: &'static str|
                call_requires(read, (hive, subkey, value)),
        ensures
            latency_readings_from(read, readings),
    {
        LatencyReadings {
            hpet: read(Hive::Machine, HPET_SUBKEY, HPET_VALUE),
            tsc_sync: read(Hive::Machine, TSC_SYNC_SUBKEY, TSC_SYNC_VALUE),
            dynamic_tick: read(Hive::Machine, DYNAMIC_TICK_SUBKEY, DYNAMIC_TICK_VALUE),
            mmcss_responsiveness: read(
                Hive::Machine,
                MMCSS_RESPONSIVENESS_SUBKEY,
                MMCSS_RESPONSIVENESS_VALUE,
            ),
            network_throttling: read(
                Hive::Machine,
                NETWORK_THROTTLING_SUBKEY,
                NETWORK_THROTTLING_VALUE,
            ),
            priority_separation: read(
                Hive::Machine,
                PRIORITY_SEPARATION_SUBKEY,
                PRIORITY_SEPARATION_VALUE,
            ),
            timer_coalescing: read(Hive::Machine, TIMER_COALESCING_SUBKEY, TIMER_COALESCING_VALUE),
        }
    }
}

/// Whether the high precision event timer is off. Where the value cannot be
/// read, 0 stands for it.
pub open spec fn hpet_finding(reading: Reading) -> CheckResultView {
    match reading_or(reading, 0) {
        None => unsupported_of("HPET Status"@, "Latency"@),
        Some(v) => finding_of(
            "HPET Status"@,
            "Latency"@,
            if v == 1 {
                CheckStatus::Okay
            } else {
                CheckStatus::Warn
            },
            "HPET disabled: "@ + truth(v == 1),
        ),
    }
}

/// Judges what was read of the value as `hpet_finding` says.
pub fn check_hpet(reading: Reading) -> (r: CheckResult)
    ensures
        r@ == hpet_finding(reading),
{
    match reading.value_or(0) {
        None => unsupported("HPET Status", "Latency"),
        Some(v) => finding_with(
            "HPET Status",
            "Latency",
            if v == 1 {
                CheckStatus::Okay
            } else {
                CheckStatus::Warn
            },
            joined("HPET disabled: ", truth_text(v == 1)),
        ),
    }
}

/// Whether the kernel keeps time by the processor's own counter. Where the
/// value cannot be read, 0 stands for it.
pub open spec fn tsc_sync_finding(reading: Reading) -> CheckResultView {
    match reading_or(reading, 0) {
        None => unsupported_of("TSC Sync Policy"@, "Latency"@),
        Some(v) => finding_of(
            "TSC Sync Policy"@,
            "Latency"@,
            if v == 0 {
                CheckStatus::Okay
            } else {
                CheckStatus::Warn
            },
            "TSC synchronized: "@ + truth(v == 0),
        ),
    }
}

/// Judges what was read of the value as `tsc_sync_finding` says.
pub fn check_tsc_sync(reading: Reading) -> (r: CheckResult)
    ensures
        r@ == tsc_sync_finding(reading),
{
    match reading.value_or(0) {
        None => unsupported("TSC Sync Policy", "Latency"),
        Some(v) => finding_with(
            "TSC Sync Policy",
            "Latency",
            if v == 0 {
                CheckStatus::Okay
            } else {
                CheckStatus::Warn
            },
            joined("TSC synchronized: ", truth_text(v == 0)),
        ),
    }
}

/// Whether the dynamic timer tick is off. Where the value cannot be read, 0
/// stands for it.
pub open spec fn dynamic_tick_finding(reading: Reading) -> CheckResultView {
    match reading_or(reading, 0) {
        None => unsupported_of("Dynamic Tick"@, "Latency"@),
        Some(v) => finding_of(
            "Dynamic Tick"@,
            "Latency"@,
            if v == 1 {
                CheckStatus::Okay
            } else {
                CheckStatus::Warn
            },
            "Dynamic tick disabled: "@ + truth(v == 1),
        ),
    }
}

/// Judges what was read of the value as `dynamic_tick_finding` says.
pub fn check_dynamic_tick(reading: Reading) -> (r: CheckResult)
    ensures
        r@ == dynamic_tick_finding(reading),
{
    match reading.value_or(0) {
        None => unsupported("Dynamic Tick", "Latency"),
        Some(v) => finding_with(
            "Dynamic Tick",
            "Latency",
            if v == 1 {
                CheckStatus::Okay
            } else {
                CheckStatus::Warn
            },
            joined("Dynamic tick disabled: ", truth_text(v == 1)),
        ),
    }
}

/// The share of processor time held back for background work; 10 percent or
/// less is good. Where the value cannot be read, 20 stands for it.
pub open spec fn mmcss_responsiveness_finding(reading: Reading) -> CheckResultView {
    match reading_or(reading, 20) {
        None => unsupported_of("MMCSS System Responsiveness"@, "Latency"@),
        Some(v) => finding_of(
            "MMCSS System Responsiveness"@,
            "Latency"@,
            if v <= 10 {
                CheckStatus::Okay
            } else {
                CheckStatus::Warn
            },
            "System responsiveness: "@ + decimal(v as nat) + "%"@,
        ),
    }
}

/// Judges what was read of the value as `mmcss_responsiveness_finding` says.
pub fn check_mmcss_responsiveness(reading: Reading) -> (r: CheckResult)
    ensures
        r@ == mmcss_responsiveness_finding(reading),
{
    match reading.value_or(20) {
        None => unsupported("MMCSS System Responsiveness", "Latency"),
        Some(v) => finding_with(
            "MMCSS System Responsiveness",
            "Latency",
            if v <= 10 {
                CheckStatus::Okay
            } else {
                CheckStatus::Warn
            },
            labelled_number("System responsiveness: ", v as u64, "%"),
        ),
    }
}

/// Whether the throttle on network traffic beside multimedia playback is off.
/// Where the value cannot be read, 10 stands for it.
pub open spec fn network_throttling_finding(reading: Reading) -> CheckResultView {
    match reading_or(reading, 10) {
        None => unsupported_of("Network Throttling"@, "Latency"@),
        Some(v) => finding_of(
            "Network Throttling"@,
            "Latency"@,
            if v == 0xffffffff {
                CheckStatus::Okay
            } else {
                CheckStatus::Warn
            },
            "Network throttling: "@ + (if v == 0xffffffff {
                "Disabled"@
            } else {
                "Enabled"@
            }),
        ),
    }
}

/// Judges what was read of the value as `network_throttling_finding` says.
pub fn check_network_throttling(reading: Reading) -> (r: CheckResult)
    ensures
        r@ == network_throttling_finding(reading),
{
    match reading.value_or(10) {
        None => unsupported("Network Throttling", "Latency"),
        Some(v) => finding_with(
            "Network Throttling",
            "Latency",
            if v == 0xffffffff {
                CheckStatus::Okay
            } else {
                CheckStatus::Warn
            },
            joined(
                "Network throttling: ",
                if v == 0xffffffff {
                    "Disabled"
                } else {
                    "Enabled"
                },
            ),
        ),
    }
}

/// The priority separation; 38 favours the foreground with short, variable
/// quanta. Where the value cannot be read, 2 stands for it.
pub open spec fn priority_separation_finding(reading: Reading) -> CheckResultView {
    match reading_or(reading, 2) {
        None => unsupported_of("Priority Separation"@, "Latency"@),
        Some(v) => finding_of(
            "Priority Separation"@,
            "Latency"@,
            if v == 38 {
                CheckStatus::Okay
            } else {
                CheckStatus::Info
            },
            "Win32PrioritySeparation: "@ + decimal(v as nat),
        ),
    }
}

/// Judges what was read of the value as `priority_separation_finding` says.
pub fn check_priority_separation(reading: Reading) -> (r: CheckResult)
    ensures
        r@ == priority_separation_finding(reading),
{
    match reading.value_or(2) {
        None => unsupported("Priority Separation", "Latency"),
        Some(v) => finding_with(
            "Priority Separation",
            "Latency",
            if v == 38 {
                CheckStatus::Okay
            } else {
                CheckStatus::Info
            },
            numbered("Win32PrioritySeparation: ", v as u64),
        ),
    }
}

/// Whether timers are left uncoalesced. Where the value cannot be read, 0
/// stands for it.
pub open spec fn timer_coalescing_finding(reading: Reading) -> CheckResultView {
    match reading_or(reading, 0) {
        None => unsupported_of("Timer Coalescing"@, "Latency"@),
        Some(v) => finding_of(
            "Timer Coalescing"@,
            "Latency"@,
            if v == 0 {
                CheckStatus::Okay
            } else {
                CheckStatus::Warn
            },
            "Timer coalescing disabled: "@ + truth(v == 0),
        ),
    }
}

/// Judges what was read of the value as `timer_coalescing_finding` says.
pub fn check_timer_coalescing(reading: Reading) -> (r: CheckResult)
    ensures
        r@ == timer_coalescing_finding(reading),
{
    match reading.value_or(0) {
        None => unsupported("Timer Coalescing", "Latency"),
        Some(v) => finding_with(
            "Timer Coalescing",
            "Latency",
            if v == 0 {
                CheckStatus::Okay
            } else {
                CheckStatus::Warn
            },
            joined("Timer coalescing disabled: ", truth_text(v == 0)),
        ),
    }
}

/// The findings of the latency probes, in their fixed order.
pub open spec fn latency_findings(readings: LatencyReadings) -> Seq<CheckResultView> {
    seq![
        note_of("DPC Latency"@, "Latency"@, "DPC latency measurement requires runtime monitoring"@),
        hpet_finding(readings.hpet),
        tsc_sync_finding(readings.tsc_sync),
        dynamic_tick_finding(readings.dynamic_tick),
        mmcss_responsiveness_finding(readings.mmcss_responsiveness),
        network_throttling_finding(readings.network_throttling),
        priority_separation_finding(readings.priority_separation),
        note_of("GPU MSI-X Mode"@, "Latency"@, "GPU MSI-X status requires device enumeration"@),
        note_of("NIC MSI-X Mode"@, "Latency"@, "NIC MSI-X status requires device enumeration"@),
        note_of(
            "GPU Interrupt Affinity"@,
            "Latency"@,
            "GPU interrupt affinity requires device enumeration"@,
        ),
        note_of(
            "NIC Interrupt Affinity"@,
            "Latency"@,
            "NIC interrupt affinity requires device enumeration"@,
        ),
        timer_coalescing_finding(readings.timer_coalescing),
        note_of("SMI Detection"@, "Latency"@, "SMI detection requires hardware monitoring"@),
        note_of("x2APIC Mode"@, "Latency"@, "x2APIC status requires CPU feature detection"@),
        note_of("PCIe ASPM"@, "Latency"@, "PCIe ASPM status requires device enumeration"@),
        note_of(
            "USB Controller Latency"@,
            "Latency"@,
            "USB latency requires controller enumeration"@,
        ),
        note_of(
            "SATA Link Power Management"@,
            "Latency"@,
            "SATA link power requires device enumeration"@,
        ),
        note_of(
            "Audio Endpoint Buffer"@,
            "Latency"@,
            "Audio buffer size requires audio device enumeration"@,
        ),
        note_of(
            "DirectX Flip Model"@,
            "Latency"@,
            "DirectX flip model requires runtime detection"@,
        ),
        note_of(
            "Kernel Timer Resolution"@,
            "Latency"@,
            "Timer resolution requires NtQueryTimerResolution call"@,
        ),
        note_of(
            "CPU Idle Latency"@,
            "Latency"@,
            "CPU idle latency requires power state monitoring"@,
        ),
        note_of("Memory Controller Timing"@, "Latency"@, "Memory timing requires SPD reading"@),
        note_of("NVMe Queue Depth"@, "Latency"@, "NVMe queue depth requires device enumeration"@),
        note_of(
            "Bluetooth Audio Latency"@,
            "Latency"@,
            "Bluetooth latency requires device enumeration"@,
        ),
        note_of("HID Polling Rate"@, "Latency"@, "HID polling rate requires device enumeration"@),
        note_of("Monitor Refresh Sync"@, "Latency"@, "Monitor sync requires display enumeration"@),
        note_of("GPU Preemption Granularity"@, "Latency"@, "GPU preemption requires driver API"@),
        note_of("Shader Cache"@, "Latency"@, "Shader cache status requires driver enumeration"@),
        note_of("Asset Streaming"@, "Latency"@, "Asset streaming requires game detection"@),
        note_of(
            "Network Interrupt Coalescing"@,
            "Latency"@,
            "Network coalescing requires adapter enumeration"@,
        ),
        note_of(
            "Storage I/O Priority"@,
            "Latency"@,
            "Storage priority requires device enumeration"@,
        ),
        note_of(
            "Real-time Priority Processes"@,
            "Latency"@,
            "Real-time priority requires process enumeration"@,
        ),
        note_of(
            "MMCSS Thread Priority"@,
            "Latency"@,
            "MMCSS thread priority requires service enumeration"@,
        ),
        note_of(
            "Interrupt Steering"@,
            "Latency"@,
            "Interrupt steering requires device enumeration"@,
        ),
        note_of(
            "Global Timer Resolution"@,
            "Latency"@,
            "Global timer resolution requires system monitoring"@,
        ),
    ]
}

/// Runs the latency probes on what was read of the configuration store.
pub fn run_checks(_config: &Config, readings: &LatencyReadings) -> (out: Vec<CheckResult>)
    ensures
        out.deep_view() == latency_findings(*readings),
        out.len() == 35,
{
    let mut out: Vec<CheckResult> = Vec::new();
    proof {
        assert(out.deep_view() =~= Seq::<CheckResultView>::empty());
    }
    push_finding(
        &mut out,
        note("DPC Latency", "Latency", "DPC latency measurement requires runtime monitoring"),
    );
    push_finding(&mut out, check_hpet(readings.hpet));
    push_finding(&mut out, check_tsc_sync(readings.tsc_sync));
    push_finding(&mut out, check_dynamic_tick(readings.dynamic_tick));
    push_finding(&mut out, check_mmcss_responsiveness(readings.mmcss_responsiveness));
    push_finding(&mut out, check_network_throttling(readings.network_throttling));
    push_finding(&mut out, check_priority_separation(readings.priority_separation));
    push_finding(
        &mut out,
        note("GPU MSI-X Mode", "Latency", "GPU MSI-X status requires device enumeration"),
    );
    push_finding(
        &mut out,
        note("NIC MSI-X Mode", "Latency", "NIC MSI-X status requires device enumeration"),
    );
    push_finding(
        &mut out,
        note(
            "GPU Interrupt Affinity",
            "Latency",
            "GPU interrupt affinity requires device enumeration",
        ),
    );
    push_finding(
        &mut out,
        note(
            "NIC Interrupt Affinity",
            "Latency",
            "NIC interrupt affinity requires device enumeration",
        ),
    );
    push_finding(&mut out, check_timer_coalescing(readings.timer_coalescing));
    push_finding(
        &mut out,
        note("SMI Detection", "Latency", "SMI detection requires hardware monitoring"),
    );
    push_finding(
        &mut out,
        note("x2APIC Mode", "Latency", "x2APIC status requires CPU feature detection"),
    );
    push_finding(
        &mut out,
        note("PCIe ASPM", "Latency", "PCIe ASPM status requires device enumeration"),
    );
    push_finding(
        &mut out,
        note("USB Controller Latency", "Latency", "USB latency requires controller enumeration"),
    );
    push_finding(
        &mut out,
        note(
            "SATA Link Power Management",
            "Latency",
            "SATA link power requires device enumeration",
        ),
    );
    push_finding(
        &mut out,
        note(
            "Audio Endpoint Buffer",
            "Latency",
            "Audio buffer size requires audio device enumeration",
        ),
    );
    push_finding(
        &mut out,
        note("DirectX Flip Model", "Latency", "DirectX flip model requires runtime detection"),
    );
    push_finding(
        &mut out,
        note(
            "Kernel Timer Resolution",
            "Latency",
            "Timer resolution requires NtQueryTimerResolution call",
        ),
    );
    push_finding(
        &mut out,
        note("CPU Idle Latency", "Latency", "CPU idle latency requires power state monitoring"),
    );
    push_finding(
        &mut out,
        note("Memory Controller Timing", "Latency", "Memory timing requires SPD reading"),
    );
    push_finding(
        &mut out,
        note("NVMe Queue Depth", "Latency", "NVMe queue depth requires device enumeration"),
    );
    push_finding(
        &mut out,
        note("Bluetooth Audio Latency", "Latency", "Bluetooth latency requires device enumeration"),
    );
    push_finding(
        &mut out,
        note("HID Polling Rate", "Latency", "HID polling rate requires device enumeration"),
    );
    push_finding(
        &mut out,
        note("Monitor Refresh Sync", "Latency", "Monitor sync requires display enumeration"),
    );
    push_finding(
        &mut out,
        note("GPU Preemption Granularity", "Latency", "GPU preemption requires driver API"),
    );
    push_finding(
        &mut out,
        note("Shader Cache", "Latency", "Shader cache status requires driver enumeration"),
    );
    push_finding(
        &mut out,
        note("Asset Streaming", "Latency", "Asset streaming requires game detection"),
    );
    push_finding(
        &mut out,
        note(
            "Network Interrupt Coalescing",
            "Latency",
            "Network coalescing requires adapter enumeration",
        ),
    );
    push_finding(
        &mut out,
        note("Storage I/O Priority", "Latency", "Storage priority requires device enumeration"),
    );
    push_finding(
        &mut out,
        note(
            "Real-time Priority Processes",
            "Latency",
            "Real-time priority requires process enumeration",
        ),
    );
    push_finding(
        &mut out,
        note(
            "MMCSS Thread Priority",
            "Latency",
            "MMCSS thread priority requires service enumeration",
        ),
    );
    push_finding(
        &mut out,
        note("Interrupt Steering", "Latency", "Interrupt steering requires device enumeration"),
    );
    push_finding(
        &mut out,
        note(
            "Global Timer Resolution",
            "Latency",
            "Global timer resolution requires system monitoring",
        ),
    );
    out
}

} // verus!
