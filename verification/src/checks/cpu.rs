//! The processor probes: 31 sub-checks, of which 4 go by a value of the
//! configuration store.

use crate::checks::{
    finding_of, finding_with, note, note_of, push_finding, reading_or, unsupported,
    unsupported_of, Hive, Reading,
};
use crate::config::Config;
use crate::text::{decimal, joined, numbered, truth, truth_text};
use crate::types::{CheckResult, CheckResultView, CheckStatus};
use vstd::prelude::*;

verus! {

/// What the configuration store says of the values that the processor probes
/// go by.
#[derive(Debug, Clone, Copy, PartialEq, Eq, Structural)]
pub struct CpuReadings {
    pub vbs: Reading,
    pub hvci: Reading,
    pub mitigations: Reading,
    pub foreground_separation: Reading,
}

/// The key under which the store keeps the value of `vbs`.
pub const VBS_SUBKEY: &'static str = "SYSTEM\\CurrentControlSet\\Control\\DeviceGuard";

/// The name of the value of `vbs`.
pub const VBS_VALUE: &'static str = "EnableVirtualizationBasedSecurity";

/// The key under which the store keeps the value of `hvci`.
pub const HVCI_SUBKEY: &'static str =
    "SYSTEM\\CurrentControlSet\\Control\\DeviceGuard\\Scenarios\\HypervisorEnforcedCodeIntegrity";

/// The name of the value of `hvci`.
pub const HVCI_VALUE: &'static str = "Enabled";

/// The key under which the store keeps the value of `mitigations`.
pub const MITIGATIONS_SUBKEY: &'static str =
    "SYSTEM\\CurrentControlSet\\Control\\Session Manager\\Memory Management";

/// The name of the value of `mitigations`.
pub const MITIGATIONS_VALUE: &'static str = "FeatureSettingsOverride";

/// The key under which the store keeps the value of `foreground_separation`.
pub const FOREGROUND_SEPARATION_SUBKEY: &'static str =
    "SYSTEM\\CurrentControlSet\\Control\\PriorityControl";

/// The name of the value of `foreground_separation`.
pub const FOREGROUND_SEPARATION_VALUE: &'static str = "Win32PrioritySeparation";

/// Every reading of `readings` is what `read` gave for its place in the
/// store.
pub open spec fn cpu_readings_from<F: Fn(Hive, &'static str, &'static str) -> Reading>(
    read: &F,
    readings: CpuReadings,
) -> bool {
    &&& call_ensures(read, (Hive::Machine, VBS_SUBKEY, VBS_VALUE), readings.vbs)
    &&& call_ensures(read, (Hive::Machine, HVCI_SUBKEY, HVCI_VALUE), readings.hvci)
    &&& call_ensures(
        read,
        (Hive::Machine, MITIGATIONS_SUBKEY, MITIGATIONS_VALUE),
        readings.mitigations,
    )
    &&& call_ensures(
        read,
        (Hive::Machine, FOREGROUND_SEPARATION_SUBKEY, FOREGROUND_SEPARATION_VALUE),
        readings.foreground_separation,
    )
}

impl CpuReadings {
    /// Has `read` read every value that the processor probes go by, each
    /// from its place in the store.
    pub fn collect<F: Fn(Hive, &'static str, &'static str) -> Reading>(
        read: &F,
    ) -> (readings: Self)
        requires
            forall|hive: Hive, subkey: &'static str, value: &'static str|
                call_requires(read, (hive, subkey, value)),
        ensures
            cpu_readings_from(read, readings),
    {
        CpuReadings {
            vbs: read(Hive::Machine, VBS_SUBKEY, VBS_VALUE),
            hvci: read(Hive::Machine, HVCI_SUBKEY, HVCI_VALUE),
            mitigations: read(Hive::Machine, MITIGATIONS_SUBKEY, MITIGATIONS_VALUE),
            foreground_separation: read(
                Hive::Machine,
                FOREGROUND_SEPARATION_SUBKEY,
                FOREGROUND_SEPARATION_VALUE,
            ),
        }
    }
}

/// Whether virtualization based security is off, as a machine tuned for speed
/// has it. Where the value cannot be read, 0 stands for it.
pub open spec fn vbs_finding(reading: Reading) -> CheckResultView {
    match reading_or(reading, 0) {
        None => unsupported_of("Virtualization Based Security"@, "CPU"@),
        Some(v) => finding_of(
            "Virtualization Based Security"@,
            "CPU"@,
            if v == 0 {
                CheckStatus::Okay
            } else {
                CheckStatus::Warn
            },
            "VBS enabled: "@ + truth(v == 1),
        ),
    }
}

/// Judges what was read of the value as `vbs_finding` says.
pub fn check_vbs(reading: Reading) -> (r: CheckResult)
    ensures
        r@ == vbs_finding(reading),
{
    match reading.value_or(0) {
        None => unsupported("Virtualization Based Security", "CPU"),
        Some(v) => finding_with(
            "Virtualization Based Security",
            "CPU",
            if v == 0 {
                CheckStatus::Okay
            } else {
                CheckStatus::Warn
            },
            joined("VBS enabled: ", truth_text(v == 1)),
        ),
    }
}

/// Whether hypervisor-enforced code integrity is off. Where the value cannot be
/// read, 0 stands for it.
pub open spec fn hvci_finding(reading: Reading) -> CheckResultView {
    match reading_or(reading, 0) {
        None => unsupported_of("Hypervisor-Enforced Code Integrity"@, "CPU"@),
        Some(v) => finding_of(
            "Hypervisor-Enforced Code Integrity"@,
            "CPU"@,
            if v == 0 {
                CheckStatus::Okay
            } else {
                CheckStatus::Warn
            },
            "HVCI enabled: "@ + truth(v == 1),
        ),
    }
}

/// Judges what was read of the value as `hvci_finding` says.
pub fn check_hvci(reading: Reading) -> (r: CheckResult)
    ensures
        r@ == hvci_finding(reading),
{
    match reading.value_or(0) {
        None => unsupported("Hypervisor-Enforced Code Integrity", "CPU"),
        Some(v) => finding_with(
            "Hypervisor-Enforced Code Integrity",
            "CPU",
            if v == 0 {
                CheckStatus::Okay
            } else {
                CheckStatus::Warn
            },
            joined("HVCI enabled: ", truth_text(v == 1)),
        ),
    }
}

/// The override of the processor mitigations; 3 switches them off. Where the
/// value cannot be read, 0 stands for it.
pub open spec fn mitigations_finding(reading: Reading) -> CheckResultView {
    match reading_or(reading, 0) {
        None => unsupported_of("CPU Mitigations"@, "CPU"@),
        Some(v) => finding_of(
            "CPU Mitigations"@,
            "CPU"@,
            if v == 3 {
                CheckStatus::Okay
            } else {
                CheckStatus::Info
            },
            "Mitigations override: "@ + decimal(v as nat),
        ),
    }
}

/// Judges what was read of the value as `mitigations_finding` says.
pub fn check_mitigations(reading: Reading) -> (r: CheckResult)
    ensures
        r@ == mitigations_finding(reading),
{
    match reading.value_or(0) {
        None => unsupported("CPU Mitigations", "CPU"),
        Some(v) => finding_with(
            "CPU Mitigations",
            "CPU",
            if v == 3 {
                CheckStatus::Okay
            } else {
                CheckStatus::Info
            },
            numbered("Mitigations override: ", v as u64),
        ),
    }
}

/// How processor time is split between the foreground and the background. Where
/// the value cannot be read, 2 stands for it.
pub open spec fn foreground_separation_finding(reading: Reading) -> CheckResultView {
    match reading_or(reading, 2) {
        None => unsupported_of("Foreground/Background Separation"@, "CPU"@),
        Some(v) => finding_of(
            "Foreground/Background Separation"@,
            "CPU"@,
            CheckStatus::Info,
            "Priority separation: "@ + decimal(v as nat),
        ),
    }
}

/// Judges what was read of the value as `foreground_separation_finding` says.
pub fn check_foreground_separation(reading: Reading) -> (r: CheckResult)
    ensures
        r@ == foreground_separation_finding(reading),
{
    match reading.value_or(2) {
        None => unsupported("Foreground/Background Separation", "CPU"),
        Some(v) => finding_with(
            "Foreground/Background Separation",
            "CPU",
            CheckStatus::Info,
            numbered("Priority separation: ", v as u64),
        ),
    }
}

/// The findings of the processor probes, in their fixed order.
pub open spec fn cpu_findings(readings: CpuReadings) -> Seq<CheckResultView> {
    seq![
        note_of("Power Plan"@, "CPU"@, "Power plan requires powercfg enumeration"@),
        note_of("C-States"@, "CPU"@, "C-States require power configuration check"@),
        note_of("Core Parking"@, "CPU"@, "Core parking requires power configuration check"@),
        note_of("Turbo Boost"@, "CPU"@, "Boost mode requires power configuration check"@),
        note_of(
            "Minimum Processor State"@,
            "CPU"@,
            "Min throttle requires power configuration check"@,
        ),
        note_of(
            "Maximum Processor State"@,
            "CPU"@,
            "Max throttle requires power configuration check"@,
        ),
        vbs_finding(readings.vbs),
        hvci_finding(readings.hvci),
        mitigations_finding(readings.mitigations),
        note_of(
            "Heterogeneous Scheduler"@,
            "CPU"@,
            "Heterogeneous scheduler requires CPU detection"@,
        ),
        note_of("Simultaneous Multithreading"@, "CPU"@, "SMT status requires CPU enumeration"@),
        note_of("Intel Speed Shift"@, "CPU"@, "Speed Shift requires Intel CPU detection"@),
        note_of("Precision Boost Overdrive"@, "CPU"@, "PBO requires AMD CPU detection"@),
        note_of("Per-Core P-States"@, "CPU"@, "Per-core P-states require CPU enumeration"@),
        note_of("Thermal Velocity Boost"@, "CPU"@, "TVB requires Intel CPU detection"@),
        note_of(
            "Collaborative Processor Performance Control"@,
            "CPU"@,
            "CPPC requires power configuration check"@,
        ),
        note_of("CPU Cache Prefetcher"@, "CPU"@, "Cache prefetcher requires MSR access"@),
        note_of(
            "Intel Thread Director"@,
            "CPU"@,
            "Thread Director requires Intel 12th gen+ detection"@,
        ),
        note_of(
            "Efficiency Core Parking"@,
            "CPU"@,
            "E-core parking requires heterogeneous CPU detection"@,
        ),
        note_of(
            "Performance Core Priority"@,
            "CPU"@,
            "P-core priority requires heterogeneous CPU detection"@,
        ),
        note_of(
            "AMD Curve Optimizer"@,
            "CPU"@,
            "Curve Optimizer requires AMD Ryzen 5000+ detection"@,
        ),
        note_of("Process Affinity"@, "CPU"@, "Process affinity requires process enumeration"@),
        note_of("Scheduling Class"@, "CPU"@, "Scheduling class requires process enumeration"@),
        note_of("Thread Quantum"@, "CPU"@, "Thread quantum requires system configuration check"@),
        note_of("Priority Boost"@, "CPU"@, "Priority boost requires process enumeration"@),
        note_of(
            "Background Process Throttling"@,
            "CPU"@,
            "Background throttling requires power configuration check"@,
        ),
        foreground_separation_finding(readings.foreground_separation),
        note_of("CPU Sets"@, "CPU"@, "CPU sets require process enumeration"@),
        note_of("Idle States"@, "CPU"@, "Idle states require power configuration check"@),
        note_of("Power Limits"@, "CPU"@, "Power limits require CPU monitoring"@),
        note_of(
            "Frequency Scaling"@,
            "CPU"@,
            "Frequency scaling requires power configuration check"@,
        ),
    ]
}

/// Runs the processor probes on what was read of the configuration store.
pub fn run_checks(_config: &Config, readings: &CpuReadings) -> (out: Vec<CheckResult>)
    ensures
        out.deep_view() == cpu_findings(*readings),
        out.len() == 31,
{
    let mut out: Vec<CheckResult> = Vec::new();
    proof {
        assert(out.deep_view() =~= Seq::<CheckResultView>::empty());
    }
    push_finding(&mut out, note("Power Plan", "CPU", "Power plan requires powercfg enumeration"));
    push_finding(&mut out, note("C-States", "CPU", "C-States require power configuration check"));
    push_finding(
        &mut out,
        note("Core Parking", "CPU", "Core parking requires power configuration check"),
    );
    push_finding(
        &mut out,
        note("Turbo Boost", "CPU", "Boost mode requires power configuration check"),
    );
    push_finding(
        &mut out,
        note("Minimum Processor State", "CPU", "Min throttle requires power configuration check"),
    );
    push_finding(
        &mut out,
        note("Maximum Processor State", "CPU", "Max throttle requires power configuration check"),
    );
    push_finding(&mut out, check_vbs(readings.vbs));
    push_finding(&mut out, check_hvci(readings.hvci));
    push_finding(&mut out, check_mitigations(readings.mitigations));
    push_finding(
        &mut out,
        note("Heterogeneous Scheduler", "CPU", "Heterogeneous scheduler requires CPU detection"),
    );
    push_finding(
        &mut out,
        note("Simultaneous Multithreading", "CPU", "SMT status requires CPU enumeration"),
    );
    push_finding(
        &mut out,
        note("Intel Speed Shift", "CPU", "Speed Shift requires Intel CPU detection"),
    );
    push_finding(
        &mut out,
        note("Precision Boost Overdrive", "CPU", "PBO requires AMD CPU detection"),
    );
    push_finding(
        &mut out,
        note("Per-Core P-States", "CPU", "Per-core P-states require CPU enumeration"),
    );
    push_finding(
        &mut out,
        note("Thermal Velocity Boost", "CPU", "TVB requires Intel CPU detection"),
    );
    push_finding(
        &mut out,
        note(
            "Collaborative Processor Performance Control",
            "CPU",
            "CPPC requires power configuration check",
        ),
    );
    push_finding(
        &mut out,
        note("CPU Cache Prefetcher", "CPU", "Cache prefetcher requires MSR access"),
    );
    push_finding(
        &mut out,
        note("Intel Thread Director", "CPU", "Thread Director requires Intel 12th gen+ detection"),
    );
    push_finding(
        &mut out,
        note(
            "Efficiency Core Parking",
            "CPU",
            "E-core parking requires heterogeneous CPU detection",
        ),
    );
    push_finding(
        &mut out,
        note(
            "Performance Core Priority",
            "CPU",
            "P-core priority requires heterogeneous CPU detection",
        ),
    );
    push_finding(
        &mut out,
        note("AMD Curve Optimizer", "CPU", "Curve Optimizer requires AMD Ryzen 5000+ detection"),
    );
    push_finding(
        &mut out,
        note("Process Affinity", "CPU", "Process affinity requires process enumeration"),
    );
    push_finding(
        &mut out,
        note("Scheduling Class", "CPU", "Scheduling class requires process enumeration"),
    );
    push_finding(
        &mut out,
        note("Thread Quantum", "CPU", "Thread quantum requires system configuration check"),
    );
    push_finding(
        &mut out,
        note("Priority Boost", "CPU", "Priority boost requires process enumeration"),
    );
    push_finding(
        &mut out,
        note(
            "Background Process Throttling",
            "CPU",
            "Background throttling requires power configuration check",
        ),
    );
    push_finding(&mut out, check_foreground_separation(readings.foreground_separation));
    push_finding(&mut out, note("CPU Sets", "CPU", "CPU sets require process enumeration"));
    push_finding(
        &mut out,
        note("Idle States", "CPU", "Idle states require power configuration check"),
    );
    push_finding(&mut out, note("Power Limits", "CPU", "Power limits require CPU monitoring"));
    push_finding(
        &mut out,
        note("Frequency Scaling", "CPU", "Frequency scaling requires power configuration check"),
    );
    out
}

} // verus!
