//! The graphics probes: 36 sub-checks, of which 4 go by a value of the
//! configuration store.

use crate::checks::{
    finding_of, finding_with, note, note_of, push_finding, reading_or, unsupported,
    unsupported_of, Hive, Reading,
};
use crate::config::Config;
use crate::text::{decimal, joined, labelled_number, numbered, truth, truth_text};
use crate::types::{CheckResult, CheckResultView, CheckStatus};
use vstd::prelude::*;

verus! {

/// What the configuration store says of the values that the graphics probes
/// go by.
#[derive(Debug, Clone, Copy, PartialEq, Eq, Structural)]
pub struct GpuReadings {
    pub hags: Reading,
    pub tdr_level: Reading,
    pub tdr_delay: Reading,
    pub gamedvr: Reading,
}

/// The key under which the store keeps the value of `hags`.
pub const HAGS_SUBKEY: &'static str = "SYSTEM\\CurrentControlSet\\Control\\GraphicsDrivers";

/// The name of the value of `hags`.
pub const HAGS_VALUE: &'static str = "HwSchMode";

/// The key under which the store keeps the value of `tdr_level`.
pub const TDR_LEVEL_SUBKEY: &'static str = "SYSTEM\\CurrentControlSet\\Control\\GraphicsDrivers";

/// The name of the value of `tdr_level`.
pub const TDR_LEVEL_VALUE: &'static str = "TdrLevel";

/// The key under which the store keeps the value of `tdr_delay`.
pub const TDR_DELAY_SUBKEY: &'static str = "SYSTEM\\CurrentControlSet\\Control\\GraphicsDrivers";

/// The name of the value of `tdr_delay`.
pub const TDR_DELAY_VALUE: &'static str = "TdrDelay";

/// The key under which the store keeps the value of `gamedvr`.
pub const GAMEDVR_SUBKEY: &'static str = "System\\GameConfigStore";

/// The name of the value of `gamedvr`.
pub const GAMEDVR_VALUE: &'static str = "GameDVR_Enabled";

/// Every reading of `readings` is what `read` gave for its place in the
/// store.
pub open spec fn gpu_readings_from<F: Fn(Hive, &'static str, &'static str) -> Reading>(
    read: &F,
    readings: GpuReadings,
) -> bool {
    &&& call_ensures(read, (Hive::Machine, HAGS_SUBKEY, HAGS_VALUE), readings.hags)
    &&& call_ensures(read, (Hive::Machine, TDR_LEVEL_SUBKEY, TDR_LEVEL_VALUE), readings.tdr_level)
    &&& call_ensures(read, (Hive::Machine, TDR_DELAY_SUBKEY, TDR_DELAY_VALUE), readings.tdr_delay)
    &&& call_ensures(read, (Hive::User, GAMEDVR_SUBKEY, GAMEDVR_VALUE), readings.gamedvr)
}

impl GpuReadings {
    /// Has `read` read every value that the graphics probes go by, each
    /// from its place in the store.
    pub fn collect<F: Fn(Hive, &'static str, &'static str) -> Reading>(
        read: &F,
    ) -> (readings: Self)
        requires
            forall|hive: Hive, subkey: &'static str, value: &'static str|
                call_requires(read, (hive, subkey, value)),
        ensures
            gpu_readings_from(read, readings),
    {
        GpuReadings {
            hags: read(Hive::Machine, HAGS_SUBKEY, HAGS_VALUE),
            tdr_level: read(Hive::Machine, TDR_LEVEL_SUBKEY, TDR_LEVEL_VALUE),
            tdr_delay: read(Hive::Machine, TDR_DELAY_SUBKEY, TDR_DELAY_VALUE),
            gamedvr: read(Hive::User, GAMEDVR_SUBKEY, GAMEDVR_VALUE),
        }
    }
}

/// Whether the graphics card schedules its own work; mode 2 switches that on.
/// Where the value cannot be read, 1 stands for it.
pub open spec fn hags_finding(reading: Reading) -> CheckResultView {
    match reading_or(reading, 1) {
        None => unsupported_of("Hardware Accelerated GPU Scheduling"@, "GPU"@),
        Some(v) => finding_of(
            "Hardware Accelerated GPU Scheduling"@,
            "GPU"@,
            if v == 2 {
                CheckStatus::Okay
            } else {
                CheckStatus::Info
            },
            "HAGS enabled: "@ + truth(v == 2),
        ),
    }
}

/// Judges what was read of the value as `hags_finding` says.
pub fn check_hags(reading: Reading) -> (r: CheckResult)
    ensures
        r@ == hags_finding(reading),
{
    match reading.value_or(1) {
        None => unsupported("Hardware Accelerated GPU Scheduling", "GPU"),
        Some(v) => finding_with(
            "Hardware Accelerated GPU Scheduling",
            "GPU",
            if v == 2 {
                CheckStatus::Okay
            } else {
                CheckStatus::Info
            },
            joined("HAGS enabled: ", truth_text(v == 2)),
        ),
    }
}

/// How the system recovers a graphics driver that stopped answering. Where the
/// value cannot be read, 3 stands for it.
pub open spec fn tdr_level_finding(reading: Reading) -> CheckResultView {
    match reading_or(reading, 3) {
        None => unsupported_of("TDR Level"@, "GPU"@),
        Some(v) => finding_of(
            "TDR Level"@,
            "GPU"@,
            CheckStatus::Info,
            "TDR level: "@ + decimal(v as nat),
        ),
    }
}

/// Judges what was read of the value as `tdr_level_finding` says.
pub fn check_tdr_level(reading: Reading) -> (r: CheckResult)
    ensures
        r@ == tdr_level_finding(reading),
{
    match reading.value_or(3) {
        None => unsupported("TDR Level", "GPU"),
        Some(v) => finding_with(
            "TDR Level",
            "GPU",
            CheckStatus::Info,
            numbered("TDR level: ", v as u64),
        ),
    }
}

/// How long the system waits for a graphics driver before it recovers it. Where
/// the value cannot be read, 2 stands for it.
pub open spec fn tdr_delay_finding(reading: Reading) -> CheckResultView {
    match reading_or(reading, 2) {
        None => unsupported_of("TDR Delay"@, "GPU"@),
        Some(v) => finding_of(
            "TDR Delay"@,
            "GPU"@,
            CheckStatus::Info,
            "TDR delay: "@ + decimal(v as nat) + " seconds"@,
        ),
    }
}

/// Judges what was read of the value as `tdr_delay_finding` says.
pub fn check_tdr_delay(reading: Reading) -> (r: CheckResult)
    ensures
        r@ == tdr_delay_finding(reading),
{
    match reading.value_or(2) {
        None => unsupported("TDR Delay", "GPU"),
        Some(v) => finding_with(
            "TDR Delay",
            "GPU",
            CheckStatus::Info,
            labelled_number("TDR delay: ", v as u64, " seconds"),
        ),
    }
}

/// Whether background game recording is off. Where the value cannot be read, 0
/// stands for it.
pub open spec fn gamedvr_finding(reading: Reading) -> CheckResultView {
    match reading_or(reading, 0) {
        None => unsupported_of("Game DVR"@, "GPU"@),
        Some(v) => finding_of(
            "Game DVR"@,
            "GPU"@,
            if v == 0 {
                CheckStatus::Okay
            } else {
                CheckStatus::Warn
            },
            "Game DVR disabled: "@ + truth(v == 0),
        ),
    }
}

/// Judges what was read of the value as `gamedvr_finding` says.
pub fn check_gamedvr(reading: Reading) -> (r: CheckResult)
    ensures
        r@ == gamedvr_finding(reading),
{
    match reading.value_or(0) {
        None => unsupported("Game DVR", "GPU"),
        Some(v) => finding_with(
            "Game DVR",
            "GPU",
            if v == 0 {
                CheckStatus::Okay
            } else {
                CheckStatus::Warn
            },
            joined("Game DVR disabled: ", truth_text(v == 0)),
        ),
    }
}

/// The findings of the graphics probes, in their fixed order.
pub open spec fn gpu_findings(readings: GpuReadings) -> Seq<CheckResultView> {
    seq![
        hags_finding(readings.hags),
        tdr_level_finding(readings.tdr_level),
        tdr_delay_finding(readings.tdr_delay),
        gamedvr_finding(readings.gamedvr),
        note_of("Multi-Plane Overlay"@, "GPU"@, "MPO requires detailed registry check"@),
        note_of("Fullscreen Optimizations"@, "GPU"@, "FSO status per-application"@),
        note_of("Desktop Window Manager"@, "GPU"@, "DWM always enabled on Windows 10+"@),
        note_of(
            "NVIDIA Multi-threaded Optimization"@,
            "GPU"@,
            "NVIDIA scheduling requires driver detection"@,
        ),
        note_of("AMD Anti-Lag"@, "GPU"@, "AMD prerender requires driver detection"@),
        note_of("Resizable BAR"@, "GPU"@, "ReBAR requires PCIe enumeration"@),
        note_of("GPU Preemption Mode"@, "GPU"@, "GPU preemption requires driver API"@),
        note_of("Shader Cache"@, "GPU"@, "Shader cache location varies by driver"@),
        note_of("Anisotropic Filtering"@, "GPU"@, "Anisotropic filtering per-application"@),
        note_of(
            "Maximum Pre-rendered Frames"@,
            "GPU"@,
            "Pre-rendered frames requires driver detection"@,
        ),
        note_of("Texture Filtering Quality"@, "GPU"@, "Texture filtering per-application"@),
        note_of("VSync"@, "GPU"@, "VSync per-application"@),
        note_of("Triple Buffering"@, "GPU"@, "Triple buffering per-application"@),
        note_of("Frame Rate Limiter"@, "GPU"@, "Frame limiter per-application"@),
        note_of("Low Latency Mode"@, "GPU"@, "Low latency mode requires driver detection"@),
        note_of("GPU Power Management"@, "GPU"@, "GPU power management requires driver detection"@),
        note_of(
            "PCIe Link State Power Management"@,
            "GPU"@,
            "PCIe power state requires device enumeration"@,
        ),
        note_of("Display Color Depth"@, "GPU"@, "Color depth requires display enumeration"@),
        note_of("HDR Support"@, "GPU"@, "HDR requires display enumeration"@),
        note_of(
            "Variable Refresh Rate"@,
            "GPU"@,
            "VRR/FreeSync/G-Sync requires display enumeration"@,
        ),
        note_of("GPU Memory Clock"@, "GPU"@, "Memory clock requires GPU monitoring"@),
        note_of("GPU Core Clock"@, "GPU"@, "Core clock requires GPU monitoring"@),
        note_of("GPU Voltage"@, "GPU"@, "Voltage requires GPU monitoring"@),
        note_of("WDDM Version"@, "GPU"@, "WDDM version requires driver detection"@),
        note_of("DirectX Feature Level"@, "GPU"@, "DirectX level requires GPU detection"@),
        note_of("Vulkan Support"@, "GPU"@, "Vulkan requires runtime detection"@),
        note_of("OpenGL ICD"@, "GPU"@, "OpenGL ICD requires driver detection"@),
        note_of("Compute Shader Support"@, "GPU"@, "Compute shader requires GPU detection"@),
        note_of("Ray Tracing Support"@, "GPU"@, "Ray tracing requires GPU detection"@),
        note_of("DLSS/FSR Support"@, "GPU"@, "DLSS/FSR requires GPU detection"@),
        note_of("GPU Scheduled Priority"@, "GPU"@, "GPU priority requires process enumeration"@),
        note_of("Display Mode"@, "GPU"@, "Display mode requires enumeration"@),
    ]
}

/// Runs the graphics probes on what was read of the configuration store.
pub fn run_checks(_config: &Config, readings: &GpuReadings) -> (out: Vec<CheckResult>)
    ensures
        out.deep_view() == gpu_findings(*readings),
        out.len() == 36,
{
    let mut out: Vec<CheckResult> = Vec::new();
    proof {
        assert(out.deep_view() =~= Seq::<CheckResultView>::empty());
    }
    push_finding(&mut out, check_hags(readings.hags));
    push_finding(&mut out, check_tdr_level(readings.tdr_level));
    push_finding(&mut out, check_tdr_delay(readings.tdr_delay));
    push_finding(&mut out, check_gamedvr(readings.gamedvr));
    push_finding(
        &mut out,
        note("Multi-Plane Overlay", "GPU", "MPO requires detailed registry check"),
    );
    push_finding(&mut out, note("Fullscreen Optimizations", "GPU", "FSO status per-application"));
    push_finding(
        &mut out,
        note("Desktop Window Manager", "GPU", "DWM always enabled on Windows 10+"),
    );
    push_finding(
        &mut out,
        note(
            "NVIDIA Multi-threaded Optimization",
            "GPU",
            "NVIDIA scheduling requires driver detection",
        ),
    );
    push_finding(&mut out, note("AMD Anti-Lag", "GPU", "AMD prerender requires driver detection"));
    push_finding(&mut out, note("Resizable BAR", "GPU", "ReBAR requires PCIe enumeration"));
    push_finding(
        &mut out,
        note("GPU Preemption Mode", "GPU", "GPU preemption requires driver API"),
    );
    push_finding(&mut out, note("Shader Cache", "GPU", "Shader cache location varies by driver"));
    push_finding(
        &mut out,
        note("Anisotropic Filtering", "GPU", "Anisotropic filtering per-application"),
    );
    push_finding(
        &mut out,
        note("Maximum Pre-rendered Frames", "GPU", "Pre-rendered frames requires driver detection"),
    );
    push_finding(
        &mut out,
        note("Texture Filtering Quality", "GPU", "Texture filtering per-application"),
    );
    push_finding(&mut out, note("VSync", "GPU", "VSync per-application"));
    push_finding(&mut out, note("Triple Buffering", "GPU", "Triple buffering per-application"));
    push_finding(&mut out, note("Frame Rate Limiter", "GPU", "Frame limiter per-application"));
    push_finding(
        &mut out,
        note("Low Latency Mode", "GPU", "Low latency mode requires driver detection"),
    );
    push_finding(
        &mut out,
        note("GPU Power Management", "GPU", "GPU power management requires driver detection"),
    );
    push_finding(
        &mut out,
        note(
            "PCIe Link State Power Management",
            "GPU",
            "PCIe power state requires device enumeration",
        ),
    );
    push_finding(
        &mut out,
        note("Display Color Depth", "GPU", "Color depth requires display enumeration"),
    );
    push_finding(&mut out, note("HDR Support", "GPU", "HDR requires display enumeration"));
    push_finding(
        &mut out,
        note("Variable Refresh Rate", "GPU", "VRR/FreeSync/G-Sync requires display enumeration"),
    );
    push_finding(&mut out, note("GPU Memory Clock", "GPU", "Memory clock requires GPU monitoring"));
    push_finding(&mut out, note("GPU Core Clock", "GPU", "Core clock requires GPU monitoring"));
    push_finding(&mut out, note("GPU Voltage", "GPU", "Voltage requires GPU monitoring"));
    push_finding(&mut out, note("WDDM Version", "GPU", "WDDM version requires driver detection"));
    push_finding(
        &mut out,
        note("DirectX Feature Level", "GPU", "DirectX level requires GPU detection"),
    );
    push_finding(&mut out, note("Vulkan Support", "GPU", "Vulkan requires runtime detection"));
    push_finding(&mut out, note("OpenGL ICD", "GPU", "OpenGL ICD requires driver detection"));
    push_finding(
        &mut out,
        note("Compute Shader Support", "GPU", "Compute shader requires GPU detection"),
    );
    push_finding(
        &mut out,
        note("Ray Tracing Support", "GPU", "Ray tracing requires GPU detection"),
    );
    push_finding(&mut out, note("DLSS/FSR Support", "GPU", "DLSS/FSR requires GPU detection"));
    push_finding(
        &mut out,
        note("GPU Scheduled Priority", "GPU", "GPU priority requires process enumeration"),
    );
    push_finding(&mut out, note("Display Mode", "GPU", "Display mode requires enumeration"));
    out
}

} // verus!
