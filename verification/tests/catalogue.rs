use apex::checks::cpu::CpuReadings;
use apex::checks::gpu::GpuReadings;
use apex::checks::latency::LatencyReadings;
use apex::checks::{cpu, gpu, latency, Reading};
use apex::config::Config;
use apex::types::{CheckResult, CheckStatus};

fn assert_notes(found: &[CheckResult], category: &str, expected: &[(&str, &str)]) {
    assert_eq!(found.len(), expected.len());
    for (c, (name, detail)) in found.iter().zip(expected) {
        assert_eq!(c.name, *name);
        assert_eq!(c.category, category);
        assert_eq!(c.status, CheckStatus::Info);
        assert_eq!(c.detail, *detail);
    }
}

#[test]
fn cpu_findings_without_a_configuration_store() {
    let r = Reading::Unsupported;
    let readings = CpuReadings { vbs: r, hvci: r, mitigations: r, foreground_separation: r };
    let found = cpu::run_checks(&Config::new(), &readings);
    let expected = [
        ("Power Plan", "Power plan requires powercfg enumeration"),
        ("C-States", "C-States require power configuration check"),
        ("Core Parking", "Core parking requires power configuration check"),
        ("Turbo Boost", "Boost mode requires power configuration check"),
        ("Minimum Processor State", "Min throttle requires power configuration check"),
        ("Maximum Processor State", "Max throttle requires power configuration check"),
        ("Virtualization Based Security", "Windows-only check"),
        ("Hypervisor-Enforced Code Integrity", "Windows-only check"),
        ("CPU Mitigations", "Windows-only check"),
        ("Heterogeneous Scheduler", "Heterogeneous scheduler requires CPU detection"),
        ("Simultaneous Multithreading", "SMT status requires CPU enumeration"),
        ("Intel Speed Shift", "Speed Shift requires Intel CPU detection"),
        ("Precision Boost Overdrive", "PBO requires AMD CPU detection"),
        ("Per-Core P-States", "Per-core P-states require CPU enumeration"),
        ("Thermal Velocity Boost", "TVB requires Intel CPU detection"),
        ("Collaborative Processor Performance Control", "CPPC requires power configuration check"),
        ("CPU Cache Prefetcher", "Cache prefetcher requires MSR access"),
        ("Intel Thread Director", "Thread Director requires Intel 12th gen+ detection"),
        ("Efficiency Core Parking", "E-core parking requires heterogeneous CPU detection"),
        ("Performance Core Priority", "P-core priority requires heterogeneous CPU detection"),
        ("AMD Curve Optimizer", "Curve Optimizer requires AMD Ryzen 5000+ detection"),
        ("Process Affinity", "Process affinity requires process enumeration"),
        ("Scheduling Class", "Scheduling class requires process enumeration"),
        ("Thread Quantum", "Thread quantum requires system configuration check"),
        ("Priority Boost", "Priority boost requires process enumeration"),
        (
            "Background Process Throttling",
            "Background throttling requires power configuration check",
        ),
        ("Foreground/Background Separation", "Windows-only check"),
        ("CPU Sets", "CPU sets require process enumeration"),
        ("Idle States", "Idle states require power configuration check"),
        ("Power Limits", "Power limits require CPU monitoring"),
        ("Frequency Scaling", "Frequency scaling requires power configuration check"),
    ];
    assert_notes(&found, "CPU", &expected);
}

#[test]
fn gpu_findings_without_a_configuration_store() {
    let r = Reading::Unsupported;
    let readings = GpuReadings { hags: r, tdr_level: r, tdr_delay: r, gamedvr: r };
    let found = gpu::run_checks(&Config::new(), &readings);
    let expected = [
        ("Hardware Accelerated GPU Scheduling", "Windows-only check"),
        ("TDR Level", "Windows-only check"),
        ("TDR Delay", "Windows-only check"),
        ("Game DVR", "Windows-only check"),
        ("Multi-Plane Overlay", "MPO requires detailed registry check"),
        ("Fullscreen Optimizations", "FSO status per-application"),
        ("Desktop Window Manager", "DWM always enabled on Windows 10+"),
        ("NVIDIA Multi-threaded Optimization", "NVIDIA scheduling requires driver detection"),
        ("AMD Anti-Lag", "AMD prerender requires driver detection"),
        ("Resizable BAR", "ReBAR requires PCIe enumeration"),
        ("GPU Preemption Mode", "GPU preemption requires driver API"),
        ("Shader Cache", "Shader cache location varies by driver"),
        ("Anisotropic Filtering", "Anisotropic filtering per-application"),
        ("Maximum Pre-rendered Frames", "Pre-rendered frames requires driver detection"),
        ("Texture Filtering Quality", "Texture filtering per-application"),
        ("VSync", "VSync per-application"),
        ("Triple Buffering", "Triple buffering per-application"),
        ("Frame Rate Limiter", "Frame limiter per-application"),
        ("Low Latency Mode", "Low latency mode requires driver detection"),
        ("GPU Power Management", "GPU power management requires driver detection"),
        ("PCIe Link State Power Management", "PCIe power state requires device enumeration"),
        ("Display Color Depth", "Color depth requires display enumeration"),
        ("HDR Support", "HDR requires display enumeration"),
        ("Variable Refresh Rate", "VRR/FreeSync/G-Sync requires display enumeration"),
        ("GPU Memory Clock", "Memory clock requires GPU monitoring"),
        ("GPU Core Clock", "Core clock requires GPU monitoring"),
        ("GPU Voltage", "Voltage requires GPU monitoring"),
        ("WDDM Version", "WDDM version requires driver detection"),
        ("DirectX Feature Level", "DirectX level requires GPU detection"),
        ("Vulkan Support", "Vulkan requires runtime detection"),
        ("OpenGL ICD", "OpenGL ICD requires driver detection"),
        ("Compute Shader Support", "Compute shader requires GPU detection"),
        ("Ray Tracing Support", "Ray tracing requires GPU detection"),
        ("DLSS/FSR Support", "DLSS/FSR requires GPU detection"),
        ("GPU Scheduled Priority", "GPU priority requires process enumeration"),
        ("Display Mode", "Display mode requires enumeration"),
    ];
    assert_notes(&found, "GPU", &expected);
}

#[test]
fn latency_findings_without_a_configuration_store() {
    let r = Reading::Unsupported;
    let readings = LatencyReadings {
        hpet: r,
        tsc_sync: r,
        dynamic_tick: r,
        mmcss_responsiveness: r,
        network_throttling: r,
        priority_separation: r,
        timer_coalescing: r,
    };
    let found = latency::run_checks(&Config::new(), &readings);
    let expected = [
        ("DPC Latency", "DPC latency measurement requires runtime monitoring"),
        ("HPET Status", "Windows-only check"),
        ("TSC Sync Policy", "Windows-only check"),
        ("Dynamic Tick", "Windows-only check"),
        ("MMCSS System Responsiveness", "Windows-only check"),
        ("Network Throttling", "Windows-only check"),
        ("Priority Separation", "Windows-only check"),
        ("GPU MSI-X Mode", "GPU MSI-X status requires device enumeration"),
        ("NIC MSI-X Mode", "NIC MSI-X status requires device enumeration"),
        ("GPU Interrupt Affinity", "GPU interrupt affinity requires device enumeration"),
        ("NIC Interrupt Affinity", "NIC interrupt affinity requires device enumeration"),
        ("Timer Coalescing", "Windows-only check"),
        ("SMI Detection", "SMI detection requires hardware monitoring"),
        ("x2APIC Mode", "x2APIC status requires CPU feature detection"),
        ("PCIe ASPM", "PCIe ASPM status requires device enumeration"),
        ("USB Controller Latency", "USB latency requires controller enumeration"),
        ("SATA Link Power Management", "SATA link power requires device enumeration"),
        ("Audio Endpoint Buffer", "Audio buffer size requires audio device enumeration"),
        ("DirectX Flip Model", "DirectX flip model requires runtime detection"),
        ("Kernel Timer Resolution", "Timer resolution requires NtQueryTimerResolution call"),
        ("CPU Idle Latency", "CPU idle latency requires power state monitoring"),
        ("Memory Controller Timing", "Memory timing requires SPD reading"),
        ("NVMe Queue Depth", "NVMe queue depth requires device enumeration"),
        ("Bluetooth Audio Latency", "Bluetooth latency requires device enumeration"),
        ("HID Polling Rate", "HID polling rate requires device enumeration"),
        ("Monitor Refresh Sync", "Monitor sync requires display enumeration"),
        ("GPU Preemption Granularity", "GPU preemption requires driver API"),
        ("Shader Cache", "Shader cache status requires driver enumeration"),
        ("Asset Streaming", "Asset streaming requires game detection"),
        ("Network Interrupt Coalescing", "Network coalescing requires adapter enumeration"),
        ("Storage I/O Priority", "Storage priority requires device enumeration"),
        ("Real-time Priority Processes", "Real-time priority requires process enumeration"),
        ("MMCSS Thread Priority", "MMCSS thread priority requires service enumeration"),
        ("Interrupt Steering", "Interrupt steering requires device enumeration"),
        ("Global Timer Resolution", "Global timer resolution requires system monitoring"),
    ];
    assert_notes(&found, "Latency", &expected);
}
