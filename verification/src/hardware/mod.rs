//! The inventory of the machine: processor, graphics cards, memory, disks,
//! network interfaces and operating system. The caller asks the platform;
//! here the answers are put together and the gaps are filled.

pub mod cpu;
pub mod gpu;
pub mod memory;
pub mod network;
pub mod storage;
pub mod system;

use crate::hardware::cpu::{cpu_info, CpuInfo, CpuInfoView, LogicalCpu, LogicalCpuView};
use crate::hardware::gpu::{gpu_list, GpuInfo, GpuInfoView, NvidiaDevice, NvidiaDeviceView};
use crate::hardware::memory::MemoryInfo;
use crate::hardware::network::{NetworkInfo, NetworkInfoView};
use crate::hardware::storage::{StorageInfo, StorageInfoView};
use crate::hardware::system::{
    system_info, SystemInfo, SystemInfoView, SystemReport, SystemReportView,
};
use vstd::prelude::*;

verus! {

/// Everything that the platform said when it was asked for its hardware.
#[derive(Debug, Clone)]
pub struct PlatformReport {
    pub cpus: Vec<LogicalCpu>,
    pub physical_cores: Option<usize>,
    pub nvidia_devices: Vec<NvidiaDevice>,
    pub nvidia_driver: Option<String>,
    pub memory: MemoryInfo,
    pub storage: Vec<StorageInfo>,
    pub network: Vec<NetworkInfo>,
    pub system: SystemReport,
}

/// A `PlatformReport` as contracts see it, with texts as sequences of characters.
pub struct PlatformReportView {
    pub cpus: Seq<LogicalCpuView>,
    pub physical_cores: Option<usize>,
    pub nvidia_devices: Seq<NvidiaDeviceView>,
    pub nvidia_driver: Option<Seq<char>>,
    pub memory: MemoryInfo,
    pub storage: Seq<StorageInfoView>,
    pub network: Seq<NetworkInfoView>,
    pub system: SystemReportView,
}

impl View for PlatformReport {
    type V = PlatformReportView;

    open spec fn view(&self) -> PlatformReportView {
        PlatformReportView {
            cpus: self.cpus.deep_view(),
            physical_cores: self.physical_cores,
            nvidia_devices: self.nvidia_devices.deep_view(),
            nvidia_driver: self.nvidia_driver.deep_view(),
            memory: self.memory,
            storage: self.storage.deep_view(),
            network: self.network.deep_view(),
            system: self.system@,
        }
    }
}

/// The inventory of the machine.
#[derive(Debug, Clone)]
pub struct HardwareInfo {
    pub cpu: CpuInfo,
    pub gpu: Vec<GpuInfo>,
    pub memory: MemoryInfo,
    pub storage: Vec<StorageInfo>,
    pub network: Vec<NetworkInfo>,
    pub system: SystemInfo,
}

/// A `HardwareInfo` as contracts see it, with texts as sequences of characters.
pub struct HardwareInfoView {
    pub cpu: CpuInfoView,
    pub gpu: Seq<GpuInfoView>,
    pub memory: MemoryInfo,
    pub storage: Seq<StorageInfoView>,
    pub network: Seq<NetworkInfoView>,
    pub system: SystemInfoView,
}

impl View for HardwareInfo {
    type V = HardwareInfoView;

    open spec fn view(&self) -> HardwareInfoView {
        HardwareInfoView {
            cpu: self.cpu@,
            gpu: self.gpu.deep_view(),
            memory: self.memory,
            storage: self.storage.deep_view(),
            network: self.network.deep_view(),
            system: self.system@,
        }
    }
}

/// The inventory that a report of the platform comes to.
pub open spec fn hardware_info(report: PlatformReportView) -> HardwareInfoView {
    HardwareInfoView {
        cpu: cpu_info(report.cpus, report.physical_cores),
        gpu: gpu_list(report.nvidia_devices, report.nvidia_driver),
        memory: report.memory,
        storage: report.storage,
        network: report.network,
        system: system_info(report.system),
    }
}

impl HardwareInfo {
    /// Puts the inventory together from what the platform said. Memory,
    /// disks and interfaces are taken as they were told; processor,
    /// graphics cards and operating system are described with the gaps
    /// filled.
    pub fn detect(report: PlatformReport) -> (info: Self)
        ensures
            info@ == hardware_info(report@),
    {
        let cpu = cpu::detect(&report.cpus, report.physical_cores);
        let gpu = gpu::detect(&report.nvidia_devices, &report.nvidia_driver);
        let system = system::detect(report.system);
        HardwareInfo {
            cpu,
            gpu,
            memory: report.memory,
            storage: report.storage,
            network: report.network,
            system,
        }
    }
}

} // verus!
