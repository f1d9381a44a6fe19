//! The graphics cards, from what the vendor's management library says of
//! its devices.

use vstd::prelude::*;

verus! {

/// What the management library says of one device that it could open.
#[derive(Debug, Clone)]
pub struct NvidiaDevice {
    pub name: Option<String>,
    pub memory_total: Option<u64>,
}

/// A `NvidiaDevice` as contracts see it, with texts as sequences of characters.
pub struct NvidiaDeviceView {
    pub name: Option<Seq<char>>,
    pub memory_total: Option<u64>,
}

impl DeepView for NvidiaDevice {
    type V = NvidiaDeviceView;

    open spec fn deep_view(&self) -> NvidiaDeviceView {
        NvidiaDeviceView { name: self.name.deep_view(), memory_total: self.memory_total }
    }
}

/// One graphics card. The memory is in bytes.
#[derive(Debug, Clone)]
pub struct GpuInfo {
    pub name: String,
    pub vendor: String,
    pub memory: u64,
    pub driver_version: String,
}

/// A `GpuInfo` as contracts see it, with texts as sequences of characters.
pub struct GpuInfoView {
    pub name: Seq<char>,
    pub vendor: Seq<char>,
    pub memory: u64,
    pub driver_version: Seq<char>,
}

impl View for GpuInfo {
    type V = GpuInfoView;

    open spec fn view(&self) -> GpuInfoView {
        GpuInfoView {
            name: self.name@,
            vendor: self.vendor@,
            memory: self.memory,
            driver_version: self.driver_version@,
        }
    }
}

impl DeepView for GpuInfo {
    type V = GpuInfoView;

    open spec fn deep_view(&self) -> GpuInfoView {
        self@
    }
}

/// The card that stands for a device: its name and memory where the
/// library told them, and the version of the driver where it told that.
pub open spec fn nvidia_gpu(device: NvidiaDeviceView, driver: Option<Seq<char>>) -> GpuInfoView {
    GpuInfoView {
        name: match device.name {
            Some(name) => name,
            None => "Unknown NVIDIA GPU"@,
        },
        vendor: "NVIDIA"@,
        memory: match device.memory_total {
            Some(total) => total,
            None => 0,
        },
        driver_version: match driver {
            Some(version) => version,
            None => "Unknown"@,
        },
    }
}

/// The card that is listed where no device is known.
pub open spec fn unknown_gpu() -> GpuInfoView {
    GpuInfoView { name: "Unknown GPU"@, vendor: "Unknown"@, memory: 0, driver_version: "Unknown"@ }
}

/// The cards of a machine: one for each device, in order, and the unknown
/// card alone where there is no device.
pub open spec fn gpu_list(devices: Seq<NvidiaDeviceView>, driver: Option<Seq<char>>) -> Seq<
    GpuInfoView,
> {
    if devices.len() == 0 {
        seq![unknown_gpu()]
    } else {
        devices.map_values(|d: NvidiaDeviceView| nvidia_gpu(d, driver))
    }
}

/// Lists the graphics cards from the devices that the management library
/// could open and the driver version that it gave. The list is never
/// empty.
pub fn detect(devices: &Vec<NvidiaDevice>, driver: &Option<String>) -> (gpus: Vec<GpuInfo>)
    ensures
        gpus.deep_view() == gpu_list(devices.deep_view(), driver.deep_view()),
        gpus.len() >= 1,
{
    let ghost all = devices.deep_view();
    let ghost version = driver.deep_view();
    let mut gpus: Vec<GpuInfo> = Vec::new();
    let mut i: usize = 0;
    while i < devices.len()
        invariant
            i <= devices.len(),
            all == devices.deep_view(),
            version == driver.deep_view(),
            gpus.len() == i,
            gpus.deep_view() == all.take(i as int).map_values(
                |d: NvidiaDeviceView| nvidia_gpu(d, version),
            ),
        decreases devices.len() - i,
    {
        let device = &devices[i];
        let name = match &device.name {
            Some(name) => name.clone(),
            None => "Unknown NVIDIA GPU".to_owned(),
        };
        let memory: u64 = match device.memory_total {
            Some(total) => total,
            None => 0,
        };
        let driver_version = match driver {
            Some(v) => v.clone(),
            None => "Unknown".to_owned(),
        };
        let ghost before = gpus.deep_view();
        gpus.push(GpuInfo { name, vendor: "NVIDIA".to_owned(), memory, driver_version });
        proof {
            assert(gpus.deep_view() =~= before.push(nvidia_gpu(device.deep_view(), version)));
        }
        i = i + 1;
    }
    if gpus.len() == 0 {
        gpus.push(
            GpuInfo {
                name: "Unknown GPU".to_owned(),
                vendor: "Unknown".to_owned(),
                memory: 0,
                driver_version: "Unknown".to_owned(),
            },
        );
    }
    gpus
}

} // verus!
