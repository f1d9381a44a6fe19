//! The processor, from what the platform says of its logical processors.

use vstd::prelude::*;

verus! {

/// What the platform says of one logical processor.
#[derive(Debug, Clone)]
pub struct LogicalCpu {
    pub brand: String,
    pub frequency: u64,
    pub vendor_id: String,
}

/// A `LogicalCpu` as contracts see it, with texts as sequences of characters.
pub struct LogicalCpuView {
    pub brand: Seq<char>,
    pub frequency: u64,
    pub vendor_id: Seq<char>,
}

impl DeepView for LogicalCpu {
    type V = LogicalCpuView;

    open spec fn deep_view(&self) -> LogicalCpuView {
        LogicalCpuView {
            brand: self.brand@,
            frequency: self.frequency,
            vendor_id: self.vendor_id@,
        }
    }
}

/// The processor of the machine. The frequency is in megahertz.
#[derive(Debug, Clone)]
pub struct CpuInfo {
    pub name: String,
    pub cores: usize,
    pub threads: usize,
    pub frequency: u64,
    pub vendor: String,
}

/// A `CpuInfo` as contracts see it, with texts as sequences of characters.
pub struct CpuInfoView {
    pub name: Seq<char>,
    pub cores: usize,
    pub threads: usize,
    pub frequency: u64,
    pub vendor: Seq<char>,
}

impl View for CpuInfo {
    type V = CpuInfoView;

    open spec fn view(&self) -> CpuInfoView {
        CpuInfoView {
            name: self.name@,
            cores: self.cores,
            threads: self.threads,
            frequency: self.frequency,
            vendor: self.vendor@,
        }
    }
}

/// The processor that the logical processors `cpus` belong to: name,
/// frequency and vendor are those of the first, the threads are their
/// number, and the cores are the physical cores that the platform counted.
/// What the platform does not say reads "Unknown" or 0.
pub open spec fn cpu_info(cpus: Seq<LogicalCpuView>, physical_cores: Option<usize>) -> CpuInfoView {
    CpuInfoView {
        name: if cpus.len() > 0 {
            cpus[0].brand
        } else {
            "Unknown"@
        },
        cores: match physical_cores {
            Some(n) => n,
            None => 0,
        },
        threads: cpus.len() as usize,
        frequency: if cpus.len() > 0 {
            cpus[0].frequency
        } else {
            0
        },
        vendor: if cpus.len() > 0 {
            cpus[0].vendor_id
        } else {
            "Unknown"@
        },
    }
}

/// Describes the processor from what the platform says of its logical
/// processors.
pub fn detect(cpus: &Vec<LogicalCpu>, physical_cores: Option<usize>) -> (info: CpuInfo)
    ensures
        info@ == cpu_info(cpus.deep_view(), physical_cores),
{
    let cores: usize = match physical_cores {
        Some(n) => n,
        None => 0,
    };
    if cpus.len() > 0 {
        CpuInfo {
            name: cpus[0].brand.clone(),
            cores,
            threads: cpus.len(),
            frequency: cpus[0].frequency,
            vendor: cpus[0].vendor_id.clone(),
        }
    } else {
        CpuInfo {
            name: "Unknown".to_owned(),
            cores,
            threads: 0,
            frequency: 0,
            vendor: "Unknown".to_owned(),
        }
    }
}

} // verus!
