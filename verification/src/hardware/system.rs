//! The operating system, from what the platform says of itself.

use vstd::prelude::*;

verus! {

/// What the platform says of itself. It may keep any of the names to
/// itself.
#[derive(Debug, Clone)]
pub struct SystemReport {
    pub name: Option<String>,
    pub os_version: Option<String>,
    pub kernel_version: Option<String>,
    pub host_name: Option<String>,
    pub uptime: u64,
}

/// A `SystemReport` as contracts see it, with texts as sequences of characters.
pub struct SystemReportView {
    pub name: Option<Seq<char>>,
    pub os_version: Option<Seq<char>>,
    pub kernel_version: Option<Seq<char>>,
    pub host_name: Option<Seq<char>>,
    pub uptime: u64,
}

impl View for SystemReport {
    type V = SystemReportView;

    open spec fn view(&self) -> SystemReportView {
        SystemReportView {
            name: self.name.deep_view(),
            os_version: self.os_version.deep_view(),
            kernel_version: self.kernel_version.deep_view(),
            host_name: self.host_name.deep_view(),
            uptime: self.uptime,
        }
    }
}

/// The operating system. The uptime is in seconds.
#[derive(Debug, Clone)]
pub struct SystemInfo {
    pub os_name: String,
    pub os_version: String,
    pub kernel_version: String,
    pub hostname: String,
    pub uptime: u64,
}

/// A `SystemInfo` as contracts see it, with texts as sequences of characters.
pub struct SystemInfoView {
    pub os_name: Seq<char>,
    pub os_version: Seq<char>,
    pub kernel_version: Seq<char>,
    pub hostname: Seq<char>,
    pub uptime: u64,
}

impl View for SystemInfo {
    type V = SystemInfoView;

    open spec fn view(&self) -> SystemInfoView {
        SystemInfoView {
            os_name: self.os_name@,
            os_version: self.os_version@,
            kernel_version: self.kernel_version@,
            hostname: self.hostname@,
            uptime: self.uptime,
        }
    }
}

/// The name that was told, and "Unknown" where none was.
pub open spec fn told_or_unknown(name: Option<Seq<char>>) -> Seq<char> {
    match name {
        Some(name) => name,
        None => "Unknown"@,
    }
}

/// The operating system as the report describes it.
pub open spec fn system_info(report: SystemReportView) -> SystemInfoView {
    SystemInfoView {
        os_name: told_or_unknown(report.name),
        os_version: told_or_unknown(report.os_version),
        kernel_version: told_or_unknown(report.kernel_version),
        hostname: told_or_unknown(report.host_name),
        uptime: report.uptime,
    }
}

/// The name that was told, and "Unknown" where none was.
fn name_or_unknown(name: Option<String>) -> (text: String)
    ensures
        text@ == told_or_unknown(name.deep_view()),
{
    match name {
        Some(name) => name,
        None => "Unknown".to_owned(),
    }
}

/// Describes the operating system from what the platform says of itself.
pub fn detect(report: SystemReport) -> (info: SystemInfo)
    ensures
        info@ == system_info(report@),
{
    SystemInfo {
        os_name: name_or_unknown(report.name),
        os_version: name_or_unknown(report.os_version),
        kernel_version: name_or_unknown(report.kernel_version),
        hostname: name_or_unknown(report.host_name),
        uptime: report.uptime,
    }
}

} // verus!
