//! The thresholds that every probe receives.

use vstd::prelude::*;

verus! {

/// Thresholds against which probes judge what they measure. The value is
/// made once and handed to each probe; no probe looks it up elsewhere.
///
/// Latencies and usage shares are held in thousandths, so that 1.5 reads
/// 1500 and 90 percent reads 90000. Temperatures are whole degrees.
#[derive(Debug, Clone, Copy, PartialEq, Eq, Structural)]
pub struct Config {
    pub dpc_warn: u32,
    pub dpc_bad: u32,
    pub temp_warn: i32,
    pub temp_crit: i32,
    pub cpu_usage_warn: u32,
    pub memory_usage_warn: u32,
    pub disk_usage_warn: u32,
}

/// The thresholds that apply where the caller sets none.
pub open spec fn default_config() -> Config {
    Config {
        dpc_warn: 1500,
        dpc_bad: 3000,
        temp_warn: 80,
        temp_crit: 90,
        cpu_usage_warn: 90000,
        memory_usage_warn: 90000,
        disk_usage_warn: 85000,
    }
}

impl Config {
    /// The thresholds that apply where the caller sets none.
    pub fn new() -> (c: Self)
        ensures
            c == default_config(),
    {
        Config {
            dpc_warn: 1500,
            dpc_bad: 3000,
            temp_warn: 80,
            temp_crit: 90,
            cpu_usage_warn: 90000,
            memory_usage_warn: 90000,
            disk_usage_warn: 85000,
        }
    }
}

impl Default for Config {
    fn default() -> (c: Self)
        ensures
            c == default_config(),
    {
        Config::new()
    }
}

} // verus!
