//! The memory of the machine, in bytes.

use vstd::prelude::*;

verus! {

/// Main memory and swap space, in bytes.
#[derive(Debug, Clone, Copy, PartialEq, Eq, Structural)]
pub struct MemoryInfo {
    pub total: u64,
    pub available: u64,
    pub used: u64,
    pub swap_total: u64,
    pub swap_used: u64,
}

} // verus!
