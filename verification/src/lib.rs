//! An audit engine for the configuration of a machine.
//!
//! Probes look at one category of the system each and hand in findings. The
//! orchestrator in [`checks`] runs every category of its catalogue and merges
//! what comes back into one report, in catalogue order whatever the order of
//! arrival. The report and the score that its issues leave are in [`types`];
//! [`export`] renders a report as text.
//!
//! Changes to the configuration store go through [`fixes`]: behind the
//! privilege gate of [`utils::privileges`], the value that is there is
//! backed up before the new one is written, and a change can be rolled back
//! from its backup. The library decides and never touches the machine: the
//! caller reads, writes and stores, and tells the library what came of it.
//! [`utils::registry`] reads what the platform reported of those calls, and
//! [`hardware`] puts the inventory of the machine together from what the
//! platform said of it.

pub mod checks;
pub mod config;
pub mod error;
pub mod export;
pub mod fixes;
pub mod hardware;
pub mod text;
pub mod types;
pub mod utils;
