//! The memory category: 25 subjects are named, none is measured yet.

use crate::checks::{numbered_notes, numbered_notes_of};
use crate::config::Config;
use crate::types::{CheckResult, CheckResultView};
use vstd::prelude::*;

verus! {

/// The findings of the memory category: one note for each of its 25 subjects.
pub open spec fn memory_findings() -> Seq<CheckResultView> {
    numbered_notes_of(
        "Memory"@,
        "Memory Check "@,
        "Memory checks require detailed implementation"@,
        25,
    )
}

/// Names the subjects of the memory category.
pub fn run_checks(_config: &Config) -> (out: Vec<CheckResult>)
    ensures
        out.deep_view() == memory_findings(),
        out.len() == 25,
{
    numbered_notes(
        "Memory",
        "Memory Check ",
        "Memory checks require detailed implementation",
        25,
    )
}

} // verus!
