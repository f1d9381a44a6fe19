//! The power category: 25 subjects are named, none is measured yet.

use crate::checks::{numbered_notes, numbered_notes_of};
use crate::config::Config;
use crate::types::{CheckResult, CheckResultView};
use vstd::prelude::*;

verus! {

/// The findings of the power category: one note for each of its 25 subjects.
pub open spec fn power_findings() -> Seq<CheckResultView> {
    numbered_notes_of(
        "Power"@,
        "Power Check "@,
        "Power checks require detailed implementation"@,
        25,
    )
}

/// Names the subjects of the power category.
pub fn run_checks(_config: &Config) -> (out: Vec<CheckResult>)
    ensures
        out.deep_view() == power_findings(),
        out.len() == 25,
{
    numbered_notes(
        "Power",
        "Power Check ",
        "Power checks require detailed implementation",
        25,
    )
}

} // verus!
