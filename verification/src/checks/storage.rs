//! The storage category: 30 subjects are named, none is measured yet.

use crate::checks::{numbered_notes, numbered_notes_of};
use crate::config::Config;
use crate::types::{CheckResult, CheckResultView};
use vstd::prelude::*;

verus! {

/// The findings of the storage category: one note for each of its 30 subjects.
pub open spec fn storage_findings() -> Seq<CheckResultView> {
    numbered_notes_of(
        "Storage"@,
        "Storage Check "@,
        "Storage checks require detailed implementation"@,
        30,
    )
}

/// Names the subjects of the storage category.
pub fn run_checks(_config: &Config) -> (out: Vec<CheckResult>)
    ensures
        out.deep_view() == storage_findings(),
        out.len() == 30,
{
    numbered_notes(
        "Storage",
        "Storage Check ",
        "Storage checks require detailed implementation",
        30,
    )
}

} // verus!
