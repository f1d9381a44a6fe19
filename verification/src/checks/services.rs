//! The services category: 40 subjects are named, none is measured yet.

use crate::checks::{numbered_notes, numbered_notes_of};
use crate::config::Config;
use crate::types::{CheckResult, CheckResultView};
use vstd::prelude::*;

verus! {

/// The findings of the services category: one note for each of its 40 subjects.
pub open spec fn services_findings() -> Seq<CheckResultView> {
    numbered_notes_of(
        "Services"@,
        "Service Check "@,
        "Service checks require detailed implementation"@,
        40,
    )
}

/// Names the subjects of the services category.
pub fn run_checks(_config: &Config) -> (out: Vec<CheckResult>)
    ensures
        out.deep_view() == services_findings(),
        out.len() == 40,
{
    numbered_notes(
        "Services",
        "Service Check ",
        "Service checks require detailed implementation",
        40,
    )
}

} // verus!
