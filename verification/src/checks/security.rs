//! The security category: 15 subjects are named, none is measured yet.

use crate::checks::{numbered_notes, numbered_notes_of};
use crate::config::Config;
use crate::types::{CheckResult, CheckResultView};
use vstd::prelude::*;

verus! {

/// The findings of the security category: one note for each of its 15 subjects.
pub open spec fn security_findings() -> Seq<CheckResultView> {
    numbered_notes_of(
        "Security"@,
        "Security Check "@,
        "Security checks require detailed implementation"@,
        15,
    )
}

/// Names the subjects of the security category.
pub fn run_checks(_config: &Config) -> (out: Vec<CheckResult>)
    ensures
        out.deep_view() == security_findings(),
        out.len() == 15,
{
    numbered_notes(
        "Security",
        "Security Check ",
        "Security checks require detailed implementation",
        15,
    )
}

} // verus!
