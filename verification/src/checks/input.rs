//! The input category: 20 subjects are named, none is measured yet.

use crate::checks::{numbered_notes, numbered_notes_of};
use crate::config::Config;
use crate::types::{CheckResult, CheckResultView};
use vstd::prelude::*;

verus! {

/// The findings of the input category: one note for each of its 20 subjects.
pub open spec fn input_findings() -> Seq<CheckResultView> {
    numbered_notes_of(
        "Input"@,
        "Input Check "@,
        "Input checks require detailed implementation"@,
        20,
    )
}

/// Names the subjects of the input category.
pub fn run_checks(_config: &Config) -> (out: Vec<CheckResult>)
    ensures
        out.deep_view() == input_findings(),
        out.len() == 20,
{
    numbered_notes(
        "Input",
        "Input Check ",
        "Input checks require detailed implementation",
        20,
    )
}

} // verus!
