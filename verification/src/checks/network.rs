//! The network category: 35 subjects are named, none is measured yet.

use crate::checks::{numbered_notes, numbered_notes_of};
use crate::config::Config;
use crate::types::{CheckResult, CheckResultView};
use vstd::prelude::*;

verus! {

/// The findings of the network category: one note for each of its 35 subjects.
pub open spec fn network_findings() -> Seq<CheckResultView> {
    numbered_notes_of(
        "Network"@,
        "Network Check "@,
        "Network checks require detailed implementation"@,
        35,
    )
}

/// Names the subjects of the network category.
pub fn run_checks(_config: &Config) -> (out: Vec<CheckResult>)
    ensures
        out.deep_view() == network_findings(),
        out.len() == 35,
{
    numbered_notes(
        "Network",
        "Network Check ",
        "Network checks require detailed implementation",
        35,
    )
}

} // verus!
