//! The audio category: 20 subjects are named, none is measured yet.

use crate::checks::{numbered_notes, numbered_notes_of};
use crate::config::Config;
use crate::types::{CheckResult, CheckResultView};
use vstd::prelude::*;

verus! {

/// The findings of the audio category: one note for each of its 20 subjects.
pub open spec fn audio_findings() -> Seq<CheckResultView> {
    numbered_notes_of(
        "Audio"@,
        "Audio Check "@,
        "Audio checks require detailed implementation"@,
        20,
    )
}

/// Names the subjects of the audio category.
pub fn run_checks(_config: &Config) -> (out: Vec<CheckResult>)
    ensures
        out.deep_view() == audio_findings(),
        out.len() == 20,
{
    numbered_notes(
        "Audio",
        "Audio Check ",
        "Audio checks require detailed implementation",
        20,
    )
}

} // verus!
