//! The orchestrator: the catalogue of probe categories, the batches that the
//! probes hand in, and the merge of all batches into one report.

pub mod audio;
pub mod cpu;
pub mod gpu;
pub mod input;
pub mod latency;
pub mod memory;
pub mod network;
pub mod platform;
pub mod power;
pub mod security;
pub mod services;
pub mod stability;
pub mod storage;
pub mod thermal;

use crate::checks::cpu::{cpu_findings, cpu_readings_from, CpuReadings};
use crate::checks::gpu::{gpu_findings, gpu_readings_from, GpuReadings};
use crate::checks::latency::{latency_findings, latency_readings_from, LatencyReadings};
use crate::config::Config;
use crate::text::{decimal, numbered};
use crate::types::{
    AuditResults, AuditResultsView, CheckResult, CheckResultView, CheckStatus, Warning,
    WarningView,
};
use rayon::iter::{IntoParallelIterator, ParallelIterator};
use vstd::prelude::*;

verus! {

/// The closed list of probe categories.
#[derive(Debug, Clone, Copy, PartialEq, Eq, Structural)]
pub enum Category {
    Latency,
    Cpu,
    Gpu,
    Memory,
    Storage,
    Network,
    Audio,
    Input,
    Stability,
    Services,
    Security,
    Platform,
    Thermal,
    Power,
}

/// The categories in catalogue order. A report lists its findings category
/// by category in this order.
pub open spec fn catalogue() -> Seq<Category> {
    seq![
        Category::Latency,
        Category::Cpu,
        Category::Gpu,
        Category::Memory,
        Category::Storage,
        Category::Network,
        Category::Audio,
        Category::Input,
        Category::Stability,
        Category::Services,
        Category::Security,
        Category::Platform,
        Category::Thermal,
        Category::Power,
    ]
}

/// The name under which the findings of a category are filed.
pub open spec fn category_name(c: Category) -> Seq<char> {
    match c {
        Category::Latency => "Latency"@,
        Category::Cpu => "CPU"@,
        Category::Gpu => "GPU"@,
        Category::Memory => "Memory"@,
        Category::Storage => "Storage"@,
        Category::Network => "Network"@,
        Category::Audio => "Audio"@,
        Category::Input => "Input"@,
        Category::Stability => "Stability"@,
        Category::Services => "Services"@,
        Category::Security => "Security"@,
        Category::Platform => "Platform"@,
        Category::Thermal => "Thermal"@,
        Category::Power => "Power"@,
    }
}

impl Category {
    /// The name under which the findings of this category are filed.
    pub fn name(&self) -> (s: &'static str)
        ensures
            s@ == category_name(*self),
    {
        match self {
            Category::Latency => "Latency",
            Category::Cpu => "CPU",
            Category::Gpu => "GPU",
            Category::Memory => "Memory",
            Category::Storage => "Storage",
            Category::Network => "Network",
            Category::Audio => "Audio",
            Category::Input => "Input",
            Category::Stability => "Stability",
            Category::Services => "Services",
            Category::Security => "Security",
            Category::Platform => "Platform",
            Category::Thermal => "Thermal",
            Category::Power => "Power",
        }
    }

    /// Every category, in catalogue order.
    pub fn all() -> (order: Vec<Category>)
        ensures
            order@ == catalogue(),
    {
        let mut order: Vec<Category> = Vec::new();
        order.push(Category::Latency);
        order.push(Category::Cpu);
        order.push(Category::Gpu);
        order.push(Category::Memory);
        order.push(Category::Storage);
        order.push(Category::Network);
        order.push(Category::Audio);
        order.push(Category::Input);
        order.push(Category::Stability);
        order.push(Category::Services);
        order.push(Category::Security);
        order.push(Category::Platform);
        order.push(Category::Thermal);
        order.push(Category::Power);
        order
    }
}

/// The two parts of the configuration store: one for the whole machine, one
/// for the user who runs the audit.
#[derive(Debug, Clone, Copy, PartialEq, Eq, Structural)]
pub enum Hive {
    Machine,
    User,
}

/// What the platform's configuration store says of one value.
#[derive(Debug, Clone, Copy, PartialEq, Eq, Structural)]
pub enum Reading {
    /// The platform has no such store.
    Unsupported,
    /// The store is there, the value could not be read.
    Missing,
    /// The value.
    Value(u32),
}

/// The number that a probe goes by: the value read, `fallback` where it could
/// not be read, and nothing where the platform has no store.
pub open spec fn reading_or(reading: Reading, fallback: u32) -> Option<u32> {
    match reading {
        Reading::Unsupported => None,
        Reading::Missing => Some(fallback),
        Reading::Value(v) => Some(v),
    }
}

impl Reading {
    /// The number that a probe goes by: the value read, `fallback` where it
    /// could not be read, and nothing where the platform has no store.
    pub fn value_or(self, fallback: u32) -> (r: Option<u32>)
        ensures
            r == reading_or(self, fallback),
    {
        match self {
            Reading::Unsupported => None,
            Reading::Missing => Some(fallback),
            Reading::Value(v) => Some(v),
        }
    }
}

/// The finding with the given parts.
pub open spec fn finding_of(
    name: Seq<char>,
    category: Seq<char>,
    status: CheckStatus,
    detail: Seq<char>,
) -> CheckResultView {
    CheckResultView { name, category, status, detail }
}

/// Builds the finding with the given parts.
pub fn finding(name: &str, category: &str, status: CheckStatus, detail: &str) -> (r: CheckResult)
    ensures
        r@ == finding_of(name@, category@, status, detail@),
{
    CheckResult {
        name: name.to_owned(),
        category: category.to_owned(),
        status,
        detail: detail.to_owned(),
    }
}

/// Builds the finding with the given parts, of which the detail was put
/// together by the caller.
pub fn finding_with(
    name: &str,
    category: &str,
    status: CheckStatus,
    detail: String,
) -> (r: CheckResult)
    ensures
        r@ == finding_of(name@, category@, status, detail@),
{
    CheckResult { name: name.to_owned(), category: category.to_owned(), status, detail }
}

/// The informational finding that names a subject and says why nothing was
/// measured.
pub open spec fn note_of(
    name: Seq<char>,
    category: Seq<char>,
    detail: Seq<char>,
) -> CheckResultView {
    finding_of(name, category, CheckStatus::Info, detail)
}

/// Builds the informational finding that names a subject and says why
/// nothing was measured.
pub fn note(name: &str, category: &str, detail: &str) -> (r: CheckResult)
    ensures
        r@ == note_of(name@, category@, detail@),
{
    finding(name, category, CheckStatus::Info, detail)
}

/// The informational finding of a probe on a platform without a
/// configuration store.
pub open spec fn unsupported_of(name: Seq<char>, category: Seq<char>) -> CheckResultView {
    note_of(name, category, "Windows-only check"@)
}

/// Builds the informational finding of a probe on a platform without a
/// configuration store.
pub fn unsupported(name: &str, category: &str) -> (r: CheckResult)
    ensures
        r@ == unsupported_of(name@, category@),
{
    note(name, category, "Windows-only check")
}

/// `count` notes of one category, named `prefix` and a number from 1 on, all
/// with the same detail.
pub open spec fn numbered_notes_of(
    category: Seq<char>,
    prefix: Seq<char>,
    detail: Seq<char>,
    count: nat,
) -> Seq<CheckResultView> {
    Seq::new(count, |i: int| note_of(prefix + decimal((i + 1) as nat), category, detail))
}

/// Builds `count` notes of one category, named `prefix` and a number from 1
/// on, all with the same detail.
pub fn numbered_notes(
    category: &str,
    prefix: &str,
    detail: &str,
    count: u32,
) -> (out: Vec<CheckResult>)
    ensures
        out.deep_view() == numbered_notes_of(category@, prefix@, detail@, count as nat),
        out.len() == count,
{
    let mut out: Vec<CheckResult> = Vec::new();
    let mut i: u32 = 0;
    while i < count
        invariant
            i <= count,
            out.len() == i,
            out.deep_view() == numbered_notes_of(category@, prefix@, detail@, i as nat),
        decreases count - i,
    {
        let name = numbered(prefix, (i + 1) as u64);
        let ghost before = out.deep_view();
        push_finding(
            &mut out,
            finding_with(name.as_str(), category, CheckStatus::Info, detail.to_owned()),
        );
        proof {
            let after = numbered_notes_of(category@, prefix@, detail@, (i + 1) as nat);
            assert(out.deep_view().len() == after.len());
            assert forall|k: int| 0 <= k < after.len() implies out.deep_view()[k] == after[k] by {
                if k < i {
                    assert(out.deep_view()[k] == before[k]);
                }
            }
            assert(out.deep_view() =~= after);
        }
        i = i + 1;
    }
    out
}

/// A copy of `check`.
pub fn copy_of(check: &CheckResult) -> (r: CheckResult)
    ensures
        r@ == check@,
{
    CheckResult {
        name: check.name.clone(),
        category: check.category.clone(),
        status: check.status,
        detail: check.detail.clone(),
    }
}

/// Appends `f` to `out`.
pub fn push_finding(out: &mut Vec<CheckResult>, f: CheckResult)
    ensures
        final(out).deep_view() == old(out).deep_view().push(f@),
{
    out.push(f);
}

/// How the probes of one category ended.
#[derive(Debug, Clone)]
pub enum ProbeOutcome {
    /// The probes ran; these are their findings, in order.
    Completed(Vec<CheckResult>),
    /// The category has no probes that measure anything yet; these findings
    /// only name what would be looked at.
    Unimplemented(Vec<CheckResult>),
    /// The probes broke off for the reason given.
    Failed(String),
}

/// A `ProbeOutcome` as contracts see it, with texts as sequences of characters.
pub enum ProbeOutcomeView {
    Completed(Seq<CheckResultView>),
    Unimplemented(Seq<CheckResultView>),
    Failed(Seq<char>),
}

impl DeepView for ProbeOutcome {
    type V = ProbeOutcomeView;

    open spec fn deep_view(&self) -> ProbeOutcomeView {
        match *self {
            ProbeOutcome::Completed(findings) => ProbeOutcomeView::Completed(findings.deep_view()),
            ProbeOutcome::Unimplemented(findings) => ProbeOutcomeView::Unimplemented(
                findings.deep_view(),
            ),
            ProbeOutcome::Failed(reason) => ProbeOutcomeView::Failed(reason@),
        }
    }
}

/// What one category hands to the merge, tagged with the category it is of.
#[derive(Debug, Clone)]
pub struct Batch {
    pub category: Category,
    pub outcome: ProbeOutcome,
}

/// A `Batch` as contracts see it, with texts as sequences of characters.
pub struct BatchView {
    pub category: Category,
    pub outcome: ProbeOutcomeView,
}

impl DeepView for Batch {
    type V = BatchView;

    open spec fn deep_view(&self) -> BatchView {
        BatchView { category: self.category, outcome: self.outcome.deep_view() }
    }
}

impl View for Batch {
    type V = BatchView;

    open spec fn view(&self) -> BatchView {
        self.deep_view()
    }
}

/// The one finding that stands for a category whose probes broke off.
pub open spec fn failure_finding(c: Category, reason: Seq<char>) -> CheckResultView {
    finding_of("Probe failure"@, category_name(c), CheckStatus::Bad, reason)
}

/// What a report says of a category without real probes.
pub const UNIMPLEMENTED_NOTICE: &'static str = "No probe of this category measures anything yet";

/// The remark that a report carries for a category without real probes.
pub open spec fn unimplemented_warning(c: Category) -> WarningView {
    WarningView { category: category_name(c), message: UNIMPLEMENTED_NOTICE@ }
}

/// The findings that one batch contributes: its own where the probes ran
/// or only named their subjects, one finding of failure where they broke off.
pub open spec fn batch_findings(b: BatchView) -> Seq<CheckResultView> {
    match b.outcome {
        ProbeOutcomeView::Completed(findings) => findings,
        ProbeOutcomeView::Unimplemented(findings) => findings,
        ProbeOutcomeView::Failed(reason) => seq![failure_finding(b.category, reason)],
    }
}

/// The warnings that one batch contributes.
pub open spec fn batch_warnings(b: BatchView) -> Seq<WarningView> {
    match b.outcome {
        ProbeOutcomeView::Unimplemented(_) => seq![unimplemented_warning(b.category)],
        _ => Seq::<WarningView>::empty(),
    }
}

/// The findings of category `c` among `batches`, in order of arrival.
pub open spec fn category_findings(batches: Seq<BatchView>, c: Category) -> Seq<CheckResultView>
    decreases batches.len(),
{
    if batches.len() == 0 {
        Seq::<CheckResultView>::empty()
    } else if batches.last().category == c {
        category_findings(batches.drop_last(), c) + batch_findings(batches.last())
    } else {
        category_findings(batches.drop_last(), c)
    }
}

/// The warnings of category `c` among `batches`, in order of arrival.
pub open spec fn category_warnings(batches: Seq<BatchView>, c: Category) -> Seq<WarningView>
    decreases batches.len(),
{
    if batches.len() == 0 {
        Seq::<WarningView>::empty()
    } else if batches.last().category == c {
        category_warnings(batches.drop_last(), c) + batch_warnings(batches.last())
    } else {
        category_warnings(batches.drop_last(), c)
    }
}

/// The findings of the first `upto` categories of the catalogue, category by
/// category in catalogue order.
pub open spec fn findings_up_to(batches: Seq<BatchView>, upto: nat) -> Seq<CheckResultView>
    decreases upto,
{
    if upto == 0 || upto > catalogue().len() {
        Seq::<CheckResultView>::empty()
    } else {
        findings_up_to(batches, (upto - 1) as nat) + category_findings(
            batches,
            catalogue()[upto - 1],
        )
    }
}

/// The warnings of the first `upto` categories of the catalogue, in catalogue
/// order.
pub open spec fn warnings_up_to(batches: Seq<BatchView>, upto: nat) -> Seq<WarningView>
    decreases upto,
{
    if upto == 0 || upto > catalogue().len() {
        Seq::<WarningView>::empty()
    } else {
        warnings_up_to(batches, (upto - 1) as nat) + category_warnings(
            batches,
            catalogue()[upto - 1],
        )
    }
}

/// The findings of all batches, category by category in catalogue order.
pub open spec fn merged_findings(batches: Seq<BatchView>) -> Seq<CheckResultView> {
    findings_up_to(batches, catalogue().len())
}

/// The warnings of all batches, in catalogue order.
pub open spec fn merged_warnings(batches: Seq<BatchView>) -> Seq<WarningView> {
    warnings_up_to(batches, catalogue().len())
}

/// Appends copies of `findings` to the findings of `report`, in order.
fn add_findings(report: &mut AuditResults, findings: &Vec<CheckResult>)
    requires
        old(report)@.check_count == old(report)@.checks.len(),
    ensures
        final(report)@.checks == old(report)@.checks + findings.deep_view(),
        final(report)@.check_count == final(report)@.checks.len(),
        final(report)@.issues == old(report)@.issues,
        final(report)@.warnings == old(report)@.warnings,
        final(report)@.score == old(report)@.score,
{
    let mut i: usize = 0;
    while i < findings.len()
        invariant
            i <= findings.len(),
            report@.checks == old(report)@.checks + findings.deep_view().take(i as int),
            report@.check_count == report@.checks.len(),
            report@.issues == old(report)@.issues,
            report@.warnings == old(report)@.warnings,
            report@.score == old(report)@.score,
        decreases findings.len() - i,
    {
        report.add_check(copy_of(&findings[i]));
        i = i + 1;
    }
}

/// Merges the batches of one run into a report. The report lists the
/// findings category by category in catalogue order, whatever the order in
/// which the batches arrived, and within a category in the order in which
/// its probes gave them. A category without real probes adds a warning; a
/// category that broke off adds one finding of failure, and the other
/// categories are merged as if nothing had happened. The merge raises no
/// issue, so the score of the report is 100.
pub fn merge(batches: &Vec<Batch>) -> (report: AuditResults)
    ensures
        report@.checks == merged_findings(batches.deep_view()),
        report@.warnings == merged_warnings(batches.deep_view()),
        report@.issues.len() == 0,
        report@.check_count == report@.checks.len(),
        report@.score == 100,
        report@.well_formed(),
{
    let ghost all = batches.deep_view();
    let order = Category::all();
    let mut report = AuditResults::new();
    let mut k: usize = 0;
    while k < order.len()
        invariant
            order@ == catalogue(),
            all == batches.deep_view(),
            k <= order.len(),
            report@.checks == findings_up_to(all, k as nat),
            report@.warnings == warnings_up_to(all, k as nat),
            report@.issues.len() == 0,
            report@.check_count == report@.checks.len(),
            report@.score == 100,
            report@.well_formed(),
        decreases order.len() - k,
    {
        let c = order[k];
        let mut j: usize = 0;
        while j < batches.len()
            invariant
                order@ == catalogue(),
                all == batches.deep_view(),
                k < order.len(),
                c == catalogue()[k as int],
                j <= batches.len(),
                report@.checks == findings_up_to(all, k as nat) + category_findings(
                    all.take(j as int),
                    c,
                ),
                report@.warnings == warnings_up_to(all, k as nat) + category_warnings(
                    all.take(j as int),
                    c,
                ),
                report@.issues.len() == 0,
                report@.check_count == report@.checks.len(),
                report@.score == 100,
                report@.well_formed(),
            decreases batches.len() - j,
        {
            let b = &batches[j];
            proof {
                assert(all.take(j + 1).drop_last() =~= all.take(j as int));
            }
            if b.category == c {
                match &b.outcome {
                    ProbeOutcome::Completed(findings) => {
                        add_findings(&mut report, findings);
                    },
                    ProbeOutcome::Unimplemented(findings) => {
                        add_findings(&mut report, findings);
                        report.add_warning(
                            Warning {
                                category: c.name().to_owned(),
                                message: UNIMPLEMENTED_NOTICE.to_owned(),
                            },
                        );
                    },
                    ProbeOutcome::Failed(reason) => {
                        report.add_check(
                            finding("Probe failure", c.name(), CheckStatus::Bad, reason.as_str()),
                        );
                    },
                }
            }
            j = j + 1;
        }
        proof {
            assert(all.take(j as int) =~= all);
        }
        k = k + 1;
    }
    report
}

/// No two of the batches are of one category.
pub open spec fn one_batch_per_category(batches: Seq<BatchView>) -> bool {
    forall|i: int, j: int|
        0 <= i < j < batches.len() ==> (#[trigger] batches[i]).category != (
        #[trigger] batches[j]).category
}

/// Among batches of which no two are of one category, the findings and
/// warnings of a category are those of its one batch, and there are none
/// where it has no batch.
pub proof fn category_findings_of_single_batch(batches: Seq<BatchView>, c: Category)
    requires
        one_batch_per_category(batches),
    ensures
        forall|i: int|
            0 <= i < batches.len() && (#[trigger] batches[i]).category == c ==> {
                &&& category_findings(batches, c) == batch_findings(batches[i])
                &&& category_warnings(batches, c) == batch_warnings(batches[i])
            },
        (forall|i: int| 0 <= i < batches.len() ==> (#[trigger] batches[i]).category != c) ==> {
            &&& category_findings(batches, c) == Seq::<CheckResultView>::empty()
            &&& category_warnings(batches, c) == Seq::<WarningView>::empty()
        },
    decreases batches.len(),
{
    if batches.len() > 0 {
        let front = batches.drop_last();
        let last = batches.last();
        assert(one_batch_per_category(front)) by {
            assert forall|i: int, j: int| 0 <= i < j < front.len() implies (
            #[trigger] front[i]).category != (#[trigger] front[j]).category by {
                assert(front[i] == batches[i]);
                assert(front[j] == batches[j]);
            }
        }
        category_findings_of_single_batch(front, c);
        if last.category == c {
            assert forall|i: int| 0 <= i < front.len() implies (#[trigger] front[i]).category
                != c by {
                assert(front[i] == batches[i]);
                assert(batches[batches.len() - 1] == last);
            }
            assert(category_findings(batches, c) =~= batch_findings(last));
            assert(category_warnings(batches, c) =~= batch_warnings(last));
            assert forall|i: int|
                0 <= i < batches.len() && (#[trigger] batches[i]).category == c implies {
                &&& category_findings(batches, c) == batch_findings(batches[i])
                &&& category_warnings(batches, c) == batch_warnings(batches[i])
            } by {
                if i < batches.len() - 1 {
                    assert(batches[batches.len() - 1] == last);
                    assert(false);
                }
            }
        } else {
            assert forall|i: int|
                0 <= i < batches.len() && (#[trigger] batches[i]).category == c implies {
                &&& category_findings(batches, c) == batch_findings(batches[i])
                &&& category_warnings(batches, c) == batch_warnings(batches[i])
            } by {
                assert(front[i] == batches[i]);
            }
            if forall|i: int| 0 <= i < batches.len() ==> (#[trigger] batches[i]).category != c {
                assert forall|i: int| 0 <= i < front.len() implies (#[trigger] front[i]).category
                    != c by {
                    assert(front[i] == batches[i]);
                }
            }
        }
    }
}

/// Where the same batches arrive in another order, no two of them are of
/// one category either.
pub proof fn one_batch_per_category_in_any_order(first: Seq<BatchView>, second: Seq<BatchView>)
    requires
        one_batch_per_category(first),
        first.to_multiset() == second.to_multiset(),
    ensures
        one_batch_per_category(second),
{
    first.to_multiset_ensures();
    second.to_multiset_ensures();
    assert(first.no_duplicates()) by {
        assert forall|i: int, j: int|
            0 <= i < first.len() && 0 <= j < first.len() && i != j implies first[i]
            != first[j] by {
            if i < j {
                assert(first[i].category != first[j].category);
            } else {
                assert(first[j].category != first[i].category);
            }
        }
    }
    first.lemma_multiset_has_no_duplicates();
    second.lemma_multiset_has_no_duplicates_conv();
    assert forall|i: int, j: int| 0 <= i < j < second.len() implies (#[trigger] second[i]).category
        != (#[trigger] second[j]).category by {
        assert(second.contains(second[i]));
        assert(second.contains(second[j]));
        assert(first.to_multiset().count(second[i]) > 0);
        assert(first.to_multiset().count(second[j]) > 0);
        assert(first.contains(second[i]));
        assert(first.contains(second[j]));
        let p = choose|p: int| 0 <= p < first.len() && first[p] == second[i];
        let q = choose|q: int| 0 <= q < first.len() && first[q] == second[j];
        assert(second[i] != second[j]);
        if p < q {
            assert(first[p].category != first[q].category);
        } else {
            assert(first[q].category != first[p].category);
        }
    }
}

/// For every stretch of the catalogue from its start, the findings and
/// warnings of that stretch do not depend on the order of arrival.
proof fn stretch_ignores_arrival_order(first: Seq<BatchView>, second: Seq<BatchView>, upto: nat)
    requires
        one_batch_per_category(first),
        first.to_multiset() == second.to_multiset(),
    ensures
        findings_up_to(first, upto) == findings_up_to(second, upto),
        warnings_up_to(first, upto) == warnings_up_to(second, upto),
    decreases upto,
{
    if upto != 0 && upto <= catalogue().len() {
        stretch_ignores_arrival_order(first, second, (upto - 1) as nat);
        let c = catalogue()[upto - 1];
        one_batch_per_category_in_any_order(first, second);
        category_findings_of_single_batch(first, c);
        category_findings_of_single_batch(second, c);
        first.to_multiset_ensures();
        second.to_multiset_ensures();
        if exists|i: int| 0 <= i < first.len() && (#[trigger] first[i]).category == c {
            let i = choose|i: int| 0 <= i < first.len() && (#[trigger] first[i]).category == c;
            assert(first.contains(first[i]));
            assert(second.to_multiset().count(first[i]) > 0);
            assert(second.contains(first[i]));
            let j = choose|j: int| 0 <= j < second.len() && second[j] == first[i];
            assert(second[j].category == c);
        } else {
            assert forall|j: int| 0 <= j < second.len() implies (#[trigger] second[j]).category
                != c by {
                assert(second.contains(second[j]));
                assert(first.to_multiset().count(second[j]) > 0);
                assert(first.contains(second[j]));
                let i = choose|i: int| 0 <= i < first.len() && first[i] == second[j];
                assert(first[i].category != c);
            }
        }
    }
}

/// The merge does not depend on the order of arrival: where the same
/// batches, of which no two are of one category, arrive in two orders, the
/// merged findings and warnings are the same, finding by finding.
pub proof fn merge_ignores_arrival_order(first: Seq<BatchView>, second: Seq<BatchView>)
    requires
        one_batch_per_category(first),
        first.to_multiset() == second.to_multiset(),
    ensures
        merged_findings(first) == merged_findings(second),
        merged_warnings(first) == merged_warnings(second),
{
    stretch_ignores_arrival_order(first, second, catalogue().len());
}

/// The place of a category in the catalogue, counted from 0.
pub open spec fn place(c: Category) -> nat {
    match c {
        Category::Latency => 0,
        Category::Cpu => 1,
        Category::Gpu => 2,
        Category::Memory => 3,
        Category::Storage => 4,
        Category::Network => 5,
        Category::Audio => 6,
        Category::Input => 7,
        Category::Stability => 8,
        Category::Services => 9,
        Category::Security => 10,
        Category::Platform => 11,
        Category::Thermal => 12,
        Category::Power => 13,
    }
}

/// The number of findings that the batches contribute, all together.
pub open spec fn total_findings(batches: Seq<BatchView>) -> nat
    decreases batches.len(),
{
    if batches.len() == 0 {
        0
    } else {
        total_findings(batches.drop_last()) + batch_findings(batches.last()).len()
    }
}

/// One more batch adds its findings to a stretch of the catalogue where its
/// category lies in the stretch, and nothing where it does not.
proof fn stretch_grows_by_batch(batches: Seq<BatchView>, upto: nat)
    requires
        batches.len() > 0,
        upto <= catalogue().len(),
    ensures
        findings_up_to(batches, upto).len() == findings_up_to(batches.drop_last(), upto).len() + (
        if place(batches.last().category) < upto {
            batch_findings(batches.last()).len()
        } else {
            0
        }),
    decreases upto,
{
    if upto > 0 {
        stretch_grows_by_batch(batches, (upto - 1) as nat);
        assert(catalogue()[place(batches.last().category) as int] == batches.last().category);
        assert(place(catalogue()[upto - 1]) == upto - 1);
    }
}

/// The merge loses nothing and adds nothing: the merged findings are as
/// many as the findings of all batches together.
pub proof fn merge_keeps_every_finding(batches: Seq<BatchView>)
    ensures
        merged_findings(batches).len() == total_findings(batches),
    decreases batches.len(),
{
    if batches.len() == 0 {
        reveal_with_fuel(findings_up_to, 15);
    } else {
        merge_keeps_every_finding(batches.drop_last());
        stretch_grows_by_batch(batches, catalogue().len());
    }
}

/// A category's findings depend on its own batches alone: where one batch
/// gives way to another of the same category, the findings and warnings of
/// every other category stay as they were.
pub proof fn other_categories_are_untouched(
    batches: Seq<BatchView>,
    at: int,
    other: BatchView,
    c: Category,
)
    requires
        0 <= at < batches.len(),
        other.category == batches[at].category,
        c != other.category,
    ensures
        category_findings(batches.update(at, other), c) == category_findings(batches, c),
        category_warnings(batches.update(at, other), c) == category_warnings(batches, c),
    decreases batches.len(),
{
    let changed = batches.update(at, other);
    if at == batches.len() - 1 {
        assert(changed.drop_last() =~= batches.drop_last());
    } else {
        assert(changed.drop_last() =~= batches.drop_last().update(at, other));
        other_categories_are_untouched(batches.drop_last(), at, other, c);
    }
}

/// Everything that was read of the configuration store for one run.
#[derive(Debug, Clone, Copy, PartialEq, Eq, Structural)]
pub struct Readings {
    pub latency: LatencyReadings,
    pub cpu: CpuReadings,
    pub gpu: GpuReadings,
}

/// Every reading of `readings` is what `read` gave for its place in the
/// store.
pub open spec fn readings_from<F: Fn(Hive, &'static str, &'static str) -> Reading>(
    read: &F,
    readings: Readings,
) -> bool {
    &&& latency_readings_from(read, readings.latency)
    &&& cpu_readings_from(read, readings.cpu)
    &&& gpu_readings_from(read, readings.gpu)
}

impl Readings {
    /// Has `read` read every value that the probes go by, each from its
    /// place in the store. On a platform without a store `read` answers
    /// `Reading::Unsupported` throughout.
    pub fn collect<F: Fn(Hive, &'static str, &'static str) -> Reading>(
        read: &F,
    ) -> (readings: Self)
        requires
            forall|hive: Hive, subkey: &'static str, value: &'static str|
                call_requires(read, (hive, subkey, value)),
        ensures
            readings_from(read, readings),
    {
        Readings {
            latency: LatencyReadings::collect(read),
            cpu: CpuReadings::collect(read),
            gpu: GpuReadings::collect(read),
        }
    }
}

/// How the probes of category `c` end on `readings`.
pub open spec fn probe_outcome(c: Category, readings: Readings) -> ProbeOutcomeView {
    match c {
        Category::Latency => ProbeOutcomeView::Completed(latency_findings(readings.latency)),
        Category::Cpu => ProbeOutcomeView::Completed(cpu_findings(readings.cpu)),
        Category::Gpu => ProbeOutcomeView::Completed(gpu_findings(readings.gpu)),
        Category::Memory => ProbeOutcomeView::Unimplemented(memory::memory_findings()),
        Category::Storage => ProbeOutcomeView::Unimplemented(storage::storage_findings()),
        Category::Network => ProbeOutcomeView::Unimplemented(network::network_findings()),
        Category::Audio => ProbeOutcomeView::Unimplemented(audio::audio_findings()),
        Category::Input => ProbeOutcomeView::Unimplemented(input::input_findings()),
        Category::Stability => ProbeOutcomeView::Unimplemented(stability::stability_findings()),
        Category::Services => ProbeOutcomeView::Unimplemented(services::services_findings()),
        Category::Security => ProbeOutcomeView::Unimplemented(security::security_findings()),
        Category::Platform => ProbeOutcomeView::Unimplemented(platform::platform_findings()),
        Category::Thermal => ProbeOutcomeView::Unimplemented(thermal::thermal_findings()),
        Category::Power => ProbeOutcomeView::Unimplemented(power::power_findings()),
    }
}

/// The batch that category `c` hands in on `readings`.
pub open spec fn probe_batch(c: Category, readings: Readings) -> BatchView {
    BatchView { category: c, outcome: probe_outcome(c, readings) }
}

/// Runs the probes of category `c` and tags what they found with `c`.
pub fn run_category(c: Category, config: &Config, readings: &Readings) -> (b: Batch)
    ensures
        b@ == probe_batch(c, *readings),
{
    let outcome = match c {
        Category::Latency => ProbeOutcome::Completed(
            latency::run_checks(config, &readings.latency),
        ),
        Category::Cpu => ProbeOutcome::Completed(cpu::run_checks(config, &readings.cpu)),
        Category::Gpu => ProbeOutcome::Completed(gpu::run_checks(config, &readings.gpu)),
        Category::Memory => ProbeOutcome::Unimplemented(memory::run_checks(config)),
        Category::Storage => ProbeOutcome::Unimplemented(storage::run_checks(config)),
        Category::Network => ProbeOutcome::Unimplemented(network::run_checks(config)),
        Category::Audio => ProbeOutcome::Unimplemented(audio::run_checks(config)),
        Category::Input => ProbeOutcome::Unimplemented(input::run_checks(config)),
        Category::Stability => ProbeOutcome::Unimplemented(stability::run_checks(config)),
        Category::Services => ProbeOutcome::Unimplemented(services::run_checks(config)),
        Category::Security => ProbeOutcome::Unimplemented(security::run_checks(config)),
        Category::Platform => ProbeOutcome::Unimplemented(platform::run_checks(config)),
        Category::Thermal => ProbeOutcome::Unimplemented(thermal::run_checks(config)),
        Category::Power => ProbeOutcome::Unimplemented(power::run_checks(config)),
    };
    Batch { category: c, outcome }
}

/// The batches of a run on `readings`, one for each entry of `order`.
pub open spec fn probe_batches(order: Seq<Category>, readings: Readings) -> Seq<BatchView> {
    order.map_values(|c: Category| probe_batch(c, readings))
}

/// `rayon`'s `into_par_iter`, `map` and `collect` on a `Vec`: the categories
/// are handed to the worker pool, each worker calls `run_category` on the
/// ones it takes, and the batches come back in a `Vec` in the order of the
/// categories, whichever finished first. The contract claims that order,
/// and of each batch what `run_category` ensures of it.
#[verifier::external_body]
fn probe_in_parallel(
    order: Vec<Category>,
    config: &Config,
    readings: &Readings,
) -> (batches: Vec<Batch>)
    ensures
        batches.deep_view() == probe_batches(order@, *readings),
{
    order.into_par_iter().map(|c| run_category(c, config, readings)).collect()
}

/// The findings of a whole run on `readings`: those of each category, in
/// catalogue order.
pub open spec fn audit_findings(readings: Readings) -> Seq<CheckResultView> {
    latency_findings(readings.latency) + cpu_findings(readings.cpu) + gpu_findings(readings.gpu)
        + memory::memory_findings() + storage::storage_findings() + network::network_findings()
        + audio::audio_findings() + input::input_findings() + stability::stability_findings()
        + services::services_findings() + security::security_findings()
        + platform::platform_findings() + thermal::thermal_findings() + power::power_findings()
}

/// The warnings of a whole run: one for each category without real probes,
/// in catalogue order.
pub open spec fn audit_warnings() -> Seq<WarningView> {
    seq![
        unimplemented_warning(Category::Memory),
        unimplemented_warning(Category::Storage),
        unimplemented_warning(Category::Network),
        unimplemented_warning(Category::Audio),
        unimplemented_warning(Category::Input),
        unimplemented_warning(Category::Stability),
        unimplemented_warning(Category::Services),
        unimplemented_warning(Category::Security),
        unimplemented_warning(Category::Platform),
        unimplemented_warning(Category::Thermal),
        unimplemented_warning(Category::Power),
    ]
}

/// Merging the batches of a run, one for each category, gives the findings
/// and warnings of the run.
pub proof fn merged_run_is_audit(readings: Readings)
    ensures
        merged_findings(probe_batches(catalogue(), readings)) == audit_findings(readings),
        merged_warnings(probe_batches(catalogue(), readings)) == audit_warnings(),
{
    let batches = probe_batches(catalogue(), readings);
    assert(one_batch_per_category(batches));
    assert forall|k: int| 0 <= k < 14 implies {
        &&& category_findings(batches, #[trigger] catalogue()[k]) == batch_findings(batches[k])
        &&& category_warnings(batches, catalogue()[k]) == batch_warnings(batches[k])
    } by {
        category_findings_of_single_batch(batches, catalogue()[k]);
        assert(batches[k].category == catalogue()[k]);
    }
    reveal_with_fuel(findings_up_to, 15);
    reveal_with_fuel(warnings_up_to, 15);
    assert(findings_up_to(batches, 14) =~= audit_findings(readings));
    assert(warnings_up_to(batches, 14) =~= audit_warnings());
}

/// The report of a run on `readings`: the findings and warnings of the run,
/// 387 findings in all, and no issue, so that the score is 100.
pub open spec fn is_audit_of(report: AuditResultsView, readings: Readings) -> bool {
    &&& report.checks == audit_findings(readings)
    &&& report.warnings == audit_warnings()
    &&& report.issues.len() == 0
    &&& report.check_count == 387
    &&& report.score == 100
}

/// A run can be repeated: two runs on the same readings give the same
/// number of findings, the same findings in the same order, and the same
/// score.
pub proof fn run_is_repeatable(
    first: AuditResultsView,
    second: AuditResultsView,
    readings: Readings,
)
    requires
        is_audit_of(first, readings),
        is_audit_of(second, readings),
    ensures
        first.check_count == second.check_count,
        first.checks == second.checks,
        first.score == second.score,
        first == second,
{
    assert(first.issues =~= second.issues);
}

/// Runs every category of the catalogue on the worker pool and merges what
/// the categories found into one report, in catalogue order.
pub fn run_all_checks(config: &Config, readings: &Readings) -> (report: AuditResults)
    ensures
        is_audit_of(report@, *readings),
        report@.well_formed(),
{
    let batches = probe_in_parallel(Category::all(), config, readings);
    let report = merge(&batches);
    proof {
        merged_run_is_audit(*readings);
    }
    report
}

} // verus!
