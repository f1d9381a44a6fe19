//! The data model of a report: findings, issues, warnings and the score.

use vstd::prelude::*;

verus! {

/// How grave an issue is. Each level takes a fixed number of points off the
/// score.
#[derive(Debug, Clone, Copy, PartialEq, Eq, Structural)]
pub enum Severity {
    Critical,
    High,
    Medium,
    Low,
}

/// The points that one issue of severity `s` takes off the score.
pub open spec fn severity_penalty(s: Severity) -> int {
    match s {
        Severity::Critical => 20,
        Severity::High => 12,
        Severity::Medium => 6,
        Severity::Low => 2,
    }
}

/// The word that stands for `s` in rendered reports.
pub open spec fn severity_label(s: Severity) -> Seq<char> {
    match s {
        Severity::Critical => "Critical"@,
        Severity::High => "High"@,
        Severity::Medium => "Medium"@,
        Severity::Low => "Low"@,
    }
}

impl Severity {
    /// The points that one issue of this severity takes off the score.
    pub fn penalty(&self) -> (p: i32)
        ensures
            p == severity_penalty(*self),
    {
        match self {
            Severity::Critical => 20,
            Severity::High => 12,
            Severity::Medium => 6,
            Severity::Low => 2,
        }
    }

    /// The word that stands for this severity in rendered reports.
    pub fn label(&self) -> (s: &'static str)
        ensures
            s@ == severity_label(*self),
    {
        match self {
            Severity::Critical => "Critical",
            Severity::High => "High",
            Severity::Medium => "Medium",
            Severity::Low => "Low",
        }
    }
}

/// What a probe says of one fact.
#[derive(Debug, Clone, Copy, PartialEq, Eq, Structural)]
pub enum CheckStatus {
    Okay,
    Warn,
    Bad,
    Info,
}

/// The word that stands for `status` in rendered reports.
pub open spec fn status_label(status: CheckStatus) -> Seq<char> {
    match status {
        CheckStatus::Okay => "Ok"@,
        CheckStatus::Warn => "Warn"@,
        CheckStatus::Bad => "Bad"@,
        CheckStatus::Info => "Info"@,
    }
}

impl CheckStatus {
    /// The word that stands for this status in rendered reports.
    pub fn label(&self) -> (s: &'static str)
        ensures
            s@ == status_label(*self),
    {
        match self {
            CheckStatus::Okay => "Ok",
            CheckStatus::Warn => "Warn",
            CheckStatus::Bad => "Bad",
            CheckStatus::Info => "Info",
        }
    }
}

/// A corrective change that an issue proposes, as data: the caller decides
/// whether and when to carry it out.
#[derive(Debug, Clone)]
pub enum FixAction {
    SetDword { key: String, value_name: String, data: u32 },
    StartService { name: String },
    StopService { name: String },
    SetServiceStartup { name: String, startup_type: u32 },
    SetPowerSetting { scheme: String, subgroup: String, setting: String, value: String },
}

/// A `FixAction` as contracts see it, with texts as sequences of characters.
pub enum FixActionView {
    SetDword { key: Seq<char>, value_name: Seq<char>, data: u32 },
    StartService { name: Seq<char> },
    StopService { name: Seq<char> },
    SetServiceStartup { name: Seq<char>, startup_type: u32 },
    SetPowerSetting {
        scheme: Seq<char>,
        subgroup: Seq<char>,
        setting: Seq<char>,
        value: Seq<char>,
    },
}

impl View for FixAction {
    type V = FixActionView;

    open spec fn view(&self) -> FixActionView {
        match *self {
            FixAction::SetDword { key, value_name, data } => FixActionView::SetDword {
                key: key@,
                value_name: value_name@,
                data,
            },
            FixAction::StartService { name } => FixActionView::StartService { name: name@ },
            FixAction::StopService { name } => FixActionView::StopService { name: name@ },
            FixAction::SetServiceStartup {
                name,
                startup_type,
            } => FixActionView::SetServiceStartup { name: name@, startup_type },
            FixAction::SetPowerSetting {
                scheme,
                subgroup,
                setting,
                value,
            } => FixActionView::SetPowerSetting {
                scheme: scheme@,
                subgroup: subgroup@,
                setting: setting@,
                value: value@,
            },
        }
    }
}

impl DeepView for FixAction {
    type V = FixActionView;

    open spec fn deep_view(&self) -> FixActionView {
        self@
    }
}

/// A finding raised to an actionable, rated problem.
#[derive(Debug, Clone)]
pub struct Issue {
    pub num: u32,
    pub category: String,
    pub problem: String,
    pub solution: String,
    pub severity: Severity,
    pub safe: bool,
    pub reboot: bool,
    pub fix: Option<FixAction>,
}

/// An `Issue` as contracts see it, with texts as sequences of characters.
pub struct IssueView {
    pub num: u32,
    pub category: Seq<char>,
    pub problem: Seq<char>,
    pub solution: Seq<char>,
    pub severity: Severity,
    pub safe: bool,
    pub reboot: bool,
    pub fix: Option<FixActionView>,
}

impl View for Issue {
    type V = IssueView;

    open spec fn view(&self) -> IssueView {
        IssueView {
            num: self.num,
            category: self.category@,
            problem: self.problem@,
            solution: self.solution@,
            severity: self.severity,
            safe: self.safe,
            reboot: self.reboot,
            fix: self.fix.deep_view(),
        }
    }
}

impl DeepView for Issue {
    type V = IssueView;

    open spec fn deep_view(&self) -> IssueView {
        self@
    }
}

/// An advisory remark. It does not touch the score.
#[derive(Debug, Clone)]
pub struct Warning {
    pub category: String,
    pub message: String,
}

/// A `Warning` as contracts see it, with texts as sequences of characters.
pub struct WarningView {
    pub category: Seq<char>,
    pub message: Seq<char>,
}

impl View for Warning {
    type V = WarningView;

    open spec fn view(&self) -> WarningView {
        WarningView { category: self.category@, message: self.message@ }
    }
}

impl DeepView for Warning {
    type V = WarningView;

    open spec fn deep_view(&self) -> WarningView {
        self@
    }
}

/// One probe's observation of one fact.
#[derive(Debug, Clone)]
pub struct CheckResult {
    pub name: String,
    pub category: String,
    pub status: CheckStatus,
    pub detail: String,
}

/// A `CheckResult` as contracts see it, with texts as sequences of characters.
pub struct CheckResultView {
    pub name: Seq<char>,
    pub category: Seq<char>,
    pub status: CheckStatus,
    pub detail: Seq<char>,
}

impl View for CheckResult {
    type V = CheckResultView;

    open spec fn view(&self) -> CheckResultView {
        CheckResultView {
            name: self.name@,
            category: self.category@,
            status: self.status,
            detail: self.detail@,
        }
    }
}

impl DeepView for CheckResult {
    type V = CheckResultView;

    open spec fn deep_view(&self) -> CheckResultView {
        self@
    }
}

/// The severities of a sequence of issues, in order.
pub open spec fn severities(issues: Seq<IssueView>) -> Seq<Severity> {
    issues.map_values(|i: IssueView| i.severity)
}

/// The sum of the penalties of a sequence of severities.
pub open spec fn penalty_sum(severities: Seq<Severity>) -> int
    decreases severities.len(),
{
    if severities.len() == 0 {
        0
    } else {
        penalty_sum(severities.drop_last()) + severity_penalty(severities.last())
    }
}

/// The score that a sequence of severities leaves: 100 less the penalties, and
/// never below 0.
pub open spec fn score_of(severities: Seq<Severity>) -> int {
    if 100 - penalty_sum(severities) > 0 {
        100 - penalty_sum(severities)
    } else {
        0
    }
}

/// The score that `issues` leave, computed from their severities alone.
pub fn score(issues: &Vec<Issue>) -> (s: i32)
    ensures
        s == score_of(severities(issues.deep_view())),
        0 <= s <= 100,
{
    let ghost sev = severities(issues.deep_view());
    let mut remaining: i32 = 100;
    let mut i: usize = 0;
    while i < issues.len()
        invariant
            i <= issues.len(),
            sev == severities(issues.deep_view()),
            sev.len() == issues.len(),
            remaining == score_of(sev.take(i as int)),
            0 <= remaining <= 100,
        decreases issues.len() - i,
    {
        let p: i32 = issues[i].severity.penalty();
        proof {
            assert(sev.take(i + 1).drop_last() =~= sev.take(i as int));
        }
        remaining = if remaining <= p {
            0
        } else {
            remaining - p
        };
        i = i + 1;
    }
    proof {
        assert(sev.take(i as int) =~= sev);
    }
    remaining
}

/// How a score is to be read: 90 and more is good, 70 and more is fair, and
/// everything below is poor.
#[derive(Debug, Clone, Copy, PartialEq, Eq, Structural)]
pub enum ScoreBand {
    Good,
    Fair,
    Poor,
}

/// The band of `score`.
pub open spec fn band_of(score: int) -> ScoreBand {
    if score >= 90 {
        ScoreBand::Good
    } else if score >= 70 {
        ScoreBand::Fair
    } else {
        ScoreBand::Poor
    }
}

/// The band of `score`.
pub fn score_band(score: i32) -> (band: ScoreBand)
    ensures
        band == band_of(score as int),
{
    if score >= 90 {
        ScoreBand::Good
    } else if score >= 70 {
        ScoreBand::Fair
    } else {
        ScoreBand::Poor
    }
}

/// How often `s` occurs in a sequence of severities.
pub open spec fn occurrences(severities: Seq<Severity>, s: Severity) -> int {
    severities.to_multiset().count(s) as int
}

/// Penalties never add up to less than nothing.
pub proof fn penalty_sum_is_nonnegative(severities: Seq<Severity>)
    ensures
        penalty_sum(severities) >= 0,
    decreases severities.len(),
{
    if severities.len() > 0 {
        penalty_sum_is_nonnegative(severities.drop_last());
    }
}

/// The summed penalty is each level's penalty times the number of issues of
/// that level.
pub proof fn penalty_sum_counts_levels(severities: Seq<Severity>)
    ensures
        penalty_sum(severities) == 20 * occurrences(severities, Severity::Critical) + 12
            * occurrences(severities, Severity::High) + 6 * occurrences(
            severities,
            Severity::Medium,
        ) + 2 * occurrences(severities, Severity::Low),
    decreases severities.len(),
{
    if severities.len() == 0 {
        assert(severities.to_multiset().len() == 0) by {
            severities.to_multiset_ensures();
        }
    } else {
        let front = severities.drop_last();
        let last = severities.last();
        penalty_sum_counts_levels(front);
        assert(severities =~= front.push(last));
        assert(severities.to_multiset() =~= front.to_multiset().insert(last)) by {
            vstd::seq_lib::to_multiset_build(front, last);
        }
    }
}

/// For every sequence of issues the score is 100 less the summed penalties
/// of their severities where that is positive and 0 otherwise, and it lies
/// between 0 and 100.
pub proof fn score_is_clamped(issues: Seq<IssueView>)
    ensures
        score_of(severities(issues)) == if 100 - penalty_sum(severities(issues)) > 0 {
            100 - penalty_sum(severities(issues))
        } else {
            0
        },
        0 <= score_of(severities(issues)) <= 100,
{
    penalty_sum_is_nonnegative(severities(issues));
}

/// With no issues the score is 100.
pub proof fn score_of_nothing_is_full()
    ensures
        score_of(Seq::<Severity>::empty()) == 100,
        score_of(severities(Seq::<IssueView>::empty())) == 100,
{
    assert(severities(Seq::<IssueView>::empty()) =~= Seq::<Severity>::empty());
}

/// The score does not depend on the order of the issues: two sequences that
/// hold the same severities equally often have the same score.
pub proof fn score_ignores_order(first: Seq<Severity>, second: Seq<Severity>)
    requires
        first.to_multiset() == second.to_multiset(),
    ensures
        penalty_sum(first) == penalty_sum(second),
        score_of(first) == score_of(second),
{
    penalty_sum_counts_levels(first);
    penalty_sum_counts_levels(second);
}

/// One more issue takes its penalty off the score, which stops at 0.
pub proof fn score_after_one_more(severities: Seq<Severity>, s: Severity)
    ensures
        score_of(severities.push(s)) == if score_of(severities) <= severity_penalty(s) {
            0
        } else {
            score_of(severities) - severity_penalty(s)
        },
{
    penalty_sum_is_nonnegative(severities);
    assert(severities.push(s).drop_last() =~= severities);
}

/// Every issue carries its place in the sequence, counted from 1.
pub open spec fn numbered(issues: Seq<IssueView>) -> bool {
    forall|i: int| 0 <= i < issues.len() ==> (#[trigger] issues[i]).num == i + 1
}

/// `issue` with the sequence number `num`.
pub open spec fn with_num(issue: IssueView, num: u32) -> IssueView {
    IssueView { num, ..issue }
}

/// How many of `checks` have the status `status`.
pub open spec fn status_count(checks: Seq<CheckResultView>, status: CheckStatus) -> nat
    decreases checks.len(),
{
    if checks.len() == 0 {
        0
    } else if checks.last().status == status {
        status_count(checks.drop_last(), status) + 1
    } else {
        status_count(checks.drop_last(), status)
    }
}

/// The report of one audit run: what was found, what needs action, and the
/// score. A report is only ever built through its methods, so its count and
/// score always agree with its contents.
#[derive(Debug)]
pub struct AuditResults {
    issues: Vec<Issue>,
    warnings: Vec<Warning>,
    checks: Vec<CheckResult>,
    check_count: usize,
    score: i32,
}

/// A report as contracts see it: sequences in place of vectors, and texts as
/// sequences of characters.
pub struct AuditResultsView {
    pub issues: Seq<IssueView>,
    pub warnings: Seq<WarningView>,
    pub checks: Seq<CheckResultView>,
    pub check_count: nat,
    pub score: int,
}

impl AuditResultsView {
    /// The count is the number of findings, the score is what the issues
    /// leave, and the issues are numbered in order of insertion.
    pub open spec fn well_formed(self) -> bool {
        &&& self.check_count == self.checks.len()
        &&& self.score == score_of(severities(self.issues))
        &&& numbered(self.issues)
    }
}

impl View for AuditResults {
    type V = AuditResultsView;

    closed spec fn view(&self) -> AuditResultsView {
        AuditResultsView {
            issues: self.issues.deep_view(),
            warnings: self.warnings.deep_view(),
            checks: self.checks.deep_view(),
            check_count: self.check_count as nat,
            score: self.score as int,
        }
    }
}

impl AuditResults {
    /// An empty report. Nothing has been found, so the score is 100.
    pub fn new() -> (r: Self)
        ensures
            r@.issues.len() == 0,
            r@.warnings.len() == 0,
            r@.checks.len() == 0,
            r@.check_count == 0,
            r@.score == 100,
            r@.well_formed(),
    {
        AuditResults {
            issues: Vec::new(),
            warnings: Vec::new(),
            checks: Vec::new(),
            check_count: 0,
            score: 100,
        }
    }

    /// Appends `issue`, gives it the next sequence number (the first issue
    /// is number 1) and takes its penalty off the score.
    pub fn add_issue(&mut self, issue: Issue)
        requires
            old(self)@.well_formed(),
            old(self)@.issues.len() < u32::MAX,
        ensures
            final(self)@.issues == old(self)@.issues.push(
                with_num(issue@, (old(self)@.issues.len() + 1) as u32),
            ),
            final(self)@.warnings == old(self)@.warnings,
            final(self)@.checks == old(self)@.checks,
            final(self)@.check_count == old(self)@.check_count,
            final(self)@.score == score_of(severities(final(self)@.issues)),
            final(self)@.well_formed(),
    {
        let ghost before = self.issues.deep_view();
        let mut issue = issue;
        issue.num = (self.issues.len() + 1) as u32;
        let p: i32 = issue.severity.penalty();
        self.score = if self.score <= p {
            0
        } else {
            self.score - p
        };
        self.issues.push(issue);
        proof {
            let after = self.issues.deep_view();
            assert(after =~= before.push(issue@));
            assert(severities(after) =~= severities(before).push(issue.severity));
            score_after_one_more(severities(before), issue.severity);
        }
    }

    /// Appends `warning`. Warnings do not touch the score.
    pub fn add_warning(&mut self, warning: Warning)
        ensures
            final(self)@.warnings == old(self)@.warnings.push(warning@),
            final(self)@.issues == old(self)@.issues,
            final(self)@.checks == old(self)@.checks,
            final(self)@.check_count == old(self)@.check_count,
            final(self)@.score == old(self)@.score,
    {
        let ghost before = self.warnings.deep_view();
        self.warnings.push(warning);
        proof {
            assert(self.warnings.deep_view() =~= before.push(warning@));
        }
    }

    /// Appends the finding `check` and counts it: the count is the number
    /// of findings afterwards, one more than before.
    pub fn add_check(&mut self, check: CheckResult)
        ensures
            final(self)@.checks == old(self)@.checks.push(check@),
            final(self)@.check_count == final(self)@.checks.len(),
            old(self)@.check_count == old(self)@.checks.len() ==> final(self)@.check_count == old(
                self,
            )@.check_count + 1,
            final(self)@.issues == old(self)@.issues,
            final(self)@.warnings == old(self)@.warnings,
            final(self)@.score == old(self)@.score,
    {
        let ghost before = self.checks.deep_view();
        self.checks.push(check);
        self.check_count = self.checks.len();
        proof {
            assert(self.checks.deep_view() =~= before.push(check@));
        }
    }

    /// Computes the score anew from the issues: 100 less the penalty of each
    /// issue, and never below 0. Nothing else changes.
    pub fn calculate_score(&mut self)
        ensures
            final(self)@.score == score_of(severities(old(self)@.issues)),
            0 <= final(self)@.score <= 100,
            final(self)@.issues == old(self)@.issues,
            final(self)@.warnings == old(self)@.warnings,
            final(self)@.checks == old(self)@.checks,
            final(self)@.check_count == old(self)@.check_count,
    {
        self.score = score(&self.issues);
    }

    /// Takes a report up again from the parts that were stored of it. The
    /// parts are a report where the stored count is the number of findings,
    /// the stored score is what the issues leave, and the issues carry the
    /// numbers 1, 2, 3 and so on; otherwise there is no report.
    pub fn restore(
        issues: Vec<Issue>,
        warnings: Vec<Warning>,
        checks: Vec<CheckResult>,
        check_count: usize,
        score: i32,
    ) -> (r: Option<Self>)
        ensures
            r is Some <==> (AuditResultsView {
                issues: issues.deep_view(),
                warnings: warnings.deep_view(),
                checks: checks.deep_view(),
                check_count: check_count as nat,
                score: score as int,
            }).well_formed(),
            r matches Some(report) ==> report@ == (AuditResultsView {
                issues: issues.deep_view(),
                warnings: warnings.deep_view(),
                checks: checks.deep_view(),
                check_count: check_count as nat,
                score: score as int,
            }),
    {
        if check_count != checks.len() {
            return None;
        }
        if score != self::score(&issues) {
            return None;
        }
        let mut i: usize = 0;
        while i < issues.len()
            invariant
                i <= issues.len(),
                numbered(issues.deep_view().take(i as int)),
            decreases issues.len() - i,
        {
            if i >= u32::MAX as usize || issues[i].num != (i + 1) as u32 {
                proof {
                    assert(issues.deep_view()[i as int].num == issues[i as int].num);
                }
                return None;
            }
            proof {
                let front = issues.deep_view().take(i as int);
                let next = issues.deep_view().take(i + 1);
                assert forall|k: int| 0 <= k < next.len() implies (#[trigger] next[k]).num == k
                    + 1 by {
                    if k < i {
                        assert(next[k] == front[k]);
                    }
                }
            }
            i = i + 1;
        }
        proof {
            assert(issues.deep_view().take(i as int) =~= issues.deep_view());
        }
        Some(AuditResults { issues, warnings, checks, check_count, score })
    }

    /// The issue in place `num` of the issues, counted from 1, where there
    /// is one. In a well-formed report that is the issue with the sequence
    /// number `num`.
    pub fn find_issue(&self, num: u32) -> (r: Option<&Issue>)
        ensures
            r is Some <==> 1 <= num <= self@.issues.len(),
            r matches Some(issue) ==> issue@ == self@.issues[num - 1],
            r matches Some(issue) ==> (self@.well_formed() ==> issue@.num == num),
    {
        if num >= 1 && (num as usize) <= self.issues.len() {
            proof {
                assert(self@.issues[num - 1] == self.issues[num - 1]@);
            }
            Some(&self.issues[(num - 1) as usize])
        } else {
            None
        }
    }

    /// How many findings have the status `status`.
    pub fn count_status(&self, status: CheckStatus) -> (n: usize)
        ensures
            n == status_count(self@.checks, status),
    {
        let ghost all = self.checks.deep_view();
        let mut n: usize = 0;
        let mut i: usize = 0;
        while i < self.checks.len()
            invariant
                i <= self.checks.len(),
                all == self.checks.deep_view(),
                n == status_count(all.take(i as int), status),
                n <= i,
            decreases self.checks.len() - i,
        {
            proof {
                assert(all.take(i + 1).drop_last() =~= all.take(i as int));
                assert(all.take(i + 1).last() == self.checks[i as int]@);
            }
            if self.checks[i].status == status {
                n = n + 1;
            }
            i = i + 1;
        }
        proof {
            assert(all.take(i as int) =~= all);
        }
        n
    }

    /// The issues, in order of insertion.
    pub fn issues(&self) -> (r: &Vec<Issue>)
        ensures
            r.deep_view() == self@.issues,
    {
        &self.issues
    }

    /// The warnings, in order of insertion.
    pub fn warnings(&self) -> (r: &Vec<Warning>)
        ensures
            r.deep_view() == self@.warnings,
    {
        &self.warnings
    }

    /// The findings, in order of insertion.
    pub fn checks(&self) -> (r: &Vec<CheckResult>)
        ensures
            r.deep_view() == self@.checks,
    {
        &self.checks
    }

    /// The number of findings.
    pub fn check_count(&self) -> (n: usize)
        ensures
            n == self@.check_count,
    {
        self.check_count
    }

    /// The score, from 0 to 100.
    pub fn score(&self) -> (s: i32)
        ensures
            s == self@.score,
    {
        self.score
    }
}

impl Default for AuditResults {
    fn default() -> (r: Self)
        ensures
            r@.issues.len() == 0,
            r@.warnings.len() == 0,
            r@.checks.len() == 0,
            r@.check_count == 0,
            r@.score == 100,
    {
        AuditResults::new()
    }
}

/// The score can be had again from the issues of a stored report: where a
/// report is well formed and its issues come back as they were stored, the
/// score computed from the issues that came back is the stored score.
pub proof fn stored_score_is_rederivable(
    stored: AuditResultsView,
    issues_read_back: Seq<IssueView>,
)
    requires
        stored.well_formed(),
        issues_read_back == stored.issues,
    ensures
        score_of(severities(issues_read_back)) == stored.score,
{
}

} // verus!
