//! The report as a page of HTML: the score in its colour, a table of the
//! findings with each status in its colour, and a table of the issues.

use crate::text::{decimal, push_decimal, push_signed_decimal, signed_decimal};
use crate::types::{
    band_of, score_band, severity_label, status_label, AuditResults, AuditResultsView, CheckResult,
    CheckResultView, CheckStatus, Issue, IssueView, ScoreBand,
};
use vstd::prelude::*;
use vstd::string::StringExecFns;

verus! {

/// The page up to the colour of the score.
pub const HTML_OPENING: &'static str = "<!DOCTYPE html>
<html>
<head>
    <meta charset=\"UTF-8\">
    <title>APEX Audit Report</title>
    <style>
        body { font-family: 'Segoe UI', Arial, sans-serif; margin: 20px; background: #0a0a0a; color: #fff; }
        h1 { color: #00ff00; }
        .score { font-size: 48px; font-weight: bold; color: ";

/// The rest of the style sheet and the heading, up to the score.
pub const HTML_BEFORE_SCORE: &'static str = "; }
        table { width: 100%; border-collapse: collapse; margin: 20px 0; }
        th, td { padding: 12px; text-align: left; border-bottom: 1px solid #333; }
        th { background: #1a1a1a; color: #00ff00; }
        .ok { color: #00ff00; }
        .warn { color: #ffaa00; }
        .bad { color: #ff0000; }
        .info { color: #00aaff; }
    </style>
</head>
<body>
    <h1>APEX v11 Audit Report</h1>
    <div class=\"score\">Score: ";

/// From the score to the number of findings.
pub const HTML_BEFORE_COUNT: &'static str = "/100</div>
    <h2>System Checks (";

/// The head of the table of findings.
pub const HTML_BEFORE_CHECKS: &'static str = " total)</h2>
    <table>
        <tr>
            <th>Category</th>
            <th>Check</th>
            <th>Status</th>
            <th>Details</th>
        </tr>
        ";

/// From the findings to the number of issues.
pub const HTML_BEFORE_ISSUE_COUNT: &'static str = "
    </table>
    <h2>Issues Found (";

/// The head of the table of issues.
pub const HTML_BEFORE_ISSUES: &'static str = ")</h2>
    <table>
        <tr>
            <th>#</th>
            <th>Category</th>
            <th>Severity</th>
            <th>Problem</th>
            <th>Solution</th>
        </tr>
        ";

/// The end of the page.
pub const HTML_CLOSING: &'static str = "
    </table>
</body>
</html>";

/// The colour in which a score of the given band is shown.
pub open spec fn band_colour(band: ScoreBand) -> Seq<char> {
    match band {
        ScoreBand::Good => "#00ff00"@,
        ScoreBand::Fair => "#ffaa00"@,
        ScoreBand::Poor => "#ff0000"@,
    }
}

/// The style class of a status.
pub open spec fn status_class(status: CheckStatus) -> Seq<char> {
    match status {
        CheckStatus::Okay => "ok"@,
        CheckStatus::Warn => "warn"@,
        CheckStatus::Bad => "bad"@,
        CheckStatus::Info => "info"@,
    }
}

/// The table row of one finding.
pub open spec fn check_row(c: CheckResultView) -> Seq<char> {
    "<tr><td>"@ + c.category + "</td><td>"@ + c.name + "</td><td class=\""@ + status_class(
        c.status,
    ) + "\">"@ + status_label(c.status) + "</td><td>"@ + c.detail + "</td></tr>"@
}

/// The table row of one issue.
pub open spec fn issue_row(i: IssueView) -> Seq<char> {
    "<tr><td>"@ + decimal(i.num as nat) + "</td><td>"@ + i.category + "</td><td>"@
        + severity_label(i.severity) + "</td><td>"@ + i.problem + "</td><td>"@ + i.solution
        + "</td></tr>"@
}

/// The rows of the findings, one to a line.
pub open spec fn check_rows(checks: Seq<CheckResultView>) -> Seq<char>
    decreases checks.len(),
{
    if checks.len() == 0 {
        Seq::<char>::empty()
    } else if checks.len() == 1 {
        check_row(checks.last())
    } else {
        check_rows(checks.drop_last()) + "\n"@ + check_row(checks.last())
    }
}

/// The rows of the issues, one to a line.
pub open spec fn issue_rows(issues: Seq<IssueView>) -> Seq<char>
    decreases issues.len(),
{
    if issues.len() == 0 {
        Seq::<char>::empty()
    } else if issues.len() == 1 {
        issue_row(issues.last())
    } else {
        issue_rows(issues.drop_last()) + "\n"@ + issue_row(issues.last())
    }
}

/// The whole page for `report`.
pub open spec fn html_document(report: AuditResultsView) -> Seq<char> {
    HTML_OPENING@ + band_colour(band_of(report.score)) + HTML_BEFORE_SCORE@ + signed_decimal(
        report.score,
    ) + HTML_BEFORE_COUNT@ + decimal(report.check_count) + HTML_BEFORE_CHECKS@ + check_rows(
        report.checks,
    ) + HTML_BEFORE_ISSUE_COUNT@ + decimal(report.issues.len()) + HTML_BEFORE_ISSUES@ + issue_rows(
        report.issues,
    ) + HTML_CLOSING@
}

/// The colour in which a score of the given band is shown.
fn colour_of(band: ScoreBand) -> (s: &'static str)
    ensures
        s@ == band_colour(band),
{
    match band {
        ScoreBand::Good => "#00ff00",
        ScoreBand::Fair => "#ffaa00",
        ScoreBand::Poor => "#ff0000",
    }
}

/// The style class of `status`.
fn class_of(status: CheckStatus) -> (s: &'static str)
    ensures
        s@ == status_class(status),
{
    match status {
        CheckStatus::Okay => "ok",
        CheckStatus::Warn => "warn",
        CheckStatus::Bad => "bad",
        CheckStatus::Info => "info",
    }
}

/// Appends the table row of `c` to `out`.
fn push_check_row(out: &mut String, c: &CheckResult)
    ensures
        final(out)@ == old(out)@ + check_row(c@),
{
    out.append("<tr><td>");
    out.append(c.category.as_str());
    out.append("</td><td>");
    out.append(c.name.as_str());
    out.append("</td><td class=\"");
    out.append(class_of(c.status));
    out.append("\">");
    out.append(c.status.label());
    out.append("</td><td>");
    out.append(c.detail.as_str());
    out.append("</td></tr>");
}

/// Appends the table row of `i` to `out`.
fn push_issue_row(out: &mut String, i: &Issue)
    ensures
        final(out)@ == old(out)@ + issue_row(i@),
{
    out.append("<tr><td>");
    push_decimal(out, i.num as u64);
    out.append("</td><td>");
    out.append(i.category.as_str());
    out.append("</td><td>");
    out.append(i.severity.label());
    out.append("</td><td>");
    out.append(i.problem.as_str());
    out.append("</td><td>");
    out.append(i.solution.as_str());
    out.append("</td></tr>");
}

/// Appends the rows of `checks` to `out`, one to a line.
fn push_check_rows(out: &mut String, checks: &Vec<CheckResult>)
    ensures
        final(out)@ == old(out)@ + check_rows(checks.deep_view()),
{
    let ghost all = checks.deep_view();
    let mut k: usize = 0;
    while k < checks.len()
        invariant
            k <= checks.len(),
            all == checks.deep_view(),
            out@ == old(out)@ + check_rows(all.take(k as int)),
        decreases checks.len() - k,
    {
        if k > 0 {
            out.append("\n");
        }
        push_check_row(out, &checks[k]);
        proof {
            assert(all.take(k + 1).drop_last() =~= all.take(k as int));
        }
        k = k + 1;
    }
    proof {
        assert(all.take(k as int) =~= all);
    }
}

/// Appends the rows of `issues` to `out`, one to a line.
fn push_issue_rows(out: &mut String, issues: &Vec<Issue>)
    ensures
        final(out)@ == old(out)@ + issue_rows(issues.deep_view()),
{
    let ghost all = issues.deep_view();
    let mut k: usize = 0;
    while k < issues.len()
        invariant
            k <= issues.len(),
            all == issues.deep_view(),
            out@ == old(out)@ + issue_rows(all.take(k as int)),
        decreases issues.len() - k,
    {
        if k > 0 {
            out.append("\n");
        }
        push_issue_row(out, &issues[k]);
        proof {
            assert(all.take(k + 1).drop_last() =~= all.take(k as int));
        }
        k = k + 1;
    }
    proof {
        assert(all.take(k as int) =~= all);
    }
}

/// Renders `results` as a page of HTML.
pub fn export(results: &AuditResults) -> (html: String)
    ensures
        html@ == html_document(results@),
{
    let mut html = String::from_str(HTML_OPENING);
    html.append(colour_of(score_band(results.score())));
    html.append(HTML_BEFORE_SCORE);
    push_signed_decimal(&mut html, results.score() as i64);
    html.append(HTML_BEFORE_COUNT);
    push_decimal(&mut html, results.check_count() as u64);
    html.append(HTML_BEFORE_CHECKS);
    push_check_rows(&mut html, results.checks());
    html.append(HTML_BEFORE_ISSUE_COUNT);
    push_decimal(&mut html, results.issues().len() as u64);
    html.append(HTML_BEFORE_ISSUES);
    push_issue_rows(&mut html, results.issues());
    html.append(HTML_CLOSING);
    html
}

} // verus!
