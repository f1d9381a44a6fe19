//! The findings as comma-separated values: a header, then one row for
//! each finding.

use crate::text::{replace_char, replaced};
use crate::types::{status_label, AuditResults, AuditResultsView, CheckResult, CheckResultView};
use vstd::prelude::*;
use vstd::string::StringExecFns;

verus! {

/// The first line: the names of the four columns.
pub const CSV_HEADER: &'static str = "Category,Check,Status,Detail\n";

/// `detail` with every double quote doubled, as it stands between the
/// quotes of a field.
pub open spec fn escaped(detail: Seq<char>) -> Seq<char> {
    replaced(detail, '"', "\"\""@)
}

/// The row of one finding: category, name, status and detail, each between
/// double quotes.
pub open spec fn csv_row(c: CheckResultView) -> Seq<char> {
    "\""@ + c.category + "\",\""@ + c.name + "\",\""@ + status_label(c.status) + "\",\""@
        + escaped(c.detail) + "\"\n"@
}

/// The rows of the findings, in order.
pub open spec fn csv_rows(checks: Seq<CheckResultView>) -> Seq<char>
    decreases checks.len(),
{
    if checks.len() == 0 {
        Seq::<char>::empty()
    } else {
        csv_rows(checks.drop_last()) + csv_row(checks.last())
    }
}

/// The whole text for `report`.
pub open spec fn csv_document(report: AuditResultsView) -> Seq<char> {
    CSV_HEADER@ + csv_rows(report.checks)
}

/// Appends the row of `c` to `out`.
fn push_row(out: &mut String, c: &CheckResult)
    ensures
        final(out)@ == old(out)@ + csv_row(c@),
{
    out.append("\"");
    out.append(c.category.as_str());
    out.append("\",\"");
    out.append(c.name.as_str());
    out.append("\",\"");
    out.append(c.status.label());
    out.append("\",\"");
    let detail = replace_char(c.detail.as_str(), '"', "\"\"");
    out.append(detail.as_str());
    out.append("\"\n");
}

/// Renders the findings of `results` as comma-separated values.
pub fn export(results: &AuditResults) -> (csv: String)
    ensures
        csv@ == csv_document(results@),
{
    let checks = results.checks();
    let ghost all = checks.deep_view();
    let mut csv = String::from_str(CSV_HEADER);
    let mut k: usize = 0;
    while k < checks.len()
        invariant
            k <= checks.len(),
            all == checks.deep_view(),
            csv@ == CSV_HEADER@ + csv_rows(all.take(k as int)),
        decreases checks.len() - k,
    {
        push_row(&mut csv, &checks[k]);
        proof {
            assert(all.take(k + 1).drop_last() =~= all.take(k as int));
        }
        k = k + 1;
    }
    proof {
        assert(all.take(k as int) =~= all);
    }
    csv
}

} // verus!
