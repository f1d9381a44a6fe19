use apex::checks::finding;
use apex::export::{csv, html};
use apex::types::{AuditResults, CheckStatus, Issue, Severity};

fn sample() -> AuditResults {
    let mut report = AuditResults::new();
    report.add_check(finding("HPET Status", "Latency", CheckStatus::Okay, "HPET disabled: true"));
    report.add_check(finding("Game DVR", "GPU", CheckStatus::Warn, "said \"on\", twice"));
    report.add_check(finding("Probe failure", "CPU", CheckStatus::Bad, "a,b"));
    report.add_check(finding("Power Plan", "CPU", CheckStatus::Info, ""));
    report
}

fn issue(category: &str, problem: &str, solution: &str, severity: Severity) -> Issue {
    Issue {
        num: 0,
        category: category.to_string(),
        problem: problem.to_string(),
        solution: solution.to_string(),
        severity,
        safe: false,
        reboot: true,
        fix: None,
    }
}

#[test]
fn csv_of_an_empty_report_is_the_header() {
    assert_eq!(csv::export(&AuditResults::new()), "Category,Check,Status,Detail\n");
    assert_eq!(csv::CSV_HEADER, "Category,Check,Status,Detail\n");
}

#[test]
fn csv_has_one_quoted_row_for_each_finding() {
    let expected = "Category,Check,Status,Detail\n\
                    \"Latency\",\"HPET Status\",\"Ok\",\"HPET disabled: true\"\n\
                    \"GPU\",\"Game DVR\",\"Warn\",\"said \"\"on\"\", twice\"\n\
                    \"CPU\",\"Probe failure\",\"Bad\",\"a,b\"\n\
                    \"CPU\",\"Power Plan\",\"Info\",\"\"\n";
    assert_eq!(csv::export(&sample()), expected);
}

#[test]
fn html_of_an_empty_report() {
    let page = html::export(&AuditResults::new());
    let expected = format!(
        "{}#00ff00{}100{}0{}{}0{}{}",
        html::HTML_OPENING,
        html::HTML_BEFORE_SCORE,
        html::HTML_BEFORE_COUNT,
        html::HTML_BEFORE_CHECKS,
        html::HTML_BEFORE_ISSUE_COUNT,
        html::HTML_BEFORE_ISSUES,
        html::HTML_CLOSING
    );
    assert_eq!(page, expected);
    assert!(page.starts_with("<!DOCTYPE html>\n<html>\n<head>\n    <meta charset=\"UTF-8\">\n"));
    assert!(page.contains("        .score { font-size: 48px; font-weight: bold; color: #00ff00; }\n"));
    assert!(page.contains("    <div class=\"score\">Score: 100/100</div>\n"));
    assert!(page.contains("    <h2>System Checks (0 total)</h2>\n"));
    assert!(page.contains("    <h2>Issues Found (0)</h2>\n"));
    assert!(page.ends_with("\n    </table>\n</body>\n</html>"));
}

#[test]
fn html_of_an_empty_report_letter_by_letter() {
    let expected = "<!DOCTYPE html>\n\
         <html>\n\
         <head>\n\
         \x20   <meta charset=\"UTF-8\">\n\
         \x20   <title>APEX Audit Report</title>\n\
         \x20   <style>\n\
         \x20       body { font-family: 'Segoe UI', Arial, sans-serif; margin: 20px; background: #0a0a0a; color: #fff; }\n\
         \x20       h1 { color: #00ff00; }\n\
         \x20       .score { font-size: 48px; font-weight: bold; color: #00ff00; }\n\
         \x20       table { width: 100%; border-collapse: collapse; margin: 20px 0; }\n\
         \x20       th, td { padding: 12px; text-align: left; border-bottom: 1px solid #333; }\n\
         \x20       th { background: #1a1a1a; color: #00ff00; }\n\
         \x20       .ok { color: #00ff00; }\n\
         \x20       .warn { color: #ffaa00; }\n\
         \x20       .bad { color: #ff0000; }\n\
         \x20       .info { color: #00aaff; }\n\
         \x20   </style>\n\
         </head>\n\
         <body>\n\
         \x20   <h1>APEX v11 Audit Report</h1>\n\
         \x20   <div class=\"score\">Score: 100/100</div>\n\
         \x20   <h2>System Checks (0 total)</h2>\n\
         \x20   <table>\n\
         \x20       <tr>\n\
         \x20           <th>Category</th>\n\
         \x20           <th>Check</th>\n\
         \x20           <th>Status</th>\n\
         \x20           <th>Details</th>\n\
         \x20       </tr>\n\
         \x20       \n\
         \x20   </table>\n\
         \x20   <h2>Issues Found (0)</h2>\n\
         \x20   <table>\n\
         \x20       <tr>\n\
         \x20           <th>#</th>\n\
         \x20           <th>Category</th>\n\
         \x20           <th>Severity</th>\n\
         \x20           <th>Problem</th>\n\
         \x20           <th>Solution</th>\n\
         \x20       </tr>\n\
         \x20       \n\
         \x20   </table>\n\
         </body>\n\
         </html>";
    assert_eq!(html::export(&AuditResults::new()), expected);
}

#[test]
fn html_lists_findings_and_issues() {
    let mut report = sample();
    report.add_issue(issue("GPU", "Game DVR is on", "Turn it off", Severity::High));
    report.add_issue(issue("CPU", "Probes broke", "Run again", Severity::Critical));
    let page = html::export(&report);
    assert!(page.contains("color: #ff0000; }"));
    assert!(page.contains("<div class=\"score\">Score: 68/100</div>"));
    assert!(page.contains("<h2>System Checks (4 total)</h2>"));
    assert!(page.contains("<h2>Issues Found (2)</h2>"));
    let checks = "<tr><td>Latency</td><td>HPET Status</td><td class=\"ok\">Ok</td><td>HPET disabled: true</td></tr>\n\
                  <tr><td>GPU</td><td>Game DVR</td><td class=\"warn\">Warn</td><td>said \"on\", twice</td></tr>\n\
                  <tr><td>CPU</td><td>Probe failure</td><td class=\"bad\">Bad</td><td>a,b</td></tr>\n\
                  <tr><td>CPU</td><td>Power Plan</td><td class=\"info\">Info</td><td></td></tr>";
    let issues = "<tr><td>1</td><td>GPU</td><td>High</td><td>Game DVR is on</td><td>Turn it off</td></tr>\n\
                  <tr><td>2</td><td>CPU</td><td>Critical</td><td>Probes broke</td><td>Run again</td></tr>";
    let expected = format!(
        "{}#ff0000{}68{}4{}{}{}2{}{}{}",
        html::HTML_OPENING,
        html::HTML_BEFORE_SCORE,
        html::HTML_BEFORE_COUNT,
        html::HTML_BEFORE_CHECKS,
        checks,
        html::HTML_BEFORE_ISSUE_COUNT,
        html::HTML_BEFORE_ISSUES,
        issues,
        html::HTML_CLOSING
    );
    assert_eq!(page, expected);
}

#[test]
fn html_score_colour_follows_the_band() {
    let mut report = AuditResults::new();
    report.add_issue(issue("c", "p", "s", Severity::Medium));
    assert_eq!(report.score(), 94);
    assert!(html::export(&report).contains("color: #00ff00; }"));
    report.add_issue(issue("c", "p", "s", Severity::Medium));
    assert_eq!(report.score(), 88);
    assert!(html::export(&report).contains("color: #ffaa00; }"));
    report.add_issue(issue("c", "p", "s", Severity::Critical));
    assert_eq!(report.score(), 68);
    assert!(html::export(&report).contains("color: #ff0000; }"));
}
