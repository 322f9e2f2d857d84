use vstd::prelude::*;

use crate::commands::IssueType;
use crate::commands::display_name_lower_spec;
use crate::config::Configuration;
use crate::numfmt::dec_spec;
use crate::numfmt::u64_to_string;
use crate::request::browse_url;
use crate::request::browse_url_spec;

verus! {

/// The progress line shown before an issue is created.
pub open spec fn create_progress_spec(issue_type: IssueType, summary: Seq<char>) -> Seq<char> {
    "Creating a new "@ + display_name_lower_spec(issue_type) + " in Jira: "@ + summary
}

/// The confirmation shown after an issue was created: its browse URL,
/// its key, and the summary echoed back, one line each.
pub open spec fn created_report_spec(
    domain: Seq<char>,
    key: Seq<char>,
    summary: Seq<char>,
) -> Seq<char> {
    "Created issue: "@ + browse_url_spec(domain, key) + "\nKey: "@ + key + "\nSummary: "@ + summary
}

/// The progress line shown before time is logged.
pub open spec fn worklog_progress_spec(minutes: u32, issue_key: Seq<char>) -> Seq<char> {
    "Logging "@ + dec_spec(minutes as nat) + " minutes for issue "@ + issue_key
}

/// The confirmation shown after time was logged.
pub open spec fn worklog_success_spec(issue_key: Seq<char>) -> Seq<char> {
    "Successfully logged time for issue "@ + issue_key
}

/// Builds the progress line shown before an issue is created.
pub fn create_progress_line(issue_type: &IssueType, summary: &str) -> (r: String)
    ensures
        r@ == create_progress_spec(*issue_type, summary@),
{
    let mut r = String::from_str("Creating a new ");
    let lower = issue_type.display_name_lower();
    r.append(lower.as_str());
    r.append(" in Jira: ");
    r.append(summary);
    proof {
        assert(r@ =~= create_progress_spec(*issue_type, summary@));
    }
    r
}

/// Builds the confirmation block shown after an issue was created.
pub fn created_report(config: &Configuration, key: &str, summary: &str) -> (r: String)
    ensures
        r@ == created_report_spec(config.domain@, key@, summary@),
{
    let mut r = String::from_str("Created issue: ");
    let url = browse_url(config, key);
    r.append(url.as_str());
    r.append("\nKey: ");
    r.append(key);
    r.append("\nSummary: ");
    r.append(summary);
    proof {
        assert(r@ =~= created_report_spec(config.domain@, key@, summary@));
    }
    r
}

/// Builds the progress line shown before time is logged.
pub fn worklog_progress_line(minutes: u32, issue_key: &str) -> (r: String)
    ensures
        r@ == worklog_progress_spec(minutes, issue_key@),
{
    let mut r = String::from_str("Logging ");
    let digits = u64_to_string(minutes as u64);
    r.append(digits.as_str());
    r.append(" minutes for issue ");
    r.append(issue_key);
    proof {
        assert(r@ =~= worklog_progress_spec(minutes, issue_key@));
    }
    r
}

/// Builds the confirmation line shown after time was logged.
pub fn worklog_success_line(issue_key: &str) -> (r: String)
    ensures
        r@ == worklog_success_spec(issue_key@),
{
    let mut r = String::from_str("Successfully logged time for issue ");
    r.append(issue_key);
    r
}

} // verus!
