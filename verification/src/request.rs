use vstd::prelude::*;

use crate::commands::IssueType;
use crate::commands::display_name_lower_spec;
use crate::commands::display_name_spec;
use crate::config::Configuration;
use crate::numfmt::dec_spec;
use crate::numfmt::u64_to_string;

verus! {

/// The JSON string literal (quoted and escaped) that a piece of text
/// serializes to.
pub uninterp spec fn json_string_lit(s: Seq<char>) -> Seq<char>;

/// Relies on serde_json::to_string for a string slice: it writes the JSON
/// string literal of the text, a function of the characters alone, and
/// serializing a string slice cannot fail.
#[verifier::external_body]
fn json_quote(s: &str) -> (r: String)
    ensures
        r@ == json_string_lit(s@),
{
    serde_json::to_string(s).unwrap()
}

/// Relies on chrono's Utc::now and DateTime::format: the current UTC time,
/// rendered as `YYYY-MM-DDTHH:MM:SS.mmm+0000`. The value depends on the
/// clock, so nothing is promised of it.
#[verifier::external_body]
fn now_timestamp() -> String {
    chrono::Utc::now().format("%Y-%m-%dT%H:%M:%S.%3f%z").to_string()
}

/// Where issues are created.
pub open spec fn create_issue_url_spec(domain: Seq<char>) -> Seq<char> {
    "https://"@ + domain + "/rest/api/3/issue"@
}

/// Where work is logged against an issue.
pub open spec fn worklog_url_spec(domain: Seq<char>, issue_key: Seq<char>) -> Seq<char> {
    "https://"@ + domain + "/rest/api/3/issue/"@ + issue_key + "/worklog"@
}

/// Where a created issue can be viewed.
pub open spec fn browse_url_spec(domain: Seq<char>, key: Seq<char>) -> Seq<char> {
    "https://"@ + domain + "/browse/"@ + key
}

/// The rich-text document the remote service wants around plain text:
/// one paragraph holding one text node. `text_lit` is already a JSON
/// string literal.
pub open spec fn doc_wrap_spec(text_lit: Seq<char>) -> Seq<char> {
    "{\"type\":\"doc\",\"version\":1,\"content\":[{\"type\":\"paragraph\",\"content\":[{\"type\":\"text\",\"text\":"@
        + text_lit + "}]}]}"@
}

/// The body of an issue-creation request. The priority is fixed and not
/// user-configurable.
pub open spec fn create_issue_body_spec(
    project: Seq<char>,
    summary: Seq<char>,
    description: Seq<char>,
    issue_type: IssueType,
) -> Seq<char> {
    "{\"fields\":{\"project\":{\"key\":"@ + json_string_lit(project) + "},\"summary\":"@
        + json_string_lit(summary) + ",\"description\":"@ + doc_wrap_spec(
        json_string_lit(description),
    ) + ",\"issuetype\":{\"name\":"@ + json_string_lit(display_name_spec(issue_type))
        + "},\"priority\":{\"name\":\"Medium priority (C)\"}}}"@
}

/// The text a worklog comment carries: the comment itself, or nothing.
pub open spec fn comment_text_spec(comment: &Option<String>) -> Seq<char> {
    match comment {
        Some(c) => c@,
        None => Seq::<char>::empty(),
    }
}

/// The body of a worklog request: minutes converted to seconds, the
/// comment wrapped as a rich-text document, and the start timestamp.
pub open spec fn worklog_body_spec(
    minutes: u32,
    comment: Seq<char>,
    started: Seq<char>,
) -> Seq<char> {
    "{\"timeSpentSeconds\":"@ + dec_spec((minutes * 60) as nat) + ",\"comment\":"@ + doc_wrap_spec(
        json_string_lit(comment),
    ) + ",\"started\":"@ + json_string_lit(started) + "}"@
}

/// Builds the issue-creation URL for the configured domain.
pub fn create_issue_url(config: &Configuration) -> (r: String)
    ensures
        r@ == create_issue_url_spec(config.domain@),
{
    let mut r = String::from_str("https://");
    r.append(config.domain.as_str());
    r.append("/rest/api/3/issue");
    r
}

/// Builds the worklog URL for an issue on the configured domain.
pub fn worklog_url(config: &Configuration, issue_key: &str) -> (r: String)
    ensures
        r@ == worklog_url_spec(config.domain@, issue_key@),
{
    let mut r = String::from_str("https://");
    r.append(config.domain.as_str());
    r.append("/rest/api/3/issue/");
    r.append(issue_key);
    r.append("/worklog");
    r
}

/// Builds the browse URL for a created issue.
pub fn browse_url(config: &Configuration, key: &str) -> (r: String)
    ensures
        r@ == browse_url_spec(config.domain@, key@),
{
    let mut r = String::from_str("https://");
    r.append(config.domain.as_str());
    r.append("/browse/");
    r.append(key);
    r
}

/// Builds the issue-creation request body.
pub fn create_issue_body(
    project: &str,
    summary: &str,
    description: &str,
    issue_type: &IssueType,
) -> (r: String)
    ensures
        r@ == create_issue_body_spec(project@, summary@, description@, *issue_type),
{
    let mut r = String::from_str("{\"fields\":{\"project\":{\"key\":");
    let project_lit = json_quote(project);
    r.append(project_lit.as_str());
    r.append("},\"summary\":");
    let summary_lit = json_quote(summary);
    r.append(summary_lit.as_str());
    r.append(",\"description\":");
    let description_doc = doc_wrap(description);
    r.append(description_doc.as_str());
    r.append(",\"issuetype\":{\"name\":");
    let name = issue_type.display_name();
    let name_lit = json_quote(name.as_str());
    r.append(name_lit.as_str());
    r.append("},\"priority\":{\"name\":\"Medium priority (C)\"}}}");
    proof {
        assert(r@ =~= create_issue_body_spec(project@, summary@, description@, *issue_type));
    }
    r
}

fn doc_wrap(text: &str) -> (r: String)
    ensures
        r@ == doc_wrap_spec(json_string_lit(text@)),
{
    let mut r = String::from_str(
        "{\"type\":\"doc\",\"version\":1,\"content\":[{\"type\":\"paragraph\",\"content\":[{\"type\":\"text\",\"text\":",
    );
    let text_lit = json_quote(text);
    r.append(text_lit.as_str());
    r.append("}]}]}");
    proof {
        assert(r@ =~= doc_wrap_spec(json_string_lit(text@)));
    }
    r
}

/// Builds the worklog request body from an explicit start timestamp.
pub fn worklog_body(minutes: u32, comment: &Option<String>, started: &str) -> (r: String)
    ensures
        r@ == worklog_body_spec(minutes, comment_text_spec(comment), started@),
{
    let mut r = String::from_str("{\"timeSpentSeconds\":");
    let seconds: u64 = (minutes as u64) * 60;
    let seconds_str = u64_to_string(seconds);
    r.append(seconds_str.as_str());
    r.append(",\"comment\":");
    let comment_doc = match comment {
        Some(c) => doc_wrap(c.as_str()),
        None => doc_wrap(""),
    };
    proof {
        reveal_strlit("");
        assert(""@ =~= Seq::<char>::empty());
    }
    r.append(comment_doc.as_str());
    r.append(",\"started\":");
    let started_lit = json_quote(started);
    r.append(started_lit.as_str());
    r.append("}");
    proof {
        assert(r@ =~= worklog_body_spec(minutes, comment_text_spec(comment), started@));
    }
    r
}

/// Builds the worklog request body, stamping it with the current time.
pub fn worklog_body_now(minutes: u32, comment: &Option<String>) -> (r: String)
    ensures
        exists|started: Seq<char>|
            r@ == worklog_body_spec(minutes, comment_text_spec(comment), started),
{
    let started = now_timestamp();
    let r = worklog_body(minutes, comment, started.as_str());
    proof {
        assert(r@ == worklog_body_spec(minutes, comment_text_spec(comment), started@));
    }
    r
}

} // verus!
