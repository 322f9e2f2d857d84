use vstd::prelude::*;

use crate::error::JiraError;

verus! {

/// The string held by the named top-level member of a JSON document, if
/// the document parses and that member is a string.
pub uninterp spec fn json_str_field_of(body: Seq<char>, field: Seq<char>) -> Option<Seq<char>>;

/// Relies on serde_json::from_str, Value::get and Value::as_str: whether
/// `body` parses as JSON whose `field` member holds a string, and that
/// string's characters, are functions of the two arguments alone.
#[verifier::external_body]
fn json_str_field(body: &str, field: &str) -> (r: Option<String>)
    ensures
        r is Some <==> json_str_field_of(body@, field@) is Some,
        r is Some ==> r.unwrap()@ == json_str_field_of(body@, field@).unwrap(),
{
    let parsed: serde_json::Value = serde_json::from_str(body).ok()?;
    Some(parsed.get(field)?.as_str()?.to_owned())
}

/// The statuses the remote service answers success with.
pub open spec fn is_success_status(status: u16) -> bool {
    200 <= status < 300
}

/// Turns the raw answer to an issue-creation request into the new issue's
/// key. A non-success status fails with the status and the body verbatim;
/// a success whose body lacks a string `key` member is malformed.
pub fn interpret_create_response(status: u16, body: String) -> (r: Result<String, JiraError>)
    ensures
        !is_success_status(status) ==> (r matches Err(
            JiraError::RemoteRequestFailed { status: s, body: b },
        ) && s == status && b@ == body@),
        is_success_status(status) && json_str_field_of(body@, "key"@) is Some ==> (r matches Ok(k)
            && k@ == json_str_field_of(body@, "key"@).unwrap()),
        is_success_status(status) && json_str_field_of(body@, "key"@) is None ==> r matches Err(
            JiraError::MalformedResponse,
        ),
        r is Ok <==> is_success_status(status) && json_str_field_of(body@, "key"@) is Some,
{
    if !(200 <= status && status < 300) {
        return Err(JiraError::RemoteRequestFailed { status, body });
    }
    match json_str_field(body.as_str(), "key") {
        Some(key) => Ok(key),
        None => Err(JiraError::MalformedResponse),
    }
}

/// Turns the raw answer to a worklog request into a plain success. Only
/// the status decides; the body is read only to report a failure.
pub fn interpret_worklog_response(status: u16, body: String) -> (r: Result<(), JiraError>)
    ensures
        r is Ok <==> is_success_status(status),
        !is_success_status(status) ==> (r matches Err(
            JiraError::RemoteRequestFailed { status: s, body: b },
        ) && s == status && b@ == body@),
{
    if 200 <= status && status < 300 {
        Ok(())
    } else {
        Err(JiraError::RemoteRequestFailed { status, body })
    }
}

} // verus!
