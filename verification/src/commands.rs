use vstd::prelude::*;

verus! {

/// The kind of issue the remote service is asked to create.
#[derive(Clone, Copy, Debug, PartialEq, Eq, Structural)]
pub enum IssueType {
    Bug,
    Task,
}

/// The accepted spellings of an issue type and the variant each maps to.
pub open spec fn parse_issue_type_spec(s: Seq<char>) -> Option<IssueType> {
    if s == "bug"@ || s == "BUG"@ || s == "Bug"@ {
        Some(IssueType::Bug)
    } else if s == "task"@ || s == "TASK"@ || s == "Task"@ {
        Some(IssueType::Task)
    } else {
        None
    }
}

/// The capitalized display name sent on the wire.
pub open spec fn display_name_spec(t: IssueType) -> Seq<char> {
    match t {
        IssueType::Bug => "Bug"@,
        IssueType::Task => "Task"@,
    }
}

/// The lowercased display name, used in progress reports.
pub open spec fn display_name_lower_spec(t: IssueType) -> Seq<char> {
    match t {
        IssueType::Bug => "bug"@,
        IssueType::Task => "task"@,
    }
}

/// The two operations a user can ask for, with their validated fields.
pub enum Commands {
    Create { project: String, summary: String, description: String, issue_type: IssueType },
    LogTime { issue_key: String, minutes: u32, comment: Option<String> },
}

/// Relies on str's `PartialEq`: two string slices are equal exactly when
/// their character sequences are.
#[verifier::external_body]
fn str_eq(a: &str, b: &str) -> (r: bool)
    ensures
        r == (a@ == b@),
{
    a == b
}

/// Maps an accepted alias to its issue type; any other string is refused.
pub fn parse_issue_type(s: &str) -> (r: Option<IssueType>)
    ensures
        r == parse_issue_type_spec(s@),
{
    if str_eq(s, "bug") || str_eq(s, "BUG") || str_eq(s, "Bug") {
        Some(IssueType::Bug)
    } else if str_eq(s, "task") || str_eq(s, "TASK") || str_eq(s, "Task") {
        Some(IssueType::Task)
    } else {
        None
    }
}

impl IssueType {
    /// The capitalized display name, as the wire format wants it.
    pub fn display_name(&self) -> (r: String)
        ensures
            r@ == display_name_spec(*self),
    {
        match self {
            IssueType::Bug => String::from_str("Bug"),
            IssueType::Task => String::from_str("Task"),
        }
    }

    /// The lowercased display name, used in progress reports.
    pub fn display_name_lower(&self) -> (r: String)
        ensures
            r@ == display_name_lower_spec(*self),
    {
        match self {
            IssueType::Bug => String::from_str("bug"),
            IssueType::Task => String::from_str("task"),
        }
    }
}

/// Rendering an issue type and parsing the result gives the type back:
/// every display name is itself an accepted alias, and of no other type.
pub proof fn lemma_issue_type_roundtrip(t: IssueType)
    ensures
        parse_issue_type_spec(display_name_spec(t)) == Some(t),
{
    reveal_strlit("bug");
    reveal_strlit("BUG");
    reveal_strlit("Bug");
    reveal_strlit("task");
    reveal_strlit("TASK");
    reveal_strlit("Task");
    assert("Task"@.len() == 4);
    assert("bug"@.len() == 3);
    assert("BUG"@.len() == 3);
    assert("Bug"@.len() == 3);
}

} // verus!
