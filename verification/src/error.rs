use vstd::prelude::*;

use crate::numfmt::dec_spec;
use crate::numfmt::u64_to_string;

verus! {

/// Everything that can go wrong in one invocation. Every variant is
/// terminal: the caller reports it and gives up.
#[derive(Debug)]
pub enum JiraError {
    /// A required environment value was absent or empty; carries its name.
    MissingConfiguration { variable: String },
    /// The remote call completed with a non-success HTTP status.
    RemoteRequestFailed { status: u16, body: String },
    /// The remote call succeeded but the response lacked the expected shape.
    MalformedResponse,
    /// The remote service could not be reached at all.
    TransportError { detail: String },
}

/// The one-line report for an error.
pub open spec fn message_spec(e: &JiraError) -> Seq<char> {
    match e {
        JiraError::MissingConfiguration { variable } => "Environment variable "@ + variable@
            + " must be set"@,
        JiraError::RemoteRequestFailed { status, body } => "Request failed (status: "@ + dec_spec(
            *status as nat,
        ) + "): "@ + body@,
        JiraError::MalformedResponse => "Response missing 'key' field"@,
        JiraError::TransportError { detail } => "Request could not be sent: "@ + detail@,
    }
}

impl JiraError {
    /// The text shown to the user for this error.
    pub fn message(&self) -> (r: String)
        ensures
            r@ == message_spec(self),
    {
        match self {
            JiraError::MissingConfiguration { variable } => {
                let mut r = String::from_str("Environment variable ");
                r.append(variable.as_str());
                r.append(" must be set");
                r
            },
            JiraError::RemoteRequestFailed { status, body } => {
                let mut r = String::from_str("Request failed (status: ");
                let digits = u64_to_string(*status as u64);
                r.append(digits.as_str());
                r.append("): ");
                r.append(body.as_str());
                proof {
                    assert(r@ =~= message_spec(self));
                }
                r
            },
            JiraError::MalformedResponse => String::from_str("Response missing 'key' field"),
            JiraError::TransportError { detail } => {
                let mut r = String::from_str("Request could not be sent: ");
                r.append(detail.as_str());
                r
            },
        }
    }
}

} // verus!
