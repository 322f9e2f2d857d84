use vstd::prelude::*;

use crate::error::JiraError;

verus! {

/// The credentials for the remote service, loaded once at startup and
/// never changed. All three fields are non-empty.
pub struct Configuration {
    pub domain: String,
    pub token: String,
    pub username: String,
}

impl Configuration {
    /// Every field holds at least one character.
    pub open spec fn wf(&self) -> bool {
        self.domain@.len() > 0 && self.token@.len() > 0 && self.username@.len() > 0
    }
}

/// Whether an environment value was found and holds something.
pub open spec fn present(v: &Option<String>) -> bool {
    match v {
        Some(s) => s@.len() > 0,
        None => false,
    }
}

fn take_present(v: Option<String>) -> (r: Option<String>)
    ensures
        r is Some <==> present(&v),
        r is Some ==> r.unwrap()@ == v.unwrap()@,
{
    match v {
        Some(s) => {
            if s.as_str().is_empty() {
                None
            } else {
                Some(s)
            }
        },
        None => None,
    }
}

/// Builds the configuration from the three environment values, read by the
/// caller under the names `JIRA_DOMAIN`, `JIRA_API_TOKEN` and `JIRA_USER`.
/// An absent or empty value fails with `MissingConfiguration` naming the
/// first such variable, in that order, and nothing else is attempted.
pub fn load_from(domain: Option<String>, token: Option<String>, username: Option<String>) -> (r:
    Result<Configuration, JiraError>)
    ensures
        r is Ok <==> present(&domain) && present(&token) && present(&username),
        r is Ok ==> ({
            &&& r.unwrap().domain@ == domain.unwrap()@
            &&& r.unwrap().token@ == token.unwrap()@
            &&& r.unwrap().username@ == username.unwrap()@
            &&& r.unwrap().wf()
        }),
        !present(&domain) ==> (r matches Err(JiraError::MissingConfiguration { variable })
            && variable@ == "JIRA_DOMAIN"@),
        present(&domain) && !present(&token) ==> (r matches Err(
            JiraError::MissingConfiguration { variable },
        ) && variable@ == "JIRA_API_TOKEN"@),
        present(&domain) && present(&token) && !present(&username) ==> (r matches Err(
            JiraError::MissingConfiguration { variable },
        ) && variable@ == "JIRA_USER"@),
{
    let domain = match take_present(domain) {
        Some(d) => d,
        None => {
            return Err(
                JiraError::MissingConfiguration { variable: String::from_str("JIRA_DOMAIN") },
            );
        },
    };
    let token = match take_present(token) {
        Some(t) => t,
        None => {
            return Err(
                JiraError::MissingConfiguration { variable: String::from_str("JIRA_API_TOKEN") },
            );
        },
    };
    let username = match take_present(username) {
        Some(u) => u,
        None => {
            return Err(
                JiraError::MissingConfiguration { variable: String::from_str("JIRA_USER") },
            );
        },
    };
    Ok(Configuration { domain, token, username })
}

} // verus!
