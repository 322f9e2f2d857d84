pub mod commands;
pub mod config;
pub mod error;
pub mod numfmt;
pub mod report;
pub mod request;
pub mod response;

pub use commands::Commands;
pub use commands::IssueType;
pub use commands::parse_issue_type;
pub use config::Configuration;
pub use config::load_from;
pub use error::JiraError;
pub use numfmt::u64_to_string;
pub use request::browse_url;
pub use request::create_issue_body;
pub use request::create_issue_url;
pub use request::worklog_body;
pub use request::worklog_body_now;
pub use request::worklog_url;
pub use report::create_progress_line;
pub use report::created_report;
pub use report::worklog_progress_line;
pub use report::worklog_success_line;
pub use response::interpret_create_response;
pub use response::interpret_worklog_response;
