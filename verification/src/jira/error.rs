//! Errors of the Jira and Confluence commands.
use vstd::prelude::*;
use crate::figma::error::io_error_text;
use crate::text::{decimal, decimal_spec, extend_chars, from_chars, to_chars};

verus! {

/// An error of a Jira or Confluence command.
#[derive(Debug)]
pub enum JiraError {
    Config(String),
    Api { status: u16, body: String },
    Http(String),
    Json(String),
    Io(std::io::Error),
}

/// The message of a configuration error.
pub open spec fn config_error(e: JiraError, msg: Seq<char>) -> bool {
    e matches JiraError::Config(m) && m@ == msg
}

/// The message an error is shown with, for every kind but I/O errors
/// (whose text comes from the operating system).
pub open spec fn jira_error_message(e: JiraError) -> Option<Seq<char>> {
    match e {
        JiraError::Config(m) => Some("Config error: "@ + m@),
        JiraError::Api { status, body } => Some(
            "API error "@ + decimal_spec(status as nat) + ": "@ + body@,
        ),
        JiraError::Http(m) => Some("HTTP error: "@ + m@),
        JiraError::Json(m) => Some("JSON error: "@ + m@),
        JiraError::Io(_) => None,
    }
}

fn prefixed(p: &str, m: &String) -> (r: String)
    ensures
        r@ == p@ + m@,
{
    let mut v = to_chars(p);
    extend_chars(&mut v, to_chars(m.as_str()).as_slice());
    from_chars(v.as_slice())
}

impl JiraError {
    /// The message the error is shown with: see `jira_error_message`; an
    /// I/O error is shown as `IO error: ` and the system's text.
    pub fn message(&self) -> (r: String)
        ensures
            jira_error_message(*self) matches Some(m) ==> r@ == m,
    {
        match self {
            JiraError::Config(m) => prefixed("Config error: ", m),
            JiraError::Api { status, body } => {
                let mut v = to_chars("API error ");
                extend_chars(&mut v, decimal(*status as u64).as_slice());
                extend_chars(&mut v, to_chars(": ").as_slice());
                extend_chars(&mut v, to_chars(body.as_str()).as_slice());
                from_chars(v.as_slice())
            },
            JiraError::Http(m) => prefixed("HTTP error: ", m),
            JiraError::Json(m) => prefixed("JSON error: ", m),
            JiraError::Io(e) => prefixed("IO error: ", &io_error_text(e)),
        }
    }
}

} // verus!
