//! Errors of the Figma commands.
use vstd::prelude::*;
use crate::text::{decimal, decimal_spec, extend_chars, from_chars, to_chars};

verus! {

/// std's I/O error, carried through unchanged.
#[verifier::external_type_specification]
#[verifier::external_body]
pub struct ExIoError(std::io::Error);

/// The text of an I/O error (std `Display` of `std::io::Error`). It depends on
/// the operating system's message for the error, so nothing is stated of it.
#[verifier::external_body]
pub(crate) fn io_error_text(e: &std::io::Error) -> String {
    format!("{}", e)
}

/// An error of a Figma command.
#[derive(Debug)]
pub enum FigmaError {
    Config(String),
    Api { status: u16, body: String },
    Parse(String),
    Io(std::io::Error),
    Http(String),
    Json(String),
}

/// The message of a parse error.
pub open spec fn parse_error(e: FigmaError, msg: Seq<char>) -> bool {
    e matches FigmaError::Parse(m) && m@ == msg
}

/// The message an error is shown with, for every kind but I/O errors
/// (whose text comes from the operating system).
pub open spec fn figma_error_message(e: FigmaError) -> Option<Seq<char>> {
    match e {
        FigmaError::Config(m) => Some("Config error: "@ + m@),
        FigmaError::Api { status, body } => Some(
            "API error "@ + decimal_spec(status as nat) + ": "@ + body@,
        ),
        FigmaError::Parse(m) => Some("Parse error: "@ + m@),
        FigmaError::Io(_) => None,
        FigmaError::Http(m) => Some("HTTP error: "@ + m@),
        FigmaError::Json(m) => Some("JSON error: "@ + m@),
    }
}

fn with_prefix(p: &str, m: &str) -> (r: String)
    ensures
        r@ == p@ + m@,
{
    let mut v = to_chars(p);
    extend_chars(&mut v, to_chars(m).as_slice());
    from_chars(v.as_slice())
}

impl FigmaError {
    /// The message the error is shown with: see `figma_error_message`; an
    /// I/O error is shown as `IO error: ` and the system's text.
    pub fn message(&self) -> (r: String)
        ensures
            figma_error_message(*self) matches Some(m) ==> r@ == m,
    {
        match self {
            FigmaError::Config(m) => with_prefix("Config error: ", m.as_str()),
            FigmaError::Api { status, body } => {
                let mut v = to_chars("API error ");
                extend_chars(&mut v, decimal(*status as u64).as_slice());
                extend_chars(&mut v, to_chars(": ").as_slice());
                extend_chars(&mut v, to_chars(body.as_str()).as_slice());
                from_chars(v.as_slice())
            },
            FigmaError::Parse(m) => with_prefix("Parse error: ", m.as_str()),
            FigmaError::Io(e) => with_prefix("IO error: ", io_error_text(e).as_str()),
            FigmaError::Http(m) => with_prefix("HTTP error: ", m.as_str()),
            FigmaError::Json(m) => with_prefix("JSON error: ", m.as_str()),
        }
    }
}

} // verus!
