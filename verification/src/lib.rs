use vstd::prelude::*;

pub mod config;
pub mod figma;
pub mod html;
pub mod jira;
pub mod jira_wiki;
pub mod pattern;
pub mod prd;
pub mod project_files;

pub mod templates;
pub mod text;

verus! {

} // verus!
