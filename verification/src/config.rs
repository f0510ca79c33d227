//! The settings file in the user's home directory: one section per
//! service.
use vstd::prelude::*;

verus! {

/// The whole settings file.
#[derive(Debug)]
pub struct TuntunConfig {
    pub jira: JiraSection,
    pub wiki: WikiSection,
    pub figma: FigmaSection,
}

/// The Jira section: token and REST API base URL.
#[derive(Debug)]
pub struct JiraSection {
    pub access_token: String,
    pub base_url: String,
}

/// The Confluence section: token and REST API base URL.
#[derive(Debug)]
pub struct WikiSection {
    pub access_token: String,
    pub base_url: String,
}

/// The Figma section: token, default team, export directory.
#[derive(Debug)]
pub struct FigmaSection {
    pub personal_token: String,
    pub default_team_id: String,
    pub export_dir: String,
}

/// The export directory used where the Figma section names none.
pub fn default_export_dir() -> (r: String)
    ensures
        r@ == "./"@,
{
    crate::text::from_chars(crate::text::to_chars("./").as_slice())
}

} // verus!
