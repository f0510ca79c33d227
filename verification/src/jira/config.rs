//! The Jira and Confluence settings, read from the settings file.
use vstd::prelude::*;
use crate::config::TuntunConfig;
use crate::jira::error::{config_error, JiraError};
use crate::text::{find, find_spec, from_chars, slice_vec, to_chars, trim_end_char, trim_end_char_spec};

verus! {

/// The settings the Jira and Confluence commands use.
pub struct Config {
    pub jira_token: String,
    pub wiki_token: String,
    pub base_url_jira: String,
    pub base_url_api: String,
    pub base_url_wiki: String,
}

/// The site root of a Confluence REST API URL: what comes before
/// `/rest/api/`, or the URL without trailing slashes where it has none.
pub open spec fn wiki_base_spec(api_url: Seq<char>) -> Seq<char> {
    match find_spec(api_url, "/rest/api/"@) {
        Some(i) => api_url.take(i),
        None => trim_end_char_spec(api_url, '/'),
    }
}

/// Derives the Confluence site root: see `wiki_base_spec`.
pub fn derive_wiki_base(api_url: &str) -> (r: String)
    ensures
        r@ == wiki_base_spec(api_url@),
{
    let u = to_chars(api_url);
    match find(u.as_slice(), to_chars("/rest/api/").as_slice()) {
        Some(i) => {
            proof {
                crate::text::lemma_find_from_bounds(u@, "/rest/api/"@, 0);
            }
            from_chars(slice_vec(u.as_slice(), 0, i).as_slice())
        },
        None => from_chars(trim_end_char(u.as_slice(), '/').as_slice()),
    }
}

impl Config {
    /// The settings from the settings file as read: a file that could not
    /// be read or parsed gives a configuration error with its message;
    /// otherwise the tokens and URLs of the Jira and Confluence sections,
    /// with the Confluence site root derived from its API URL.
    pub fn load(loaded: Result<TuntunConfig, String>) -> (r: Result<Config, JiraError>)
        ensures
            match loaded {
                Err(e) => r matches Err(err) && config_error(err, e@),
                Ok(cfg) => r matches Ok(c) && {
                    &&& c.jira_token@ == cfg.jira.access_token@
                    &&& c.wiki_token@ == cfg.wiki.access_token@
                    &&& c.base_url_jira@ == cfg.jira.base_url@
                    &&& c.base_url_api@ == cfg.wiki.base_url@
                    &&& c.base_url_wiki@ == wiki_base_spec(cfg.wiki.base_url@)
                },
            },
    {
        match loaded {
            Err(e) => Err(JiraError::Config(e)),
            Ok(cfg) => {
                let wiki_base = derive_wiki_base(cfg.wiki.base_url.as_str());
                Ok(Config {
                    jira_token: cfg.jira.access_token,
                    wiki_token: cfg.wiki.access_token,
                    base_url_jira: cfg.jira.base_url,
                    base_url_api: cfg.wiki.base_url,
                    base_url_wiki: wiki_base,
                })
            },
        }
    }

    /// Checks that the Jira URL and token are set: an empty URL, then an
    /// empty token, is a configuration error.
    pub fn validate(&self) -> (r: Result<(), JiraError>)
        ensures
            self.base_url_jira@.len() == 0 ==> (r matches Err(e) && config_error(
                e,
                "jira.base_url is required"@,
            )),
            self.base_url_jira@.len() > 0 && self.jira_token@.len() == 0 ==> (r matches Err(e)
                && config_error(
                e,
                "jira.access_token is required. Run install.sh to set up credentials"@,
            )),
            self.base_url_jira@.len() > 0 && self.jira_token@.len() > 0 ==> r is Ok,
    {
        if to_chars(self.base_url_jira.as_str()).len() == 0 {
            return Err(
                JiraError::Config(from_chars(to_chars("jira.base_url is required").as_slice())),
            );
        }
        if to_chars(self.jira_token.as_str()).len() == 0 {
            return Err(
                JiraError::Config(
                    from_chars(
                        to_chars(
                            "jira.access_token is required. Run install.sh to set up credentials",
                        ).as_slice(),
                    ),
                ),
            );
        }
        Ok(())
    }
}

} // verus!
