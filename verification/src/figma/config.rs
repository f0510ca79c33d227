//! The Figma settings, read from the settings file.
use vstd::prelude::*;
use crate::config::TuntunConfig;
use crate::figma::error::FigmaError;
use crate::text::{from_chars, to_chars};

verus! {

/// The settings the Figma commands use.
pub struct Config {
    pub personal_token: String,
    pub default_team_id: String,
    pub export_dir: String,
}

/// The message of a configuration error.
pub open spec fn figma_config_error(e: FigmaError, msg: Seq<char>) -> bool {
    e matches FigmaError::Config(m) && m@ == msg
}

impl Config {
    /// The settings from the settings file as read: a file that could not
    /// be read or parsed gives a configuration error with its message;
    /// otherwise the Figma section, with `./` as export directory where it
    /// names none.
    pub fn load(loaded: Result<TuntunConfig, String>) -> (r: Result<Config, FigmaError>)
        ensures
            match loaded {
                Err(e) => r matches Err(err) && figma_config_error(err, e@),
                Ok(cfg) => r matches Ok(c) && {
                    &&& c.personal_token@ == cfg.figma.personal_token@
                    &&& c.default_team_id@ == cfg.figma.default_team_id@
                    &&& c.export_dir@ == (if cfg.figma.export_dir@.len() == 0 {
                        "./"@
                    } else {
                        cfg.figma.export_dir@
                    })
                },
            },
    {
        match loaded {
            Err(e) => Err(FigmaError::Config(e)),
            Ok(cfg) => {
                let export_dir = if to_chars(cfg.figma.export_dir.as_str()).len() == 0 {
                    from_chars(to_chars("./").as_slice())
                } else {
                    cfg.figma.export_dir
                };
                Ok(
                    Config {
                        personal_token: cfg.figma.personal_token,
                        default_team_id: cfg.figma.default_team_id,
                        export_dir,
                    },
                )
            },
        }
    }

    /// Checks that the token is set: an empty token is a configuration
    /// error.
    pub fn validate(&self) -> (r: Result<(), FigmaError>)
        ensures
            self.personal_token@.len() == 0 ==> (r matches Err(e) && figma_config_error(
                e,
                "figma.personal_token is required. Run install.sh to set up"@,
            )),
            self.personal_token@.len() > 0 ==> r is Ok,
    {
        if to_chars(self.personal_token.as_str()).len() == 0 {
            return Err(
                FigmaError::Config(
                    from_chars(
                        to_chars("figma.personal_token is required. Run install.sh to set up").as_slice(),
                    ),
                ),
            );
        }
        Ok(())
    }
}

} // verus!
