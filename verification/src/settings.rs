//! The tool's configuration settings.
//!
//! Layered loading and merging of configuration files is the caller's
//! part; this module fixes what the settings are and what their
//! defaults say.

use vstd::prelude::*;
use vstd::string::StringExecFns;

verus! {

/// The settings of one invocation: which hosting backend to talk to.
#[derive(Debug, Clone, PartialEq)]
pub struct Settings {
    pub backend: String,
}

impl Default for Settings {
    /// The default settings select the one specified hosting backend.
    fn default() -> (r: Settings)
        ensures
            r.backend@ == "github"@,
    {
        Settings { backend: String::from_str("github") }
    }
}

} // verus!
