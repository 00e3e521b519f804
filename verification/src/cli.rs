//! The command line, as the values it was parsed into, and the action it asks for.
use vstd::prelude::*;

use crate::state::Action;

verus! {

/// A tiny terminal cat companion: the flags of one run.
#[derive(Debug)]
pub struct Cli {
    /// Pat Haru (counts toward today's pats)
    pub pat: bool,
    /// Feed Haru (counts toward today's feeds)
    pub feed: bool,
    /// Show Haru's status
    pub status: bool,
    /// Force a language (e.g. `en`, `zh`); overrides auto-detection
    pub lang: Option<String>,
}

/// The action that a set of flags asks for: status over feed over pat, and a
/// plain summon when none is given.
pub open spec fn chosen_action(status: bool, feed: bool, pat: bool) -> Action {
    if status {
        Action::Status
    } else if feed {
        Action::Feed
    } else if pat {
        Action::Pat
    } else {
        Action::Summon
    }
}

impl Cli {
    /// Resolve the action. If several flags are given, priority is
    /// status > feed > pat, then a plain summon.
    pub fn action(&self) -> (r: Action)
        ensures
            r == chosen_action(self.status, self.feed, self.pat),
    {
        if self.status {
            Action::Status
        } else if self.feed {
            Action::Feed
        } else if self.pat {
            Action::Pat
        } else {
            Action::Summon
        }
    }
}

} // verus!
