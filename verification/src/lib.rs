//! Verified core of a command-line dependency installer for
//! smart-contract projects.
//!
//! Given a `name~version` token the tool fetches a packaged artifact,
//! unpacks it into a project-local dependency directory, records the
//! dependency in the project manifest and verifies the result.  This
//! crate holds the logic of that pipeline — dependency token parsing,
//! registry lookup, manifest upserts, health checking, cleanup planning
//! and the orchestrating state machines — with contracts checked by
//! Verus.
//! The surrounding binary performs the network and filesystem actions
//! the machines ask for and feeds the outcomes back as events.
use vstd::prelude::*;

pub mod commands;
pub mod config;
pub mod errors;
pub mod janitor;
pub mod orchestrator;
pub mod registry;

verus! {

/// Build-tool integration probe result: whether a build-tool
/// configuration was found, so that import remappings should be
/// regenerated after dependency changes.
pub struct FOUNDRY {
    pub remappings: bool,
}

impl FOUNDRY {
    pub fn new(remappings: bool) -> (f: FOUNDRY)
        ensures
            f.remappings == remappings,
    {
        FOUNDRY { remappings }
    }
}

} // verus!
