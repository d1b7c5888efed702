//! Arguments of the status-bar helper, which shows whether a recording is
//! in progress.

use vstd::prelude::*;

use crate::cli::focal::GenerateArgs;

verus! {

/// The status-bar helper's subcommands.
#[derive(Debug)]
pub enum FocalWaybarSubcommands {
    Generate(GenerateArgs),
}

/// The status-bar helper's arguments: the messages to show while
/// recording and while idle.
#[derive(Debug)]
pub struct Cli {
    pub command: Option<FocalWaybarSubcommands>,
    pub recording: String,
    pub stopped: String,
}

impl Cli {
    /// The message the status module shows, by whether a session record
    /// exists.
    pub fn status(&self, recording: bool) -> (r: &String)
        ensures
            *r == (if recording {
                self.recording
            } else {
                self.stopped
            }),
    {
        if recording {
            &self.recording
        } else {
            &self.stopped
        }
    }
}

} // verus!
