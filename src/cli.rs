//! The command line of the detached-runs manager, as plain values.

use vstd::prelude::*;

verus! {

/// What to do with the detached runs of a workspace (those started in the
/// background with `--detach`).
#[derive(Debug, Clone, Copy, PartialEq, Eq)]
pub enum Command {
    /// List the detached runs (alias `ls`).
    List,
    /// Stop one detached run.
    Kill,
    /// Stop every detached run.
    KillAll,
    /// Show the logs of a detached run.
    Logs,
    /// Remove the records of a finished run.
    Clear,
    /// Remove the records of every finished run.
    ClearAll,
}

/// Manages the detached runs of the workspace.
#[derive(Debug, Clone, PartialEq, Eq)]
pub struct Args {
    /// The path to the workspace manifest.
    pub manifest_path: Option<String>,
    /// The subcommand to execute.
    pub command: Command,
}

} // verus!
