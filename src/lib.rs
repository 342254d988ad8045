//! Verified core of a tool that keeps a local script project in step with its
//! remote record: path handling, change classification, the pending-update queue,
//! the remote update request, and the decisions made on the service's answers.
use vstd::prelude::*;

pub mod client;
pub mod editor;
pub mod error;
pub mod path;
pub mod project;
pub mod queue;
pub mod update;

verus! {

/// A command of the command-line program.
#[derive(Clone, Debug)]
pub enum Command {
    /// Log in, from the browser's cookies or from a new browser window.
    Login { spawn_chromium: bool },
    /// Show the account that is logged in.
    View,
    /// Create a new project in a directory.
    Init { project_directory: String },
    /// List the scripts of the account.
    List,
    /// Fetch a script into a new project directory.
    Pull { script_id: String, project_directory: String },
    /// Send the project in the current directory.
    Push,
    /// Send the project in the current directory, then every change to it.
    Watch,
    /// Make a key for a script; by default the script of the current project.
    Generate { id: Option<String> },
}

} // verus!
