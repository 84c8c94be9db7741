//! The command line of the tools: a global base URL and one command.

use vstd::prelude::*;

verus! {

/// The parsed command line.
#[derive(Debug)]
pub struct Cli {
    /// YouTrack API base URL (overrides the `YOUTRACK_BASE_URL` environment
    /// variable).
    pub base_url: Option<String>,
    pub command: Command,
}

/// The top-level commands.
#[derive(Debug)]
pub enum Command {
    /// Print version, OS/arch, and Rust compiler information.
    Version,
    /// Manage YouTrack custom field resources.
    Customfields { action: CustomfieldsCommand },
    /// Manage YouTrack projects.
    Projects { action: ProjectsCommand },
}

/// The `customfields` subcommands.
#[derive(Debug)]
pub enum CustomfieldsCommand {
    /// List all custom fields, optionally of one project, with pagination.
    List { project: Option<String>, skip: Option<u32>, top: Option<u32> },
    /// Describe a custom field by name.
    Describe { project: Option<String>, name: String },
    /// Create a new custom field (globally, then attached to a project when
    /// one is given).
    Create {
        project: Option<String>,
        name: String,
        field_type: String,
        auto_attach: Option<bool>,
    },
    /// Create a new value in a custom field's bundle.
    CreateValue { project: Option<String>, field_name: String, value: String },
}

/// The `projects` subcommands.
#[derive(Debug)]
pub enum ProjectsCommand {
    /// List all projects, with pagination.
    List { skip: Option<u32>, top: Option<u32> },
    /// Describe a project by short name.
    Describe { name: String },
}

} // verus!
