//! A supervisor for a fixed set of named bot programs.
//!
//! The library holds the decisions of the supervisor: which descriptors a
//! configuration yields, which commands the maintenance tasks run, how the
//! process and task registries change under each operator command, and what is
//! written back over the terminal or the control bot's pipes. Starting,
//! polling and killing processes is left to the caller, which performs each
//! [`protocol::Action`] and reports back a [`protocol::Event`].

pub mod bot_parser;
pub mod channel;
pub mod cmd_parser;
pub mod config;
pub mod dispatcher;
pub mod laws;
pub mod paths;
pub mod process;
pub mod protocol;
pub mod registry;
pub mod text;
pub mod transition;

use vstd::prelude::*;

verus! {

/// The descriptors of a configuration, by bot name.
pub type Bots = registry::Registry<bot_parser::Bot>;

/// The process records of the bots, by bot name.
pub type BotInstances = registry::Registry<process::ProcessRecord>;

/// The maintenance tasks, by task id.
pub type Tasks = registry::Registry<process::TaskRecord>;

/// The kind of a maintenance task.
#[derive(Clone, Copy, Debug, PartialEq, Eq, Structural)]
pub enum TaskType {
    Clean,
    CleanAll,
    Build,
    Pull,
}

impl TaskType {
    /// The name under which the kind appears in task listings.
    pub open spec fn name_spec(self) -> Seq<char> {
        match self {
            TaskType::Clean => "Clean"@,
            TaskType::CleanAll => "CleanAll"@,
            TaskType::Build => "Build"@,
            TaskType::Pull => "Pull"@,
        }
    }

    /// Renders the kind as it appears in task listings.
    pub fn name(&self) -> (r: &'static str)
        ensures
            r@ == self.name_spec(),
    {
        match self {
            TaskType::Clean => "Clean",
            TaskType::CleanAll => "CleanAll",
            TaskType::Build => "Build",
            TaskType::Pull => "Pull",
        }
    }
}

} // verus!
