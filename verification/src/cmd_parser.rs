//! The typed commands of the operator interface.

use crate::text::{copy_strings, opt_view, views};
use vstd::prelude::*;

verus! {

/// One parsed command line.
#[derive(Debug, PartialEq, Eq)]
pub struct Cli {
    pub command: Commands,
}

/// The commands that the supervisor serves.
#[allow(inconsistent_fields)]
#[derive(Debug, PartialEq, Eq)]
pub enum Commands {
    /// List the names of all bots of the configuration in one line.
    List,
    /// List every bot process, one per line, with name and status.
    ListStatus,
    /// List every task, one per line, with id, bot, kind, serial number and
    /// status.
    ListTasks,
    /// The status of one bot process.
    Status { bot_name: String },
    /// The status of one task.
    TaskStatus { task_id: String },
    /// Clean the repository of a bot without removing its executable.
    Clean { bot_name: String },
    /// Clean the repository of a bot.
    CleanAll { bot_name: String },
    /// Build a bot in its repository.
    Build { bot_name: String },
    /// Update the repository of a bot.
    Pull { bot_name: String },
    /// Start a bot unless it has a process record already.
    Start { bot_name: String },
    /// Write the words, joined by single spaces, as one line to a bot's
    /// standard input.
    Msg { bot_name: String, message: Vec<String> },
    /// Check the paths of one bot, or of all bots.
    Verify { bot_name: Option<String> },
    /// Stop a bot.
    Kill { bot_name: String },
    /// Kill the control bot and start it again.
    ControlRestart,
    /// Stop a task.
    Terminate { task_id: String },
    /// Report exit status and output of a bot that has exited, and forget it.
    Conclude { bot_name: String },
    /// Wait until a task has exited.
    Wait { task_id: String },
    /// Report exit status and output of a task that has exited, and forget
    /// it.
    Finish { task_id: String },
    /// Stop every running bot and task and leave.
    Exit,
}

/// The mathematical content of a [`Commands`] value.
#[allow(inconsistent_fields)]
pub enum CommandsModel {
    List,
    ListStatus,
    ListTasks,
    Status { bot_name: Seq<char> },
    TaskStatus { task_id: Seq<char> },
    Clean { bot_name: Seq<char> },
    CleanAll { bot_name: Seq<char> },
    Build { bot_name: Seq<char> },
    Pull { bot_name: Seq<char> },
    Start { bot_name: Seq<char> },
    Msg { bot_name: Seq<char>, message: Seq<Seq<char>> },
    Verify { bot_name: Option<Seq<char>> },
    Kill { bot_name: Seq<char> },
    ControlRestart,
    Terminate { task_id: Seq<char> },
    Conclude { bot_name: Seq<char> },
    Wait { task_id: Seq<char> },
    Finish { task_id: Seq<char> },
    Exit,
}

impl View for Commands {
    type V = CommandsModel;

    open spec fn view(&self) -> CommandsModel {
        match self {
            Commands::List => CommandsModel::List,
            Commands::ListStatus => CommandsModel::ListStatus,
            Commands::ListTasks => CommandsModel::ListTasks,
            Commands::Status { bot_name } => CommandsModel::Status { bot_name: bot_name@ },
            Commands::TaskStatus { task_id } => CommandsModel::TaskStatus { task_id: task_id@ },
            Commands::Clean { bot_name } => CommandsModel::Clean { bot_name: bot_name@ },
            Commands::CleanAll { bot_name } => CommandsModel::CleanAll { bot_name: bot_name@ },
            Commands::Build { bot_name } => CommandsModel::Build { bot_name: bot_name@ },
            Commands::Pull { bot_name } => CommandsModel::Pull { bot_name: bot_name@ },
            Commands::Start { bot_name } => CommandsModel::Start { bot_name: bot_name@ },
            Commands::Msg { bot_name, message } => CommandsModel::Msg {
                bot_name: bot_name@,
                message: views(message@),
            },
            Commands::Verify { bot_name } => CommandsModel::Verify { bot_name: opt_view(*bot_name) },
            Commands::Kill { bot_name } => CommandsModel::Kill { bot_name: bot_name@ },
            Commands::ControlRestart => CommandsModel::ControlRestart,
            Commands::Terminate { task_id } => CommandsModel::Terminate { task_id: task_id@ },
            Commands::Conclude { bot_name } => CommandsModel::Conclude { bot_name: bot_name@ },
            Commands::Wait { task_id } => CommandsModel::Wait { task_id: task_id@ },
            Commands::Finish { task_id } => CommandsModel::Finish { task_id: task_id@ },
            Commands::Exit => CommandsModel::Exit,
        }
    }
}

impl View for Cli {
    type V = CommandsModel;

    open spec fn view(&self) -> CommandsModel {
        self.command@
    }
}

impl Commands {
    /// A copy of the command.
    pub fn copy(&self) -> (r: Commands)
        ensures
            r@ == self@,
    {
        match self {
            Commands::List => Commands::List,
            Commands::ListStatus => Commands::ListStatus,
            Commands::ListTasks => Commands::ListTasks,
            Commands::Status { bot_name } => Commands::Status { bot_name: bot_name.clone() },
            Commands::TaskStatus { task_id } => Commands::TaskStatus { task_id: task_id.clone() },
            Commands::Clean { bot_name } => Commands::Clean { bot_name: bot_name.clone() },
            Commands::CleanAll { bot_name } => Commands::CleanAll { bot_name: bot_name.clone() },
            Commands::Build { bot_name } => Commands::Build { bot_name: bot_name.clone() },
            Commands::Pull { bot_name } => Commands::Pull { bot_name: bot_name.clone() },
            Commands::Start { bot_name } => Commands::Start { bot_name: bot_name.clone() },
            Commands::Msg { bot_name, message } => Commands::Msg {
                bot_name: bot_name.clone(),
                message: copy_strings(message),
            },
            Commands::Verify { bot_name } => Commands::Verify { bot_name: bot_name.clone() },
            Commands::Kill { bot_name } => Commands::Kill { bot_name: bot_name.clone() },
            Commands::ControlRestart => Commands::ControlRestart,
            Commands::Terminate { task_id } => Commands::Terminate { task_id: task_id.clone() },
            Commands::Conclude { bot_name } => Commands::Conclude { bot_name: bot_name.clone() },
            Commands::Wait { task_id } => Commands::Wait { task_id: task_id.clone() },
            Commands::Finish { task_id } => Commands::Finish { task_id: task_id.clone() },
            Commands::Exit => Commands::Exit,
        }
    }
}

} // verus!
