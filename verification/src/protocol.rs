//! What the supervisor and its driver exchange.
//!
//! The supervisor decides; the driver acts. Each [`Action`] asks the driver
//! for one piece of work on the operating system or the channel, and each
//! [`Event`] reports how that work went.

use crate::bot_parser::{BotPaths, BotPathsModel, CommandSpec, CommandSpecModel, PathProbe};
use crate::cmd_parser::{Commands, CommandsModel};
use crate::process::{Launch, LaunchModel, Poll};
use crate::text::opt_view;
use vstd::prelude::*;

verus! {

/// The views of a sequence of values.
pub open spec fn models<T: View>(items: Seq<T>) -> Seq<T::V> {
    Seq::new(items.len(), |i: int| items[i]@)
}

/// A process of the supervisor: that of a bot, by the bot's name, or that
/// of a task, by the task's id.
#[derive(Debug, PartialEq, Eq)]
pub enum Target {
    Bot(String),
    Task(String),
}

/// The mathematical content of a [`Target`].
pub enum TargetModel {
    Bot(Seq<char>),
    Task(Seq<char>),
}

impl View for Target {
    type V = TargetModel;

    open spec fn view(&self) -> TargetModel {
        match self {
            Target::Bot(name) => TargetModel::Bot(name@),
            Target::Task(id) => TargetModel::Task(id@),
        }
    }
}

/// A process to start, and the command to start it with.
#[derive(Debug, PartialEq, Eq)]
pub struct SpawnRequest {
    pub target: Target,
    pub command: CommandSpec,
}

/// The mathematical content of a [`SpawnRequest`].
pub struct SpawnRequestModel {
    pub target: TargetModel,
    pub command: CommandSpecModel,
}

impl View for SpawnRequest {
    type V = SpawnRequestModel;

    open spec fn view(&self) -> SpawnRequestModel {
        SpawnRequestModel { target: self.target@, command: self.command@ }
    }
}

/// How the restart of the control bot went.
#[derive(Debug, PartialEq, Eq)]
pub enum Restart {
    /// The old process was killed, a new one runs, and the channel is bound
    /// to the new one's pipes.
    Done,
    /// The old process could not be killed; nothing else was tried.
    KillFailed(String),
    /// The old process was killed and the new one could not be started.
    SpawnFailed(String),
}

/// The mathematical content of a [`Restart`].
pub enum RestartModel {
    Done,
    KillFailed(Seq<char>),
    SpawnFailed(Seq<char>),
}

impl View for Restart {
    type V = RestartModel;

    open spec fn view(&self) -> RestartModel {
        match self {
            Restart::Done => RestartModel::Done,
            Restart::KillFailed(message) => RestartModel::KillFailed(message@),
            Restart::SpawnFailed(message) => RestartModel::SpawnFailed(message@),
        }
    }
}

/// What the driver reports.
#[derive(Debug, PartialEq, Eq)]
pub enum Event {
    /// A command line was read and parsed.
    Command(Commands),
    /// A command line was read and not understood; the text says why.
    ParseError(String),
    /// The targets of a [`Action::Poll`] were polled, in its order.
    Polled(Vec<Poll>),
    /// The paths of an [`Action::Probe`] were looked at, in its order.
    Probed(Vec<PathProbe>),
    /// The processes of an [`Action::Spawn`] were started, in its order.
    Launched(Vec<Launch>),
    /// The targets of an [`Action::Kill`] were sent the signal.
    Killed,
    /// The line of an [`Action::Send`] was written and flushed.
    Written,
    /// The output of the target of an [`Action::Drain`] was read to its
    /// end.
    Drained { stdout: String, stderr: String },
    /// The task of an [`Action::Wait`] has exited; the code is missing
    /// where a signal ended it.
    Waited(Option<i32>),
    /// The restart of an [`Action::Restart`] was carried out.
    Restarted(Restart),
}

/// The mathematical content of an [`Event`].
pub enum EventModel {
    Command(CommandsModel),
    ParseError(Seq<char>),
    Polled(Seq<Poll>),
    Probed(Seq<PathProbe>),
    Launched(Seq<LaunchModel>),
    Killed,
    Written,
    Drained { stdout: Seq<char>, stderr: Seq<char> },
    Waited(Option<i32>),
    Restarted(RestartModel),
}

impl View for Event {
    type V = EventModel;

    open spec fn view(&self) -> EventModel {
        match self {
            Event::Command(command) => EventModel::Command(command@),
            Event::ParseError(text) => EventModel::ParseError(text@),
            Event::Polled(polls) => EventModel::Polled(polls@),
            Event::Probed(probes) => EventModel::Probed(probes@),
            Event::Launched(launches) => EventModel::Launched(models(launches@)),
            Event::Killed => EventModel::Killed,
            Event::Written => EventModel::Written,
            Event::Drained { stdout, stderr } => EventModel::Drained {
                stdout: stdout@,
                stderr: stderr@,
            },
            Event::Waited(code) => EventModel::Waited(*code),
            Event::Restarted(outcome) => EventModel::Restarted(outcome@),
        }
    }
}

/// What the supervisor asks of the driver.
#[derive(Debug, PartialEq, Eq)]
pub enum Action {
    /// Read one command line from the channel, parse it, and report
    /// [`Event::Command`] or [`Event::ParseError`].
    Read,
    /// Ask each target, without waiting, whether it still runs.
    Poll(Vec<Target>),
    /// Look at each pair of paths: does the repository open as one under
    /// version control, and is the executable a file?
    Probe(Vec<BotPaths>),
    /// Start each process with all three standard streams piped.
    Spawn(Vec<SpawnRequest>),
    /// Send each target the signal that ends it.
    Kill(Vec<Target>),
    /// Write `line` and a line feed to the bot's standard input, and flush.
    Send { bot_name: String, line: String },
    /// Read what the target wrote to its output and error streams, to the
    /// end of both.
    Drain(Target),
    /// Wait until the task has exited.
    Wait(String),
    /// Kill the control bot's process, start it again from `command`, and
    /// bind the channel to the new process's pipes.
    Restart { bot_name: String, command: CommandSpec },
    /// Write `output` to the channel and `diagnostic`, if there is one, to
    /// the error stream; then go on as for [`Action::Read`].
    Respond { output: String, diagnostic: Option<String> },
    /// Give up with this message; no further event is served.
    Fail(String),
    /// Leave the loop; no further event is served.
    Exit,
    /// The event did not answer what was asked; nothing has changed.
    Unexpected,
}

/// The mathematical content of an [`Action`].
pub enum ActionModel {
    Read,
    Poll(Seq<TargetModel>),
    Probe(Seq<BotPathsModel>),
    Spawn(Seq<SpawnRequestModel>),
    Kill(Seq<TargetModel>),
    Send { bot_name: Seq<char>, line: Seq<char> },
    Drain(TargetModel),
    Wait(Seq<char>),
    Restart { bot_name: Seq<char>, command: CommandSpecModel },
    Respond { output: Seq<char>, diagnostic: Option<Seq<char>> },
    Fail(Seq<char>),
    Exit,
    Unexpected,
}

impl View for Action {
    type V = ActionModel;

    open spec fn view(&self) -> ActionModel {
        match self {
            Action::Read => ActionModel::Read,
            Action::Poll(targets) => ActionModel::Poll(models(targets@)),
            Action::Probe(paths) => ActionModel::Probe(models(paths@)),
            Action::Spawn(requests) => ActionModel::Spawn(models(requests@)),
            Action::Kill(targets) => ActionModel::Kill(models(targets@)),
            Action::Send { bot_name, line } => ActionModel::Send {
                bot_name: bot_name@,
                line: line@,
            },
            Action::Drain(target) => ActionModel::Drain(target@),
            Action::Wait(task_id) => ActionModel::Wait(task_id@),
            Action::Restart { bot_name, command } => ActionModel::Restart {
                bot_name: bot_name@,
                command: command@,
            },
            Action::Respond { output, diagnostic } => ActionModel::Respond {
                output: output@,
                diagnostic: opt_view(*diagnostic),
            },
            Action::Fail(message) => ActionModel::Fail(message@),
            Action::Exit => ActionModel::Exit,
            Action::Unexpected => ActionModel::Unexpected,
        }
    }
}

impl Target {
    /// A copy of the target.
    pub fn copy(&self) -> (r: Target)
        ensures
            r@ == self@,
    {
        match self {
            Target::Bot(name) => Target::Bot(name.clone()),
            Target::Task(id) => Target::Task(id.clone()),
        }
    }
}

} // verus!
