//! The supervisor as a state machine over mathematical values.
//!
//! [`step`] says, for every state and every event, what the next state is
//! and what the driver is asked to do next. The executable supervisor in
//! [`crate::dispatcher`] is proved to follow it.

use crate::bot_parser::{
    build_command, clean_all_command, clean_command, paths_of, pull_command, run_command,
    verify_outcome, BotModel, BotPathsModel, CommandSpecModel, PathProbe,
};
use crate::channel::{exit_report, wire};
use crate::cmd_parser::CommandsModel;
use crate::process::{
    launched, observe, status_text, task_id, task_line, LaunchModel, Poll, RecordModel, TaskModel,
};
use crate::protocol::{ActionModel, EventModel, RestartModel, SpawnRequestModel, TargetModel};
use crate::registry::{distinct_keys, has_key, keys_of, lookup, with_entry, without_key};
use crate::text::join;
use crate::TaskType;
use vstd::prelude::*;

verus! {

/// What the supervisor waits for.
pub enum PhaseModel {
    /// For the bots of the configuration to be started.
    Starting,
    /// For the next command.
    Idle,
    /// For the polls that the command needs.
    Polling(CommandsModel),
    /// For a look at the paths of one bot, or of all.
    Probing(Option<Seq<char>>),
    /// For a bot (`kind` is `None`) or a task of the bot to be started.
    Launching { bot_name: Seq<char>, kind: Option<TaskType> },
    /// For the target to be sent its signal.
    Killing(TargetModel),
    /// For everything that still runs to be sent its signal, on the way out.
    Reaping,
    /// For a line to be written to a bot.
    Sending,
    /// For the output of a target that exited with `code`.
    Draining { target: TargetModel, code: int },
    /// For the task to exit.
    Waiting(Seq<char>),
    /// For the control bot to be replaced.
    Restarting,
    /// For nothing: the supervisor has left its loop.
    Stopped,
}

/// The state of the supervisor.
pub struct HubModel {
    /// The descriptors, by bot name. Never changed.
    pub bots: Seq<(Seq<char>, BotModel)>,
    /// The bot whose pipes carry the commands, if any does.
    pub control_bot: Option<Seq<char>>,
    /// The process records of the bots, by bot name.
    pub instances: Seq<(Seq<char>, RecordModel)>,
    /// The tasks, by task id.
    pub tasks: Seq<(Seq<char>, TaskModel)>,
    /// The serial number of the next task.
    pub next_serial: int,
    pub phase: PhaseModel,
}

/// Whether the registries of `s` hold no key twice.
pub open spec fn registries_sound(s: HubModel) -> bool {
    distinct_keys(s.instances) && distinct_keys(s.tasks)
}

/// The serial number after `serial`: one more, and zero after the largest.
pub open spec fn next_serial(serial: int) -> int {
    if serial >= u32::MAX {
        0
    } else {
        serial + 1
    }
}

/// The action that writes `body` as a response.
pub open spec fn respond(s: HubModel, body: Seq<char>) -> ActionModel {
    ActionModel::Respond { output: wire(s.control_bot is Some, body), diagnostic: None }
}

/// The state moved to `phase`, with `action` asked of the driver.
pub open spec fn enter(s: HubModel, phase: PhaseModel, action: ActionModel) -> (
    HubModel,
    ActionModel,
) {
    (HubModel { phase, ..s }, action)
}

/// The command is done: `body` is the response, and the next command is
/// awaited.
pub open spec fn reply(s: HubModel, body: Seq<char>) -> (HubModel, ActionModel) {
    enter(s, PhaseModel::Idle, respond(s, body))
}

/// The bots whose process has not been seen to exit, in the registry's
/// order.
pub open spec fn running_bots(instances: Seq<(Seq<char>, RecordModel)>) -> Seq<TargetModel>
    decreases instances.len(),
{
    if instances.len() == 0 {
        Seq::empty()
    } else {
        let rest = running_bots(instances.drop_last());
        if instances.last().1 is Spawned {
            rest.push(TargetModel::Bot(instances.last().0))
        } else {
            rest
        }
    }
}

/// The tasks whose process has not been seen to exit, in the registry's
/// order.
pub open spec fn running_tasks(tasks: Seq<(Seq<char>, TaskModel)>) -> Seq<TargetModel>
    decreases tasks.len(),
{
    if tasks.len() == 0 {
        Seq::empty()
    } else {
        let rest = running_tasks(tasks.drop_last());
        if tasks.last().1.process is Spawned {
            rest.push(TargetModel::Task(tasks.last().0))
        } else {
            rest
        }
    }
}

/// Every process that has not been seen to exit: bots first, then tasks.
pub open spec fn running(s: HubModel) -> Seq<TargetModel> {
    running_bots(s.instances) + running_tasks(s.tasks)
}

/// The process record of `target`, if it has one.
pub open spec fn record_of(s: HubModel, target: TargetModel) -> Option<RecordModel> {
    match target {
        TargetModel::Bot(name) => lookup(s.instances, name),
        TargetModel::Task(id) => match lookup(s.tasks, id) {
            Some(task) => Some(task.process),
            None => None,
        },
    }
}

/// The state after a poll of `target`: its record, if it has one, observes
/// the poll.
pub open spec fn observed(s: HubModel, target: TargetModel, poll: Poll) -> HubModel {
    match target {
        TargetModel::Bot(name) => match lookup(s.instances, name) {
            Some(record) => HubModel {
                instances: with_entry(s.instances, name, observe(record, poll)),
                ..s
            },
            None => s,
        },
        TargetModel::Task(id) => match lookup(s.tasks, id) {
            Some(task) => HubModel {
                tasks: with_entry(
                    s.tasks,
                    id,
                    TaskModel { process: observe(task.process, poll), ..task },
                ),
                ..s
            },
            None => s,
        },
    }
}

/// The state after the polls of `targets`, one poll for each target, in
/// order.
pub open spec fn observed_all(s: HubModel, targets: Seq<TargetModel>, polls: Seq<Poll>) -> HubModel
    decreases targets.len(),
{
    if targets.len() == 0 || polls.len() < targets.len() {
        s
    } else {
        observed(
            observed_all(s, targets.drop_last(), polls),
            targets.last(),
            polls[targets.len() - 1],
        )
    }
}

/// The state without the record of `target`.
pub open spec fn forgotten(s: HubModel, target: TargetModel) -> HubModel {
    match target {
        TargetModel::Bot(name) => HubModel { instances: without_key(s.instances, name), ..s },
        TargetModel::Task(id) => HubModel { tasks: without_key(s.tasks, id), ..s },
    }
}

/// `target` alone if its process has not been seen to exit, nothing
/// otherwise.
pub open spec fn if_running(s: HubModel, target: TargetModel) -> Seq<TargetModel> {
    if record_of(s, target) == Some(RecordModel::Spawned) {
        seq![target]
    } else {
        Seq::empty()
    }
}

/// The processes that must be polled before `command` can be answered.
pub open spec fn poll_targets(s: HubModel, command: CommandsModel) -> Seq<TargetModel> {
    match command {
        CommandsModel::ListStatus => running_bots(s.instances),
        CommandsModel::ListTasks => running_tasks(s.tasks),
        CommandsModel::Exit => running(s),
        CommandsModel::Status { bot_name } => if_running(s, TargetModel::Bot(bot_name)),
        CommandsModel::Msg { bot_name, message } => if_running(s, TargetModel::Bot(bot_name)),
        CommandsModel::Kill { bot_name } => if_running(s, TargetModel::Bot(bot_name)),
        CommandsModel::Conclude { bot_name } => if_running(s, TargetModel::Bot(bot_name)),
        CommandsModel::TaskStatus { task_id } => if_running(s, TargetModel::Task(task_id)),
        CommandsModel::Terminate { task_id } => if_running(s, TargetModel::Task(task_id)),
        CommandsModel::Wait { task_id } => if_running(s, TargetModel::Task(task_id)),
        CommandsModel::Finish { task_id } => if_running(s, TargetModel::Task(task_id)),
        _ => Seq::empty(),
    }
}

/// The polls that `command` needs are asked for.
pub open spec fn poll(s: HubModel, command: CommandsModel) -> (HubModel, ActionModel) {
    enter(s, PhaseModel::Polling(command), ActionModel::Poll(poll_targets(s, command)))
}

/// The listing of the bot processes: a line for each, with name and status.
pub open spec fn status_lines(instances: Seq<(Seq<char>, RecordModel)>) -> Seq<char>
    decreases instances.len(),
{
    if instances.len() == 0 {
        Seq::empty()
    } else {
        status_lines(instances.drop_last()) + instances.last().0 + " "@ + status_text(
            instances.last().1,
        ) + "\n"@
    }
}

/// The listing of the tasks: a line for each.
pub open spec fn task_lines(tasks: Seq<(Seq<char>, TaskModel)>) -> Seq<char>
    decreases tasks.len(),
{
    if tasks.len() == 0 {
        Seq::empty()
    } else {
        task_lines(tasks.drop_last()) + task_line(tasks.last().0, tasks.last().1) + "\n"@
    }
}

/// The verdict on one bot's paths, as it reads in a response.
pub open spec fn verdict(bot: BotModel, probe: PathProbe) -> Seq<char> {
    match verify_outcome(bot, probe.repo_is_git, probe.executable_is_file) {
        Ok(_) => "ok"@,
        Err(message) => "err "@ + message,
    }
}

/// The verdicts on all bots: a line for each, with name and verdict.
pub open spec fn verdict_lines(bots: Seq<(Seq<char>, BotModel)>, probes: Seq<PathProbe>) -> Seq<
    char,
>
    decreases bots.len(),
{
    if bots.len() == 0 || probes.len() < bots.len() {
        Seq::empty()
    } else {
        verdict_lines(bots.drop_last(), probes) + bots.last().0 + " "@ + verdict(
            bots.last().1,
            probes[bots.len() - 1],
        ) + "\n"@
    }
}

/// The paths of all bots, in the configuration's order.
pub open spec fn all_paths(bots: Seq<(Seq<char>, BotModel)>) -> Seq<BotPathsModel> {
    Seq::new(bots.len(), |i: int| paths_of(bots[i].1))
}

/// The requests that start every bot of the configuration.
pub open spec fn start_requests(bots: Seq<(Seq<char>, BotModel)>) -> Seq<SpawnRequestModel> {
    Seq::new(
        bots.len(),
        |i: int|
            SpawnRequestModel {
                target: TargetModel::Bot(bots[i].0),
                command: run_command(bots[i].1),
            },
    )
}

/// The records that starting every bot leaves.
pub open spec fn started_records(
    bots: Seq<(Seq<char>, BotModel)>,
    launches: Seq<LaunchModel>,
) -> Seq<(Seq<char>, RecordModel)> {
    Seq::new(bots.len(), |i: int| (bots[i].0, launched(launches[i])))
}

/// The request that starts the next task with `command`.
pub open spec fn task_request(s: HubModel, command: CommandSpecModel) -> ActionModel {
    ActionModel::Spawn(
        seq![
            SpawnRequestModel {
                target: TargetModel::Task(task_id(s.next_serial)),
                command,
            },
        ],
    )
}

/// The state with the next task recorded for `bot_name`, and the response
/// that names it.
pub open spec fn task_created(
    s: HubModel,
    bot_name: Seq<char>,
    kind: TaskType,
    process: RecordModel,
) -> (HubModel, ActionModel) {
    let id = task_id(s.next_serial);
    let task = TaskModel { bot_name, kind, serial: s.next_serial, process };
    reply(
        HubModel {
            tasks: with_entry(s.tasks, id, task),
            next_serial: next_serial(s.next_serial),
            ..s
        },
        "some "@ + id + "\n"@,
    )
}

/// A maintenance command for `bot_name`: unknown bots and bots without a
/// repository are answered at once; otherwise the task is started with the
/// command that the descriptor gives for its kind.
pub open spec fn maintain(s: HubModel, bot_name: Seq<char>, kind: TaskType) -> (
    HubModel,
    ActionModel,
) {
    match lookup(s.bots, bot_name) {
        None => reply(s, "none\n"@),
        Some(bot) => if bot.repo_path is None {
            reply(s, "some no_repo\n"@)
        } else {
            let launching = PhaseModel::Launching { bot_name, kind: Some(kind) };
            match kind {
                TaskType::Clean => enter(s, launching, task_request(s, clean_command(bot)->Ok_0)),
                TaskType::CleanAll => enter(
                    s,
                    launching,
                    task_request(s, clean_all_command(bot)->Ok_0),
                ),
                TaskType::Build => enter(s, launching, task_request(s, build_command(bot)->Ok_0)),
                TaskType::Pull => enter(s, launching, task_request(s, pull_command(bot)->Ok_0)),
            }
        },
    }
}

/// What a command that acts on a running process does with `target`:
/// `prefix` starts every response; a process that is absent, failed to
/// start or has exited is answered at once; one that may still run is
/// polled first, and then `act` is asked of the driver.
pub open spec fn act_on(
    s: HubModel,
    command: CommandsModel,
    polled: bool,
    target: TargetModel,
    prefix: Seq<char>,
    phase: PhaseModel,
    act: ActionModel,
) -> (HubModel, ActionModel) {
    match record_of(s, target) {
        None => reply(s, "none\n"@),
        Some(RecordModel::SpawnFailed(_)) => reply(s, prefix + "failed\n"@),
        Some(RecordModel::Exited(_)) => reply(s, prefix + "started exited\n"@),
        Some(RecordModel::Spawned) => if polled {
            enter(s, phase, act)
        } else {
            poll(s, command)
        },
    }
}

/// What a command that reports on an exited process does with `target`: a
/// process that may still run is polled first and, if it runs, left alone;
/// one that has exited is drained before its record goes.
pub open spec fn report_on(
    s: HubModel,
    command: CommandsModel,
    polled: bool,
    target: TargetModel,
) -> (HubModel, ActionModel) {
    match record_of(s, target) {
        None => reply(s, "none\n"@),
        Some(RecordModel::SpawnFailed(message)) => match target {
            TargetModel::Bot(_) => reply(forgotten(s, target), "some failed "@ + message + "\n"@),
            TargetModel::Task(_) => reply(s, "some failed\n"@),
        },
        Some(RecordModel::Exited(code)) => enter(
            s,
            PhaseModel::Draining { target, code },
            ActionModel::Drain(target),
        ),
        Some(RecordModel::Spawned) => if polled {
            reply(s, "some started running\n"@)
        } else {
            poll(s, command)
        },
    }
}

/// What `command` does. `polled` says whether the polls that the command
/// needs have been made: where they have, a record that is still `Spawned`
/// stands for a process that runs.
pub open spec fn dispatch(s: HubModel, command: CommandsModel, polled: bool) -> (
    HubModel,
    ActionModel,
) {
    match command {
        CommandsModel::List => reply(s, join(keys_of(s.bots), " "@) + "\n"@),
        CommandsModel::ListStatus => if polled {
            reply(s, status_lines(s.instances))
        } else {
            poll(s, command)
        },
        CommandsModel::ListTasks => if polled {
            reply(s, task_lines(s.tasks))
        } else {
            poll(s, command)
        },
        CommandsModel::Status { bot_name } => match lookup(s.instances, bot_name) {
            None => reply(s, "none\n"@),
            Some(record) => if record is Spawned && !polled {
                poll(s, command)
            } else {
                reply(s, "some "@ + status_text(record) + "\n"@)
            },
        },
        CommandsModel::TaskStatus { task_id } => match lookup(s.tasks, task_id) {
            None => reply(s, "none\n"@),
            Some(task) => if task.process is Spawned && !polled {
                poll(s, command)
            } else {
                reply(s, "some "@ + task_line(task_id, task) + "\n"@)
            },
        },
        CommandsModel::Clean { bot_name } => maintain(s, bot_name, TaskType::Clean),
        CommandsModel::CleanAll { bot_name } => maintain(s, bot_name, TaskType::CleanAll),
        CommandsModel::Build { bot_name } => maintain(s, bot_name, TaskType::Build),
        CommandsModel::Pull { bot_name } => maintain(s, bot_name, TaskType::Pull),
        CommandsModel::Start { bot_name } => if has_key(s.instances, bot_name) {
            reply(s, "exists\n"@)
        } else {
            match lookup(s.bots, bot_name) {
                None => reply(s, "none none\n"@),
                Some(bot) => enter(
                    s,
                    PhaseModel::Launching { bot_name, kind: None },
                    ActionModel::Spawn(
                        seq![
                            SpawnRequestModel {
                                target: TargetModel::Bot(bot_name),
                                command: run_command(bot),
                            },
                        ],
                    ),
                ),
            }
        },
        CommandsModel::Msg { bot_name, message } => act_on(
            s,
            command,
            polled,
            TargetModel::Bot(bot_name),
            ""@,
            PhaseModel::Sending,
            ActionModel::Send { bot_name, line: join(message, " "@) },
        ),
        CommandsModel::Verify { bot_name } => match bot_name {
            Some(name) => match lookup(s.bots, name) {
                None => reply(s, "none\n"@),
                Some(bot) => enter(
                    s,
                    PhaseModel::Probing(bot_name),
                    ActionModel::Probe(seq![paths_of(bot)]),
                ),
            },
            None => enter(s, PhaseModel::Probing(None), ActionModel::Probe(all_paths(s.bots))),
        },
        CommandsModel::Kill { bot_name } => act_on(
            s,
            command,
            polled,
            TargetModel::Bot(bot_name),
            ""@,
            PhaseModel::Killing(TargetModel::Bot(bot_name)),
            ActionModel::Kill(seq![TargetModel::Bot(bot_name)]),
        ),
        CommandsModel::ControlRestart => match control_descriptor(s) {
            None => enter(
                s,
                PhaseModel::Idle,
                ActionModel::Respond {
                    output: wire(s.control_bot is Some, ""@),
                    diagnostic: Some(not_applicable_message()),
                },
            ),
            Some(bot) => enter(
                s,
                PhaseModel::Restarting,
                ActionModel::Restart { bot_name: s.control_bot->0, command: run_command(bot) },
            ),
        },
        CommandsModel::Terminate { task_id } => act_on(
            s,
            command,
            polled,
            TargetModel::Task(task_id),
            "some "@,
            PhaseModel::Killing(TargetModel::Task(task_id)),
            ActionModel::Kill(seq![TargetModel::Task(task_id)]),
        ),
        CommandsModel::Conclude { bot_name } => report_on(
            s,
            command,
            polled,
            TargetModel::Bot(bot_name),
        ),
        CommandsModel::Wait { task_id } => act_on(
            s,
            command,
            polled,
            TargetModel::Task(task_id),
            "some "@,
            PhaseModel::Waiting(task_id),
            ActionModel::Wait(task_id),
        ),
        CommandsModel::Finish { task_id } => report_on(
            s,
            command,
            polled,
            TargetModel::Task(task_id),
        ),
        CommandsModel::Exit => if polled {
            enter(s, PhaseModel::Reaping, ActionModel::Kill(running(s)))
        } else {
            poll(s, command)
        },
    }
}

/// The descriptor of the control bot, if there is a control bot.
pub open spec fn control_descriptor(s: HubModel) -> Option<BotModel> {
    match s.control_bot {
        Some(name) => lookup(s.bots, name),
        None => None,
    }
}

/// The diagnostic for a restart of the control bot where there is none.
pub open spec fn not_applicable_message() -> Seq<char> {
    "control_restart is not applicable: no control bot is configured\n"@
}

/// The message for a control bot that is none of the bots.
pub open spec fn unknown_control_message() -> Seq<char> {
    "control_bot should contain a bot name presented in a bot table"@
}

/// The message for a control bot that could not be started.
pub open spec fn control_failed_message(reason: Seq<char>) -> Seq<char> {
    "Failed starting control_bot:\n\t"@ + reason
}

/// The state in which the supervisor has left its loop, all records gone.
pub open spec fn stopped(s: HubModel) -> HubModel {
    HubModel { instances: Seq::empty(), tasks: Seq::empty(), phase: PhaseModel::Stopped, ..s }
}

/// The first state of a supervisor for `bots`, and its first request: to
/// start every bot. A control bot that is none of the bots stops it at
/// once.
pub open spec fn launch(bots: Seq<(Seq<char>, BotModel)>, control_bot: Option<Seq<char>>) -> (
    HubModel,
    ActionModel,
) {
    let s = HubModel {
        bots,
        control_bot,
        instances: Seq::empty(),
        tasks: Seq::empty(),
        next_serial: 0,
        phase: PhaseModel::Starting,
    };
    if control_bot is Some && !has_key(bots, control_bot->0) {
        enter(s, PhaseModel::Stopped, ActionModel::Fail(unknown_control_message()))
    } else {
        (s, ActionModel::Spawn(start_requests(bots)))
    }
}

/// The state once every bot was started: the supervisor reads its first
/// command, unless the control bot failed to start.
pub open spec fn started(s: HubModel, launches: Seq<LaunchModel>) -> (HubModel, ActionModel) {
    let instances = started_records(s.bots, launches);
    let next = HubModel { instances, ..s };
    match s.control_bot {
        Some(name) => match lookup(instances, name) {
            Some(RecordModel::SpawnFailed(reason)) => enter(
                next,
                PhaseModel::Stopped,
                ActionModel::Fail(control_failed_message(reason)),
            ),
            _ => enter(next, PhaseModel::Idle, ActionModel::Read),
        },
        None => enter(next, PhaseModel::Idle, ActionModel::Read),
    }
}

/// The state once the process of a bot or of a task was started, or failed
/// to start: the record is kept either way.
pub open spec fn launched_one(
    s: HubModel,
    bot_name: Seq<char>,
    kind: Option<TaskType>,
    launch: LaunchModel,
) -> (HubModel, ActionModel) {
    match kind {
        None => reply(
            HubModel { instances: with_entry(s.instances, bot_name, launched(launch)), ..s },
            "none some spawned\n"@,
        ),
        Some(kind) => task_created(s, bot_name, kind, launched(launch)),
    }
}

/// The state once the paths were looked at: the verdicts are the response.
pub open spec fn probed(s: HubModel, bot_name: Option<Seq<char>>, probes: Seq<PathProbe>) -> (
    HubModel,
    ActionModel,
) {
    match bot_name {
        Some(name) => match lookup(s.bots, name) {
            Some(bot) => if probes.len() == 1 {
                reply(s, "some "@ + verdict(bot, probes[0]) + "\n"@)
            } else {
                (s, ActionModel::Unexpected)
            },
            None => (s, ActionModel::Unexpected),
        },
        None => if probes.len() == s.bots.len() {
            reply(s, verdict_lines(s.bots, probes))
        } else {
            (s, ActionModel::Unexpected)
        },
    }
}

/// The state once the control bot was replaced, or could not be: a new
/// process is recorded and the next command is read without a response; a
/// failure ends the loop.
pub open spec fn restarted(s: HubModel, outcome: RestartModel) -> (HubModel, ActionModel) {
    match s.control_bot {
        None => (s, ActionModel::Unexpected),
        Some(name) => match outcome {
            RestartModel::Done => enter(
                HubModel { instances: with_entry(s.instances, name, RecordModel::Spawned), ..s },
                PhaseModel::Idle,
                ActionModel::Read,
            ),
            RestartModel::KillFailed(message) => enter(
                s,
                PhaseModel::Stopped,
                ActionModel::Fail(message),
            ),
            RestartModel::SpawnFailed(message) => enter(
                HubModel { instances: without_key(s.instances, name), ..s },
                PhaseModel::Stopped,
                ActionModel::Fail(message),
            ),
        },
    }
}

/// The next state and the next request, for every state and every event.
/// An event that does not answer what was asked changes nothing.
pub open spec fn step(s: HubModel, event: EventModel) -> (HubModel, ActionModel) {
    match (s.phase, event) {
        (PhaseModel::Idle, EventModel::Command(command)) => dispatch(s, command, false),
        (PhaseModel::Idle, EventModel::ParseError(text)) => (
            s,
            ActionModel::Respond {
                output: wire(s.control_bot is Some, ""@),
                diagnostic: Some(text),
            },
        ),
        (PhaseModel::Polling(command), EventModel::Polled(polls)) => {
            let targets = poll_targets(s, command);
            if polls.len() == targets.len() {
                dispatch(observed_all(s, targets, polls), command, true)
            } else {
                (s, ActionModel::Unexpected)
            }
        },
        (PhaseModel::Starting, EventModel::Launched(launches)) => if launches.len()
            == s.bots.len() {
            started(s, launches)
        } else {
            (s, ActionModel::Unexpected)
        },
        (PhaseModel::Launching { bot_name, kind }, EventModel::Launched(launches)) => if launches.len()
            == 1 {
            launched_one(s, bot_name, kind, launches[0])
        } else {
            (s, ActionModel::Unexpected)
        },
        (PhaseModel::Probing(bot_name), EventModel::Probed(probes)) => probed(s, bot_name, probes),
        (PhaseModel::Killing(target), EventModel::Killed) => reply(
            s,
            match target {
                TargetModel::Bot(_) => "started killed\n"@,
                TargetModel::Task(_) => "some started killed\n"@,
            },
        ),
        (PhaseModel::Reaping, EventModel::Killed) => (stopped(s), ActionModel::Exit),
        (PhaseModel::Sending, EventModel::Written) => reply(s, "started running written\n"@),
        (PhaseModel::Draining { target, code }, EventModel::Drained { stdout, stderr }) => reply(
            forgotten(s, target),
            exit_report(code, stdout, stderr),
        ),
        (PhaseModel::Waiting(task_id), EventModel::Waited(code)) => reply(
            observed(s, TargetModel::Task(task_id), Poll::Exited(code)),
            "some started waiting exited\n"@,
        ),
        (PhaseModel::Restarting, EventModel::Restarted(outcome)) => restarted(s, outcome),
        _ => (s, ActionModel::Unexpected),
    }
}

} // verus!
