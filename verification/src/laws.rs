//! What holds of the supervisor's state machine, whatever the state.

use crate::channel::{exit_report, whole_lines, wire};
use crate::cmd_parser::CommandsModel;
use crate::bot_parser::PathProbe;
use crate::process::{
    exit_code, launched, lemma_task_ids_distinct, lemma_task_ids_ordered, observe, status_text,
    task_id, task_line, Poll, RecordModel, TaskModel,
};
use crate::protocol::{ActionModel, EventModel, TargetModel};
use crate::registry::{
    distinct_keys, has_key, keys_of, lemma_with_entry, lemma_without_key, lookup, position_of,
    with_entry, without_key,
};
use crate::text::{is_word, join, lemma_words_of_join, text_less, words};
use crate::transition::{
    act_on, dispatch, forgotten, maintain, observed, observed_all, poll_targets, record_of,
    registries_sound, reply, report_on, respond, status_lines, step, task_created, task_lines,
    verdict, verdict_lines, HubModel, PhaseModel,
};
use crate::TaskType;
use vstd::prelude::*;

verus! {

/// The line that lists the bots.
pub open spec fn list_line(s: HubModel) -> Seq<char> {
    join(keys_of(s.bots), " "@) + "\n"@
}

/// Listing the bots names each bot of the configuration exactly once: the
/// words of the response are the names, none of them twice, and a name is
/// among them just when the configuration has a bot of that name.
pub proof fn law_list_names_each_once(s: HubModel, polled: bool)
    requires
        distinct_keys(s.bots),
        forall|i: int| 0 <= i < s.bots.len() ==> is_word(#[trigger] s.bots[i].0),
    ensures
        dispatch(s, CommandsModel::List, polled) == reply(s, list_line(s)),
        words(list_line(s)) == keys_of(s.bots),
        words(list_line(s)).no_duplicates(),
        forall|name: Seq<char>| has_key(s.bots, name) <==> words(list_line(s)).contains(name),
{
    let names = keys_of(s.bots);
    assert forall|i: int| 0 <= i < names.len() implies is_word(#[trigger] names[i]) by {
        assert(is_word(s.bots[i].0));
    }
    lemma_words_of_join(names);
    assert forall|i: int, j: int| 0 <= i < names.len() && 0 <= j < names.len() && i != j implies names[i]
        != names[j] by {
        if i < j {
            assert(s.bots[i].0 != s.bots[j].0);
        } else {
            assert(s.bots[j].0 != s.bots[i].0);
        }
    }
    assert forall|name: Seq<char>| has_key(s.bots, name) <==> names.contains(name) by {
        if has_key(s.bots, name) {
            let i = position_of(s.bots, name)->0;
            assert(s.bots[i].0 == name);
            assert(names[i] == name);
        }
        if names.contains(name) {
            let i = choose|i: int| 0 <= i < names.len() && names[i] == name;
            assert(s.bots[i].0 == name);
        }
    }
}

/// Whether `command` asks for the report on an exited process: that of a
/// bot or that of a task.
pub open spec fn is_report(command: CommandsModel) -> bool {
    command is Conclude || command is Finish
}

/// The process that a report is asked on.
pub open spec fn report_target(command: CommandsModel) -> TargetModel {
    match command {
        CommandsModel::Conclude { bot_name } => TargetModel::Bot(bot_name),
        CommandsModel::Finish { task_id } => TargetModel::Task(task_id),
        _ => arbitrary(),
    }
}

/// Asking for the report on a process that still runs changes nothing: the
/// process is polled, the answer says that it runs, and the state is as it
/// was, the record included. So it is, however often it is asked.
pub proof fn law_report_leaves_running(s: HubModel, command: CommandsModel)
    requires
        s.phase is Idle,
        registries_sound(s),
        is_report(command),
        record_of(s, report_target(command)) == Some(RecordModel::Spawned),
    ensures
        ({
            let asked = step(s, EventModel::Command(command));
            let answered = step(asked.0, EventModel::Polled(seq![Poll::Running]));
            &&& asked.1 == ActionModel::Poll(seq![report_target(command)])
            &&& answered.1 == respond(s, "some started running\n"@)
            &&& answered.0 == s
        }),
{
    let target = report_target(command);
    let asked = step(s, EventModel::Command(command));
    let targets = seq![target];
    let polls = seq![Poll::Running];
    assert(record_of(asked.0, target) == record_of(s, target));
    assert(targets.drop_last() =~= Seq::<TargetModel>::empty());
    let seen = observed_all(asked.0, targets, polls);
    assert(observed_all(asked.0, targets.drop_last(), polls) == asked.0);
    assert(seen == observed(asked.0, target, polls[0]));
    match command {
        CommandsModel::Conclude { bot_name } => {
            let i = position_of(s.instances, bot_name)->0;
            assert(s.instances[i].0 == bot_name);
            assert(seen.instances =~= s.instances);
        },
        CommandsModel::Finish { task_id } => {
            let i = position_of(s.tasks, task_id)->0;
            assert(s.tasks[i].0 == task_id);
            assert(seen.tasks =~= s.tasks);
        },
        _ => {},
    }
    assert(seen == asked.0);
}

/// Asking for the report on a process that is found to have exited goes on
/// to the report: the exit is recorded, and the output is asked for.
pub proof fn law_report_observes_exit(s: HubModel, command: CommandsModel, code: Option<i32>)
    requires
        s.phase is Idle,
        registries_sound(s),
        is_report(command),
        record_of(s, report_target(command)) == Some(RecordModel::Spawned),
    ensures
        ({
            let target = report_target(command);
            let asked = step(s, EventModel::Command(command));
            let seen = step(asked.0, EventModel::Polled(seq![Poll::Exited(code)]));
            &&& asked.1 == ActionModel::Poll(seq![target])
            &&& seen.1 == ActionModel::Drain(target)
            &&& seen.0.phase == PhaseModel::Draining { target, code: exit_code(code) }
            &&& record_of(seen.0, target) == Some(RecordModel::Exited(exit_code(code)))
            &&& registries_sound(seen.0)
        }),
{
    let target = report_target(command);
    let asked = step(s, EventModel::Command(command));
    let targets = seq![target];
    let polls = seq![Poll::Exited(code)];
    assert(record_of(asked.0, target) == record_of(s, target));
    assert(targets.drop_last() =~= Seq::<TargetModel>::empty());
    let seen = observed_all(asked.0, targets, polls);
    assert(observed_all(asked.0, targets.drop_last(), polls) == asked.0);
    assert(seen == observed(asked.0, target, polls[0]));
    match command {
        CommandsModel::Conclude { bot_name } => {
            lemma_with_entry(s.instances, bot_name, RecordModel::Exited(exit_code(code)));
        },
        CommandsModel::Finish { task_id } => {
            let task = lookup(s.tasks, task_id)->0;
            lemma_with_entry(
                s.tasks,
                task_id,
                TaskModel {
                    process: RecordModel::Exited(exit_code(code)),
                    ..task
                },
            );
        },
        _ => {},
    }
}

/// The report on a process that has exited removes its record exactly
/// once: the output is asked for, the report is the response, the record is
/// gone while every other record stays, and asking again finds nothing.
pub proof fn law_report_removes_once(
    s: HubModel,
    command: CommandsModel,
    code: int,
    stdout: Seq<char>,
    stderr: Seq<char>,
)
    requires
        s.phase is Idle,
        registries_sound(s),
        is_report(command),
        record_of(s, report_target(command)) == Some(RecordModel::Exited(code)),
    ensures
        ({
            let target = report_target(command);
            let asked = step(s, EventModel::Command(command));
            let reported = step(asked.0, EventModel::Drained { stdout, stderr });
            let again = step(reported.0, EventModel::Command(command));
            &&& asked.1 == ActionModel::Drain(target)
            &&& asked.0 == HubModel { phase: PhaseModel::Draining { target, code }, ..s }
            &&& reported.1 == respond(s, exit_report(code, stdout, stderr))
            &&& reported.0 == HubModel { phase: PhaseModel::Idle, ..forgotten(s, target) }
            &&& record_of(reported.0, target) is None
            &&& forall|other: TargetModel|
                other != target ==> #[trigger] record_of(reported.0, other) == record_of(s, other)
            &&& again.1 == respond(s, "none\n"@)
            &&& again.0 == reported.0
        }),
{
    let target = report_target(command);
    let asked = step(s, EventModel::Command(command));
    let reported = step(asked.0, EventModel::Drained { stdout, stderr });
    match command {
        CommandsModel::Conclude { bot_name } => {
            lemma_without_key(s.instances, bot_name);
            assert forall|other: TargetModel| other != target implies #[trigger] record_of(
                reported.0,
                other,
            ) == record_of(s, other) by {
                match other {
                    TargetModel::Bot(name) => {
                        assert(name != bot_name);
                    },
                    TargetModel::Task(_) => {},
                }
            }
        },
        CommandsModel::Finish { task_id } => {
            lemma_without_key(s.tasks, task_id);
            assert forall|other: TargetModel| other != target implies #[trigger] record_of(
                reported.0,
                other,
            ) == record_of(s, other) by {
                match other {
                    TargetModel::Bot(_) => {},
                    TargetModel::Task(id) => {
                        assert(id != task_id);
                    },
                }
            }
        },
        _ => {},
    }
}

/// Tasks are numbered as they are created: of two tasks created one after
/// the other, the second has the next serial number, and below one hundred
/// million both ids are eight characters long and the first id comes first
/// in the order of texts.
pub proof fn law_task_ids_increase(
    s: HubModel,
    first_bot: Seq<char>,
    first_kind: TaskType,
    first_process: RecordModel,
    second_bot: Seq<char>,
    second_kind: TaskType,
    second_process: RecordModel,
)
    requires
        0 <= s.next_serial,
        s.next_serial + 1 < 100_000_000,
    ensures
        ({
            let first = task_created(s, first_bot, first_kind, first_process);
            let second = task_created(first.0, second_bot, second_kind, second_process);
            &&& first.1 == respond(s, "some "@ + task_id(s.next_serial) + "\n"@)
            &&& second.1 == respond(s, "some "@ + task_id(s.next_serial + 1) + "\n"@)
            &&& task_id(s.next_serial).len() == 8
            &&& task_id(s.next_serial + 1).len() == 8
            &&& text_less(task_id(s.next_serial), task_id(s.next_serial + 1))
        }),
{
    lemma_task_ids_ordered(s.next_serial, s.next_serial + 1);
}

/// Whether `action`, if it is a response, writes a body of whole lines:
/// framed where `framed` says so, as it is otherwise.
pub open spec fn writes_whole_lines(framed: bool, action: ActionModel) -> bool {
    action matches ActionModel::Respond { output, .. } ==> exists|body: Seq<char>|
        whole_lines(body) && output == #[trigger] wire(framed, body)
}

/// A response whose output is the wire form of `body` writes whole lines if
/// `body` is made of them.
proof fn lemma_body(framed: bool, action: ActionModel, body: Seq<char>)
    requires
        whole_lines(body),
    ensures
        action matches ActionModel::Respond { output, .. } && output == wire(framed, body)
            ==> writes_whole_lines(framed, action),
{
}

/// A text that ends with a line feed is made of whole lines.
proof fn lemma_fed(body: Seq<char>)
    ensures
        whole_lines(body + "\n"@),
{
    reveal_strlit("\n");
}

/// The fixed responses are made of whole lines.
proof fn lemma_fixed_responses()
    ensures
        whole_lines(""@),
        whole_lines("none\n"@),
        whole_lines("exists\n"@),
        whole_lines("none none\n"@),
        whole_lines("none some spawned\n"@),
        whole_lines("some no_repo\n"@),
        whole_lines("some failed\n"@),
        whole_lines("some started running\n"@),
        whole_lines("some started killed\n"@),
        whole_lines("started killed\n"@),
        whole_lines("started running written\n"@),
        whole_lines("some started waiting exited\n"@),
        forall|prefix: Seq<char>| whole_lines(#[trigger] (prefix + "failed\n"@)),
        forall|prefix: Seq<char>| whole_lines(#[trigger] (prefix + "started exited\n"@)),
{
    reveal_strlit("");
    reveal_strlit("none\n");
    reveal_strlit("exists\n");
    reveal_strlit("none none\n");
    reveal_strlit("none some spawned\n");
    reveal_strlit("some no_repo\n");
    reveal_strlit("some failed\n");
    reveal_strlit("some started running\n");
    reveal_strlit("some started killed\n");
    reveal_strlit("started killed\n");
    reveal_strlit("started running written\n");
    reveal_strlit("some started waiting exited\n");
    reveal_strlit("failed\n");
    reveal_strlit("started exited\n");
}

/// The listings are made of whole lines.
proof fn lemma_listings(s: HubModel, probes: Seq<PathProbe>)
    ensures
        whole_lines(status_lines(s.instances)),
        whole_lines(task_lines(s.tasks)),
        whole_lines(verdict_lines(s.bots, probes)),
        whole_lines(list_line(s)),
{
    reveal_strlit("\n");
}

/// A command that acts on a running process answers in whole lines.
proof fn lemma_act_on_whole_lines(
    s: HubModel,
    command: CommandsModel,
    polled: bool,
    target: TargetModel,
    prefix: Seq<char>,
    phase: PhaseModel,
    act: ActionModel,
)
    requires
        !(act is Respond),
    ensures
        writes_whole_lines(
            s.control_bot is Some,
            act_on(s, command, polled, target, prefix, phase, act).1,
        ),
{
    let framed = s.control_bot is Some;
    let action = act_on(s, command, polled, target, prefix, phase, act).1;
    lemma_fixed_responses();
    lemma_body(framed, action, "none\n"@);
    lemma_body(framed, action, prefix + "failed\n"@);
    lemma_body(framed, action, prefix + "started exited\n"@);
}

/// A command that reports on an exited process answers in whole lines.
proof fn lemma_report_on_whole_lines(
    s: HubModel,
    command: CommandsModel,
    polled: bool,
    target: TargetModel,
)
    ensures
        writes_whole_lines(s.control_bot is Some, report_on(s, command, polled, target).1),
{
    let framed = s.control_bot is Some;
    let action = report_on(s, command, polled, target).1;
    lemma_fixed_responses();
    lemma_body(framed, action, "none\n"@);
    lemma_body(framed, action, "some failed\n"@);
    lemma_body(framed, action, "some started running\n"@);
    match record_of(s, target) {
        Some(RecordModel::SpawnFailed(message)) => {
            lemma_fed("some failed "@ + message);
            lemma_body(framed, action, "some failed "@ + message + "\n"@);
        },
        _ => {},
    }
}

/// The creation of a task is answered in whole lines.
proof fn lemma_task_created_whole_lines(
    s: HubModel,
    bot_name: Seq<char>,
    kind: TaskType,
    process: RecordModel,
)
    ensures
        writes_whole_lines(s.control_bot is Some, task_created(s, bot_name, kind, process).1),
{
    let action = task_created(s, bot_name, kind, process).1;
    lemma_fed("some "@ + task_id(s.next_serial));
    lemma_body(s.control_bot is Some, action, "some "@ + task_id(s.next_serial) + "\n"@);
}

/// A maintenance command answers in whole lines.
proof fn lemma_maintain_whole_lines(s: HubModel, bot_name: Seq<char>, kind: TaskType)
    ensures
        writes_whole_lines(s.control_bot is Some, maintain(s, bot_name, kind).1),
{
    let action = maintain(s, bot_name, kind).1;
    lemma_fixed_responses();
    lemma_body(s.control_bot is Some, action, "none\n"@);
    lemma_body(s.control_bot is Some, action, "some no_repo\n"@);
}

/// Every command is answered in whole lines.
proof fn lemma_dispatch_whole_lines(s: HubModel, command: CommandsModel, polled: bool)
    ensures
        writes_whole_lines(s.control_bot is Some, dispatch(s, command, polled).1),
{
    let framed = s.control_bot is Some;
    let action = dispatch(s, command, polled).1;
    lemma_fixed_responses();
    lemma_listings(s, Seq::empty());
    match command {
        CommandsModel::List => {
            lemma_body(framed, action, list_line(s));
        },
        CommandsModel::ListStatus => {
            lemma_body(framed, action, status_lines(s.instances));
        },
        CommandsModel::ListTasks => {
            lemma_body(framed, action, task_lines(s.tasks));
        },
        CommandsModel::Status { bot_name } => {
            lemma_body(framed, action, "none\n"@);
            match lookup(s.instances, bot_name) {
                Some(record) => {
                    lemma_fed("some "@ + status_text(record));
                    lemma_body(framed, action, "some "@ + status_text(record) + "\n"@);
                },
                None => {},
            }
        },
        CommandsModel::TaskStatus { task_id } => {
            lemma_body(framed, action, "none\n"@);
            match lookup(s.tasks, task_id) {
                Some(task) => {
                    lemma_fed("some "@ + task_line(task_id, task));
                    lemma_body(framed, action, "some "@ + task_line(task_id, task) + "\n"@);
                },
                None => {},
            }
        },
        CommandsModel::Clean { bot_name } => {
            lemma_maintain_whole_lines(s, bot_name, TaskType::Clean);
        },
        CommandsModel::CleanAll { bot_name } => {
            lemma_maintain_whole_lines(s, bot_name, TaskType::CleanAll);
        },
        CommandsModel::Build { bot_name } => {
            lemma_maintain_whole_lines(s, bot_name, TaskType::Build);
        },
        CommandsModel::Pull { bot_name } => {
            lemma_maintain_whole_lines(s, bot_name, TaskType::Pull);
        },
        CommandsModel::Start { bot_name } => {
            lemma_body(framed, action, "exists\n"@);
            lemma_body(framed, action, "none none\n"@);
        },
        CommandsModel::Msg { bot_name, message } => {
            lemma_act_on_whole_lines(
                s,
                command,
                polled,
                TargetModel::Bot(bot_name),
                ""@,
                PhaseModel::Sending,
                ActionModel::Send { bot_name, line: join(message, " "@) },
            );
        },
        CommandsModel::Verify { bot_name } => {
            lemma_body(framed, action, "none\n"@);
        },
        CommandsModel::Kill { bot_name } => {
            lemma_act_on_whole_lines(
                s,
                command,
                polled,
                TargetModel::Bot(bot_name),
                ""@,
                PhaseModel::Killing(TargetModel::Bot(bot_name)),
                ActionModel::Kill(seq![TargetModel::Bot(bot_name)]),
            );
        },
        CommandsModel::ControlRestart => {
            lemma_body(framed, action, ""@);
        },
        CommandsModel::Terminate { task_id } => {
            lemma_act_on_whole_lines(
                s,
                command,
                polled,
                TargetModel::Task(task_id),
                "some "@,
                PhaseModel::Killing(TargetModel::Task(task_id)),
                ActionModel::Kill(seq![TargetModel::Task(task_id)]),
            );
        },
        CommandsModel::Conclude { bot_name } => {
            lemma_report_on_whole_lines(s, command, polled, TargetModel::Bot(bot_name));
        },
        CommandsModel::Wait { task_id } => {
            lemma_act_on_whole_lines(
                s,
                command,
                polled,
                TargetModel::Task(task_id),
                "some "@,
                PhaseModel::Waiting(task_id),
                ActionModel::Wait(task_id),
            );
        },
        CommandsModel::Finish { task_id } => {
            lemma_report_on_whole_lines(s, command, polled, TargetModel::Task(task_id));
        },
        CommandsModel::Exit => {},
    }
}

/// Polls change no part of the state but the registries.
proof fn lemma_observed_all_keeps_channel(
    s: HubModel,
    targets: Seq<TargetModel>,
    polls: Seq<Poll>,
)
    ensures
        observed_all(s, targets, polls).control_bot == s.control_bot,
    decreases targets.len(),
{
    if targets.len() > 0 && polls.len() >= targets.len() {
        lemma_observed_all_keeps_channel(s, targets.drop_last(), polls);
    }
}

/// Whatever the supervisor writes as a response is a body of whole lines,
/// framed where a control bot listens. With the round trip of the frame,
/// a reader on the control bot's side recovers every response exactly.
pub proof fn law_responses_are_whole_lines(s: HubModel, event: EventModel)
    ensures
        writes_whole_lines(s.control_bot is Some, step(s, event).1),
{
    let framed = s.control_bot is Some;
    let action = step(s, event).1;
    lemma_fixed_responses();
    match (s.phase, event) {
        (PhaseModel::Idle, EventModel::Command(command)) => {
            lemma_dispatch_whole_lines(s, command, false);
        },
        (PhaseModel::Idle, EventModel::ParseError(text)) => {
            lemma_body(framed, action, ""@);
        },
        (PhaseModel::Polling(command), EventModel::Polled(polls)) => {
            let targets = poll_targets(s, command);
            lemma_observed_all_keeps_channel(s, targets, polls);
            lemma_dispatch_whole_lines(observed_all(s, targets, polls), command, true);
        },
        (PhaseModel::Launching { bot_name, kind }, EventModel::Launched(launches)) => {
            lemma_body(framed, action, "none some spawned\n"@);
            match kind {
                Some(kind) => {
                    if launches.len() == 1 {
                        lemma_task_created_whole_lines(
                            s,
                            bot_name,
                            kind,
                            launched(launches[0]),
                        );
                    }
                },
                None => {},
            }
        },
        (PhaseModel::Probing(bot_name), EventModel::Probed(probes)) => {
            lemma_listings(s, probes);
            lemma_body(framed, action, verdict_lines(s.bots, probes));
            match bot_name {
                Some(name) => match lookup(s.bots, name) {
                    Some(bot) => {
                        lemma_fed("some "@ + verdict(bot, probes[0]));
                        lemma_body(framed, action, "some "@ + verdict(bot, probes[0]) + "\n"@);
                    },
                    None => {},
                },
                None => {},
            }
        },
        (PhaseModel::Killing(target), EventModel::Killed) => {
            lemma_body(framed, action, "started killed\n"@);
            lemma_body(framed, action, "some started killed\n"@);
        },
        (PhaseModel::Sending, EventModel::Written) => {
            lemma_body(framed, action, "started running written\n"@);
        },
        (PhaseModel::Draining { target, code }, EventModel::Drained { stdout, stderr }) => {
            let report = exit_report(code, stdout, stderr);
            assert(report.last() == '\n');
            lemma_body(framed, action, report);
        },
        (PhaseModel::Waiting(task_id), EventModel::Waited(code)) => {
            lemma_body(framed, action, "some started waiting exited\n"@);
        },
        _ => {},
    }
}

/// Whether `after` has the configuration of `before`: the same descriptors
/// and the same control bot.
pub open spec fn same_configuration(before: HubModel, after: HubModel) -> bool {
    after.bots == before.bots && after.control_bot == before.control_bot
}

/// Polls keep the configuration, and keep the registries sound.
proof fn lemma_observed_all(s: HubModel, targets: Seq<TargetModel>, polls: Seq<Poll>)
    requires
        registries_sound(s),
    ensures
        same_configuration(s, observed_all(s, targets, polls)),
        registries_sound(observed_all(s, targets, polls)),
        observed_all(s, targets, polls).next_serial == s.next_serial,
    decreases targets.len(),
{
    if targets.len() > 0 && polls.len() >= targets.len() {
        lemma_observed_all(s, targets.drop_last(), polls);
        lemma_observed(
            observed_all(s, targets.drop_last(), polls),
            targets.last(),
            polls[targets.len() - 1],
        );
    }
}

/// One poll keeps the registries sound.
proof fn lemma_observed(s: HubModel, target: TargetModel, poll: Poll)
    requires
        registries_sound(s),
    ensures
        registries_sound(observed(s, target, poll)),
{
    match target {
        TargetModel::Bot(name) => match lookup(s.instances, name) {
            Some(record) => {
                lemma_with_entry(s.instances, name, observe(record, poll));
            },
            None => {},
        },
        TargetModel::Task(id) => match lookup(s.tasks, id) {
            Some(task) => {
                lemma_with_entry(
                    s.tasks,
                    id,
                    TaskModel {
                        process: observe(task.process, poll),
                        ..task
                    },
                );
            },
            None => {},
        },
    }
}

/// Serving a command keeps the registries sound.
proof fn lemma_dispatch_sound(s: HubModel, command: CommandsModel, polled: bool)
    requires
        registries_sound(s),
    ensures
        registries_sound(dispatch(s, command, polled).0),
        same_configuration(s, dispatch(s, command, polled).0),
{
    match command {
        CommandsModel::Conclude { bot_name } => {
            lemma_without_key(s.instances, bot_name);
        },
        _ => {},
    }
}

/// No step changes the configuration, and every step keeps the registries
/// sound: whatever the events, no bot has two process records and no task
/// id two tasks.
pub proof fn law_step_keeps_state_sound(s: HubModel, event: EventModel)
    requires
        registries_sound(s),
        distinct_keys(s.bots),
    ensures
        same_configuration(s, step(s, event).0),
        registries_sound(step(s, event).0),
{
    let next = step(s, event).0;
    match (s.phase, event) {
        (PhaseModel::Idle, EventModel::Command(command)) => {
            lemma_dispatch_sound(s, command, false);
        },
        (PhaseModel::Polling(command), EventModel::Polled(polls)) => {
            let targets = poll_targets(s, command);
            lemma_observed_all(s, targets, polls);
            lemma_dispatch_sound(observed_all(s, targets, polls), command, true);
        },
        (PhaseModel::Starting, EventModel::Launched(launches)) => {
            if launches.len() == s.bots.len() {
                let records = crate::transition::started_records(s.bots, launches);
                assert forall|i: int, j: int| 0 <= i < j < records.len() implies (
                #[trigger] records[i]).0 != (#[trigger] records[j]).0 by {
                    assert(s.bots[i].0 != s.bots[j].0);
                }
            }
        },
        (PhaseModel::Launching { bot_name, kind }, EventModel::Launched(launches)) => {
            if launches.len() == 1 {
                match kind {
                    None => {
                        lemma_with_entry(s.instances, bot_name, launched(launches[0]));
                    },
                    Some(kind) => {
                        lemma_with_entry(
                            s.tasks,
                            task_id(s.next_serial),
                            TaskModel {
                                bot_name,
                                kind,
                                serial: s.next_serial,
                                process: launched(launches[0]),
                            },
                        );
                    },
                }
            }
        },
        (PhaseModel::Draining { target, code }, EventModel::Drained { stdout, stderr }) => {
            match target {
                TargetModel::Bot(name) => {
                    lemma_without_key(s.instances, name);
                },
                TargetModel::Task(id) => {
                    lemma_without_key(s.tasks, id);
                },
            }
        },
        (PhaseModel::Waiting(task_id), EventModel::Waited(code)) => {
            lemma_observed(s, TargetModel::Task(task_id), Poll::Exited(code));
        },
        (PhaseModel::Restarting, EventModel::Restarted(outcome)) => {
            match s.control_bot {
                Some(name) => {
                    lemma_with_entry(s.instances, name, RecordModel::Spawned);
                    lemma_without_key(s.instances, name);
                },
                None => {},
            }
        },
        _ => {},
    }
}

/// Whether `tasks` are numbered below `next`: each task stands under the id
/// of its serial number, and that number is below `next`.
pub open spec fn numbered(tasks: Seq<(Seq<char>, TaskModel)>, next: int) -> bool {
    forall|i: int|
        0 <= i < tasks.len() ==> (#[trigger] tasks[i]).0 == task_id(tasks[i].1.serial) && 0
            <= tasks[i].1.serial < next
}

/// Whether the tasks of `s` are numbered below its next serial number.
pub open spec fn tasks_numbered(s: HubModel) -> bool {
    0 <= s.next_serial <= u32::MAX && numbered(s.tasks, s.next_serial)
}

/// Numbered tasks stay numbered when a task is stored under the id of its
/// serial number.
proof fn lemma_numbered_with_entry(
    tasks: Seq<(Seq<char>, TaskModel)>,
    next: int,
    id: Seq<char>,
    task: TaskModel,
)
    requires
        numbered(tasks, next),
        id == task_id(task.serial),
        0 <= task.serial < next,
    ensures
        numbered(with_entry(tasks, id, task), next),
{
    let after = with_entry(tasks, id, task);
    assert forall|i: int| 0 <= i < after.len() implies (#[trigger] after[i]).0 == task_id(
        after[i].1.serial,
    ) && 0 <= after[i].1.serial < next by {
        if after[i] != (id, task) {
            assert(after[i] == tasks[i]);
        }
    }
}

/// Numbered tasks stay numbered when one is removed.
proof fn lemma_numbered_without_key(tasks: Seq<(Seq<char>, TaskModel)>, next: int, id: Seq<char>)
    requires
        numbered(tasks, next),
    ensures
        numbered(without_key(tasks, id), next),
{
    let after = without_key(tasks, id);
    match position_of(tasks, id) {
        Some(p) => {
            assert forall|i: int| 0 <= i < after.len() implies (#[trigger] after[i]).0 == task_id(
                after[i].1.serial,
            ) && 0 <= after[i].1.serial < next by {
                if i < p {
                    assert(after[i] == tasks[i]);
                } else {
                    assert(after[i] == tasks[i + 1]);
                }
            }
        },
        None => {},
    }
}

/// A poll keeps the tasks numbered.
proof fn lemma_observed_numbered(s: HubModel, target: TargetModel, poll: Poll)
    requires
        tasks_numbered(s),
    ensures
        tasks_numbered(observed(s, target, poll)),
        observed(s, target, poll).next_serial == s.next_serial,
{
    match target {
        TargetModel::Task(id) => match lookup(s.tasks, id) {
            Some(task) => {
                let p = position_of(s.tasks, id)->0;
                assert(s.tasks[p].0 == id);
                lemma_numbered_with_entry(
                    s.tasks,
                    s.next_serial,
                    id,
                    TaskModel { process: observe(task.process, poll), ..task },
                );
            },
            None => {},
        },
        TargetModel::Bot(_) => {},
    }
}

/// Polls keep the tasks numbered.
proof fn lemma_observed_all_numbered(s: HubModel, targets: Seq<TargetModel>, polls: Seq<Poll>)
    requires
        tasks_numbered(s),
    ensures
        tasks_numbered(observed_all(s, targets, polls)),
        observed_all(s, targets, polls).next_serial == s.next_serial,
    decreases targets.len(),
{
    if targets.len() > 0 && polls.len() >= targets.len() {
        lemma_observed_all_numbered(s, targets.drop_last(), polls);
        lemma_observed_numbered(
            observed_all(s, targets.drop_last(), polls),
            targets.last(),
            polls[targets.len() - 1],
        );
    }
}

/// The creation of a task keeps the tasks numbered, while the counter has
/// not reached its end.
proof fn lemma_task_created_numbered(
    s: HubModel,
    bot_name: Seq<char>,
    kind: TaskType,
    process: RecordModel,
)
    requires
        tasks_numbered(s),
        s.next_serial < u32::MAX,
    ensures
        tasks_numbered(task_created(s, bot_name, kind, process).0),
        task_created(s, bot_name, kind, process).0.next_serial == s.next_serial + 1,
{
    let task = TaskModel { bot_name, kind, serial: s.next_serial, process };
    lemma_numbered_with_entry(s.tasks, s.next_serial + 1, task_id(s.next_serial), task);
}

/// Serving a command changes neither the tasks nor the counter.
proof fn lemma_dispatch_keeps_tasks(s: HubModel, command: CommandsModel, polled: bool)
    ensures
        dispatch(s, command, polled).0.tasks == s.tasks,
        dispatch(s, command, polled).0.next_serial == s.next_serial,
{
}

/// The first state of a supervisor has no tasks and counts from zero.
pub proof fn law_launch_numbers_from_zero(
    bots: Seq<(Seq<char>, crate::bot_parser::BotModel)>,
    control_bot: Option<Seq<char>>,
)
    ensures
        tasks_numbered(crate::transition::launch(bots, control_bot).0),
        registries_sound(crate::transition::launch(bots, control_bot).0),
        crate::transition::launch(bots, control_bot).0.next_serial == 0,
{
}

/// Over every run, tasks are numbered in the order of their creation: each
/// step keeps every task under the id of its serial number and below the
/// counter, and the counter never goes back. This holds while the counter
/// has not reached its end.
pub proof fn law_step_keeps_tasks_numbered(s: HubModel, event: EventModel)
    requires
        tasks_numbered(s),
        s.next_serial < u32::MAX,
    ensures
        tasks_numbered(step(s, event).0),
        s.next_serial <= step(s, event).0.next_serial <= s.next_serial + 1,
{
    match (s.phase, event) {
        (PhaseModel::Idle, EventModel::Command(command)) => {
            lemma_dispatch_keeps_tasks(s, command, false);
        },
        (PhaseModel::Polling(command), EventModel::Polled(polls)) => {
            let targets = poll_targets(s, command);
            lemma_observed_all_numbered(s, targets, polls);
            lemma_dispatch_keeps_tasks(observed_all(s, targets, polls), command, true);
        },
        (PhaseModel::Launching { bot_name, kind }, EventModel::Launched(launches)) => {
            match kind {
                Some(kind) => {
                    if launches.len() == 1 {
                        lemma_task_created_numbered(s, bot_name, kind, launched(launches[0]));
                    }
                },
                None => {},
            }
        },
        (PhaseModel::Draining { target, code }, EventModel::Drained { stdout, stderr }) => {
            match target {
                TargetModel::Task(id) => {
                    lemma_numbered_without_key(s.tasks, s.next_serial, id);
                },
                TargetModel::Bot(_) => {},
            }
        },
        (PhaseModel::Waiting(task_id), EventModel::Waited(code)) => {
            lemma_observed_numbered(s, TargetModel::Task(task_id), Poll::Exited(code));
        },
        _ => {},
    }
}

/// Where tasks are numbered, the id of the next task is held by no task,
/// so that creating a task never overwrites one; and below one hundred
/// million the id of every task held comes before it in the order of
/// texts.
pub proof fn law_next_task_id_is_new(s: HubModel)
    requires
        tasks_numbered(s),
    ensures
        !has_key(s.tasks, task_id(s.next_serial)),
        s.next_serial < 100_000_000 ==> forall|i: int|
            0 <= i < s.tasks.len() ==> text_less(
                (#[trigger] s.tasks[i]).0,
                task_id(s.next_serial),
            ),
{
    if has_key(s.tasks, task_id(s.next_serial)) {
        let p = position_of(s.tasks, task_id(s.next_serial))->0;
        assert(s.tasks[p].0 == task_id(s.next_serial));
        lemma_task_ids_distinct(s.tasks[p].1.serial, s.next_serial);
    }
    if s.next_serial < 100_000_000 {
        assert forall|i: int| 0 <= i < s.tasks.len() implies text_less(
            (#[trigger] s.tasks[i]).0,
            task_id(s.next_serial),
        ) by {
            lemma_task_ids_ordered(s.tasks[i].1.serial, s.next_serial);
        }
    }
}

} // verus!
