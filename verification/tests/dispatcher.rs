use dcbothub::bot_parser::{Bot, CommandSpec, PathProbe};
use dcbothub::cmd_parser::{Cli, Commands};
use dcbothub::config::{ConfigEntry, ConfigValue};
use dcbothub::dispatcher::{Hub, Phase};
use dcbothub::process::{Launch, Poll, ProcessRecord, TaskRecord};
use dcbothub::protocol::{Action, Event, Restart, SpawnRequest, Target};
use dcbothub::registry::Registry;
use dcbothub::{Bots, TaskType};

fn s(text: &str) -> String {
    text.to_string()
}

fn field(key: &str, value: &str) -> ConfigEntry {
    ConfigEntry { key: s(key), value: ConfigValue::Text(s(value)) }
}

fn echo() -> Bot {
    Bot::from_toml_table(&vec![field("name", "echo"), field("executable_path", "/bin/cat")], &None).unwrap()
}

fn greeter() -> Bot {
    Bot::from_toml_table(&vec![field("name", "greeter"), field("executable_path", "/opt/greeter")], &None).unwrap()
}

fn worker() -> Bot {
    Bot::from_toml_table(&vec![field("name", "worker"), field("repo_path", "worker")], &Some(s("/srv/worker")))
        .unwrap()
}

fn bots(list: Vec<Bot>) -> Bots {
    let mut bots: Bots = Registry::new();
    for bot in list {
        bots.insert(bot.name().to_string(), bot);
    }
    bots
}

fn respond(output: &str) -> Action {
    Action::Respond { output: s(output), diagnostic: None }
}

fn bot(name: &str) -> Target {
    Target::Bot(s(name))
}

fn task(id: &str) -> Target {
    Target::Task(s(id))
}

fn command(hub: &mut Hub, command: Commands) -> Action {
    hub.step(Event::Command(command))
}

// A supervisor on the terminal whose bots were all started.
fn running(list: Vec<Bot>) -> Hub {
    let n = list.len();
    let (mut hub, first) = Hub::launch(bots(list), None);
    assert!(matches!(first, Action::Spawn(_)));
    let launches = (0..n).map(|_| Launch::Started).collect();
    assert_eq!(hub.step(Event::Launched(launches)), Action::Read);
    hub
}

// A supervisor commanded by the control bot `echo`.
fn controlled() -> Hub {
    let (mut hub, _) = Hub::launch(bots(vec![echo(), worker()]), Some(s("echo")));
    assert_eq!(hub.step(Event::Launched(vec![Launch::Started, Launch::Started])), Action::Read);
    hub
}

fn worker_task(hub: &mut Hub, kind: Commands) -> String {
    let id = match command(hub, kind) {
        Action::Spawn(requests) => match &requests[0].target {
            Target::Task(id) => id.clone(),
            other => panic!("{:?}", other),
        },
        other => panic!("{:?}", other),
    };
    assert_eq!(hub.step(Event::Launched(vec![Launch::Started])), respond(&format!("some {}\n", id)));
    id
}

#[test]
fn launch_starts_every_bot() {
    let (hub, first) = Hub::launch(bots(vec![echo(), worker()]), None);
    assert_eq!(
        first,
        Action::Spawn(vec![
            SpawnRequest { target: bot("echo"), command: echo().run() },
            SpawnRequest { target: bot("worker"), command: worker().run() },
        ])
    );
    assert_eq!(hub.phase(), &Phase::Starting);
    assert_eq!(hub.instances().len(), 0);
    assert_eq!(hub.tasks().len(), 0);
    assert_eq!(hub.bots().len(), 2);
    assert_eq!(hub.control_bot(), &None);
}

#[test]
fn launch_records_every_outcome() {
    let (mut hub, _) = Hub::launch(bots(vec![echo(), worker()]), None);
    assert_eq!(hub.step(Event::Launched(vec![Launch::Started, Launch::Failed(s("denied"))])), Action::Read);
    assert_eq!(hub.phase(), &Phase::Idle);
    assert_eq!(hub.instances().get(&s("echo")), Some(&ProcessRecord::Spawned));
    assert_eq!(hub.instances().get(&s("worker")), Some(&ProcessRecord::SpawnFailed(s("denied"))));
}

#[test]
fn launch_without_bots() {
    let (mut hub, first) = Hub::launch(bots(vec![]), None);
    assert_eq!(first, Action::Spawn(vec![]));
    assert_eq!(hub.step(Event::Launched(vec![])), Action::Read);
    assert_eq!(command(&mut hub, Commands::List), respond("\n"));
}

#[test]
fn launch_refuses_an_unknown_control_bot() {
    let (mut hub, first) = Hub::launch(bots(vec![echo()]), Some(s("ghost")));
    assert_eq!(first, Action::Fail(s("control_bot should contain a bot name presented in a bot table")));
    assert!(hub.is_stopped());
    assert_eq!(hub.step(Event::Launched(vec![Launch::Started])), Action::Unexpected);
}

#[test]
fn launch_gives_up_when_the_control_bot_fails() {
    let (mut hub, _) = Hub::launch(bots(vec![echo(), worker()]), Some(s("echo")));
    assert_eq!(
        hub.step(Event::Launched(vec![Launch::Failed(s("no such file")), Launch::Started])),
        Action::Fail(s("Failed starting control_bot:\n\tno such file"))
    );
    assert!(hub.is_stopped());
    assert_eq!(hub.instances().len(), 2);
}

#[test]
fn launch_goes_on_when_another_bot_fails() {
    let (mut hub, _) = Hub::launch(bots(vec![echo(), worker()]), Some(s("echo")));
    assert_eq!(hub.step(Event::Launched(vec![Launch::Started, Launch::Failed(s("x"))])), Action::Read);
    assert!(!hub.is_stopped());
}

#[test]
fn launch_waits_for_all_outcomes() {
    let (mut hub, _) = Hub::launch(bots(vec![echo(), worker()]), None);
    assert_eq!(hub.step(Event::Launched(vec![Launch::Started])), Action::Unexpected);
    assert_eq!(hub.phase(), &Phase::Starting);
    assert_eq!(command(&mut hub, Commands::List), Action::Unexpected);
}

#[test]
fn list_names_each_bot_once() {
    let mut hub = running(vec![echo(), greeter(), worker()]);
    let output = match command(&mut hub, Commands::List) {
        Action::Respond { output, diagnostic: None } => output,
        other => panic!("{:?}", other),
    };
    assert_eq!(output, "echo greeter worker\n");
    let mut words: Vec<&str> = output.split_whitespace().collect();
    words.sort();
    assert_eq!(words, vec!["echo", "greeter", "worker"]);
}

#[test]
fn list_of_one_bot() {
    let mut hub = running(vec![echo()]);
    assert_eq!(command(&mut hub, Commands::List), respond("echo\n"));
    assert_eq!(hub.phase(), &Phase::Idle);
}

#[test]
fn list_status_polls_what_may_run() {
    let (mut hub, _) = Hub::launch(bots(vec![echo(), greeter(), worker()]), None);
    hub.step(Event::Launched(vec![Launch::Started, Launch::Failed(s("denied")), Launch::Started]));
    assert_eq!(command(&mut hub, Commands::ListStatus), Action::Poll(vec![bot("echo"), bot("worker")]));
    assert_eq!(hub.phase(), &Phase::Polling(Commands::ListStatus));
    assert_eq!(
        hub.step(Event::Polled(vec![Poll::Running, Poll::Exited(Some(3))])),
        respond("echo started running\ngreeter failed denied\nworker started exited 3\n")
    );
    assert_eq!(hub.instances().get(&s("worker")), Some(&ProcessRecord::Exited(3)));
    assert_eq!(command(&mut hub, Commands::ListStatus), Action::Poll(vec![bot("echo")]));
    assert_eq!(
        hub.step(Event::Polled(vec![Poll::Exited(None)])),
        respond("echo started exited -1\ngreeter failed denied\nworker started exited 3\n")
    );
    assert_eq!(command(&mut hub, Commands::ListStatus), Action::Poll(vec![]));
    assert_eq!(
        hub.step(Event::Polled(vec![])),
        respond("echo started exited -1\ngreeter failed denied\nworker started exited 3\n")
    );
}

#[test]
fn list_status_without_bots() {
    let mut hub = running(vec![]);
    assert_eq!(command(&mut hub, Commands::ListStatus), Action::Poll(vec![]));
    assert_eq!(hub.step(Event::Polled(vec![])), respond(""));
}

#[test]
fn list_tasks_shows_every_task() {
    let mut hub = running(vec![worker()]);
    assert_eq!(command(&mut hub, Commands::ListTasks), Action::Poll(vec![]));
    assert_eq!(hub.step(Event::Polled(vec![])), respond(""));
    worker_task(&mut hub, Commands::Build { bot_name: s("worker") });
    command(&mut hub, Commands::Pull { bot_name: s("worker") });
    hub.step(Event::Launched(vec![Launch::Failed(s("git missing"))]));
    assert_eq!(command(&mut hub, Commands::ListTasks), Action::Poll(vec![task("00000000")]));
    assert_eq!(
        hub.step(Event::Polled(vec![Poll::Exited(Some(0))])),
        respond("00000000\tworker Build 0 started exited 0\n00000001\tworker Pull 1 failed git missing\n")
    );
}

#[test]
fn status_of_a_bot() {
    let mut hub = running(vec![echo()]);
    assert_eq!(command(&mut hub, Commands::Status { bot_name: s("ghost") }), respond("none\n"));
    assert_eq!(command(&mut hub, Commands::Status { bot_name: s("echo") }), Action::Poll(vec![bot("echo")]));
    assert_eq!(hub.step(Event::Polled(vec![Poll::Running])), respond("some started running\n"));
    assert_eq!(command(&mut hub, Commands::Status { bot_name: s("echo") }), Action::Poll(vec![bot("echo")]));
    assert_eq!(hub.step(Event::Polled(vec![Poll::Exited(Some(-7))])), respond("some started exited -7\n"));
    assert_eq!(command(&mut hub, Commands::Status { bot_name: s("echo") }), respond("some started exited -7\n"));
}

#[test]
fn status_of_a_bot_that_failed_to_start() {
    let (mut hub, _) = Hub::launch(bots(vec![echo()]), None);
    hub.step(Event::Launched(vec![Launch::Failed(s("No such file or directory (os error 2)"))]));
    assert_eq!(
        command(&mut hub, Commands::Status { bot_name: s("echo") }),
        respond("some failed No such file or directory (os error 2)\n")
    );
}

#[test]
fn status_of_a_task() {
    let mut hub = running(vec![worker()]);
    assert_eq!(command(&mut hub, Commands::TaskStatus { task_id: s("00000000") }), respond("none\n"));
    let id = worker_task(&mut hub, Commands::CleanAll { bot_name: s("worker") });
    assert_eq!(id, "00000000");
    assert_eq!(
        command(&mut hub, Commands::TaskStatus { task_id: id.clone() }),
        Action::Poll(vec![task("00000000")])
    );
    assert_eq!(
        hub.step(Event::Polled(vec![Poll::Running])),
        respond("some 00000000\tworker CleanAll 0 started running\n")
    );
    command(&mut hub, Commands::TaskStatus { task_id: id.clone() });
    assert_eq!(
        hub.step(Event::Polled(vec![Poll::Exited(Some(101))])),
        respond("some 00000000\tworker CleanAll 0 started exited 101\n")
    );
    assert_eq!(
        command(&mut hub, Commands::TaskStatus { task_id: id }),
        respond("some 00000000\tworker CleanAll 0 started exited 101\n")
    );
}

#[test]
fn build_without_repo_creates_no_task() {
    let mut hub = running(vec![greeter()]);
    assert_eq!(command(&mut hub, Commands::Build { bot_name: s("greeter") }), respond("some no_repo\n"));
    assert_eq!(hub.tasks().len(), 0);
    assert_eq!(hub.phase(), &Phase::Idle);
    assert_eq!(command(&mut hub, Commands::ListTasks), Action::Poll(vec![]));
    assert_eq!(hub.step(Event::Polled(vec![])), respond(""));
}

#[test]
fn maintenance_without_repo_creates_no_task() {
    let mut hub = running(vec![echo()]);
    assert_eq!(command(&mut hub, Commands::Clean { bot_name: s("echo") }), respond("some no_repo\n"));
    assert_eq!(command(&mut hub, Commands::CleanAll { bot_name: s("echo") }), respond("some no_repo\n"));
    assert_eq!(command(&mut hub, Commands::Pull { bot_name: s("echo") }), respond("some no_repo\n"));
    assert_eq!(hub.tasks().len(), 0);
}

#[test]
fn maintenance_of_an_unknown_bot() {
    let mut hub = running(vec![echo()]);
    assert_eq!(command(&mut hub, Commands::Clean { bot_name: s("ghost") }), respond("none\n"));
    assert_eq!(command(&mut hub, Commands::CleanAll { bot_name: s("ghost") }), respond("none\n"));
    assert_eq!(command(&mut hub, Commands::Build { bot_name: s("ghost") }), respond("none\n"));
    assert_eq!(command(&mut hub, Commands::Pull { bot_name: s("ghost") }), respond("none\n"));
    assert_eq!(hub.tasks().len(), 0);
}

#[test]
fn build_creates_a_task() {
    let mut hub = running(vec![worker()]);
    assert_eq!(
        command(&mut hub, Commands::Build { bot_name: s("worker") }),
        Action::Spawn(vec![SpawnRequest { target: task("00000000"), command: worker().build().unwrap() }])
    );
    assert_eq!(hub.phase(), &Phase::Launching { bot_name: s("worker"), kind: Some(TaskType::Build) });
    assert_eq!(hub.tasks().len(), 0);
    assert_eq!(hub.step(Event::Launched(vec![Launch::Started])), respond("some 00000000\n"));
    assert_eq!(
        hub.tasks().get(&s("00000000")),
        Some(&TaskRecord { bot_name: s("worker"), kind: TaskType::Build, serial: 0, process: ProcessRecord::Spawned })
    );
}

#[test]
fn each_maintenance_command_runs_its_own_command() {
    let mut hub = running(vec![worker()]);
    let spawned = |action: Action| match action {
        Action::Spawn(mut requests) => requests.remove(0).command,
        other => panic!("{:?}", other),
    };
    assert_eq!(spawned(command(&mut hub, Commands::Pull { bot_name: s("worker") })), worker().pull().unwrap());
    hub.step(Event::Launched(vec![Launch::Started]));
    assert_eq!(
        spawned(command(&mut hub, Commands::CleanAll { bot_name: s("worker") })),
        worker().clean_all().unwrap()
    );
    hub.step(Event::Launched(vec![Launch::Started]));
    assert_eq!(hub.tasks().get(&s("00000000")).unwrap().kind, TaskType::Pull);
    assert_eq!(hub.tasks().get(&s("00000001")).unwrap().kind, TaskType::CleanAll);
}

#[test]
fn task_ids_follow_the_order_of_creation() {
    let mut hub = running(vec![worker()]);
    let first = worker_task(&mut hub, Commands::Build { bot_name: s("worker") });
    let second = worker_task(&mut hub, Commands::Pull { bot_name: s("worker") });
    let third = worker_task(&mut hub, Commands::CleanAll { bot_name: s("worker") });
    assert_eq!((first.as_str(), second.as_str(), third.as_str()), ("00000000", "00000001", "00000002"));
    assert!(first < second && second < third);
    assert_eq!(hub.tasks().get(&third).unwrap().serial, 2);
}

#[test]
fn failed_task_launch_is_recorded() {
    let mut hub = running(vec![worker()]);
    command(&mut hub, Commands::Build { bot_name: s("worker") });
    assert_eq!(hub.step(Event::Launched(vec![Launch::Failed(s("cargo missing"))])), respond("some 00000000\n"));
    assert_eq!(
        hub.tasks().get(&s("00000000")).unwrap().process,
        ProcessRecord::SpawnFailed(s("cargo missing"))
    );
    assert_eq!(
        command(&mut hub, Commands::TaskStatus { task_id: s("00000000") }),
        respond("some 00000000\tworker Build 0 failed cargo missing\n")
    );
}

#[test]
fn clean_creates_a_task_like_the_other_kinds() {
    let mut hub = running(vec![worker()]);
    let expected = worker().clean().unwrap();
    assert_eq!(expected.program, "bash");
    assert_eq!(
        command(&mut hub, Commands::Clean { bot_name: s("worker") }),
        Action::Spawn(vec![SpawnRequest { target: task("00000000"), command: expected }])
    );
    assert_eq!(hub.phase(), &Phase::Launching { bot_name: s("worker"), kind: Some(TaskType::Clean) });
    assert_eq!(hub.step(Event::Launched(vec![Launch::Started])), respond("some 00000000\n"));
    assert_eq!(
        hub.tasks().get(&s("00000000")),
        Some(&TaskRecord { bot_name: s("worker"), kind: TaskType::Clean, serial: 0, process: ProcessRecord::Spawned })
    );
}

#[test]
fn clean_of_a_bot_with_a_repo_always_starts_a_task() {
    let mut hub = running(vec![worker()]);
    for serial in 0..3 {
        let id = worker_task(&mut hub, Commands::Clean { bot_name: s("worker") });
        assert_eq!(id, format!("{:08}", serial));
    }
    assert_eq!(hub.tasks().len(), 3);
}

#[test]
fn start_of_a_bot_that_has_a_record() {
    let mut hub = running(vec![echo()]);
    assert_eq!(command(&mut hub, Commands::Start { bot_name: s("echo") }), respond("exists\n"));
    assert_eq!(hub.instances().len(), 1);
}

#[test]
fn start_of_an_unknown_bot() {
    let mut hub = running(vec![echo()]);
    assert_eq!(command(&mut hub, Commands::Start { bot_name: s("ghost") }), respond("none none\n"));
    assert_eq!(hub.instances().len(), 1);
}

#[test]
fn start_after_conclude_spawns_again() {
    let (mut hub, _) = Hub::launch(bots(vec![echo()]), None);
    hub.step(Event::Launched(vec![Launch::Failed(s("busy"))]));
    assert_eq!(command(&mut hub, Commands::Conclude { bot_name: s("echo") }), respond("some failed busy\n"));
    assert_eq!(hub.instances().len(), 0);
    assert_eq!(
        command(&mut hub, Commands::Start { bot_name: s("echo") }),
        Action::Spawn(vec![SpawnRequest { target: bot("echo"), command: echo().run() }])
    );
    assert_eq!(hub.step(Event::Launched(vec![Launch::Started])), respond("none some spawned\n"));
    assert_eq!(hub.instances().get(&s("echo")), Some(&ProcessRecord::Spawned));
}

#[test]
fn start_reports_spawned_even_when_the_launch_fails() {
    let (mut hub, _) = Hub::launch(bots(vec![]), None);
    hub.step(Event::Launched(vec![]));
    let (mut other, _) = Hub::launch(bots(vec![echo()]), None);
    other.step(Event::Launched(vec![Launch::Failed(s("x"))]));
    other.step(Event::Command(Commands::Conclude { bot_name: s("echo") }));
    command(&mut other, Commands::Start { bot_name: s("echo") });
    assert_eq!(other.step(Event::Launched(vec![Launch::Failed(s("denied"))])), respond("none some spawned\n"));
    assert_eq!(other.instances().get(&s("echo")), Some(&ProcessRecord::SpawnFailed(s("denied"))));
    assert_eq!(command(&mut hub, Commands::Start { bot_name: s("echo") }), respond("none none\n"));
}

#[test]
fn echo_is_messaged_killed_and_concluded() {
    let mut hub = running(vec![echo()]);
    assert_eq!(command(&mut hub, Commands::Start { bot_name: s("echo") }), respond("exists\n"));

    let msg = Commands::Msg { bot_name: s("echo"), message: vec![s("hello"), s("world")] };
    assert_eq!(command(&mut hub, msg), Action::Poll(vec![bot("echo")]));
    assert_eq!(
        hub.step(Event::Polled(vec![Poll::Running])),
        Action::Send { bot_name: s("echo"), line: s("hello world") }
    );
    assert_eq!(hub.phase(), &Phase::Sending);
    assert_eq!(hub.step(Event::Written), respond("started running written\n"));

    assert_eq!(command(&mut hub, Commands::Kill { bot_name: s("echo") }), Action::Poll(vec![bot("echo")]));
    assert_eq!(hub.step(Event::Polled(vec![Poll::Running])), Action::Kill(vec![bot("echo")]));
    assert_eq!(hub.step(Event::Killed), respond("started killed\n"));

    assert_eq!(command(&mut hub, Commands::Conclude { bot_name: s("echo") }), Action::Poll(vec![bot("echo")]));
    assert_eq!(hub.step(Event::Polled(vec![Poll::Exited(None)])), Action::Drain(bot("echo")));
    assert_eq!(hub.instances().get(&s("echo")), Some(&ProcessRecord::Exited(-1)));
    assert_eq!(
        hub.step(Event::Drained { stdout: s(""), stderr: s("") }),
        respond("some started exited -1\n1 1 \n\n\n")
    );
    assert_eq!(hub.instances().len(), 0);
}

#[test]
fn msg_to_a_bot_that_does_not_run() {
    let (mut hub, _) = Hub::launch(bots(vec![echo(), greeter()]), None);
    hub.step(Event::Launched(vec![Launch::Started, Launch::Failed(s("x"))]));
    let msg = |name: &str| Commands::Msg { bot_name: s(name), message: vec![s("hi")] };
    assert_eq!(command(&mut hub, msg("ghost")), respond("none\n"));
    assert_eq!(command(&mut hub, msg("greeter")), respond("failed\n"));
    assert_eq!(command(&mut hub, msg("echo")), Action::Poll(vec![bot("echo")]));
    assert_eq!(hub.step(Event::Polled(vec![Poll::Exited(Some(0))])), respond("started exited\n"));
    assert_eq!(command(&mut hub, msg("echo")), respond("started exited\n"));
}

#[test]
fn msg_joins_words_with_single_spaces() {
    let mut hub = running(vec![echo()]);
    let msg = Commands::Msg { bot_name: s("echo"), message: vec![s("a"), s("b"), s("c")] };
    command(&mut hub, msg);
    assert_eq!(hub.step(Event::Polled(vec![Poll::Running])), Action::Send { bot_name: s("echo"), line: s("a b c") });
    hub.step(Event::Written);
    command(&mut hub, Commands::Msg { bot_name: s("echo"), message: vec![] });
    assert_eq!(hub.step(Event::Polled(vec![Poll::Running])), Action::Send { bot_name: s("echo"), line: s("") });
}

#[test]
fn kill_of_a_bot_that_does_not_run() {
    let (mut hub, _) = Hub::launch(bots(vec![echo(), greeter()]), None);
    hub.step(Event::Launched(vec![Launch::Started, Launch::Failed(s("x"))]));
    assert_eq!(command(&mut hub, Commands::Kill { bot_name: s("ghost") }), respond("none\n"));
    assert_eq!(command(&mut hub, Commands::Kill { bot_name: s("greeter") }), respond("failed\n"));
    command(&mut hub, Commands::Kill { bot_name: s("echo") });
    assert_eq!(hub.step(Event::Polled(vec![Poll::Exited(Some(1))])), respond("started exited\n"));
    assert_eq!(command(&mut hub, Commands::Kill { bot_name: s("echo") }), respond("started exited\n"));
    assert_eq!(hub.instances().len(), 2);
}

#[test]
fn terminate_of_a_task() {
    let mut hub = running(vec![worker()]);
    assert_eq!(command(&mut hub, Commands::Terminate { task_id: s("00000000") }), respond("none\n"));
    let id = worker_task(&mut hub, Commands::Build { bot_name: s("worker") });
    assert_eq!(command(&mut hub, Commands::Terminate { task_id: id.clone() }), Action::Poll(vec![task(&id)]));
    assert_eq!(hub.step(Event::Polled(vec![Poll::Running])), Action::Kill(vec![task(&id)]));
    assert_eq!(hub.phase(), &Phase::Killing(task(&id)));
    assert_eq!(hub.step(Event::Killed), respond("some started killed\n"));
    command(&mut hub, Commands::Terminate { task_id: id.clone() });
    assert_eq!(hub.step(Event::Polled(vec![Poll::Exited(None)])), respond("some started exited\n"));
    assert_eq!(command(&mut hub, Commands::Terminate { task_id: id }), respond("some started exited\n"));
    command(&mut hub, Commands::Pull { bot_name: s("worker") });
    hub.step(Event::Launched(vec![Launch::Failed(s("x"))]));
    assert_eq!(command(&mut hub, Commands::Terminate { task_id: s("00000001") }), respond("some failed\n"));
}

#[test]
fn conclude_leaves_a_running_bot_alone() {
    let mut hub = running(vec![echo()]);
    for _ in 0..3 {
        assert_eq!(command(&mut hub, Commands::Conclude { bot_name: s("echo") }), Action::Poll(vec![bot("echo")]));
        assert_eq!(hub.step(Event::Polled(vec![Poll::Running])), respond("some started running\n"));
        assert_eq!(hub.instances().get(&s("echo")), Some(&ProcessRecord::Spawned));
        assert_eq!(hub.instances().len(), 1);
        assert_eq!(hub.phase(), &Phase::Idle);
    }
}

#[test]
fn conclude_removes_an_exited_bot_once() {
    let mut hub = running(vec![echo(), greeter()]);
    command(&mut hub, Commands::Conclude { bot_name: s("echo") });
    assert_eq!(hub.step(Event::Polled(vec![Poll::Exited(Some(2))])), Action::Drain(bot("echo")));
    assert_eq!(hub.phase(), &Phase::Draining { target: bot("echo"), code: 2 });
    assert_eq!(
        hub.step(Event::Drained { stdout: s("hello\nworld\n"), stderr: s("oops") }),
        respond("some started exited 2\n3 1 \nhello\nworld\n\noops\n")
    );
    assert_eq!(hub.instances().get(&s("echo")), None);
    assert_eq!(hub.instances().get(&s("greeter")), Some(&ProcessRecord::Spawned));
    assert_eq!(command(&mut hub, Commands::Conclude { bot_name: s("echo") }), respond("none\n"));
    assert_eq!(hub.instances().len(), 1);
}

#[test]
fn conclude_of_a_bot_known_to_have_exited_needs_no_poll() {
    let mut hub = running(vec![echo()]);
    command(&mut hub, Commands::Status { bot_name: s("echo") });
    hub.step(Event::Polled(vec![Poll::Exited(Some(0))]));
    assert_eq!(command(&mut hub, Commands::Conclude { bot_name: s("echo") }), Action::Drain(bot("echo")));
    assert_eq!(
        hub.step(Event::Drained { stdout: s("bye"), stderr: s("") }),
        respond("some started exited 0\n1 1 \nbye\n\n")
    );
}

#[test]
fn finish_leaves_a_running_task_alone() {
    let mut hub = running(vec![worker()]);
    let id = worker_task(&mut hub, Commands::Build { bot_name: s("worker") });
    for _ in 0..2 {
        assert_eq!(command(&mut hub, Commands::Finish { task_id: id.clone() }), Action::Poll(vec![task(&id)]));
        assert_eq!(hub.step(Event::Polled(vec![Poll::Running])), respond("some started running\n"));
        assert_eq!(hub.tasks().len(), 1);
    }
}

#[test]
fn finish_removes_an_exited_task_once() {
    let mut hub = running(vec![worker()]);
    assert_eq!(command(&mut hub, Commands::Finish { task_id: s("00000000") }), respond("none\n"));
    let id = worker_task(&mut hub, Commands::Build { bot_name: s("worker") });
    command(&mut hub, Commands::Finish { task_id: id.clone() });
    assert_eq!(hub.step(Event::Polled(vec![Poll::Exited(Some(0))])), Action::Drain(task(&id)));
    assert_eq!(
        hub.step(Event::Drained { stdout: s(""), stderr: s("Compiling worker\nFinished\n") }),
        respond("some started exited 0\n1 3 \n\nCompiling worker\nFinished\n\n")
    );
    assert_eq!(hub.tasks().len(), 0);
    assert_eq!(command(&mut hub, Commands::Finish { task_id: id }), respond("none\n"));
    assert_eq!(worker_task(&mut hub, Commands::Build { bot_name: s("worker") }), "00000001");
}

#[test]
fn finish_keeps_a_task_that_failed_to_start() {
    let mut hub = running(vec![worker()]);
    command(&mut hub, Commands::Build { bot_name: s("worker") });
    hub.step(Event::Launched(vec![Launch::Failed(s("x"))]));
    assert_eq!(command(&mut hub, Commands::Finish { task_id: s("00000000") }), respond("some failed\n"));
    assert_eq!(hub.tasks().len(), 1);
}

#[test]
fn wait_blocks_on_a_running_task() {
    let mut hub = running(vec![worker()]);
    assert_eq!(command(&mut hub, Commands::Wait { task_id: s("00000000") }), respond("none\n"));
    let id = worker_task(&mut hub, Commands::Build { bot_name: s("worker") });
    assert_eq!(command(&mut hub, Commands::Wait { task_id: id.clone() }), Action::Poll(vec![task(&id)]));
    assert_eq!(hub.step(Event::Polled(vec![Poll::Running])), Action::Wait(id.clone()));
    assert_eq!(hub.phase(), &Phase::Waiting(id.clone()));
    assert_eq!(command(&mut hub, Commands::List), Action::Unexpected);
    assert_eq!(hub.step(Event::Waited(Some(4))), respond("some started waiting exited\n"));
    assert_eq!(hub.tasks().get(&id).unwrap().process, ProcessRecord::Exited(4));
    assert_eq!(command(&mut hub, Commands::Wait { task_id: id.clone() }), respond("some started exited\n"));
    assert_eq!(command(&mut hub, Commands::Finish { task_id: id.clone() }), Action::Drain(task(&id)));
}

#[test]
fn wait_on_a_task_that_does_not_run() {
    let mut hub = running(vec![worker()]);
    command(&mut hub, Commands::Build { bot_name: s("worker") });
    hub.step(Event::Launched(vec![Launch::Failed(s("x"))]));
    assert_eq!(command(&mut hub, Commands::Wait { task_id: s("00000000") }), respond("some failed\n"));
    let id = worker_task(&mut hub, Commands::Pull { bot_name: s("worker") });
    command(&mut hub, Commands::Wait { task_id: id });
    assert_eq!(hub.step(Event::Polled(vec![Poll::Exited(Some(0))])), respond("some started exited\n"));
}

#[test]
fn verify_one_bot() {
    let mut hub = running(vec![echo(), worker()]);
    assert_eq!(command(&mut hub, Commands::Verify { bot_name: Some(s("ghost")) }), respond("none\n"));
    assert_eq!(
        command(&mut hub, Commands::Verify { bot_name: Some(s("worker")) }),
        Action::Probe(vec![worker().paths()])
    );
    assert_eq!(hub.phase(), &Phase::Probing(Some(s("worker"))));
    assert_eq!(
        hub.step(Event::Probed(vec![PathProbe { repo_is_git: true, executable_is_file: true }])),
        respond("some ok\n")
    );
    command(&mut hub, Commands::Verify { bot_name: Some(s("worker")) });
    assert_eq!(
        hub.step(Event::Probed(vec![PathProbe { repo_is_git: false, executable_is_file: true }])),
        respond("some err bot.repo_path should lead to a git directiory!\n")
    );
}

#[test]
fn verify_all_bots() {
    let mut hub = running(vec![echo(), worker()]);
    assert_eq!(
        command(&mut hub, Commands::Verify { bot_name: None }),
        Action::Probe(vec![echo().paths(), worker().paths()])
    );
    assert_eq!(
        hub.step(Event::Probed(vec![PathProbe { repo_is_git: true, executable_is_file: true }])),
        Action::Unexpected
    );
    assert_eq!(
        hub.step(Event::Probed(vec![
            PathProbe { repo_is_git: false, executable_is_file: false },
            PathProbe { repo_is_git: true, executable_is_file: true },
        ])),
        respond("echo err Given executable_path doesn't lead to a executable file!\nworker ok\n")
    );
    assert_eq!(hub.instances().len(), 2);
}

#[test]
fn control_restart_without_control_bot_is_not_applicable() {
    let mut hub = running(vec![echo()]);
    assert_eq!(
        command(&mut hub, Commands::ControlRestart),
        Action::Respond {
            output: s(""),
            diagnostic: Some(s("control_restart is not applicable: no control bot is configured\n")),
        }
    );
    assert_eq!(hub.phase(), &Phase::Idle);
    assert_eq!(hub.instances().get(&s("echo")), Some(&ProcessRecord::Spawned));
    assert_eq!(hub.step(Event::Restarted(Restart::Done)), Action::Unexpected);
    assert_eq!(command(&mut hub, Commands::List), respond("echo\n"));
}

#[test]
fn control_restart_replaces_the_control_bot() {
    let mut hub = controlled();
    assert_eq!(
        command(&mut hub, Commands::ControlRestart),
        Action::Restart { bot_name: s("echo"), command: echo().run() }
    );
    assert_eq!(hub.phase(), &Phase::Restarting);
    assert_eq!(hub.step(Event::Restarted(Restart::Done)), Action::Read);
    assert_eq!(hub.phase(), &Phase::Idle);
    assert_eq!(hub.instances().get(&s("echo")), Some(&ProcessRecord::Spawned));
    assert_eq!(hub.instances().len(), 2);
}

#[test]
fn control_restart_records_a_new_process_after_an_exit() {
    let mut hub = controlled();
    command(&mut hub, Commands::Status { bot_name: s("echo") });
    hub.step(Event::Polled(vec![Poll::Exited(Some(1))]));
    command(&mut hub, Commands::ControlRestart);
    assert_eq!(hub.step(Event::Restarted(Restart::Done)), Action::Read);
    assert_eq!(hub.instances().get(&s("echo")), Some(&ProcessRecord::Spawned));
    assert_eq!(hub.instances().key_at(0), "echo");
}

#[test]
fn control_restart_that_cannot_kill_gives_up() {
    let mut hub = controlled();
    command(&mut hub, Commands::ControlRestart);
    assert_eq!(hub.step(Event::Restarted(Restart::KillFailed(s("not permitted")))), Action::Fail(s("not permitted")));
    assert!(hub.is_stopped());
    assert_eq!(hub.instances().len(), 2);
    assert_eq!(command(&mut hub, Commands::List), Action::Unexpected);
}

#[test]
fn control_restart_that_cannot_spawn_gives_up() {
    let mut hub = controlled();
    command(&mut hub, Commands::ControlRestart);
    assert_eq!(hub.step(Event::Restarted(Restart::SpawnFailed(s("gone")))), Action::Fail(s("gone")));
    assert!(hub.is_stopped());
    assert_eq!(hub.instances().get(&s("echo")), None);
    assert_eq!(hub.instances().len(), 1);
}

#[test]
fn responses_to_a_control_bot_are_framed() {
    let mut hub = controlled();
    assert_eq!(hub.control_bot(), &Some(s("echo")));
    assert_eq!(command(&mut hub, Commands::List), respond("1\necho worker\n"));
    assert_eq!(command(&mut hub, Commands::Status { bot_name: s("ghost") }), respond("1\nnone\n"));
    command(&mut hub, Commands::ListStatus);
    assert_eq!(
        hub.step(Event::Polled(vec![Poll::Running, Poll::Exited(Some(0))])),
        respond("2\necho started running\nworker started exited 0\n")
    );
    assert_eq!(command(&mut hub, Commands::Conclude { bot_name: s("worker") }), Action::Drain(bot("worker")));
    assert_eq!(
        hub.step(Event::Drained { stdout: s("a\nb"), stderr: s("") }),
        respond("5\nsome started exited 0\n2 1 \na\nb\n\n")
    );
}

#[test]
fn parse_error_is_answered_with_an_empty_response() {
    let mut hub = running(vec![echo()]);
    assert_eq!(
        hub.step(Event::ParseError(s("error: unrecognized subcommand 'lst'\n"))),
        Action::Respond { output: s(""), diagnostic: Some(s("error: unrecognized subcommand 'lst'\n")) }
    );
    assert_eq!(hub.phase(), &Phase::Idle);
    let mut hub = controlled();
    assert_eq!(
        hub.step(Event::ParseError(s("error"))),
        Action::Respond { output: s("0\n"), diagnostic: Some(s("error")) }
    );
    assert_eq!(command(&mut hub, Commands::List), respond("1\necho worker\n"));
}

#[test]
fn exit_kills_what_still_runs() {
    let mut hub = running(vec![echo(), greeter(), worker()]);
    let id = worker_task(&mut hub, Commands::Build { bot_name: s("worker") });
    command(&mut hub, Commands::Status { bot_name: s("greeter") });
    hub.step(Event::Polled(vec![Poll::Exited(Some(0))]));
    assert_eq!(command(&mut hub, Commands::Exit), Action::Poll(vec![bot("echo"), bot("worker"), task(&id)]));
    assert_eq!(
        hub.step(Event::Polled(vec![Poll::Running, Poll::Exited(Some(1)), Poll::Running])),
        Action::Kill(vec![bot("echo"), task(&id)])
    );
    assert_eq!(hub.phase(), &Phase::Reaping);
    assert_eq!(hub.step(Event::Killed), Action::Exit);
    assert!(hub.is_stopped());
    assert_eq!(hub.instances().len(), 0);
    assert_eq!(hub.tasks().len(), 0);
    assert_eq!(hub.bots().len(), 3);
}

#[test]
fn exit_with_nothing_running() {
    let mut hub = running(vec![]);
    assert_eq!(command(&mut hub, Commands::Exit), Action::Poll(vec![]));
    assert_eq!(hub.step(Event::Polled(vec![])), Action::Kill(vec![]));
    assert_eq!(hub.step(Event::Killed), Action::Exit);
    assert!(hub.is_stopped());
}

#[test]
fn nothing_is_served_after_exit() {
    let mut hub = running(vec![echo()]);
    command(&mut hub, Commands::Exit);
    hub.step(Event::Polled(vec![Poll::Running]));
    hub.step(Event::Killed);
    assert_eq!(command(&mut hub, Commands::List), Action::Unexpected);
    assert_eq!(hub.step(Event::Killed), Action::Unexpected);
    assert_eq!(hub.step(Event::ParseError(s("x"))), Action::Unexpected);
    assert!(hub.is_stopped());
}

#[test]
fn events_that_answer_nothing_change_nothing() {
    let mut hub = running(vec![echo()]);
    assert_eq!(hub.step(Event::Polled(vec![])), Action::Unexpected);
    assert_eq!(hub.step(Event::Killed), Action::Unexpected);
    assert_eq!(hub.step(Event::Written), Action::Unexpected);
    assert_eq!(hub.step(Event::Waited(None)), Action::Unexpected);
    assert_eq!(hub.step(Event::Launched(vec![Launch::Started])), Action::Unexpected);
    assert_eq!(hub.step(Event::Drained { stdout: s(""), stderr: s("") }), Action::Unexpected);
    assert_eq!(hub.step(Event::Probed(vec![])), Action::Unexpected);
    assert_eq!(hub.phase(), &Phase::Idle);
    assert_eq!(hub.instances().len(), 1);
    command(&mut hub, Commands::Status { bot_name: s("echo") });
    assert_eq!(hub.step(Event::Polled(vec![])), Action::Unexpected);
    assert_eq!(hub.step(Event::Polled(vec![Poll::Running, Poll::Running])), Action::Unexpected);
    assert_eq!(hub.phase(), &Phase::Polling(Commands::Status { bot_name: s("echo") }));
    assert_eq!(hub.step(Event::Polled(vec![Poll::Running])), respond("some started running\n"));
}

#[test]
fn cli_holds_one_command() {
    let cli = Cli { command: Commands::Kill { bot_name: s("echo") } };
    assert_eq!(cli.command.copy(), Commands::Kill { bot_name: s("echo") });
    let mut hub = running(vec![echo()]);
    assert_eq!(command(&mut hub, cli.command), Action::Poll(vec![bot("echo")]));
}

#[test]
fn command_spec_is_plain_data() {
    let spec = CommandSpec { program: s("git"), args: vec![s("pull")], current_dir: Some(s("/srv")), env: vec![] };
    assert_eq!(spec.program, "git");
    assert_eq!(spec, CommandSpec { program: s("git"), args: vec![s("pull")], current_dir: Some(s("/srv")), env: vec![] });
}

#[test]
fn responses_are_made_of_whole_lines() {
    let mut hub = running(vec![echo(), greeter(), worker()]);
    let id = worker_task(&mut hub, Commands::Build { bot_name: s("worker") });
    let mut outputs = Vec::new();
    let mut note = |action: Action| {
        if let Action::Respond { output, .. } = action {
            outputs.push(output);
        }
    };
    note(command(&mut hub, Commands::List));
    note(command(&mut hub, Commands::Start { bot_name: s("echo") }));
    note(command(&mut hub, Commands::Status { bot_name: s("ghost") }));
    note(command(&mut hub, Commands::Pull { bot_name: s("echo") }));
    note(command(&mut hub, Commands::ControlRestart));
    note(hub.step(Event::ParseError(s("error"))));
    command(&mut hub, Commands::ListStatus);
    note(hub.step(Event::Polled(vec![Poll::Running, Poll::Exited(None), Poll::Running])));
    command(&mut hub, Commands::ListTasks);
    note(hub.step(Event::Polled(vec![Poll::Exited(Some(0))])));
    note(command(&mut hub, Commands::Wait { task_id: id.clone() }));
    command(&mut hub, Commands::Finish { task_id: id });
    note(hub.step(Event::Drained { stdout: s("no feed at the end"), stderr: s("") }));
    assert_eq!(outputs.len(), 10);
    for output in outputs {
        assert!(output.is_empty() || output.ends_with('\n'), "{:?}", output);
    }
}

#[test]
fn steps_keep_the_configuration() {
    let mut hub = controlled();
    command(&mut hub, Commands::ControlRestart);
    hub.step(Event::Restarted(Restart::Done));
    command(&mut hub, Commands::Exit);
    hub.step(Event::Polled(vec![Poll::Running, Poll::Running]));
    hub.step(Event::Killed);
    assert_eq!(hub.bots().len(), 2);
    assert_eq!(hub.bots().key_at(0), "echo");
    assert_eq!(hub.bots().key_at(1), "worker");
    assert_eq!(hub.control_bot(), &Some(s("echo")));
}
