//! The executable supervisor.
//!
//! A [`Hub`] owns the descriptors and both registries. It never touches a
//! process itself: [`Hub::launch`] and [`Hub::step`] hand the driver one
//! [`Action`] at a time and take its [`Event`] back, and each is proved to
//! be the step that [`crate::transition`] defines.

use crate::bot_parser::{Bot, BotPaths, CommandSpec, PathProbe};
use crate::channel::{render_exit_report, wire_response};
use crate::cmd_parser::{Commands, CommandsModel};
use crate::process::{render_task_id, Launch, Poll, ProcessRecord, TaskRecord};
use crate::protocol::{
    models, Action, Event, EventModel, Restart, SpawnRequest, Target, TargetModel,
};
use crate::registry::{distinct_keys, keys_of, position_of, Registry};
use crate::text::{join, join_words, opt_view};
use crate::transition;
use crate::transition::{HubModel, PhaseModel};
use crate::TaskType;
use vstd::prelude::*;

verus! {

broadcast use vstd::string::group_string_axioms;

/// What the supervisor waits for.
#[derive(Debug, PartialEq, Eq)]
pub enum Phase {
    Starting,
    Idle,
    Polling(Commands),
    Probing(Option<String>),
    Launching { bot_name: String, kind: Option<TaskType> },
    Killing(Target),
    Reaping,
    Sending,
    Draining { target: Target, code: i32 },
    Waiting(String),
    Restarting,
    Stopped,
}

impl View for Phase {
    type V = PhaseModel;

    open spec fn view(&self) -> PhaseModel {
        match self {
            Phase::Starting => PhaseModel::Starting,
            Phase::Idle => PhaseModel::Idle,
            Phase::Polling(command) => PhaseModel::Polling(command@),
            Phase::Probing(bot_name) => PhaseModel::Probing(opt_view(*bot_name)),
            Phase::Launching { bot_name, kind } => PhaseModel::Launching {
                bot_name: bot_name@,
                kind: *kind,
            },
            Phase::Killing(target) => PhaseModel::Killing(target@),
            Phase::Reaping => PhaseModel::Reaping,
            Phase::Sending => PhaseModel::Sending,
            Phase::Draining { target, code } => PhaseModel::Draining {
                target: target@,
                code: *code as int,
            },
            Phase::Waiting(task_id) => PhaseModel::Waiting(task_id@),
            Phase::Restarting => PhaseModel::Restarting,
            Phase::Stopped => PhaseModel::Stopped,
        }
    }
}

/// The supervisor: the descriptors, the registries of bot processes and of
/// tasks, the counter that numbers the tasks, and what is awaited.
#[derive(Debug)]
pub struct Hub {
    bots: Registry<Bot>,
    control_bot: Option<String>,
    instances: Registry<ProcessRecord>,
    tasks: Registry<TaskRecord>,
    next_serial: u32,
    phase: Phase,
}

impl View for Hub {
    type V = HubModel;

    closed spec fn view(&self) -> HubModel {
        HubModel {
            bots: self.bots@,
            control_bot: opt_view(self.control_bot),
            instances: self.instances@,
            tasks: self.tasks@,
            next_serial: self.next_serial as int,
            phase: self.phase@,
        }
    }
}

impl Hub {
    /// The descriptors.
    pub fn bots(&self) -> (r: &Registry<Bot>)
        ensures
            r@ == self@.bots,
    {
        &self.bots
    }

    /// The name of the control bot, if there is one.
    pub fn control_bot(&self) -> (r: &Option<String>)
        ensures
            opt_view(*r) == self@.control_bot,
    {
        &self.control_bot
    }

    /// The process records of the bots.
    pub fn instances(&self) -> (r: &Registry<ProcessRecord>)
        ensures
            r@ == self@.instances,
    {
        &self.instances
    }

    /// The tasks.
    pub fn tasks(&self) -> (r: &Registry<TaskRecord>)
        ensures
            r@ == self@.tasks,
    {
        &self.tasks
    }

    /// What the supervisor waits for.
    pub fn phase(&self) -> (r: &Phase)
        ensures
            r@ == self@.phase,
    {
        &self.phase
    }

    /// Whether the supervisor has left its loop.
    pub fn is_stopped(&self) -> (r: bool)
        ensures
            r == (self@.phase is Stopped),
    {
        match &self.phase {
            Phase::Stopped => true,
            _ => false,
        }
    }

    /// Moves to `phase` and hands `action` on.
    fn enter(&mut self, phase: Phase, action: Action) -> (r: Action)
        ensures
            (final(self)@, r@) == transition::enter(old(self)@, phase@, action@),
    {
        self.phase = phase;
        action
    }

    /// Ends a command with the response `body`.
    fn reply(&mut self, body: String) -> (r: Action)
        ensures
            (final(self)@, r@) == transition::reply(old(self)@, body@),
    {
        let output = wire_response(self.control_bot.is_some(), body);
        self.phase = Phase::Idle;
        Action::Respond { output, diagnostic: None }
    }

    /// Ends a command with a fixed response.
    fn reply_with(&mut self, body: &str) -> (r: Action)
        ensures
            (final(self)@, r@) == transition::reply(old(self)@, body@),
    {
        self.reply(body.to_string())
    }

    /// The process record of `target`, if it has one.
    fn record_of(&self, target: &Target) -> (r: Option<ProcessRecord>)
        ensures
            match r {
                Some(record) => transition::record_of(self@, target@) == Some(record@),
                None => transition::record_of(self@, target@) is None,
            },
    {
        match target {
            Target::Bot(name) => match self.instances.get(name) {
                Some(record) => Some(record.copy()),
                None => None,
            },
            Target::Task(id) => match self.tasks.get(id) {
                Some(task) => Some(task.process.copy()),
                None => None,
            },
        }
    }

    /// Lets the record of `target`, if it has one, observe `poll`.
    fn observe(&mut self, target: &Target, poll: Poll)
        ensures
            final(self)@ == transition::observed(old(self)@, target@, poll),
    {
        match target {
            Target::Bot(name) => {
                let seen = match self.instances.get(name) {
                    Some(record) => Some(record.observe(poll)),
                    None => None,
                };
                match seen {
                    Some(record) => {
                        self.instances.insert(name.clone(), record);
                    },
                    None => {},
                }
            },
            Target::Task(id) => {
                let seen = match self.tasks.get(id) {
                    Some(task) => Some(
                        TaskRecord {
                            bot_name: task.bot_name.clone(),
                            kind: task.kind,
                            serial: task.serial,
                            process: task.process.observe(poll),
                        },
                    ),
                    None => None,
                };
                match seen {
                    Some(task) => {
                        self.tasks.insert(id.clone(), task);
                    },
                    None => {},
                }
            },
        }
    }

    /// Drops the record of `target`.
    fn forget(&mut self, target: &Target)
        ensures
            final(self)@ == transition::forgotten(old(self)@, target@),
    {
        match target {
            Target::Bot(name) => {
                self.instances.remove(name);
            },
            Target::Task(id) => {
                self.tasks.remove(id);
            },
        }
    }

    /// The bots whose process has not been seen to exit.
    fn running_bots(&self) -> (r: Vec<Target>)
        ensures
            models(r@) == transition::running_bots(self@.instances),
    {
        let mut out: Vec<Target> = Vec::new();
        let n = self.instances.len();
        let mut i: usize = 0;
        assert(models(out@) =~= transition::running_bots(self@.instances.take(0)));
        while i < n
            invariant
                i <= n,
                n == self@.instances.len(),
                models(out@) == transition::running_bots(self@.instances.take(i as int)),
            decreases n - i,
        {
            proof {
                let next = self@.instances.take(i + 1);
                assert(next.drop_last() =~= self@.instances.take(i as int));
            }
            let ghost before = out@;
            if self.instances.value_at(i).is_spawned() {
                out.push(Target::Bot(self.instances.key_at(i).clone()));
                assert(models(out@) =~= models(before).push(
                    TargetModel::Bot(self@.instances[i as int].0),
                ));
            }
            i = i + 1;
        }
        assert(self@.instances.take(n as int) =~= self@.instances);
        out
    }

    /// The tasks whose process has not been seen to exit.
    fn running_tasks(&self) -> (r: Vec<Target>)
        ensures
            models(r@) == transition::running_tasks(self@.tasks),
    {
        let mut out: Vec<Target> = Vec::new();
        let n = self.tasks.len();
        let mut i: usize = 0;
        assert(models(out@) =~= transition::running_tasks(self@.tasks.take(0)));
        while i < n
            invariant
                i <= n,
                n == self@.tasks.len(),
                models(out@) == transition::running_tasks(self@.tasks.take(i as int)),
            decreases n - i,
        {
            proof {
                let next = self@.tasks.take(i + 1);
                assert(next.drop_last() =~= self@.tasks.take(i as int));
            }
            let ghost before = out@;
            if self.tasks.value_at(i).process.is_spawned() {
                out.push(Target::Task(self.tasks.key_at(i).clone()));
                assert(models(out@) =~= models(before).push(
                    TargetModel::Task(self@.tasks[i as int].0),
                ));
            }
            i = i + 1;
        }
        assert(self@.tasks.take(n as int) =~= self@.tasks);
        out
    }

    /// `target` alone if its process has not been seen to exit.
    fn if_running(&self, target: Target) -> (r: Vec<Target>)
        ensures
            models(r@) == transition::if_running(self@, target@),
    {
        let mut out: Vec<Target> = Vec::new();
        let spawned = match self.record_of(&target) {
            Some(record) => record.is_spawned(),
            None => false,
        };
        if spawned {
            out.push(target);
            assert(models(out@) =~= seq![target@]);
        } else {
            assert(models(out@) =~= Seq::empty());
        }
        out
    }

    /// The processes that must be polled before `command` can be answered.
    fn poll_targets(&self, command: &Commands) -> (r: Vec<Target>)
        ensures
            models(r@) == transition::poll_targets(self@, command@),
    {
        match command {
            Commands::ListStatus => self.running_bots(),
            Commands::ListTasks => self.running_tasks(),
            Commands::Exit => {
                let mut out = self.running_bots();
                let mut tasks = self.running_tasks();
                let ghost bots = out@;
                let ghost rest = tasks@;
                out.append(&mut tasks);
                assert(models(out@) =~= models(bots) + models(rest));
                out
            },
            Commands::Status { bot_name } => self.if_running(Target::Bot(bot_name.clone())),
            Commands::Msg { bot_name, message } => self.if_running(Target::Bot(bot_name.clone())),
            Commands::Kill { bot_name } => self.if_running(Target::Bot(bot_name.clone())),
            Commands::Conclude { bot_name } => self.if_running(Target::Bot(bot_name.clone())),
            Commands::TaskStatus { task_id } => self.if_running(Target::Task(task_id.clone())),
            Commands::Terminate { task_id } => self.if_running(Target::Task(task_id.clone())),
            Commands::Wait { task_id } => self.if_running(Target::Task(task_id.clone())),
            Commands::Finish { task_id } => self.if_running(Target::Task(task_id.clone())),
            _ => {
                let out: Vec<Target> = Vec::new();
                assert(models(out@) =~= Seq::empty());
                out
            },
        }
    }

    /// Asks for the polls that `command` needs.
    fn poll(&mut self, command: Commands) -> (r: Action)
        ensures
            (final(self)@, r@) == transition::poll(old(self)@, command@),
    {
        let targets = self.poll_targets(&command);
        self.enter(Phase::Polling(command), Action::Poll(targets))
    }

    /// The names of all bots in one line.
    fn list_names(&self) -> (r: String)
        ensures
            r@ == join(keys_of(self@.bots), " "@) + "\n"@,
    {
        let ghost names = keys_of(self@.bots);
        let mut out = String::new();
        let n = self.bots.len();
        let mut i: usize = 0;
        while i < n
            invariant
                i <= n,
                n == self@.bots.len(),
                names == keys_of(self@.bots),
                out@ == join(names.take(i as int), " "@),
            decreases n - i,
        {
            proof {
                let next = names.take(i + 1);
                assert(next.drop_last() =~= names.take(i as int));
                assert(next.last() == self@.bots[i as int].0);
            }
            if i > 0 {
                out.append(" ");
            }
            out.append(self.bots.key_at(i).as_str());
            i = i + 1;
        }
        assert(names.take(n as int) =~= names);
        out.append("\n");
        out
    }

    /// The listing of the bot processes.
    fn status_lines(&self) -> (r: String)
        ensures
            r@ == transition::status_lines(self@.instances),
    {
        let mut out = String::new();
        let n = self.instances.len();
        let mut i: usize = 0;
        while i < n
            invariant
                i <= n,
                n == self@.instances.len(),
                out@ == transition::status_lines(self@.instances.take(i as int)),
            decreases n - i,
        {
            proof {
                let next = self@.instances.take(i + 1);
                assert(next.drop_last() =~= self@.instances.take(i as int));
            }
            out.append(self.instances.key_at(i).as_str());
            out.append(" ");
            self.instances.value_at(i).push_status(&mut out);
            out.append("\n");
            i = i + 1;
        }
        assert(self@.instances.take(n as int) =~= self@.instances);
        out
    }

    /// The listing of the tasks.
    fn task_lines(&self) -> (r: String)
        ensures
            r@ == transition::task_lines(self@.tasks),
    {
        let mut out = String::new();
        let n = self.tasks.len();
        let mut i: usize = 0;
        while i < n
            invariant
                i <= n,
                n == self@.tasks.len(),
                out@ == transition::task_lines(self@.tasks.take(i as int)),
            decreases n - i,
        {
            proof {
                let next = self@.tasks.take(i + 1);
                assert(next.drop_last() =~= self@.tasks.take(i as int));
            }
            self.tasks.value_at(i).push_line(self.tasks.key_at(i).as_str(), &mut out);
            out.append("\n");
            i = i + 1;
        }
        assert(self@.tasks.take(n as int) =~= self@.tasks);
        out
    }

    /// Serves a command that acts on a running process.
    fn act_on(
        &mut self,
        command: Commands,
        polled: bool,
        target: Target,
        prefix: &str,
        phase: Phase,
        act: Action,
    ) -> (r: Action)
        ensures
            (final(self)@, r@) == transition::act_on(
                old(self)@,
                command@,
                polled,
                target@,
                prefix@,
                phase@,
                act@,
            ),
    {
        match self.record_of(&target) {
            None => self.reply_with("none\n"),
            Some(ProcessRecord::SpawnFailed(_)) => {
                let mut body = prefix.to_string();
                body.append("failed\n");
                self.reply(body)
            },
            Some(ProcessRecord::Exited(_)) => {
                let mut body = prefix.to_string();
                body.append("started exited\n");
                self.reply(body)
            },
            Some(ProcessRecord::Spawned) => {
                if polled {
                    self.enter(phase, act)
                } else {
                    self.poll(command)
                }
            },
        }
    }

    /// Serves a command that reports on an exited process.
    fn report_on(&mut self, command: Commands, polled: bool, target: Target) -> (r: Action)
        ensures
            (final(self)@, r@) == transition::report_on(old(self)@, command@, polled, target@),
    {
        match self.record_of(&target) {
            None => self.reply_with("none\n"),
            Some(ProcessRecord::SpawnFailed(message)) => match &target {
                Target::Bot(_) => {
                    let mut body = "some failed ".to_string();
                    body.append(message.as_str());
                    body.append("\n");
                    self.forget(&target);
                    self.reply(body)
                },
                Target::Task(_) => self.reply_with("some failed\n"),
            },
            Some(ProcessRecord::Exited(code)) => {
                let drained = target.copy();
                self.enter(Phase::Draining { target, code }, Action::Drain(drained))
            },
            Some(ProcessRecord::Spawned) => {
                if polled {
                    self.reply_with("some started running\n")
                } else {
                    self.poll(command)
                }
            },
        }
    }

    /// The request that starts the next task with `command`.
    fn task_request(&self, command: CommandSpec) -> (r: Action)
        ensures
            r@ == transition::task_request(self@, command@),
    {
        let mut requests: Vec<SpawnRequest> = Vec::new();
        requests.push(
            SpawnRequest { target: Target::Task(render_task_id(self.next_serial)), command },
        );
        assert(models(requests@) =~= seq![requests@[0]@]);
        Action::Spawn(requests)
    }

    /// Records the next task for `bot_name` and answers with its id.
    fn create_task(&mut self, bot_name: String, kind: TaskType, process: ProcessRecord) -> (r:
        Action)
        ensures
            (final(self)@, r@) == transition::task_created(
                old(self)@,
                bot_name@,
                kind,
                process@,
            ),
    {
        let id = render_task_id(self.next_serial);
        let mut body = "some ".to_string();
        body.append(id.as_str());
        body.append("\n");
        let task = TaskRecord { bot_name, kind, serial: self.next_serial, process };
        self.tasks.insert(id, task);
        self.next_serial = if self.next_serial == u32::MAX {
            0
        } else {
            self.next_serial + 1
        };
        self.reply(body)
    }

    /// Serves a maintenance command for `bot_name`.
    fn maintain(&mut self, bot_name: String, kind: TaskType) -> (r: Action)
        ensures
            (final(self)@, r@) == transition::maintain(old(self)@, bot_name@, kind),
    {
        let plan = match self.bots.get(&bot_name) {
            None => None,
            Some(bot) => Some(
                match kind {
                    TaskType::Clean => match bot.clean() {
                        Ok(command) => Some(self.task_request(command)),
                        Err(_) => None,
                    },
                    TaskType::CleanAll => match bot.clean_all() {
                        Ok(command) => Some(self.task_request(command)),
                        Err(_) => None,
                    },
                    TaskType::Build => match bot.build() {
                        Ok(command) => Some(self.task_request(command)),
                        Err(_) => None,
                    },
                    TaskType::Pull => match bot.pull() {
                        Ok(command) => Some(self.task_request(command)),
                        Err(_) => None,
                    },
                },
            ),
        };
        match plan {
            None => self.reply_with("none\n"),
            Some(None) => self.reply_with("some no_repo\n"),
            Some(Some(action)) => self.enter(
                Phase::Launching { bot_name, kind: Some(kind) },
                action,
            ),
        }
    }

    /// Serves the request for the status of a bot.
    fn bot_status(&mut self, bot_name: String, polled: bool) -> (r: Action)
        ensures
            (final(self)@, r@) == transition::dispatch(
                old(self)@,
                CommandsModel::Status { bot_name: bot_name@ },
                polled,
            ),
    {
        let body = match self.instances.get(&bot_name) {
            None => Some("none\n".to_string()),
            Some(record) => {
                if record.is_spawned() && !polled {
                    None
                } else {
                    let mut body = "some ".to_string();
                    record.push_status(&mut body);
                    body.append("\n");
                    Some(body)
                }
            },
        };
        match body {
            Some(body) => self.reply(body),
            None => self.poll(Commands::Status { bot_name }),
        }
    }

    /// Serves the request for the status of a task.
    fn task_status(&mut self, task_id: String, polled: bool) -> (r: Action)
        ensures
            (final(self)@, r@) == transition::dispatch(
                old(self)@,
                CommandsModel::TaskStatus { task_id: task_id@ },
                polled,
            ),
    {
        let body = match self.tasks.get(&task_id) {
            None => Some("none\n".to_string()),
            Some(task) => {
                if task.process.is_spawned() && !polled {
                    None
                } else {
                    let mut body = "some ".to_string();
                    task.push_line(task_id.as_str(), &mut body);
                    body.append("\n");
                    Some(body)
                }
            },
        };
        match body {
            Some(body) => self.reply(body),
            None => self.poll(Commands::TaskStatus { task_id }),
        }
    }

    /// Serves the request to start a bot.
    fn start(&mut self, bot_name: String) -> (r: Action)
        ensures
            (final(self)@, r@) == transition::dispatch(
                old(self)@,
                CommandsModel::Start { bot_name: bot_name@ },
                false,
            ),
    {
        if self.instances.contains_key(&bot_name) {
            return self.reply_with("exists\n");
        }
        let command = match self.bots.get(&bot_name) {
            None => None,
            Some(bot) => Some(bot.run()),
        };
        match command {
            None => self.reply_with("none none\n"),
            Some(command) => {
                let mut requests: Vec<SpawnRequest> = Vec::new();
                requests.push(SpawnRequest { target: Target::Bot(bot_name.clone()), command });
                assert(models(requests@) =~= seq![requests@[0]@]);
                self.enter(Phase::Launching { bot_name, kind: None }, Action::Spawn(requests))
            },
        }
    }

    /// The paths of all bots.
    fn all_paths(&self) -> (r: Vec<BotPaths>)
        ensures
            models(r@) == transition::all_paths(self@.bots),
    {
        let mut out: Vec<BotPaths> = Vec::new();
        let n = self.bots.len();
        let mut i: usize = 0;
        while i < n
            invariant
                i <= n,
                n == self@.bots.len(),
                out@.len() == i,
                forall|k: int|
                    0 <= k < i ==> (#[trigger] out@[k])@ == crate::bot_parser::paths_of(
                        self@.bots[k].1,
                    ),
            decreases n - i,
        {
            out.push(self.bots.value_at(i).paths());
            i = i + 1;
        }
        assert(models(out@) =~= transition::all_paths(self@.bots));
        out
    }

    /// Serves the request to check the paths of one bot, or of all.
    fn verify(&mut self, bot_name: Option<String>) -> (r: Action)
        ensures
            (final(self)@, r@) == transition::dispatch(
                old(self)@,
                CommandsModel::Verify { bot_name: opt_view(bot_name) },
                false,
            ),
    {
        match bot_name {
            Some(name) => {
                let paths = match self.bots.get(&name) {
                    None => None,
                    Some(bot) => Some(bot.paths()),
                };
                match paths {
                    None => self.reply_with("none\n"),
                    Some(paths) => {
                        let mut requests: Vec<BotPaths> = Vec::new();
                        requests.push(paths);
                        assert(models(requests@) =~= seq![requests@[0]@]);
                        self.enter(Phase::Probing(Some(name)), Action::Probe(requests))
                    },
                }
            },
            None => {
                let requests = self.all_paths();
                self.enter(Phase::Probing(None), Action::Probe(requests))
            },
        }
    }

    /// Serves the request to replace the control bot.
    fn control_restart(&mut self) -> (r: Action)
        ensures
            (final(self)@, r@) == transition::dispatch(
                old(self)@,
                CommandsModel::ControlRestart,
                false,
            ),
    {
        let framed = self.control_bot.is_some();
        let plan = match &self.control_bot {
            None => None,
            Some(name) => match self.bots.get(name) {
                None => None,
                Some(bot) => Some((name.clone(), bot.run())),
            },
        };
        match plan {
            None => self.enter(
                Phase::Idle,
                Action::Respond {
                    output: wire_response(framed, "".to_string()),
                    diagnostic: Some(
                        "control_restart is not applicable: no control bot is configured\n".to_string(),
                    ),
                },
            ),
            Some((bot_name, command)) => self.enter(
                Phase::Restarting,
                Action::Restart { bot_name, command },
            ),
        }
    }

    /// Serves `command`. `polled` says whether the polls that it needs have
    /// been made.
    fn dispatch(&mut self, command: Commands, polled: bool) -> (r: Action)
        ensures
            (final(self)@, r@) == transition::dispatch(old(self)@, command@, polled),
    {
        match command {
            Commands::List => {
                let body = self.list_names();
                self.reply(body)
            },
            Commands::ListStatus => {
                if polled {
                    let body = self.status_lines();
                    self.reply(body)
                } else {
                    self.poll(Commands::ListStatus)
                }
            },
            Commands::ListTasks => {
                if polled {
                    let body = self.task_lines();
                    self.reply(body)
                } else {
                    self.poll(Commands::ListTasks)
                }
            },
            Commands::Status { bot_name } => self.bot_status(bot_name, polled),
            Commands::TaskStatus { task_id } => self.task_status(task_id, polled),
            Commands::Clean { bot_name } => self.maintain(bot_name, TaskType::Clean),
            Commands::CleanAll { bot_name } => self.maintain(bot_name, TaskType::CleanAll),
            Commands::Build { bot_name } => self.maintain(bot_name, TaskType::Build),
            Commands::Pull { bot_name } => self.maintain(bot_name, TaskType::Pull),
            Commands::Start { bot_name } => self.start(bot_name),
            Commands::Msg { bot_name, message } => {
                let target = Target::Bot(bot_name.clone());
                let act = Action::Send {
                    bot_name: bot_name.clone(),
                    line: join_words(&message, " "),
                };
                self.act_on(
                    Commands::Msg { bot_name, message },
                    polled,
                    target,
                    "",
                    Phase::Sending,
                    act,
                )
            },
            Commands::Verify { bot_name } => self.verify(bot_name),
            Commands::Kill { bot_name } => {
                let target = Target::Bot(bot_name.clone());
                let mut targets: Vec<Target> = Vec::new();
                targets.push(target.copy());
                assert(models(targets@) =~= seq![target@]);
                self.act_on(
                    Commands::Kill { bot_name },
                    polled,
                    target.copy(),
                    "",
                    Phase::Killing(target),
                    Action::Kill(targets),
                )
            },
            Commands::ControlRestart => self.control_restart(),
            Commands::Terminate { task_id } => {
                let target = Target::Task(task_id.clone());
                let mut targets: Vec<Target> = Vec::new();
                targets.push(target.copy());
                assert(models(targets@) =~= seq![target@]);
                self.act_on(
                    Commands::Terminate { task_id },
                    polled,
                    target.copy(),
                    "some ",
                    Phase::Killing(target),
                    Action::Kill(targets),
                )
            },
            Commands::Conclude { bot_name } => {
                let target = Target::Bot(bot_name.clone());
                self.report_on(Commands::Conclude { bot_name }, polled, target)
            },
            Commands::Wait { task_id } => {
                let target = Target::Task(task_id.clone());
                let phase = Phase::Waiting(task_id.clone());
                let act = Action::Wait(task_id.clone());
                self.act_on(Commands::Wait { task_id }, polled, target, "some ", phase, act)
            },
            Commands::Finish { task_id } => {
                let target = Target::Task(task_id.clone());
                self.report_on(Commands::Finish { task_id }, polled, target)
            },
            Commands::Exit => {
                if polled {
                    let targets = self.poll_targets(&Commands::Exit);
                    self.enter(Phase::Reaping, Action::Kill(targets))
                } else {
                    self.poll(Commands::Exit)
                }
            },
        }
    }

    /// Takes the polls that `command` asked for.
    fn polled(&mut self, command: Commands, polls: Vec<Poll>) -> (r: Action)
        requires
            old(self)@.phase == PhaseModel::Polling(command@),
        ensures
            (final(self)@, r@) == transition::step(
                old(self)@,
                EventModel::Polled(polls@),
            ),
    {
        let targets = self.poll_targets(&command);
        if polls.len() != targets.len() {
            return Action::Unexpected;
        }
        let mut i: usize = 0;
        while i < targets.len()
            invariant
                i <= targets.len(),
                polls.len() == targets.len(),
                self@ == transition::observed_all(
                    old(self)@,
                    models(targets@).take(i as int),
                    polls@,
                ),
            decreases targets.len() - i,
        {
            proof {
                let next = models(targets@).take(i + 1);
                assert(next.drop_last() =~= models(targets@).take(i as int));
                assert(next.last() == targets@[i as int]@);
            }
            self.observe(&targets[i], polls[i]);
            i = i + 1;
        }
        assert(models(targets@).take(targets.len() as int) =~= models(targets@));
        self.dispatch(command, true)
    }

    /// The requests that start every bot.
    fn start_requests(bots: &Registry<Bot>) -> (r: Vec<SpawnRequest>)
        ensures
            models(r@) == transition::start_requests(bots@),
    {
        let mut out: Vec<SpawnRequest> = Vec::new();
        let n = bots.len();
        let mut i: usize = 0;
        while i < n
            invariant
                i <= n,
                n == bots@.len(),
                out@.len() == i,
                forall|k: int|
                    0 <= k < i ==> (#[trigger] out@[k])@ == transition::start_requests(bots@)[k],
            decreases n - i,
        {
            out.push(
                SpawnRequest {
                    target: Target::Bot(bots.key_at(i).clone()),
                    command: bots.value_at(i).run(),
                },
            );
            i = i + 1;
        }
        assert(models(out@) =~= transition::start_requests(bots@));
        out
    }

    /// A supervisor for `bots`, commanded over the pipes of `control_bot`
    /// where there is one and from the terminal otherwise, with its first
    /// request.
    pub fn launch(bots: Registry<Bot>, control_bot: Option<String>) -> (r: (Hub, Action))
        ensures
            (r.0@, r.1@) == transition::launch(bots@, opt_view(control_bot)),
    {
        let known = match &control_bot {
            Some(name) => bots.contains_key(name),
            None => true,
        };
        let requests = Hub::start_requests(&bots);
        let mut hub = Hub {
            bots,
            control_bot,
            instances: Registry::new(),
            tasks: Registry::new(),
            next_serial: 0,
            phase: Phase::Starting,
        };
        if known {
            (hub, Action::Spawn(requests))
        } else {
            let action = hub.enter(
                Phase::Stopped,
                Action::Fail(
                    "control_bot should contain a bot name presented in a bot table".to_string(),
                ),
            );
            (hub, action)
        }
    }

    /// Takes the outcome of starting every bot.
    fn started(&mut self, launches: Vec<Launch>) -> (r: Action)
        requires
            launches@.len() == old(self)@.bots.len(),
        ensures
            (final(self)@, r@) == transition::started(old(self)@, models(launches@)),
    {
        let ghost goal = transition::started_records(self@.bots, models(launches@));
        let mut instances: Registry<ProcessRecord> = Registry::new();
        let n = self.bots.len();
        let mut i: usize = 0;
        while i < n
            invariant
                i <= n,
                n == self@.bots.len(),
                n == launches@.len(),
                self@ == old(self)@,
                distinct_keys(self@.bots),
                goal == transition::started_records(self@.bots, models(launches@)),
                instances@ == goal.take(i as int),
            decreases n - i,
        {
            proof {
                let key = self@.bots[i as int].0;
                if position_of(instances@, key) is Some {
                    let k = position_of(instances@, key)->0;
                    assert(instances@[k].0 == key);
                    assert(self@.bots[k].0 == key);
                }
                assert(goal.take(i + 1) =~= goal.take(i as int).push(goal[i as int]));
            }
            instances.insert(self.bots.key_at(i).clone(), ProcessRecord::launched(&launches[i]));
            i = i + 1;
        }
        assert(goal.take(n as int) =~= goal);
        let failure = match &self.control_bot {
            Some(name) => match instances.get(name) {
                Some(ProcessRecord::SpawnFailed(reason)) => {
                    let mut message = "Failed starting control_bot:\n\t".to_string();
                    message.append(reason.as_str());
                    Some(message)
                },
                _ => None,
            },
            None => None,
        };
        self.instances = instances;
        match failure {
            Some(message) => self.enter(Phase::Stopped, Action::Fail(message)),
            None => self.enter(Phase::Idle, Action::Read),
        }
    }

    /// Takes the outcome of starting one bot or one task.
    fn launched_one(&mut self, bot_name: String, kind: Option<TaskType>, launch: &Launch) -> (r:
        Action)
        ensures
            (final(self)@, r@) == transition::launched_one(
                old(self)@,
                bot_name@,
                kind,
                launch@,
            ),
    {
        match kind {
            None => {
                self.instances.insert(bot_name, ProcessRecord::launched(launch));
                self.reply_with("none some spawned\n")
            },
            Some(kind) => self.create_task(bot_name, kind, ProcessRecord::launched(launch)),
        }
    }

    /// Appends the verdict on `bot` to `out`.
    fn push_verdict(bot: &Bot, probe: PathProbe, out: &mut String)
        ensures
            final(out)@ == old(out)@ + transition::verdict(bot@, probe),
    {
        match bot.verify(probe.repo_is_git, probe.executable_is_file) {
            Ok(_) => {
                out.append("ok");
            },
            Err(message) => {
                out.append("err ");
                out.append(message.as_str());
                assert(out@ =~= old(out)@ + transition::verdict(bot@, probe));
            },
        }
    }

    /// Takes what was seen of the paths.
    fn probed(&mut self, bot_name: Option<String>, probes: Vec<PathProbe>) -> (r: Action)
        ensures
            (final(self)@, r@) == transition::probed(old(self)@, opt_view(bot_name), probes@),
    {
        let mut body = String::new();
        match bot_name {
            Some(name) => {
                match self.bots.get(&name) {
                    None => {
                        return Action::Unexpected;
                    },
                    Some(bot) => {
                        if probes.len() != 1 {
                            return Action::Unexpected;
                        }
                        body.append("some ");
                        Hub::push_verdict(bot, probes[0], &mut body);
                        body.append("\n");
                    },
                }
            },
            None => {
                let n = self.bots.len();
                if probes.len() != n {
                    return Action::Unexpected;
                }
                let mut i: usize = 0;
                while i < n
                    invariant
                        i <= n,
                        n == self@.bots.len(),
                        n == probes@.len(),
                        self@ == old(self)@,
                        body@ == transition::verdict_lines(self@.bots.take(i as int), probes@),
                    decreases n - i,
                {
                    proof {
                        let next = self@.bots.take(i + 1);
                        assert(next.drop_last() =~= self@.bots.take(i as int));
                    }
                    body.append(self.bots.key_at(i).as_str());
                    body.append(" ");
                    Hub::push_verdict(self.bots.value_at(i), probes[i], &mut body);
                    body.append("\n");
                    i = i + 1;
                }
                assert(self@.bots.take(n as int) =~= self@.bots);
            },
        }
        self.reply(body)
    }

    /// Takes the outcome of replacing the control bot.
    fn restarted(&mut self, outcome: Restart) -> (r: Action)
        ensures
            (final(self)@, r@) == transition::restarted(old(self)@, outcome@),
    {
        let name = match &self.control_bot {
            None => {
                return Action::Unexpected;
            },
            Some(name) => name.clone(),
        };
        match outcome {
            Restart::Done => {
                self.instances.insert(name, ProcessRecord::Spawned);
                self.enter(Phase::Idle, Action::Read)
            },
            Restart::KillFailed(message) => self.enter(Phase::Stopped, Action::Fail(message)),
            Restart::SpawnFailed(message) => {
                self.instances.remove(&name);
                self.enter(Phase::Stopped, Action::Fail(message))
            },
        }
    }

    /// Takes the driver's report and says what to do next.
    pub fn step(&mut self, event: Event) -> (r: Action)
        ensures
            (final(self)@, r@) == transition::step(old(self)@, event@),
            transition::registries_sound(old(self)@),
            transition::registries_sound(final(self)@),
    {
        proof {
            use_type_invariant(&self.instances);
            use_type_invariant(&self.tasks);
        }
        let action = self.serve(event);
        proof {
            use_type_invariant(&self.instances);
            use_type_invariant(&self.tasks);
        }
        action
    }

    /// Serves one event.
    fn serve(&mut self, event: Event) -> (r: Action)
        ensures
            (final(self)@, r@) == transition::step(old(self)@, event@),
    {
        match event {
            Event::Command(command) => match &self.phase {
                Phase::Idle => self.dispatch(command, false),
                _ => Action::Unexpected,
            },
            Event::ParseError(text) => match &self.phase {
                Phase::Idle => Action::Respond {
                    output: wire_response(self.control_bot.is_some(), "".to_string()),
                    diagnostic: Some(text),
                },
                _ => Action::Unexpected,
            },
            Event::Polled(polls) => {
                let awaited = match &self.phase {
                    Phase::Polling(command) => Some(command.copy()),
                    _ => None,
                };
                match awaited {
                    Some(command) => self.polled(command, polls),
                    None => Action::Unexpected,
                }
            },
            Event::Probed(probes) => {
                let awaited = match &self.phase {
                    Phase::Probing(bot_name) => Some(bot_name.clone()),
                    _ => None,
                };
                match awaited {
                    Some(bot_name) => self.probed(bot_name, probes),
                    None => Action::Unexpected,
                }
            },
            Event::Launched(launches) => {
                let awaited = match &self.phase {
                    Phase::Starting => Some(None),
                    Phase::Launching { bot_name, kind } => Some(Some((bot_name.clone(), *kind))),
                    _ => None,
                };
                match awaited {
                    Some(None) => {
                        let n = self.bots.len();
                        if launches.len() == n {
                            self.started(launches)
                        } else {
                            Action::Unexpected
                        }
                    },
                    Some(Some((bot_name, kind))) => {
                        if launches.len() == 1 {
                            self.launched_one(bot_name, kind, &launches[0])
                        } else {
                            Action::Unexpected
                        }
                    },
                    None => Action::Unexpected,
                }
            },
            Event::Killed => {
                let awaited = match &self.phase {
                    Phase::Killing(Target::Bot(_)) => Some(true),
                    Phase::Killing(Target::Task(_)) => Some(false),
                    Phase::Reaping => None,
                    _ => {
                        return Action::Unexpected;
                    },
                };
                match awaited {
                    Some(true) => self.reply_with("started killed\n"),
                    Some(false) => self.reply_with("some started killed\n"),
                    None => {
                        self.instances = Registry::new();
                        self.tasks = Registry::new();
                        self.enter(Phase::Stopped, Action::Exit)
                    },
                }
            },
            Event::Written => match &self.phase {
                Phase::Sending => self.reply_with("started running written\n"),
                _ => Action::Unexpected,
            },
            Event::Drained { stdout, stderr } => {
                let awaited = match &self.phase {
                    Phase::Draining { target, code } => Some((target.copy(), *code)),
                    _ => None,
                };
                match awaited {
                    Some((target, code)) => {
                        let body = render_exit_report(code, stdout.as_str(), stderr.as_str());
                        self.forget(&target);
                        self.reply(body)
                    },
                    None => Action::Unexpected,
                }
            },
            Event::Waited(code) => {
                let awaited = match &self.phase {
                    Phase::Waiting(task_id) => Some(task_id.clone()),
                    _ => None,
                };
                match awaited {
                    Some(task_id) => {
                        self.observe(&Target::Task(task_id), Poll::Exited(code));
                        self.reply_with("some started waiting exited\n")
                    },
                    None => Action::Unexpected,
                }
            },
            Event::Restarted(outcome) => match &self.phase {
                Phase::Restarting => self.restarted(outcome),
                _ => Action::Unexpected,
            },
        }
    }
}

} // verus!
