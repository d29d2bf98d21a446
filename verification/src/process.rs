//! Process records, task records and the status texts made of them.

use crate::text::{
    decimal, lemma_decimal_injective, lemma_decimal_long, lemma_fixed_width_order,
    lemma_text_less_irreflexive, lemma_zero_padded_fixed, pow10, push_decimal, push_signed,
    push_zero_padded, signed_decimal, text_less, zero_padded,
};
use crate::TaskType;
use vstd::prelude::*;

verus! {

broadcast use vstd::string::group_string_axioms;

/// What is known of a process that was to be started.
#[derive(Debug, PartialEq, Eq)]
pub enum ProcessRecord {
    /// It was started and has not been seen to exit.
    Spawned,
    /// It could not be started; the message says why.
    SpawnFailed(String),
    /// It was seen to exit with this code.
    Exited(i32),
}

/// The mathematical content of a [`ProcessRecord`].
pub enum RecordModel {
    Spawned,
    SpawnFailed(Seq<char>),
    Exited(int),
}

impl View for ProcessRecord {
    type V = RecordModel;

    open spec fn view(&self) -> RecordModel {
        match self {
            ProcessRecord::Spawned => RecordModel::Spawned,
            ProcessRecord::SpawnFailed(message) => RecordModel::SpawnFailed(message@),
            ProcessRecord::Exited(code) => RecordModel::Exited(*code as int),
        }
    }
}

/// The result of asking a started process, without waiting, whether it
/// still runs.
#[derive(Clone, Copy, Debug, PartialEq, Eq, Structural)]
pub enum Poll {
    Running,
    /// It has exited; the code is missing where a signal ended it.
    Exited(Option<i32>),
}

/// The result of trying to start a process.
#[derive(Debug, PartialEq, Eq)]
pub enum Launch {
    Started,
    Failed(String),
}

/// The mathematical content of a [`Launch`].
pub enum LaunchModel {
    Started,
    Failed(Seq<char>),
}

impl View for Launch {
    type V = LaunchModel;

    open spec fn view(&self) -> LaunchModel {
        match self {
            Launch::Started => LaunchModel::Started,
            Launch::Failed(message) => LaunchModel::Failed(message@),
        }
    }
}

/// The code recorded for an exit: the process's own, or -1 where it has
/// none.
pub open spec fn exit_code(code: Option<i32>) -> int {
    match code {
        Some(c) => c as int,
        None => -1,
    }
}

/// The record after a poll: a started process that has exited is recorded
/// as exited, once and for all; nothing else changes.
pub open spec fn observe(record: RecordModel, poll: Poll) -> RecordModel {
    match (record, poll) {
        (RecordModel::Spawned, Poll::Exited(code)) => RecordModel::Exited(exit_code(code)),
        _ => record,
    }
}

/// The record that a launch leaves.
pub open spec fn launched(launch: LaunchModel) -> RecordModel {
    match launch {
        LaunchModel::Started => RecordModel::Spawned,
        LaunchModel::Failed(message) => RecordModel::SpawnFailed(message),
    }
}

/// How a record reads in a status line. A record that is still `Spawned`
/// reads as running.
pub open spec fn status_text(record: RecordModel) -> Seq<char> {
    match record {
        RecordModel::Spawned => "started running"@,
        RecordModel::SpawnFailed(message) => "failed "@ + message,
        RecordModel::Exited(code) => "started exited "@ + signed_decimal(code),
    }
}

/// A maintenance task: the bot it works for, its kind, its serial number,
/// and its process.
#[derive(Debug, PartialEq, Eq)]
pub struct TaskRecord {
    pub bot_name: String,
    pub kind: TaskType,
    pub serial: u32,
    pub process: ProcessRecord,
}

/// The mathematical content of a [`TaskRecord`].
pub struct TaskModel {
    pub bot_name: Seq<char>,
    pub kind: TaskType,
    pub serial: int,
    pub process: RecordModel,
}

impl View for TaskRecord {
    type V = TaskModel;

    open spec fn view(&self) -> TaskModel {
        TaskModel {
            bot_name: self.bot_name@,
            kind: self.kind,
            serial: self.serial as int,
            process: self.process@,
        }
    }
}

/// The width to which task ids are padded.
pub const TASK_ID_WIDTH: usize = 8;

/// The id of the task with serial number `serial`: its decimal digits,
/// padded with zeros to eight characters.
pub open spec fn task_id(serial: int) -> Seq<char> {
    zero_padded(serial as nat, 8)
}

/// How a task reads in a listing.
pub open spec fn task_line(id: Seq<char>, task: TaskModel) -> Seq<char> {
    id + "\t"@ + task.bot_name + " "@ + task.kind.name_spec() + " "@ + decimal(task.serial as nat)
        + " "@ + status_text(task.process)
}

impl ProcessRecord {
    /// A copy of the record.
    pub fn copy(&self) -> (r: ProcessRecord)
        ensures
            r@ == self@,
    {
        match self {
            ProcessRecord::Spawned => ProcessRecord::Spawned,
            ProcessRecord::SpawnFailed(message) => ProcessRecord::SpawnFailed(message.clone()),
            ProcessRecord::Exited(code) => ProcessRecord::Exited(*code),
        }
    }

    /// The record after `poll`.
    pub fn observe(&self, poll: Poll) -> (r: ProcessRecord)
        ensures
            r@ == observe(self@, poll),
    {
        match (self, poll) {
            (ProcessRecord::Spawned, Poll::Exited(code)) => ProcessRecord::Exited(
                match code {
                    Some(c) => c,
                    None => -1,
                },
            ),
            _ => self.copy(),
        }
    }

    /// The record that `launch` leaves.
    pub fn launched(launch: &Launch) -> (r: ProcessRecord)
        ensures
            r@ == launched(launch@),
    {
        match launch {
            Launch::Started => ProcessRecord::Spawned,
            Launch::Failed(message) => ProcessRecord::SpawnFailed(message.clone()),
        }
    }

    /// Whether the process was started and has not been seen to exit.
    pub fn is_spawned(&self) -> (r: bool)
        ensures
            r == (self@ is Spawned),
    {
        match self {
            ProcessRecord::Spawned => true,
            _ => false,
        }
    }

    /// Appends the record's status text to `out`.
    pub fn push_status(&self, out: &mut String)
        ensures
            final(out)@ == old(out)@ + status_text(self@),
    {
        match self {
            ProcessRecord::Spawned => {
                out.append("started running");
            },
            ProcessRecord::SpawnFailed(message) => {
                out.append("failed ");
                out.append(message.as_str());
                assert(out@ =~= old(out)@ + status_text(self@));
            },
            ProcessRecord::Exited(code) => {
                out.append("started exited ");
                push_signed(out, *code as i64);
                assert(out@ =~= old(out)@ + status_text(self@));
            },
        }
    }
}

/// Renders the id of the task with serial number `serial`.
pub fn render_task_id(serial: u32) -> (r: String)
    ensures
        r@ == task_id(serial as int),
{
    let mut out = String::new();
    push_zero_padded(&mut out, serial as u64, TASK_ID_WIDTH);
    assert(out@ =~= task_id(serial as int));
    out
}

impl TaskRecord {
    /// A copy of the record.
    pub fn copy(&self) -> (r: TaskRecord)
        ensures
            r@ == self@,
    {
        TaskRecord {
            bot_name: self.bot_name.clone(),
            kind: self.kind,
            serial: self.serial,
            process: self.process.copy(),
        }
    }

    /// Appends the task's listing line, without a line feed, to `out`.
    pub fn push_line(&self, id: &str, out: &mut String)
        ensures
            final(out)@ == old(out)@ + task_line(id@, self@),
    {
        out.append(id);
        out.append("\t");
        out.append(self.bot_name.as_str());
        out.append(" ");
        out.append(self.kind.name());
        out.append(" ");
        push_decimal(out, self.serial as u64);
        out.append(" ");
        self.process.push_status(out);
        assert(out@ =~= old(out)@ + task_line(id@, self@));
    }
}

/// The ids of two serial numbers below one hundred million are eight
/// characters long each, and the id of the smaller number comes first in
/// the order of texts.
pub proof fn lemma_task_ids_ordered(a: int, b: int)
    requires
        0 <= a < b < 100_000_000,
    ensures
        task_id(a).len() == 8,
        task_id(b).len() == 8,
        text_less(task_id(a), task_id(b)),
{
    assert(pow10(8) == 100_000_000) by {
        reveal_with_fuel(pow10, 9);
    }
    lemma_zero_padded_fixed(a as nat, 8);
    lemma_zero_padded_fixed(b as nat, 8);
    lemma_fixed_width_order(a as nat, b as nat, 8);
}

/// Different serial numbers have different ids.
pub proof fn lemma_task_ids_distinct(a: int, b: int)
    requires
        0 <= a < b,
    ensures
        task_id(a) != task_id(b),
{
    assert(pow10(8) == 100_000_000) by {
        reveal_with_fuel(pow10, 9);
    }
    if b < 100_000_000 {
        lemma_task_ids_ordered(a, b);
        lemma_text_less_irreflexive(task_id(a));
    } else if a < 100_000_000 {
        lemma_zero_padded_fixed(a as nat, 8);
        lemma_decimal_long(b as nat, 8);
    } else {
        lemma_decimal_long(a as nat, 8);
        lemma_decimal_long(b as nat, 8);
        if task_id(a) == task_id(b) {
            lemma_decimal_injective(a as nat, b as nat);
        }
    }
}

} // verus!
