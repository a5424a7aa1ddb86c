//! Task records and the three collections that hold them.

use crate::lifecycle::{op_views, reconcile_changes, working_views, StoreOp, StoreOpView};
use crate::rows::{
    cells, decode_pending, decode_working, finished_cells, finished_row, id_row, pending_cells,
    pending_from_row, pending_row, working_cells, working_from_row, working_row, Cell,
};
use crate::sqlite::{execute, open, select, SqlFailure};
use rusqlite::types::Value;
use rusqlite::Connection;
use std::collections::HashMap;
use vstd::prelude::*;

verus! {

/// What a pending task is, as mathematical values.
pub struct PendingTaskView {
    pub id: i64,
    pub command: Seq<char>,
    pub max_run_sec: i64,
    pub time_created: Seq<char>,
}

/// What a working task is, as mathematical values.
pub struct WorkingTaskView {
    pub id: i64,
    pub command: Seq<char>,
    pub max_run_sec: i64,
    pub time_created: Seq<char>,
    pub time_started: Seq<char>,
}

/// What a finished task is, as mathematical values.
pub struct FinishedTaskView {
    pub id: i64,
    pub command: Seq<char>,
    pub max_run_sec: i64,
    pub time_created: Seq<char>,
    pub time_started: Seq<char>,
    pub time_finished: Seq<char>,
    pub exit_reason: Seq<char>,
    pub exit_code: i64,
}

/// The working record of a pending task that was claimed at `time_started`.
pub open spec fn working_record(p: PendingTaskView, time_started: Seq<char>) -> WorkingTaskView {
    WorkingTaskView {
        id: p.id,
        command: p.command,
        max_run_sec: p.max_run_sec,
        time_created: p.time_created,
        time_started,
    }
}

/// The terminal record of a working task that ended at `time_finished`.
pub open spec fn finished_record(
    w: WorkingTaskView,
    time_finished: Seq<char>,
    exit_reason: Seq<char>,
    exit_code: i64,
) -> FinishedTaskView {
    FinishedTaskView {
        id: w.id,
        command: w.command,
        max_run_sec: w.max_run_sec,
        time_created: w.time_created,
        time_started: w.time_started,
        time_finished,
        exit_reason,
        exit_code,
    }
}

/// Work that was submitted and not yet started.
#[derive(Debug)]
pub struct PendingTask {
    pub id: i64,
    pub command: String,
    pub max_run_sec: i64,
    pub time_created: String,
}

/// Work that the daemon claimed: running, or interrupted by a crash.
#[derive(Debug)]
pub struct WorkingTask {
    id: i64,
    command: String,
    max_run_sec: i64,
    time_created: String,
    time_started: String,
}

/// The terminal record of a task.
#[derive(Debug)]
pub struct FinishedTask {
    id: i64,
    command: String,
    max_run_sec: i64,
    time_created: String,
    time_started: String,
    time_finished: String,
    exit_reason: String,
    exit_code: i64,
}

/// The argument vector of a command, executable first, and the environment
/// that was captured when it was submitted.
#[derive(Debug)]
pub struct TaskCommand {
    pub env_vars: HashMap<String, String>,
    pub command: Vec<String>,
}

impl View for PendingTask {
    type V = PendingTaskView;

    open spec fn view(&self) -> PendingTaskView {
        PendingTaskView {
            id: self.id,
            command: self.command@,
            max_run_sec: self.max_run_sec,
            time_created: self.time_created@,
        }
    }
}

impl View for WorkingTask {
    type V = WorkingTaskView;

    closed spec fn view(&self) -> WorkingTaskView {
        WorkingTaskView {
            id: self.id,
            command: self.command@,
            max_run_sec: self.max_run_sec,
            time_created: self.time_created@,
            time_started: self.time_started@,
        }
    }
}

impl View for FinishedTask {
    type V = FinishedTaskView;

    closed spec fn view(&self) -> FinishedTaskView {
        FinishedTaskView {
            id: self.id,
            command: self.command@,
            max_run_sec: self.max_run_sec,
            time_created: self.time_created@,
            time_started: self.time_started@,
            time_finished: self.time_finished@,
            exit_reason: self.exit_reason@,
            exit_code: self.exit_code,
        }
    }
}

impl Clone for PendingTask {
    fn clone(&self) -> (r: Self)
        ensures
            r@ == self@,
    {
        PendingTask {
            id: self.id,
            command: self.command.clone(),
            max_run_sec: self.max_run_sec,
            time_created: self.time_created.clone(),
        }
    }
}

impl Clone for WorkingTask {
    fn clone(&self) -> (r: Self)
        ensures
            r@ == self@,
    {
        WorkingTask {
            id: self.id,
            command: self.command.clone(),
            max_run_sec: self.max_run_sec,
            time_created: self.time_created.clone(),
            time_started: self.time_started.clone(),
        }
    }
}

impl Clone for FinishedTask {
    fn clone(&self) -> (r: Self)
        ensures
            r@ == self@,
    {
        FinishedTask {
            id: self.id,
            command: self.command.clone(),
            max_run_sec: self.max_run_sec,
            time_created: self.time_created.clone(),
            time_started: self.time_started.clone(),
            time_finished: self.time_finished.clone(),
            exit_reason: self.exit_reason.clone(),
            exit_code: self.exit_code,
        }
    }
}

/// The id of a task that was submitted so many seconds and nanoseconds
/// after the epoch: that time in nanoseconds.
pub open spec fn timestamp_id(epoch_secs: u64, subsec_nanos: u32) -> int {
    epoch_secs * 1_000_000_000 + subsec_nanos
}

impl PendingTask {
    /// The id for a task that is submitted at this time since the epoch, or
    /// none where the nanoseconds do not fit an id.
    pub fn id_at(epoch_secs: u64, subsec_nanos: u32) -> (r: Option<i64>)
        ensures
            match r {
                Some(id) => id == timestamp_id(epoch_secs, subsec_nanos),
                None => timestamp_id(epoch_secs, subsec_nanos) > i64::MAX,
            },
    {
        let nanos: i128 = (epoch_secs as i128) * 1_000_000_000 + (subsec_nanos as i128);
        if nanos <= i64::MAX as i128 {
            Some(nanos as i64)
        } else {
            None
        }
    }

    /// The record of a task that is submitted under `id` at `time_created`:
    /// it has no time limit.
    pub fn submission(id: i64, command: String, time_created: String) -> (t: PendingTask)
        ensures
            t@ == (PendingTaskView {
                id,
                command: command@,
                max_run_sec: 0,
                time_created: time_created@,
            }),
    {
        PendingTask { id, command, max_run_sec: 0, time_created }
    }
}

impl TaskCommand {
    /// The executable: the first element of the argument vector, or none
    /// where the vector is empty.
    pub fn program(&self) -> (r: Option<&String>)
        ensures
            match r {
                Some(p) => self.command@.len() > 0 && *p == self.command@[0],
                None => self.command@.len() == 0,
            },
    {
        if self.command.len() > 0 {
            Some(&self.command[0])
        } else {
            None
        }
    }

    /// The arguments to the executable: the argument vector without its
    /// first element.
    pub fn arguments(&self) -> (r: Vec<String>)
        ensures
            r@.len() == (if self.command@.len() > 0 {
                self.command@.len() - 1
            } else {
                0
            }),
            forall|i: int| 0 <= i < r@.len() ==> r@[i] == self.command@[i + 1],
    {
        let mut r: Vec<String> = Vec::new();
        let mut n: usize = 1;
        while n < self.command.len()
            invariant
                1 <= n,
                n <= self.command@.len() || self.command@.len() == 0,
                r@.len() == (if self.command@.len() > 0 {
                    n - 1
                } else {
                    0
                }),
                forall|i: int| 0 <= i < r@.len() ==> r@[i] == self.command@[i + 1],
            decreases self.command@.len() - n,
        {
            r.push(self.command[n].clone());
            n += 1;
        }
        r
    }
}

impl WorkingTask {
    /// The working record of `pending_task`, started at `time_started`.
    pub fn new(pending_task: &PendingTask, time_started: &str) -> (w: WorkingTask)
        ensures
            w@ == working_record(pending_task@, time_started@),
    {
        WorkingTask {
            id: pending_task.id,
            command: pending_task.command.clone(),
            max_run_sec: pending_task.max_run_sec,
            time_created: pending_task.time_created.clone(),
            time_started: time_started.to_owned(),
        }
    }

    pub fn id(&self) -> (r: i64)
        ensures
            r == self@.id,
    {
        self.id
    }

    pub fn command(&self) -> (r: &String)
        ensures
            r@ == self@.command,
    {
        &self.command
    }

    pub fn max_run_sec(&self) -> (r: i64)
        ensures
            r == self@.max_run_sec,
    {
        self.max_run_sec
    }

    pub fn time_created(&self) -> (r: &String)
        ensures
            r@ == self@.time_created,
    {
        &self.time_created
    }

    pub fn time_started(&self) -> (r: &String)
        ensures
            r@ == self@.time_started,
    {
        &self.time_started
    }
}

impl FinishedTask {
    /// The terminal record of `working_task`, ended at `time_finished` for
    /// `exit_reason` with `exit_code`.
    pub fn new(
        working_task: &WorkingTask,
        time_finished: &str,
        exit_reason: &str,
        exit_code: i64,
    ) -> (f: FinishedTask)
        ensures
            f@ == finished_record(working_task@, time_finished@, exit_reason@, exit_code),
    {
        FinishedTask {
            id: working_task.id,
            command: working_task.command.clone(),
            max_run_sec: working_task.max_run_sec,
            time_created: working_task.time_created.clone(),
            time_started: working_task.time_started.clone(),
            time_finished: time_finished.to_owned(),
            exit_reason: exit_reason.to_owned(),
            exit_code,
        }
    }

    pub fn id(&self) -> (r: i64)
        ensures
            r == self@.id,
    {
        self.id
    }

    pub fn command(&self) -> (r: &String)
        ensures
            r@ == self@.command,
    {
        &self.command
    }

    pub fn max_run_sec(&self) -> (r: i64)
        ensures
            r == self@.max_run_sec,
    {
        self.max_run_sec
    }

    pub fn time_created(&self) -> (r: &String)
        ensures
            r@ == self@.time_created,
    {
        &self.time_created
    }

    pub fn time_started(&self) -> (r: &String)
        ensures
            r@ == self@.time_started,
    {
        &self.time_started
    }

    pub fn time_finished(&self) -> (r: &String)
        ensures
            r@ == self@.time_finished,
    {
        &self.time_finished
    }

    pub fn exit_reason(&self) -> (r: &String)
        ensures
            r@ == self@.exit_reason,
    {
        &self.exit_reason
    }

    pub fn exit_code(&self) -> (r: i64)
        ensures
            r == self@.exit_code,
    {
        self.exit_code
    }
}

/// The kinds of failure of the store.
#[derive(Debug, Clone, Copy, PartialEq, Eq, Structural)]
pub enum StoreErrorKind {
    /// The database could not be opened.
    Unreachable,
    /// A table could not be created.
    Schema,
    /// A record with the same id is already in the collection.
    DuplicateId,
    /// A row does not have the columns of a task.
    MalformedRow,
    /// A statement failed for another reason.
    Statement,
}

/// A failure of the store: its kind, SQLite's result code where there is
/// one, and a diagnostic text: what SQLite said, or for a malformed row the
/// name of its table.
#[derive(Debug)]
pub struct StoreError {
    pub kind: StoreErrorKind,
    pub code: Option<i32>,
    pub message: String,
}

/// The kinds of failure of a store that is open: of a statement that failed,
/// for a duplicate id or another reason, or of a row that was read.
pub open spec fn steady_failure(kind: StoreErrorKind) -> bool {
    kind == StoreErrorKind::DuplicateId || kind == StoreErrorKind::MalformedRow || kind
        == StoreErrorKind::Statement
}

/// SQLite's extended result code for a second row with the same primary key.
pub const PRIMARY_KEY_TAKEN: i32 = 1555;

/// The cleanup record of a working task that a crash left behind.
pub open spec fn orphan_record(w: WorkingTaskView, time_finished: Seq<char>) -> FinishedTaskView {
    finished_record(w, time_finished, "cleanup"@, -1i64)
}

/// Whether `records` are the cleanup records of `working`, one for each and
/// in their order, all ended at `time_finished`.
pub open spec fn orphan_records_of(
    records: Seq<FinishedTask>,
    working: Seq<WorkingTask>,
    time_finished: Seq<char>,
) -> bool {
    &&& records.len() == working.len()
    &&& forall|i: int|
        0 <= i < records.len() ==> (#[trigger] records[i])@ == orphan_record(
            working[i]@,
            time_finished,
        )
}

/// The kind of a failed insert, by SQLite's result code.
pub open spec fn insert_failure(code: Option<i32>) -> StoreErrorKind {
    if code == Some(PRIMARY_KEY_TAKEN) {
        StoreErrorKind::DuplicateId
    } else {
        StoreErrorKind::Statement
    }
}

/// The kind of a failed insert, by SQLite's result code: a duplicate id where
/// the primary key was taken, a failed statement otherwise.
pub fn insert_failure_kind(code: Option<i32>) -> (r: StoreErrorKind)
    ensures
        r == insert_failure(code),
{
    match code {
        Some(c) => if c == PRIMARY_KEY_TAKEN {
            StoreErrorKind::DuplicateId
        } else {
            StoreErrorKind::Statement
        },
        None => StoreErrorKind::Statement,
    }
}

/// The task to hand out from the rows of the pending table: none where the
/// table is empty, else the first row, which must be a pending task.
pub fn first_pending(rows: &Vec<Vec<Value>>) -> (r: Result<Option<PendingTask>, StoreErrorKind>)
    ensures
        rows@.len() == 0 ==> r matches Ok(None),
        rows@.len() > 0 ==> match decode_pending(cells(rows@[0]@)) {
            Some(t) => r matches Ok(Some(task)) && task@ == t,
            None => r matches Err(StoreErrorKind::MalformedRow),
        },
{
    if rows.len() == 0 {
        return Ok(None);
    }
    match pending_from_row(&rows[0]) {
        Some(task) => Ok(Some(task)),
        None => Err(StoreErrorKind::MalformedRow),
    }
}

/// The working tasks that the rows of the working table stand for, in the
/// order of the rows; a failure where one of the rows is no working task.
pub fn all_working(rows: &Vec<Vec<Value>>) -> (r: Result<Vec<WorkingTask>, StoreErrorKind>)
    ensures
        match r {
            Ok(tasks) => tasks@.len() == rows@.len() && forall|i: int|
                0 <= i < rows@.len() ==> decode_working(cells(#[trigger] rows@[i]@)) == Some(
                    tasks@[i]@,
                ),
            Err(kind) => kind == StoreErrorKind::MalformedRow && exists|i: int|
                0 <= i < rows@.len() && decode_working(cells(#[trigger] rows@[i]@)) is None,
        },
{
    let mut tasks: Vec<WorkingTask> = Vec::new();
    let mut n: usize = 0;
    while n < rows.len()
        invariant
            0 <= n <= rows@.len(),
            tasks@.len() == n,
            forall|i: int|
                0 <= i < n ==> decode_working(cells(#[trigger] rows@[i]@)) == Some(tasks@[i]@),
        decreases rows@.len() - n,
    {
        match working_from_row(&rows[n]) {
            Some(task) => {
                tasks.push(task);
            },
            None => {
                assert(decode_working(cells(rows@[n as int]@)) is None);
                return Err(StoreErrorKind::MalformedRow);
            },
        }
        n += 1;
    }
    Ok(tasks)
}

/// The cleanup records of the working tasks that were found at startup, one
/// for each and in their order, all ended at `time_finished`.
pub fn orphan_records(working: &Vec<WorkingTask>, time_finished: &str) -> (r: Vec<FinishedTask>)
    ensures
        orphan_records_of(r@, working@, time_finished@),
{
    let mut records: Vec<FinishedTask> = Vec::new();
    let mut n: usize = 0;
    while n < working.len()
        invariant
            0 <= n <= working@.len(),
            records@.len() == n,
            forall|i: int|
                0 <= i < n ==> (#[trigger] records@[i])@ == orphan_record(
                    working@[i]@,
                    time_finished@,
                ),
        decreases working@.len() - n,
    {
        records.push(FinishedTask::new(&working[n], time_finished, "cleanup", -1));
        n += 1;
    }
    records
}

/// The directory of the store, under the user's home directory.
pub const STORE_DIR: &'static str = ".rtq";

/// The database file, in the directory of the store.
pub const STORE_FILE: &'static str = "rtq.db";

/// The statements of the store.
pub const CREATE_PENDING: &'static str =
    "CREATE TABLE IF NOT EXISTS pending_tasks (
                      id              INTEGER PRIMARY KEY,
                      command         TEXT NOT NULL,
                      max_run_sec     INTEGER,
                      time_created    TEXT NOT NULL
                      )";

pub const CREATE_WORKING: &'static str =
    "CREATE TABLE IF NOT EXISTS working_tasks (
                      id              INTEGER PRIMARY KEY,
                      command         TEXT NOT NULL,
                      max_run_sec     INTEGER,
                      time_created    TEXT NOT NULL,
                      time_started    TEXT NOT NULL
                      )";

pub const CREATE_FINISHED: &'static str =
    "CREATE TABLE IF NOT EXISTS finished_tasks (
                      id              INTEGER PRIMARY KEY,
                      command         TEXT NOT NULL,
                      max_run_sec     INTEGER,
                      time_created    TEXT NOT NULL,
                      time_started    TEXT NOT NULL,
                      time_finished   TEXT NOT NULL,
                      exit_reason     TEXT NOT NULL,
                      exit_code       INTEGER
                      )";

pub const SELECT_PENDING: &'static str =
    "SELECT id, command, max_run_sec, time_created FROM pending_tasks LIMIT 1";

pub const SELECT_WORKING: &'static str =
    "SELECT id, command, max_run_sec, time_created, time_started FROM working_tasks";

pub const DELETE_PENDING: &'static str = "DELETE FROM pending_tasks WHERE id = ?1";

pub const DELETE_WORKING: &'static str = "DELETE FROM working_tasks WHERE id = ?1";

pub const INSERT_PENDING: &'static str = "INSERT INTO pending_tasks VALUES (?1, ?2, ?3, ?4)";

pub const INSERT_WORKING: &'static str = "INSERT INTO working_tasks VALUES (?1, ?2, ?3, ?4, ?5)";

pub const INSERT_FINISHED: &'static str =
    "INSERT INTO finished_tasks VALUES (?1, ?2, ?3, ?4, ?5, ?6, ?7, ?8)";

/// The three durable collections, in one SQLite database. Each statement is
/// committed by itself before its call returns.
///
/// The tables live on disk, and other processes write to them: a client
/// submits while the daemon polls. So no contract here says what a table
/// holds before or after a call: the contracts say which failures can come
/// back, and the functions that take the outcome of a statement say what is
/// made of each outcome. What the statements do to a store that nobody else
/// writes to is described by `lifecycle::Collections`.
#[derive(Debug)]
pub struct TaskDB {
    conn: Connection,
}

/// The failure of the store of the given kind that a failed call into
/// SQLite is reported as: its code and its text are kept.
pub open spec fn store_error(kind: StoreErrorKind, f: SqlFailure) -> StoreError {
    StoreError { kind, code: f.code, message: f.message }
}

fn failure(kind: StoreErrorKind, f: SqlFailure) -> (r: StoreError)
    ensures
        r == store_error(kind, f),
{
    StoreError { kind, code: f.code, message: f.message }
}

/// What a removal reports, for each outcome of its statement: success
/// whatever the count of deleted rows, so that deleting a task that is not
/// there is no error; a failed statement otherwise.
pub fn removal_outcome(deleted: Result<usize, SqlFailure>) -> (r: Result<(), StoreError>)
    ensures
        match deleted {
            Ok(_) => r is Ok,
            Err(f) => r == Err::<(), StoreError>(store_error(StoreErrorKind::Statement, f)),
        },
{
    match deleted {
        Ok(_) => Ok(()),
        Err(f) => Err(failure(StoreErrorKind::Statement, f)),
    }
}

/// What an insert reports, for each outcome of its statement: success where
/// the statement ran; else a duplicate id where SQLite found the primary key
/// taken, and a failed statement otherwise.
pub fn insert_outcome(inserted: Result<usize, SqlFailure>) -> (r: Result<(), StoreError>)
    ensures
        match inserted {
            Ok(_) => r is Ok,
            Err(f) => r == Err::<(), StoreError>(store_error(insert_failure(f.code), f)),
        },
{
    match inserted {
        Ok(_) => Ok(()),
        Err(f) => {
            let kind = insert_failure_kind(f.code);
            Err(failure(kind, f))
        },
    }
}

fn malformed(table: &str) -> (r: StoreError)
    ensures
        r.kind == StoreErrorKind::MalformedRow,
        r.code is None,
        r.message@ == table@,
{
    StoreError { kind: StoreErrorKind::MalformedRow, code: None, message: table.to_owned() }
}

/// What opening reports, for each outcome of the call: the connection
/// where there is one, an unreachable store otherwise.
pub fn open_outcome(opened: Result<Connection, SqlFailure>) -> (r: Result<Connection, StoreError>)
    ensures
        match opened {
            Ok(conn) => r == Ok::<Connection, StoreError>(conn),
            Err(f) => r == Err::<Connection, StoreError>(
                store_error(StoreErrorKind::Unreachable, f),
            ),
        },
{
    match opened {
        Ok(conn) => Ok(conn),
        Err(f) => Err(failure(StoreErrorKind::Unreachable, f)),
    }
}

/// What the creation of a table reports, for each outcome of its statement:
/// success where the statement ran, a schema failure otherwise.
pub fn schema_outcome(created: Result<usize, SqlFailure>) -> (r: Result<(), StoreError>)
    ensures
        match created {
            Ok(_) => r is Ok,
            Err(f) => r == Err::<(), StoreError>(store_error(StoreErrorKind::Schema, f)),
        },
{
    match created {
        Ok(_) => Ok(()),
        Err(f) => Err(failure(StoreErrorKind::Schema, f)),
    }
}

/// Whether every row stands for a working task.
pub open spec fn all_decode_working(rows: Seq<Vec<Value>>) -> bool {
    forall|i: int| 0 <= i < rows.len() ==> decode_working(cells(#[trigger] rows[i]@)) is Some
}

/// What the poll reports, for each outcome of its query: a failed statement
/// where the query failed; no task where it found no row; else the task of
/// the first row, or a malformed row where that row is no pending task.
pub fn pending_outcome(selected: Result<Vec<Vec<Value>>, SqlFailure>) -> (r: Result<
    Option<PendingTask>,
    StoreError,
>)
    ensures
        match selected {
            Err(f) => r == Err::<Option<PendingTask>, StoreError>(
                store_error(StoreErrorKind::Statement, f),
            ),
            Ok(rows) => if rows@.len() == 0 {
                r matches Ok(None)
            } else {
                match decode_pending(cells(rows@[0]@)) {
                    Some(t) => r matches Ok(Some(task)) && task@ == t,
                    None => r matches Err(e) && e.kind == StoreErrorKind::MalformedRow && e.code
                        is None && e.message@ == "pending_tasks"@,
                }
            },
        },
{
    match selected {
        Ok(rows) => match first_pending(&rows) {
            Ok(task) => Ok(task),
            Err(_) => Err(malformed("pending_tasks")),
        },
        Err(f) => Err(failure(StoreErrorKind::Statement, f)),
    }
}

/// What the listing of the working tasks reports, for each outcome of its
/// query: a failed statement where the query failed; else the tasks of the
/// rows, in their order, or a malformed row where one of them is no working
/// task.
pub fn working_outcome(selected: Result<Vec<Vec<Value>>, SqlFailure>) -> (r: Result<
    Vec<WorkingTask>,
    StoreError,
>)
    ensures
        match selected {
            Err(f) => r == Err::<Vec<WorkingTask>, StoreError>(
                store_error(StoreErrorKind::Statement, f),
            ),
            Ok(rows) => if all_decode_working(rows@) {
                r matches Ok(tasks) && tasks@.len() == rows@.len() && forall|i: int|
                    0 <= i < rows@.len() ==> decode_working(cells(#[trigger] rows@[i]@)) == Some(
                        tasks@[i]@,
                    )
            } else {
                r matches Err(e) && e.kind == StoreErrorKind::MalformedRow && e.code is None
                    && e.message@ == "working_tasks"@
            },
        },
{
    match selected {
        Ok(rows) => match all_working(&rows) {
            Ok(tasks) => Ok(tasks),
            Err(_) => Err(malformed("working_tasks")),
        },
        Err(f) => Err(failure(StoreErrorKind::Statement, f)),
    }
}

/// Whether a statement adds a row or deletes one.
#[derive(Debug, Clone, Copy, PartialEq, Eq, Structural)]
pub enum StatementKind {
    Insert,
    Delete,
}

/// A statement with the values for its placeholders, from left to right.
#[derive(Debug)]
pub struct Statement {
    pub kind: StatementKind,
    pub sql: &'static str,
    pub row: Vec<Value>,
}

/// Whether the statement of a change adds a row or deletes one.
pub open spec fn statement_kind(op: StoreOpView) -> StatementKind {
    match op {
        StoreOpView::InsertPending(_) => StatementKind::Insert,
        StoreOpView::InsertWorking(_) => StatementKind::Insert,
        StoreOpView::InsertFinished(_) => StatementKind::Insert,
        StoreOpView::RemovePending(_) => StatementKind::Delete,
        StoreOpView::RemoveWorking(_) => StatementKind::Delete,
    }
}

/// The text of the statement of a change: each change goes to the table of
/// its collection.
pub open spec fn statement_sql(op: StoreOpView) -> Seq<char> {
    match op {
        StoreOpView::InsertPending(_) => INSERT_PENDING@,
        StoreOpView::InsertWorking(_) => INSERT_WORKING@,
        StoreOpView::InsertFinished(_) => INSERT_FINISHED@,
        StoreOpView::RemovePending(_) => DELETE_PENDING@,
        StoreOpView::RemoveWorking(_) => DELETE_WORKING@,
    }
}

/// The values for the statement of a change: the whole record for an
/// insert, the id alone for a removal.
pub open spec fn statement_cells(op: StoreOpView) -> Seq<Cell> {
    match op {
        StoreOpView::InsertPending(t) => pending_cells(t),
        StoreOpView::InsertWorking(t) => working_cells(t),
        StoreOpView::InsertFinished(t) => finished_cells(t),
        StoreOpView::RemovePending(t) => seq![Cell::Integer(t.id)],
        StoreOpView::RemoveWorking(t) => seq![Cell::Integer(t.id)],
    }
}

/// The statement of a change, with its values.
pub fn statement_of(op: &StoreOp) -> (r: Statement)
    ensures
        r.kind == statement_kind(op@),
        r.sql@ == statement_sql(op@),
        cells(r.row@) == statement_cells(op@),
{
    match op {
        StoreOp::InsertPending(task) => Statement {
            kind: StatementKind::Insert,
            sql: INSERT_PENDING,
            row: pending_row(task),
        },
        StoreOp::InsertWorking(task) => Statement {
            kind: StatementKind::Insert,
            sql: INSERT_WORKING,
            row: working_row(task),
        },
        StoreOp::InsertFinished(task) => Statement {
            kind: StatementKind::Insert,
            sql: INSERT_FINISHED,
            row: finished_row(task),
        },
        StoreOp::RemovePending(task) => Statement {
            kind: StatementKind::Delete,
            sql: DELETE_PENDING,
            row: id_row(task.id),
        },
        StoreOp::RemoveWorking(task) => Statement {
            kind: StatementKind::Delete,
            sql: DELETE_WORKING,
            row: id_row(task.id()),
        },
    }
}

/// What a change reports, for each outcome of its statement: as an insert
/// or as a removal does, by the kind of the statement.
pub fn change_outcome(kind: StatementKind, changed: Result<usize, SqlFailure>) -> (r: Result<
    (),
    StoreError,
>)
    ensures
        match changed {
            Ok(_) => r is Ok,
            Err(f) => r == Err::<(), StoreError>(
                store_error(
                    match kind {
                        StatementKind::Insert => insert_failure(f.code),
                        StatementKind::Delete => StoreErrorKind::Statement,
                    },
                    f,
                ),
            ),
        },
{
    match kind {
        StatementKind::Insert => insert_outcome(changed),
        StatementKind::Delete => removal_outcome(changed),
    }
}

/// Whether `e` is a failure that the change `op` can end in: an insert fails
/// for a duplicate id or as a statement, by SQLite's result code; a removal
/// fails as a statement only.
pub open spec fn failure_of(op: StoreOpView, e: StoreError) -> bool {
    match statement_kind(op) {
        StatementKind::Insert => e.kind == insert_failure(e.code),
        StatementKind::Delete => e.kind == StoreErrorKind::Statement,
    }
}

/// The changes of startup for the working tasks that were found: for each,
/// in their order, its removal from the working collection, then the insert
/// of its cleanup record, ended at `time_finished`, into the finished one.
pub fn orphan_changes(working: &Vec<WorkingTask>, time_finished: &str) -> (r: Vec<StoreOp>)
    ensures
        op_views(r@) == reconcile_changes(working_views(working@), time_finished@),
{
    let mut changes: Vec<StoreOp> = Vec::new();
    let mut n: usize = 0;
    while n < working.len()
        invariant
            0 <= n <= working@.len(),
            changes@.len() == 2 * n,
            forall|i: int|
                0 <= i < n ==> (#[trigger] changes@[2 * i])@ == StoreOpView::RemoveWorking(
                    working@[i]@,
                ),
            forall|i: int|
                0 <= i < n ==> (#[trigger] changes@[2 * i + 1])@ == StoreOpView::InsertFinished(
                    orphan_record(working@[i]@, time_finished@),
                ),
        decreases working@.len() - n,
    {
        changes.push(StoreOp::RemoveWorking(working[n].clone()));
        changes.push(
            StoreOp::InsertFinished(FinishedTask::new(&working[n], time_finished, "cleanup", -1)),
        );
        n += 1;
    }
    proof {
        let expected = reconcile_changes(working_views(working@), time_finished@);
        assert forall|k: int| 0 <= k < expected.len() implies op_views(changes@)[k]
            == expected[k] by {
            let i = k / 2;
            if k % 2 == 0 {
                assert(k == 2 * i);
                assert(changes@[2 * i]@ == StoreOpView::RemoveWorking(working@[i]@));
            } else {
                assert(k == 2 * i + 1);
                assert(changes@[2 * i + 1]@ == StoreOpView::InsertFinished(
                    orphan_record(working@[i]@, time_finished@),
                ));
            }
        }
        assert(op_views(changes@) =~= expected);
    }
    changes
}

impl TaskDB {
    /// Opens the database file at `db_file_path`, creating it and the three
    /// tables where they do not exist yet.
    pub fn new(db_file_path: &str) -> (r: Result<TaskDB, StoreError>)
        ensures
            r matches Err(e) ==> e.kind == StoreErrorKind::Unreachable || e.kind
                == StoreErrorKind::Schema,
    {
        let conn = match open_outcome(open(db_file_path)) {
            Ok(conn) => conn,
            Err(e) => { return Err(e); },
        };
        let none: Vec<Value> = Vec::new();
        if let Err(e) = schema_outcome(execute(&conn, CREATE_PENDING, &none)) {
            return Err(e);
        }
        if let Err(e) = schema_outcome(execute(&conn, CREATE_WORKING, &none)) {
            return Err(e);
        }
        if let Err(e) = schema_outcome(execute(&conn, CREATE_FINISHED, &none)) {
            return Err(e);
        }
        Ok(TaskDB { conn })
    }

    /// One of the pending tasks, or none where there is none. The task stays
    /// in the collection.
    pub fn load_task(&self) -> (r: Result<Option<PendingTask>, StoreError>)
        ensures
            r matches Err(e) ==> e.kind == StoreErrorKind::Statement || e.kind
                == StoreErrorKind::MalformedRow,
    {
        pending_outcome(select(&self.conn, SELECT_PENDING))
    }

    /// Startup: turns every working task that is found into a finished task
    /// with the reason "cleanup" and the exit code -1, ended at
    /// `time_finished`, and hands out those records. The working tasks are
    /// listed, and the changes that `orphan_changes` gives for them are made
    /// in their order; the first statement that fails ends the work.
    pub fn reconcile_orphans(&self, time_finished: &str) -> (r: Result<
        Vec<FinishedTask>,
        StoreError,
    >)
        ensures
            r matches Ok(records) ==> exists|orphans: Seq<WorkingTask>| #[trigger]
                orphan_records_of(records@, orphans, time_finished@),
            r matches Err(e) ==> steady_failure(e.kind),
    {
        let working = match self.load_working_tasks() {
            Ok(working) => working,
            Err(e) => { return Err(e); },
        };
        let changes = orphan_changes(&working, time_finished);
        if let Err(e) = self.apply_all(&changes) {
            return Err(e);
        }
        let records = orphan_records(&working, time_finished);
        let r: Result<Vec<FinishedTask>, StoreError> = Ok(records);
        proof {
            assert(r matches Ok(records) && orphan_records_of(
                records@,
                working@,
                time_finished@,
            ));
        }
        r
    }

    /// Every working task that the collection holds.
    pub fn load_working_tasks(&self) -> (r: Result<Vec<WorkingTask>, StoreError>)
        ensures
            r matches Err(e) ==> e.kind == StoreErrorKind::Statement || e.kind
                == StoreErrorKind::MalformedRow,
    {
        working_outcome(select(&self.conn, SELECT_WORKING))
    }

    /// Deletes the pending record with the id of `pending_task`.
    pub fn remove_pending_task(&self, pending_task: &PendingTask) -> (r: Result<(), StoreError>)
        ensures
            r matches Err(e) ==> e.kind == StoreErrorKind::Statement,
    {
        self.apply(&StoreOp::RemovePending(pending_task.clone()))
    }

    /// Deletes the working record with the id of `working_task`.
    pub fn remove_working_task(&self, working_task: &WorkingTask) -> (r: Result<(), StoreError>)
        ensures
            r matches Err(e) ==> e.kind == StoreErrorKind::Statement,
    {
        self.apply(&StoreOp::RemoveWorking(working_task.clone()))
    }

    /// Adds `pending_task` to the pending collection.
    pub fn insert_pending_task(&self, pending_task: &PendingTask) -> (r: Result<(), StoreError>)
        ensures
            r matches Err(e) ==> e.kind == insert_failure(e.code),
    {
        self.apply(&StoreOp::InsertPending(pending_task.clone()))
    }

    /// Adds `working_task` to the working collection.
    pub fn insert_working_task(&self, working_task: &WorkingTask) -> (r: Result<(), StoreError>)
        ensures
            r matches Err(e) ==> e.kind == insert_failure(e.code),
    {
        self.apply(&StoreOp::InsertWorking(working_task.clone()))
    }

    /// Adds `finished_task` to the finished collection.
    pub fn insert_finished_task(&self, finished_task: &FinishedTask) -> (r: Result<(), StoreError>)
        ensures
            r matches Err(e) ==> e.kind == insert_failure(e.code),
    {
        self.apply(&StoreOp::InsertFinished(finished_task.clone()))
    }

    /// Makes one change of the store: runs the statement that `statement_of`
    /// gives for it, and fails as that statement fails.
    pub fn apply(&self, op: &StoreOp) -> (r: Result<(), StoreError>)
        ensures
            r matches Err(e) ==> failure_of(op@, e) && steady_failure(e.kind),
    {
        let statement = statement_of(op);
        change_outcome(statement.kind, execute(&self.conn, statement.sql, &statement.row))
    }

    /// Makes the changes in their order, up to the first that fails: what
    /// follows it is not made, and its failure is handed back. Without a
    /// change to make there is no failure.
    pub fn apply_all(&self, ops: &Vec<StoreOp>) -> (r: Result<(), StoreError>)
        ensures
            ops@.len() == 0 ==> r is Ok,
            r matches Err(e) ==> steady_failure(e.kind) && exists|i: int|
                0 <= i < ops@.len() && failure_of(#[trigger] ops@[i]@, e),
    {
        let mut n: usize = 0;
        while n < ops.len()
            invariant
                0 <= n <= ops@.len(),
            decreases ops@.len() - n,
        {
            if let Err(e) = self.apply(&ops[n]) {
                proof {
                    assert(failure_of(ops@[n as int]@, e));
                }
                return Err(e);
            }
            n += 1;
        }
        Ok(())
    }
}

} // verus!
