//! How a task record is laid out as the column values of a table row.

use crate::taskdb::{
    FinishedTask, FinishedTaskView, PendingTask, PendingTaskView, WorkingTask,
    WorkingTaskView,
};
use rusqlite::types::Value;
use vstd::prelude::*;

verus! {

/// A column value, as a mathematical value.
pub enum Cell {
    Null,
    Integer(i64),
    Real,
    Text(Seq<char>),
    Blob(Seq<u8>),
}

/// What a column value holds. Of a real number only its kind is kept: no
/// column of a task table is one.
pub open spec fn cell(v: Value) -> Cell {
    match v {
        Value::Null => Cell::Null,
        Value::Integer(i) => Cell::Integer(i),
        Value::Real(_) => Cell::Real,
        Value::Text(s) => Cell::Text(s@),
        Value::Blob(b) => Cell::Blob(b@),
    }
}

/// What the column values of a row hold, column by column.
pub open spec fn cells(row: Seq<Value>) -> Seq<Cell> {
    Seq::new(row.len(), |i: int| cell(row[i]))
}

/// The integer in column `i`, if the row has that column and it holds one.
pub open spec fn integer_at(c: Seq<Cell>, i: int) -> Option<i64> {
    if 0 <= i < c.len() {
        match c[i] {
            Cell::Integer(v) => Some(v),
            _ => None,
        }
    } else {
        None
    }
}

/// The text in column `i`, if the row has that column and it holds one.
pub open spec fn text_at(c: Seq<Cell>, i: int) -> Option<Seq<char>> {
    if 0 <= i < c.len() {
        match c[i] {
            Cell::Text(s) => Some(s),
            _ => None,
        }
    } else {
        None
    }
}

/// The row of a pending task: id, command, time limit, time of creation.
pub open spec fn pending_cells(t: PendingTaskView) -> Seq<Cell> {
    seq![
        Cell::Integer(t.id),
        Cell::Text(t.command),
        Cell::Integer(t.max_run_sec),
        Cell::Text(t.time_created),
    ]
}

/// The row of a working task: the pending columns, then the time of start.
pub open spec fn working_cells(t: WorkingTaskView) -> Seq<Cell> {
    seq![
        Cell::Integer(t.id),
        Cell::Text(t.command),
        Cell::Integer(t.max_run_sec),
        Cell::Text(t.time_created),
        Cell::Text(t.time_started),
    ]
}

/// The row of a finished task: the working columns, then the time of the
/// end, the reason and the exit code.
pub open spec fn finished_cells(t: FinishedTaskView) -> Seq<Cell> {
    seq![
        Cell::Integer(t.id),
        Cell::Text(t.command),
        Cell::Integer(t.max_run_sec),
        Cell::Text(t.time_created),
        Cell::Text(t.time_started),
        Cell::Text(t.time_finished),
        Cell::Text(t.exit_reason),
        Cell::Integer(t.exit_code),
    ]
}

/// The pending task that a row of four columns stands for. A row of another
/// width, or with a column of another kind (a null time limit too), stands
/// for none.
pub open spec fn decode_pending(c: Seq<Cell>) -> Option<PendingTaskView> {
    if c.len() == 4 && integer_at(c, 0) is Some && text_at(c, 1) is Some && integer_at(c, 2) is Some
        && text_at(c, 3) is Some {
        Some(
            PendingTaskView {
                id: integer_at(c, 0).unwrap(),
                command: text_at(c, 1).unwrap(),
                max_run_sec: integer_at(c, 2).unwrap(),
                time_created: text_at(c, 3).unwrap(),
            },
        )
    } else {
        None
    }
}

/// The working task that a row of five columns stands for: the columns of a
/// pending task, then the time of start as text.
pub open spec fn decode_working(c: Seq<Cell>) -> Option<WorkingTaskView> {
    if c.len() == 5 && integer_at(c, 0) is Some && text_at(c, 1) is Some && integer_at(c, 2) is Some
        && text_at(c, 3) is Some && text_at(c, 4) is Some {
        Some(
            WorkingTaskView {
                id: integer_at(c, 0).unwrap(),
                command: text_at(c, 1).unwrap(),
                max_run_sec: integer_at(c, 2).unwrap(),
                time_created: text_at(c, 3).unwrap(),
                time_started: text_at(c, 4).unwrap(),
            },
        )
    } else {
        None
    }
}

/// A row read back is the task that was written.
pub proof fn lemma_pending_row_round_trip(t: PendingTaskView)
    ensures
        decode_pending(pending_cells(t)) == Some(t),
{
}

/// A row read back is the task that was written.
pub proof fn lemma_working_row_round_trip(t: WorkingTaskView)
    ensures
        decode_working(working_cells(t)) == Some(t),
{
}

/// Only the row of a task stands for that task.
pub proof fn lemma_decoded_pending_row(c: Seq<Cell>, t: PendingTaskView)
    requires
        decode_pending(c) == Some(t),
    ensures
        c == pending_cells(t),
{
    assert(c =~= pending_cells(t));
}

/// Only the row of a task stands for that task.
pub proof fn lemma_decoded_working_row(c: Seq<Cell>, t: WorkingTaskView)
    requires
        decode_working(c) == Some(t),
    ensures
        c == working_cells(t),
{
    assert(c =~= working_cells(t));
}

fn integer_column(row: &Vec<Value>, i: usize) -> (r: Option<i64>)
    ensures
        r == integer_at(cells(row@), i as int),
{
    if i < row.len() {
        match &row[i] {
            Value::Integer(v) => Some(*v),
            _ => None,
        }
    } else {
        None
    }
}

fn text_column(row: &Vec<Value>, i: usize) -> (r: Option<String>)
    ensures
        match r {
            Some(s) => text_at(cells(row@), i as int) == Some(s@),
            None => text_at(cells(row@), i as int) is None,
        },
{
    if i < row.len() {
        match &row[i] {
            Value::Text(s) => Some(s.clone()),
            _ => None,
        }
    } else {
        None
    }
}

/// Reads a row of the pending table.
pub fn pending_from_row(row: &Vec<Value>) -> (r: Option<PendingTask>)
    ensures
        match r {
            Some(t) => decode_pending(cells(row@)) == Some(t@),
            None => decode_pending(cells(row@)) is None,
        },
{
    if row.len() != 4 {
        return None;
    }
    let id = match integer_column(row, 0) {
        Some(v) => v,
        None => { return None; },
    };
    let command = match text_column(row, 1) {
        Some(v) => v,
        None => { return None; },
    };
    let max_run_sec = match integer_column(row, 2) {
        Some(v) => v,
        None => { return None; },
    };
    let time_created = match text_column(row, 3) {
        Some(v) => v,
        None => { return None; },
    };
    Some(PendingTask { id, command, max_run_sec, time_created })
}

/// Reads a row of the working table.
pub fn working_from_row(row: &Vec<Value>) -> (r: Option<WorkingTask>)
    ensures
        match r {
            Some(t) => decode_working(cells(row@)) == Some(t@),
            None => decode_working(cells(row@)) is None,
        },
{
    if row.len() != 5 {
        return None;
    }
    let id = match integer_column(row, 0) {
        Some(v) => v,
        None => { return None; },
    };
    let command = match text_column(row, 1) {
        Some(v) => v,
        None => { return None; },
    };
    let max_run_sec = match integer_column(row, 2) {
        Some(v) => v,
        None => { return None; },
    };
    let time_created = match text_column(row, 3) {
        Some(v) => v,
        None => { return None; },
    };
    let time_started = match text_column(row, 4) {
        Some(v) => v,
        None => { return None; },
    };
    let pending = PendingTask { id, command, max_run_sec, time_created };
    Some(WorkingTask::new(&pending, time_started.as_str()))
}

fn integer(v: i64) -> (r: Value)
    ensures
        cell(r) == Cell::Integer(v),
{
    Value::Integer(v)
}

fn text(s: &String) -> (r: Value)
    ensures
        cell(r) == Cell::Text(s@),
{
    Value::Text(s.clone())
}

/// The column values to write for a pending task.
pub fn pending_row(t: &PendingTask) -> (r: Vec<Value>)
    ensures
        cells(r@) == pending_cells(t@),
{
    let mut r: Vec<Value> = Vec::new();
    r.push(integer(t.id));
    r.push(text(&t.command));
    r.push(integer(t.max_run_sec));
    r.push(text(&t.time_created));
    proof {
        assert(cells(r@) =~= pending_cells(t@));
    }
    r
}

/// The column values to write for a working task.
pub fn working_row(t: &WorkingTask) -> (r: Vec<Value>)
    ensures
        cells(r@) == working_cells(t@),
{
    let mut r: Vec<Value> = Vec::new();
    r.push(integer(t.id()));
    r.push(text(t.command()));
    r.push(integer(t.max_run_sec()));
    r.push(text(t.time_created()));
    r.push(text(t.time_started()));
    proof {
        assert(cells(r@) =~= working_cells(t@));
    }
    r
}

/// The column values to write for a finished task.
pub fn finished_row(t: &FinishedTask) -> (r: Vec<Value>)
    ensures
        cells(r@) == finished_cells(t@),
{
    let mut r: Vec<Value> = Vec::new();
    r.push(integer(t.id()));
    r.push(text(t.command()));
    r.push(integer(t.max_run_sec()));
    r.push(text(t.time_created()));
    r.push(text(t.time_started()));
    r.push(text(t.time_finished()));
    r.push(text(t.exit_reason()));
    r.push(integer(t.exit_code()));
    proof {
        assert(cells(r@) =~= finished_cells(t@));
    }
    r
}

/// The one column value by which a row is found: the task's id.
pub fn id_row(id: i64) -> (r: Vec<Value>)
    ensures
        cells(r@) == seq![Cell::Integer(id)],
{
    let mut r: Vec<Value> = Vec::new();
    r.push(integer(id));
    proof {
        assert(cells(r@) =~= seq![Cell::Integer(id)]);
    }
    r
}

} // verus!
