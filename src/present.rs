use crate::task::Task;
use crate::text::{
    decimal, decimal_of, pad_left, pad_right, padded_left, padded_right, truncate, truncated,
};
use vstd::prelude::*;

verus! {

/// Width of the right-aligned id column.
pub const ID_WIDTH: usize = 4;

/// Width of the name column; longer names are cut to fit.
pub const NAME_WIDTH: usize = 44;

/// Width of the status column.
pub const STATUS_WIDTH: usize = 8;

/// The status word shown for a task.
pub open spec fn status_label(done: bool) -> Seq<char> {
    if done {
        "DONE"@
    } else {
        "PENDING"@
    }
}

/// The text of one listed task, cell by cell, before any colouring.
pub struct RowCells {
    pub id: String,
    pub name: String,
    pub status: String,
    pub date: String,
    /// Whether the status cell reads DONE.
    pub done: bool,
}

/// Lays out one task: the id right-aligned in four columns, the name cut to
/// 44 characters and left-aligned in 44 columns, the status left-aligned in
/// eight columns, and the date as stored.
pub fn format_row(task: &Task) -> (r: RowCells)
    ensures
        r.id@ == padded_left(decimal(task.id as int), ID_WIDTH as nat),
        r.name@ == padded_right(truncated(task.name@, NAME_WIDTH as int), NAME_WIDTH as nat),
        r.status@ == padded_right(status_label(task.done()), STATUS_WIDTH as nat),
        r.date@ == task.date_added@,
        r.done == task.done(),
{
    proof {
        reveal_strlit("DONE");
        reveal_strlit("PENDING");
    }
    let id_text = decimal_of(task.id);
    let id = pad_left(id_text.as_str(), ID_WIDTH);
    let short = truncate(task.name.as_str(), NAME_WIDTH as i32);
    let name = pad_right(short.as_str(), NAME_WIDTH);
    let done = task.is_done == 1;
    let status = if done {
        pad_right("DONE", STATUS_WIDTH)
    } else {
        pad_right("PENDING", STATUS_WIDTH)
    };
    RowCells { id, name, status, date: String::from_str(task.date_added.as_str()), done }
}

/// The line printed above a listing: a notice when there is no task, else the
/// heading of the table.
pub fn list_heading(tasks: &Vec<Task>) -> (r: &'static str)
    ensures
        tasks.len() == 0 ==> r@ == "No tasks found."@,
        tasks.len() > 0 ==> r@ == "To-Do List (sorted by id):"@,
{
    if tasks.len() == 0 {
        "No tasks found."
    } else {
        "To-Do List (sorted by id):"
    }
}

/// A change made to a single task by its id.
#[derive(Debug, Clone, Copy, PartialEq, Eq, Structural)]
pub enum Change {
    Toggled,
    Removed,
}

/// The word that reports a change.
pub open spec fn change_word(c: Change) -> Seq<char> {
    match c {
        Change::Toggled => "Toggled"@,
        Change::Removed => "Removed"@,
    }
}

/// What is reported after a change to task `id` touched `rows` rows.
pub open spec fn outcome_text(c: Change, id: int, rows: int) -> Seq<char> {
    if rows == 0 {
        "No task found with id: "@ + decimal(id)
    } else {
        change_word(c) + " task with id: "@ + decimal(id)
    }
}

/// Reports the result of a toggle or removal: a task was found and changed,
/// or no task has that id.
pub fn outcome_message(c: Change, id: i32, rows: usize) -> (r: String)
    ensures
        r@ == outcome_text(c, id as int, rows as int),
{
    proof {
        reveal_strlit("No task found with id: ");
        reveal_strlit("Toggled");
        reveal_strlit("Removed");
        reveal_strlit(" task with id: ");
    }
    let digits = decimal_of(id);
    let mut r = if rows == 0 {
        String::from_str("No task found with id: ")
    } else {
        let mut w = match c {
            Change::Toggled => String::from_str("Toggled"),
            Change::Removed => String::from_str("Removed"),
        };
        w.append(" task with id: ");
        w
    };
    r.append(digits.as_str());
    r
}

} // verus!
