use vstd::prelude::*;

verus! {

/// One to-do item as stored in the task table.
#[derive(Debug)]
pub struct Task {
    pub id: i32,
    pub name: String,
    pub date_added: String,
    /// 0 while pending, 1 once done.
    pub is_done: u8,
}

impl Task {
    /// Whether the task counts as done; any flag other than 1 reads as pending.
    pub open spec fn done(&self) -> bool {
        self.is_done == 1
    }

    pub fn new(id: i32, name: String, date_added: String, is_done: u8) -> (r: Task)
        ensures
            r.id == id,
            r.name == name,
            r.date_added == date_added,
            r.is_done == is_done,
    {
        Task { id, name, date_added, is_done }
    }
}

/// The columns of one stored row: id, name, date added and done flag.
pub type Row = (i32, String, String, u8);

/// Whether `t` carries exactly the columns of `row`.
pub open spec fn task_of_row(t: Task, row: Row) -> bool {
    &&& t.id == row.0
    &&& t.name == row.1
    &&& t.date_added == row.2
    &&& t.is_done == row.3
}

/// Builds one task per row, in the rows' order.
pub fn tasks_from_rows(rows: &Vec<Row>) -> (r: Vec<Task>)
    ensures
        r.len() == rows.len(),
        forall|i: int| 0 <= i < rows.len() ==> task_of_row(#[trigger] r[i], rows[i]),
{
    let mut r: Vec<Task> = Vec::new();
    let mut i: usize = 0;
    while i < rows.len()
        invariant
            i <= rows.len(),
            r.len() == i,
            forall|j: int| 0 <= j < i ==> task_of_row(#[trigger] r[j], rows[j]),
        decreases rows.len() - i,
    {
        let row = &rows[i];
        r.push(Task::new(row.0, row.1.clone(), row.2.clone(), row.3));
        i = i + 1;
    }
    r
}


/// Pending tasks come before done ones, and ids never decrease among tasks
/// that share a done flag.
pub open spec fn listed_by_status(ts: Seq<Task>) -> bool {
    forall|i: int, j: int|
        0 <= i < j < ts.len() ==> {
            ||| ts[i].is_done < ts[j].is_done
            ||| (ts[i].is_done == ts[j].is_done && ts[i].id <= ts[j].id)
        }
}

/// Ids never decrease along the list.
pub open spec fn listed_by_id(ts: Seq<Task>) -> bool {
    forall|i: int, j: int| 0 <= i < j < ts.len() ==> ts[i].id <= ts[j].id
}

/// Rows ordered by done flag and then by id, as `ORDER BY is_done, id` yields
/// them.
pub open spec fn rows_by_status(rows: Seq<Row>) -> bool {
    forall|i: int, j: int|
        0 <= i < j < rows.len() ==> {
            ||| rows[i].3 < rows[j].3
            ||| (rows[i].3 == rows[j].3 && rows[i].0 <= rows[j].0)
        }
}

/// Rows ordered by id, as `ORDER BY id` yields them.
pub open spec fn rows_by_id(rows: Seq<Row>) -> bool {
    forall|i: int, j: int| 0 <= i < j < rows.len() ==> rows[i].0 <= rows[j].0
}

/// Turning rows into tasks keeps their order: rows that come ordered by done
/// flag and then id give tasks with every pending one before every done one,
/// ids in order within each group.
pub proof fn tasks_keep_status_order(rows: Seq<Row>, ts: Seq<Task>)
    requires
        ts.len() == rows.len(),
        forall|i: int| 0 <= i < rows.len() ==> task_of_row(#[trigger] ts[i], rows[i]),
        rows_by_status(rows),
    ensures
        listed_by_status(ts),
        forall|i: int, j: int|
            0 <= i < j < ts.len() ==> !(ts[i].is_done == 1 && ts[j].is_done == 0),
{
    assert forall|i: int, j: int| 0 <= i < j < ts.len() implies {
        ||| ts[i].is_done < ts[j].is_done
        ||| (ts[i].is_done == ts[j].is_done && ts[i].id <= ts[j].id)
    } by {
        assert(task_of_row(ts[i], rows[i]));
        assert(task_of_row(ts[j], rows[j]));
    }
}

/// Turning rows into tasks keeps their order: rows that come ordered by id
/// give tasks ordered by id.
pub proof fn tasks_keep_id_order(rows: Seq<Row>, ts: Seq<Task>)
    requires
        ts.len() == rows.len(),
        forall|i: int| 0 <= i < rows.len() ==> task_of_row(#[trigger] ts[i], rows[i]),
        rows_by_id(rows),
    ensures
        listed_by_id(ts),
{
    assert forall|i: int, j: int| 0 <= i < j < ts.len() implies ts[i].id <= ts[j].id by {
        assert(task_of_row(ts[i], rows[i]));
        assert(task_of_row(ts[j], rows[j]));
    }
}

} // verus!
