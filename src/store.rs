use crate::task::{
    listed_by_id, listed_by_status, rows_by_id, rows_by_status, tasks_from_rows,
    tasks_keep_id_order, tasks_keep_status_order, Row, Task,
};
use vstd::prelude::*;

verus! {

#[verifier::external_type_specification]
#[verifier::external_body]
pub struct ExConnection(rusqlite::Connection);

#[verifier::external_type_specification]
#[verifier::external_body]
pub struct ExSqlError(rusqlite::Error);

/// A failure of the storage engine, carrying the engine's own error.
#[derive(Debug)]
pub enum StoreError {
    Engine(rusqlite::Error),
}

/// rusqlite's `Transaction`, carried through opaque: a guard over an open
/// transaction on a connection.
#[verifier::external_type_specification]
#[verifier::external_body]
pub struct ExTransaction<'conn>(rusqlite::Transaction<'conn>);

/// The value bound to a statement's single placeholder, if any.
#[derive(Debug)]
pub enum SqlArg {
    Nothing,
    Int(i32),
    Text(String),
}

/// One statement for the engine together with its bound value.
#[derive(Debug)]
pub struct SqlRequest {
    pub sql: &'static str,
    pub arg: SqlArg,
}

/// Relies on rusqlite's `Connection::execute`: runs `req.sql`, binding the
/// value of `req.arg` (if any) to its single placeholder, and returns the
/// number of rows that it changed, or the engine's error. That number depends
/// on the stored data, so nothing is promised of it.
#[verifier::external_body]
fn execute(conn: &rusqlite::Connection, req: &SqlRequest) -> (r: Result<usize, rusqlite::Error>) {
    match &req.arg {
        SqlArg::Nothing => conn.execute(req.sql, ()),
        SqlArg::Int(n) => conn.execute(req.sql, [*n]),
        SqlArg::Text(t) => conn.execute(req.sql, [t.as_str()]),
    }
}

/// Relies on rusqlite's `Connection::unchecked_transaction`: begins a deferred
/// transaction on `conn`, or returns the engine's error. The transaction
/// rolls back when it is dropped without a commit.
#[verifier::external_body]
fn begin(conn: &rusqlite::Connection) -> (r: Result<rusqlite::Transaction<'_>, rusqlite::Error>) {
    conn.unchecked_transaction()
}

/// Relies on rusqlite's `Transaction::commit`: makes the transaction's changes
/// permanent, or returns the engine's error.
#[verifier::external_body]
fn commit(tx: rusqlite::Transaction<'_>) -> (r: Result<(), rusqlite::Error>) {
    tx.commit()
}

/// Relies on rusqlite's `Connection::prepare`, `Statement::query_map` and
/// `Row::get`: runs a query without parameters and reads the first four
/// columns of each row, in the order the query yields them, or returns the
/// engine's error. `Row::get` converts to `i32` and `u8` only SQL INTEGER
/// values within range and fails on any other value, so on success the id and
/// done columns were integers, and the engine's `ORDER BY` on those columns
/// is their numeric order. Which rows come back depends on the stored data.
#[verifier::external_body]
fn query_rows(conn: &rusqlite::Connection, sql: &str) -> (r: Result<Vec<Row>, rusqlite::Error>)
    ensures
        sql@ == by_status_sql() ==> (r matches Ok(rows) ==> rows_by_status(rows@)),
        sql@ == by_id_sql() ==> (r matches Ok(rows) ==> rows_by_id(rows@)),
{
    let mut stmt = conn.prepare(sql)?;
    let rows = stmt.query_map((), |row| Ok((row.get(0)?, row.get(1)?, row.get(2)?, row.get(3)?)))?;
    rows.collect()
}

/// The statement that creates the task table when it is missing: an
/// auto-incremented id, a required name, the creation time as default date and
/// a done flag that starts at 0.
pub open spec fn create_table_sql() -> Seq<char> {
    "CREATE TABLE IF NOT EXISTS tasks (
            id INTEGER NOT NULL,
            name TEXT NOT NULL,
            date_added TEXT NOT NULL DEFAULT current_timestamp,
            is_done INTEGER NOT NULL DEFAULT 0,
            PRIMARY KEY (id AUTOINCREMENT)
        )"@
}

/// The request that creates the task table.
pub fn create_table_request() -> (r: SqlRequest)
    ensures
        r.sql@ == create_table_sql(),
        r.arg is Nothing,
{
    SqlRequest {
        sql: "CREATE TABLE IF NOT EXISTS tasks (
            id INTEGER NOT NULL,
            name TEXT NOT NULL,
            date_added TEXT NOT NULL DEFAULT current_timestamp,
            is_done INTEGER NOT NULL DEFAULT 0,
            PRIMARY KEY (id AUTOINCREMENT)
        )",
        arg: SqlArg::Nothing,
    }
}

/// The request that inserts a pending task named `name`.
pub fn add_request(name: &str) -> (r: SqlRequest)
    ensures
        r.sql@ == "INSERT INTO tasks (name) VALUES (?)"@,
        r.arg matches SqlArg::Text(t) && t@ == name@,
{
    SqlRequest { sql: "INSERT INTO tasks (name) VALUES (?)", arg: SqlArg::Text(String::from_str(name)) }
}

/// The request that flips the done flag of task `id`.
pub fn toggle_request(id: i32) -> (r: SqlRequest)
    ensures
        r.sql@ == "UPDATE tasks SET is_done = 1 - is_done WHERE id = ?"@,
        r.arg == SqlArg::Int(id),
{
    SqlRequest { sql: "UPDATE tasks SET is_done = 1 - is_done WHERE id = ?", arg: SqlArg::Int(id) }
}

/// The request that deletes task `id`.
pub fn rm_request(id: i32) -> (r: SqlRequest)
    ensures
        r.sql@ == "DELETE FROM tasks WHERE id = ?"@,
        r.arg == SqlArg::Int(id),
{
    SqlRequest { sql: "DELETE FROM tasks WHERE id = ?", arg: SqlArg::Int(id) }
}

/// The request that deletes every task.
pub fn clear_request() -> (r: SqlRequest)
    ensures
        r.sql@ == "DELETE FROM tasks"@,
        r.arg is Nothing,
{
    SqlRequest { sql: "DELETE FROM tasks", arg: SqlArg::Nothing }
}

/// The request that restarts the task id counter at 1.
pub fn restart_ids_request() -> (r: SqlRequest)
    ensures
        r.sql@ == "DELETE FROM sqlite_sequence WHERE name='tasks'"@,
        r.arg is Nothing,
{
    SqlRequest { sql: "DELETE FROM sqlite_sequence WHERE name='tasks'", arg: SqlArg::Nothing }
}

/// Passes the number of changed rows on, or wraps the engine's error.
fn changed_rows(r: Result<usize, rusqlite::Error>) -> (out: Result<usize, StoreError>)
    ensures
        r matches Ok(n) ==> out == Ok::<usize, StoreError>(n),
        r matches Err(e) ==> out == Err::<usize, StoreError>(StoreError::Engine(e)),
{
    match r {
        Ok(n) => Ok(n),
        Err(e) => Err(StoreError::Engine(e)),
    }
}

/// The query that lists the tasks pending first, then by id.
pub open spec fn by_status_sql() -> Seq<char> {
    "SELECT id, name, date_added, is_done FROM tasks ORDER BY is_done, id"@
}

/// The query that lists the tasks by id.
pub open spec fn by_id_sql() -> Seq<char> {
    "SELECT id, name, date_added, is_done FROM tasks ORDER BY id"@
}

/// The query that lists the tasks: pending before done and then by id when
/// `sort_by_status` holds, else by id alone.
pub fn list_query(sort_by_status: bool) -> (r: &'static str)
    ensures
        sort_by_status ==> r@ == by_status_sql(),
        !sort_by_status ==> r@ == by_id_sql(),
{
    if sort_by_status {
        "SELECT id, name, date_added, is_done FROM tasks ORDER BY is_done, id"
    } else {
        "SELECT id, name, date_added, is_done FROM tasks ORDER BY id"
    }
}

/// What became of a request to delete every task.
#[derive(Debug, PartialEq, Eq, Structural)]
pub enum ResetOutcome {
    /// All tasks were deleted and the id counter starts again at 1.
    Done,
    /// The user answered no; nothing was touched.
    Declined,
    /// The answer could not be read; nothing was touched.
    Unanswered,
}

impl Task {
    /// Sends `add_request(name)`: inserts a pending task named `name`, whose id
    /// and date the store assigns.
    pub fn add(conn: &rusqlite::Connection, name: &str) -> (r: Result<(), StoreError>)
        requires
            name@.len() > 0,
    {
        match changed_rows(execute(conn, &add_request(name))) {
            Ok(_) => Ok(()),
            Err(e) => Err(e),
        }
    }

    /// All stored tasks, read with `list_query(sort_by_status)`: pending
    /// before done and then by id when sorting by status, else by id.
    pub fn list(conn: &rusqlite::Connection, sort_by_status: bool) -> (r: Result<
        Vec<Task>,
        StoreError,
    >)
        ensures
            r matches Ok(v) ==> (sort_by_status ==> listed_by_status(v@)),
            r matches Ok(v) ==> (sort_by_status ==> forall|i: int, j: int|
                0 <= i < j < v.len() ==> !(v[i].is_done == 1 && v[j].is_done == 0)),
            r matches Ok(v) ==> (!sort_by_status ==> listed_by_id(v@)),
    {
        match query_rows(conn, list_query(sort_by_status)) {
            Ok(rows) => {
                let tasks = tasks_from_rows(&rows);
                proof {
                    if sort_by_status {
                        tasks_keep_status_order(rows@, tasks@);
                    } else {
                        tasks_keep_id_order(rows@, tasks@);
                    }
                }
                Ok(tasks)
            },
            Err(e) => Err(StoreError::Engine(e)),
        }
    }

    /// Sends `toggle_request(id)`, flipping the done flag of the task `id`;
    /// returns how many rows changed (0 when there is no such task).
    pub fn toggle(conn: &rusqlite::Connection, id: i32) -> (r: Result<usize, StoreError>) {
        changed_rows(execute(conn, &toggle_request(id)))
    }

    /// Sends `rm_request(id)`, deleting the task `id`; returns how many rows
    /// changed (0 when there is no such task).
    pub fn rm(conn: &rusqlite::Connection, id: i32) -> (r: Result<usize, StoreError>) {
        changed_rows(execute(conn, &rm_request(id)))
    }

    /// Sends `clear_request()` and then `restart_ids_request()` inside one
    /// transaction begun on `conn`: either both take effect or, on any error,
    /// the transaction is dropped uncommitted and rolls back.
    pub fn reset(conn: &rusqlite::Connection) -> (r: Result<(), StoreError>) {
        let tx = match begin(conn) {
            Ok(tx) => tx,
            Err(e) => {
                return Err(StoreError::Engine(e));
            },
        };
        match changed_rows(execute(conn, &clear_request())) {
            Ok(_) => {},
            Err(e) => {
                return Err(e);
            },
        }
        match changed_rows(execute(conn, &restart_ids_request())) {
            Ok(_) => {},
            Err(e) => {
                return Err(e);
            },
        }
        match commit(tx) {
            Ok(()) => Ok(()),
            Err(e) => Err(StoreError::Engine(e)),
        }
    }

    /// Resets the store only on a confirmed yes: `Some(true)`. A no
    /// (`Some(false)`) or an unreadable answer (`None`) touches nothing.
    pub fn reset_confirmed(conn: &rusqlite::Connection, answer: Option<bool>) -> (r: Result<
        ResetOutcome,
        StoreError,
    >)
        ensures
            answer == Some(false) ==> r == Ok::<ResetOutcome, StoreError>(ResetOutcome::Declined),
            answer is None ==> r == Ok::<ResetOutcome, StoreError>(ResetOutcome::Unanswered),
            answer == Some(true) ==> (r matches Ok(o) ==> o == ResetOutcome::Done),
    {
        match answer {
            Some(true) => match Task::reset(conn) {
                Ok(()) => Ok(ResetOutcome::Done),
                Err(e) => Err(e),
            },
            Some(false) => Ok(ResetOutcome::Declined),
            None => Ok(ResetOutcome::Unanswered),
        }
    }
}

/// The folder that holds the task data, under the home folder `home`.
pub fn db_folder(home: &str) -> (r: String)
    ensures
        r@ == home@ + "/tasks_db/"@,
{
    let mut r = String::from_str(home);
    r.append("/tasks_db/");
    r
}

/// The data file inside the folder `folder`.
pub fn db_file(folder: &str) -> (r: String)
    ensures
        r@ == folder@ + "tasks.sqlite"@,
{
    let mut r = String::from_str(folder);
    r.append("tasks.sqlite");
    r
}

/// Sends `create_table_request()`, creating the task table when it is
/// missing.
pub fn verify_db(conn: &rusqlite::Connection) -> (r: Result<(), StoreError>) {
    match changed_rows(execute(conn, &create_table_request())) {
        Ok(_) => Ok(()),
        Err(e) => Err(e),
    }
}

} // verus!
