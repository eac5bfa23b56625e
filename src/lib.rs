//! A small to-do list manager: tasks kept in an embedded SQL table, with
//! verified text handling, row rendering and command parsing.

pub mod command;
pub mod present;
pub mod store;
pub mod task;
pub mod text;

pub use command::{parse_command, Command};
pub use present::{format_row, list_heading, outcome_message, Change, RowCells};
pub use store::{
    add_request, clear_request, create_table_request, db_file, db_folder, list_query, restart_ids_request,
    rm_request, toggle_request, verify_db, ResetOutcome, SqlArg, SqlRequest, StoreError,
};
pub use task::{tasks_from_rows, Task};
pub use text::{decimal_of, join_from, pad_left, pad_right, parse_i32, truncate};
