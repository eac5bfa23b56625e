use crate::text::{i32_of, join_from, joined, parse_i32, views};
use vstd::prelude::*;

verus! {

/// What one invocation asks for, read from its argument list (the program
/// name first).
#[derive(Debug)]
pub enum Command {
    /// Nothing after the program name: usage is shown and the run fails.
    NoArgs,
    /// A known command whose arguments are missing or malformed: usage is
    /// shown and the run fails.
    Usage,
    /// `help`, `--help`, `-h` or an unknown word: usage is shown.
    Help,
    /// Add a task with this name.
    Add(String),
    List,
    /// Toggle the task with this id.
    Mark(i32),
    /// Remove the task with this id.
    Rm(i32),
    /// Delete every task, once confirmed.
    Reset,
    /// Accepted, and does nothing.
    Sort,
}

/// The mathematical form of a `Command`.
pub enum CommandView {
    NoArgs,
    Usage,
    Help,
    Add(Seq<char>),
    List,
    Mark(i32),
    Rm(i32),
    Reset,
    Sort,
}

impl View for Command {
    type V = CommandView;

    open spec fn view(&self) -> CommandView {
        match self {
            Command::NoArgs => CommandView::NoArgs,
            Command::Usage => CommandView::Usage,
            Command::Help => CommandView::Help,
            Command::Add(s) => CommandView::Add(s@),
            Command::List => CommandView::List,
            Command::Mark(n) => CommandView::Mark(*n),
            Command::Rm(n) => CommandView::Rm(*n),
            Command::Reset => CommandView::Reset,
            Command::Sort => CommandView::Sort,
        }
    }
}

/// The id argument of `mark` or `rm`: the third argument, as an `i32`.
pub open spec fn id_arg(args: Seq<Seq<char>>) -> Option<i32> {
    if args.len() < 3 {
        None
    } else {
        i32_of(args[2])
    }
}

/// The command that the argument list `args` asks for.
pub open spec fn command_of(args: Seq<Seq<char>>) -> CommandView {
    if args.len() < 2 {
        CommandView::NoArgs
    } else if args[1] == "add"@ {
        let name = joined(args.skip(2));
        if name.len() == 0 {
            CommandView::Usage
        } else {
            CommandView::Add(name)
        }
    } else if args[1] == "list"@ {
        CommandView::List
    } else if args[1] == "mark"@ {
        match id_arg(args) {
            Some(n) => CommandView::Mark(n),
            None => CommandView::Usage,
        }
    } else if args[1] == "rm"@ {
        match id_arg(args) {
            Some(n) => CommandView::Rm(n),
            None => CommandView::Usage,
        }
    } else if args[1] == "reset"@ {
        CommandView::Reset
    } else if args[1] == "sort"@ {
        CommandView::Sort
    } else {
        CommandView::Help
    }
}

/// The process status that a command ends with: 1 where usage was shown for
/// missing or malformed arguments, 0 otherwise.
pub open spec fn exit_status(c: CommandView) -> i32 {
    match c {
        CommandView::NoArgs | CommandView::Usage => 1,
        _ => 0,
    }
}

fn is_word(s: &String, w: &str) -> (r: bool)
    ensures
        r == (s@ == w@),
{
    let t = String::from_str(w);
    s.eq(&t)
}

fn id_command(args: &Vec<String>) -> (r: Option<i32>)
    requires
        args.len() >= 2,
    ensures
        r == id_arg(views(args@)),
{
    if args.len() < 3 {
        None
    } else {
        parse_i32(args[2].as_str())
    }
}

/// Reads the argument list of one invocation, the program name first.
pub fn parse_command(args: &Vec<String>) -> (r: Command)
    ensures
        r@ == command_of(views(args@)),
{
    let ghost a = views(args@);
    if args.len() < 2 {
        return Command::NoArgs;
    }
    assert(a[1] == args@[1]@);
    let word = &args[1];
    if is_word(word, "add") {
        let name = join_from(args, 2);
        if name.unicode_len() == 0 {
            Command::Usage
        } else {
            Command::Add(name)
        }
    } else if is_word(word, "list") {
        Command::List
    } else if is_word(word, "mark") {
        match id_command(args) {
            Some(n) => Command::Mark(n),
            None => Command::Usage,
        }
    } else if is_word(word, "rm") {
        match id_command(args) {
            Some(n) => Command::Rm(n),
            None => Command::Usage,
        }
    } else if is_word(word, "reset") {
        Command::Reset
    } else if is_word(word, "sort") {
        Command::Sort
    } else {
        Command::Help
    }
}

impl Command {
    /// The process status for this command.
    pub fn exit_code(&self) -> (r: i32)
        ensures
            r == exit_status(self@),
    {
        match self {
            Command::NoArgs | Command::Usage => 1,
            _ => 0,
        }
    }
}

} // verus!
