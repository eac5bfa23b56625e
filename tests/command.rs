use todo::{parse_command, Command};

fn args(words: &[&str]) -> Vec<String> {
    words.iter().map(|s| s.to_string()).collect()
}

#[test]
fn no_arguments_fails_with_usage() {
    let c = parse_command(&args(&["todo"]));
    assert!(matches!(c, Command::NoArgs));
    assert_eq!(c.exit_code(), 1);
}

#[test]
fn add_joins_trailing_words() {
    match parse_command(&args(&["todo", "add", "Buy", "milk"])) {
        Command::Add(name) => assert_eq!(name, "Buy milk"),
        other => panic!("unexpected {:?}", other),
    }
}

#[test]
fn add_without_text_is_usage_error() {
    let c = parse_command(&args(&["todo", "add"]));
    assert!(matches!(c, Command::Usage));
    assert_eq!(c.exit_code(), 1);
}

#[test]
fn mark_and_rm_read_an_id() {
    assert!(matches!(parse_command(&args(&["todo", "mark", "3"])), Command::Mark(3)));
    assert!(matches!(parse_command(&args(&["todo", "rm", "-4"])), Command::Rm(-4)));
    assert_eq!(parse_command(&args(&["todo", "mark", "3"])).exit_code(), 0);
}

#[test]
fn mark_and_rm_reject_bad_ids() {
    for a in [&["todo", "mark"][..], &["todo", "mark", "x"], &["todo", "rm"], &["todo", "rm", "1.5"]] {
        let c = parse_command(&args(a));
        assert!(matches!(c, Command::Usage), "{:?}", a);
        assert_eq!(c.exit_code(), 1);
    }
}

#[test]
fn other_commands() {
    assert!(matches!(parse_command(&args(&["todo", "list"])), Command::List));
    assert!(matches!(parse_command(&args(&["todo", "reset"])), Command::Reset));
    assert!(matches!(parse_command(&args(&["todo", "sort"])), Command::Sort));
    for w in ["help", "--help", "-h", "frobnicate", "toggle", "LIST"] {
        let c = parse_command(&args(&["todo", w]));
        assert!(matches!(c, Command::Help), "{}", w);
        assert_eq!(c.exit_code(), 0);
    }
}
