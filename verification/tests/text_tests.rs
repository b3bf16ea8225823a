use rustjerkbot::command::select_input;
use rustjerkbot::ferris::say;
use rustjerkbot::replace::{complete_command, replace_text};

#[test]
fn say_boxes_short_text() {
    let boxed = say("hi", 5);
    let lines: Vec<&str> = boxed.lines().collect();
    assert_eq!(lines[0], "---------");
    assert_eq!(lines[1], "| hi    |");
    assert_eq!(lines[2], "---------");
    assert_eq!(lines.last().unwrap(), &"            / '-----' \\");
    assert!(boxed.contains("o o"));
}

#[test]
fn say_chunks_long_lines() {
    let boxed = say("abcdefg\nhi", 3);
    let lines: Vec<&str> = boxed.lines().collect();
    assert_eq!(lines[1], "| abc |");
    assert_eq!(lines[2], "| def |");
    assert_eq!(lines[3], "| g   |");
    assert_eq!(lines[4], "| hi  |");
    assert_eq!(lines[5], "-------");
}

#[test]
fn commands_are_completed() {
    assert_eq!(complete_command("s/a/b"), Some(String::from("s/a/b/")));
    assert_eq!(complete_command("/s/a/b/"), Some(String::from("s/a/b/")));
    assert_eq!(complete_command("s/a/b/g"), Some(String::from("s/a/b/g")));
    assert_eq!(complete_command("s/a\\/b/c"), Some(String::from("s/a\\/b/c/")));
    assert_eq!(complete_command("nope"), None);
    assert_eq!(complete_command(""), None);
    assert_eq!(complete_command("/x/a/b/"), None);
}

#[test]
fn replace_runs_commands() {
    assert_eq!(
        replace_text("hello world", "s/world/there"),
        Some(String::from("hello there"))
    );
    assert_eq!(replace_text("anything", "no commands here"), None);
    assert_eq!(
        replace_text("abc", "s/abc//"),
        Some(String::from("Result text can not be empty"))
    );
    let long = "a".repeat(5000);
    assert_eq!(
        replace_text(&long, "s/b/c"),
        Some(String::from("Result text can not exceed 4096 characters"))
    );
    assert!(replace_text("abc", "s/[/y").is_some());
}

#[test]
fn input_selection_prefers_arguments() {
    let args = vec![String::from("some"), String::from("text")];
    assert_eq!(select_input(&args, None), Some(String::from("some text")));
    let padded = vec![String::from("  "), String::from(" ")];
    assert_eq!(
        select_input(&padded, Some(String::from("reply"))),
        Some(String::from("reply"))
    );
    let empty: Vec<String> = vec![];
    assert_eq!(select_input(&empty, None), None);
}

#[test]
fn auto_response_rules_pick_replies() {
    let rule = rustjerkbot::autoresponse::Messages {
        reply_to: true,
        output: vec![String::from("hi there")],
    };
    let reply = rule.pick().unwrap();
    assert!(reply.reply_to);
    assert_eq!(reply.message, "hi there");
    let empty = rustjerkbot::autoresponse::Messages {
        reply_to: false,
        output: vec![],
    };
    assert!(empty.pick().is_none());
}
