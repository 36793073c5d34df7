use rustbot::events::{help_text, on_edit, on_message, EditAction, MessageAction};

#[test]
fn help_command_asks_for_help() {
    assert!(matches!(on_message("?help"), MessageAction::SendHelp));
}

#[test]
fn help_must_be_the_whole_message() {
    assert!(matches!(on_message("?help "), MessageAction::Ignore));
    assert!(matches!(on_message("say ?help"), MessageAction::Ignore));
}

#[test]
fn help_text_matches() {
    assert_eq!(
        help_text(),
        "```RustBot v0.1.0\n\nUSAGE:\n    ?help | ?eval | ?play { rust codeblock }\n\nCOMMANDS:\n    ?help - display this help command\n    ?eval - evaluate the code and Debug the result\n    ?play - execute code and send stdout/stderr (equivalent to local run)\n```"
    );
}

#[test]
fn message_without_command_is_ignored() {
    assert!(matches!(on_message("hello there"), MessageAction::Ignore));
}

#[test]
fn eval_message_runs_wrapped_code() {
    match on_message("?eval ```rust\n2 + 2\n```") {
        MessageAction::Run { code } => {
            assert_eq!(code, "fn main() { println!(\"{:?}\", { 2 + 2 }) }")
        },
        _ => panic!("expected a run"),
    }
}

#[test]
fn play_message_runs_code_as_it_stands() {
    match on_message("?play ```rust\nfn main() { }\n```") {
        MessageAction::Run { code } => assert_eq!(code, "fn main() { }"),
        _ => panic!("expected a run"),
    }
}

#[test]
fn edit_without_command_is_ignored() {
    assert!(matches!(on_edit("now plain text"), EditAction::Ignore));
    assert!(matches!(on_edit("?help"), EditAction::Ignore));
}

#[test]
fn edit_with_command_runs_new_code() {
    match on_edit("?eval ```rust\n3 * 3\n```") {
        EditAction::Run { code } => {
            assert_eq!(code, "fn main() { println!(\"{:?}\", { 3 * 3 }) }")
        },
        _ => panic!("expected a run"),
    }
}
