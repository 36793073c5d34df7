//! The decisions taken for each gateway event: what a newly created message
//! asks the bot to do, and what an edit of an earlier message asks it to do.
//! The surrounding process performs the chosen action and reports the
//! outside answers back to these functions' callers.

use vstd::prelude::*;

use crate::extract::{extract_command, extracted, has_command, lit_at};
use crate::playground::{playground_code, playground_source};

verus! {

/// The exact message text that asks for the help message.
pub open spec fn help_command() -> Seq<char> {
    "?help"@
}

/// The help message the bot posts.
pub open spec fn help_message() -> Seq<char> {
    "```RustBot v0.1.0\n\nUSAGE:\n    ?help | ?eval | ?play { rust codeblock }\n\nCOMMANDS:\n    ?help - display this help command\n    ?eval - evaluate the code and Debug the result\n    ?play - execute code and send stdout/stderr (equivalent to local run)\n```"@
}

/// Builds the help message.
pub fn help_text() -> (r: String)
    ensures
        r@ == help_message(),
{
    "```RustBot v0.1.0\n\nUSAGE:\n    ?help | ?eval | ?play { rust codeblock }\n\nCOMMANDS:\n    ?help - display this help command\n    ?eval - evaluate the code and Debug the result\n    ?play - execute code and send stdout/stderr (equivalent to local run)\n```".to_owned()
}

/// `code` is the program the leftmost command of `s` sends to the execution
/// service: the extracted code body, wrapped for `?eval`.
pub open spec fn run_source(s: Seq<char>, code: Seq<char>) -> bool {
    exists|eval: bool, raw: Seq<char>|
        #[trigger] extracted(s, eval, raw) && code == playground_source(eval, raw)
}

/// One message text determines one program: whatever two runs the decision
/// functions ask for on the same text, they send the same program to the
/// execution service.
pub proof fn lemma_run_source_unique(s: Seq<char>, code1: Seq<char>, code2: Seq<char>)
    requires
        run_source(s, code1),
        run_source(s, code2),
    ensures
        code1 == code2,
{
    let (e1, r1) = choose|e: bool, r: Seq<char>|
        #[trigger] extracted(s, e, r) && code1 == playground_source(e, r);
    let (e2, r2) = choose|e: bool, r: Seq<char>|
        #[trigger] extracted(s, e, r) && code2 == playground_source(e, r);
    crate::extract::lemma_extraction_unique(s, e1, r1, e2, r2);
}

/// What a newly created message asks the bot to do.
pub enum MessageAction {
    /// Post the help message.
    SendHelp,
    /// Nothing: the message holds no command.
    Ignore,
    /// Send this program to the execution service and deliver its output.
    Run { code: String },
}

/// What an edit of an earlier message asks the bot to do.
pub enum EditAction {
    /// Nothing: the edited text holds no command.
    Ignore,
    /// Send this program to the execution service and update the reply.
    Run { code: String },
}

fn is_help(content: &str) -> (b: bool)
    ensures
        b == (content@ == help_command()),
{
    proof {
        reveal_strlit("?help");
    }
    let n = content.unicode_len();
    if n != 5 {
        return false;
    }
    let b = crate::extract::lit_at_exec(content, n, 0, "?help");
    proof {
        if lit_at(content@, 0, "?help"@) {
            assert(content@ =~= "?help"@);
        }
        if content@ == help_command() {
            assert(lit_at(content@, 0, "?help"@));
        }
    }
    b
}

/// Decides what a newly created message with this text asks the bot to do:
/// the exact text `?help` asks for the help message, a message whose text
/// holds a command asks for a run, and any other message asks for nothing.
pub fn on_message(content: &str) -> (r: MessageAction)
    ensures
        (r is SendHelp) <==> content@ == help_command(),
        content@ != help_command() ==> ((r is Ignore) <==> !has_command(content@)),
        (r matches MessageAction::Run { code } ==> content@ != help_command() && run_source(
            content@,
            code@,
        )),
{
    if is_help(content) {
        return MessageAction::SendHelp;
    }
    match extract_command(content) {
        None => MessageAction::Ignore,
        Some(ext) => {
            let code = playground_code(&ext);
            proof {
                assert(run_source(content@, code@));
            }
            MessageAction::Run { code }
        },
    }
}

/// Decides what an edit of an earlier message asks the bot to do, given the
/// edited text: a command asks for a run, anything else for nothing. (The
/// caller consults its [`crate::tracker::ResponseMap`] first: only a message
/// the bot once replied to is considered at all.)
pub fn on_edit(content: &str) -> (r: EditAction)
    ensures
        (r is Ignore) <==> !has_command(content@),
        (r matches EditAction::Run { code } ==> run_source(content@, code@)),
{
    match extract_command(content) {
        None => EditAction::Ignore,
        Some(ext) => {
            let code = playground_code(&ext);
            proof {
                assert(run_source(content@, code@));
            }
            EditAction::Run { code }
        },
    }
}

} // verus!
