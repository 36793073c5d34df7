//! Choice of how the output of a run reaches the channel, by its size in
//! bytes: short output is posted (or, for an edited message, written into the
//! existing reply) inside a code fence, longer output is uploaded as a text
//! file named after the message that asked for the run, and output beyond
//! the upload limit is refused with a short note.

use vstd::prelude::*;
use vstd::utf8::encode_utf8;

use crate::text::{dec_digits, u64_dec};

verus! {

/// The number of bytes a piece of text occupies in the UTF-8 encoding every
/// message and upload uses.
pub open spec fn byte_len(s: Seq<char>) -> nat {
    encode_utf8(s).len()
}

/// Which kind of gateway event asked for the run: a new message, or an edit
/// of an earlier one.
#[derive(Clone, Copy, Debug, PartialEq, Eq, Structural)]
pub enum BotEvent {
    OnMessage,
    OnEdit,
}

/// How the output reaches the channel.
pub enum Delivery {
    /// Post a new message with this content.
    Post { content: String },
    /// Write this content into the bot's earlier reply.
    Edit { content: String },
    /// Upload the output as a text file under this name.
    Upload { file_name: String, file_body: String },
}

/// Output as it is posted into the channel: between code fences.
pub open spec fn fenced_of(out: Seq<char>) -> Seq<char> {
    "```\n"@ + out + "```"@
}

/// The name of the file an output is uploaded under, after the identifier of
/// the message that asked for the run.
pub open spec fn file_name_of(id: u64) -> Seq<char> {
    "Result-"@ + dec_digits(id as nat) + ".txt"@
}

/// The note posted when the output is too large even for an upload.
pub open spec fn refusal_note() -> Seq<char> {
    "Response exceeded 8MB limit, please manually evaluate!"@
}

fn fenced(out: &str) -> (r: String)
    ensures
        r@ == fenced_of(out@),
{
    let mut s = "```\n".to_owned();
    s.append(out);
    s.append("```");
    proof {
        assert(s@ =~= fenced_of(out@));
    }
    s
}

/// Builds the upload name for the output of the message with this
/// identifier.
pub fn result_file_name(id: u64) -> (r: String)
    ensures
        r@ == file_name_of(id),
{
    let mut s = "Result-".to_owned();
    let digits = u64_dec(id);
    s.append(digits.as_str());
    s.append(".txt");
    proof {
        assert(s@ =~= file_name_of(id));
    }
    s
}

/// Chooses the delivery for an output: up to 1999 bytes it is posted (or,
/// on an edit, written into the existing reply) inside a code fence, up to
/// 7999999 bytes it is uploaded as a file named after the asking message,
/// and beyond that the refusal note is posted.
pub fn route_output(evt: BotEvent, output: String, query_id: u64) -> (r: Delivery)
    requires
        byte_len(output@) <= usize::MAX,
    ensures
        (byte_len(output@) <= 1999 && evt is OnMessage ==> (r matches Delivery::Post { content }
            && content@ == fenced_of(output@))),
        (byte_len(output@) <= 1999 && evt is OnEdit ==> (r matches Delivery::Edit { content }
            && content@ == fenced_of(output@))),
        (2000 <= byte_len(output@) <= 7999999 ==> (r matches Delivery::Upload {
            file_name,
            file_body,
        } && file_name@ == file_name_of(query_id) && file_body@ == output@)),
        (byte_len(output@) >= 8000000 ==> (r matches Delivery::Post { content } && content@
            == refusal_note())),
{
    let b = output.as_str().len();
    if b <= 1999 {
        let content = fenced(output.as_str());
        match evt {
            BotEvent::OnMessage => Delivery::Post { content },
            BotEvent::OnEdit => Delivery::Edit { content },
        }
    } else if b <= 7999999 {
        Delivery::Upload { file_name: result_file_name(query_id), file_body: output }
    } else {
        Delivery::Post {
            content: "Response exceeded 8MB limit, please manually evaluate!".to_owned(),
        }
    }
}

} // verus!
