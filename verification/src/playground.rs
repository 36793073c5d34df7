//! The request sent to the remote code-execution service and the handling of
//! its outcome: building the fixed request record, rendering it as the JSON
//! body of the outbound call, wrapping `?eval` code in a `main` that debugs
//! the expression, and choosing which captured stream to show.

use vstd::prelude::*;

use crate::extract::{CommandKind, Extraction};

verus! {

/// A request to the execution service. Every field but the code is fixed by
/// the bot.
pub struct ApiRequest {
    pub channel: String,
    pub mode: String,
    pub edition: String,
    pub crate_type: String,
    pub tests: bool,
    pub code: String,
    pub backtrace: bool,
}

impl ApiRequest {
    /// Builds the request for a piece of code, with the settings the bot
    /// always uses: the stable channel, a debug non-test binary build of the
    /// 2018 edition, and no backtrace.
    pub fn new(code: String) -> (r: ApiRequest)
        ensures
            r.channel@ == "stable"@,
            r.mode@ == "debug"@,
            r.edition@ == "2018"@,
            r.crate_type@ == "bin"@,
            r.tests == false,
            r.code == code,
            r.backtrace == false,
    {
        ApiRequest {
            channel: "stable".to_owned(),
            mode: "debug".to_owned(),
            edition: "2018".to_owned(),
            crate_type: "bin".to_owned(),
            tests: false,
            code,
            backtrace: false,
        }
    }
}

/// The character for one hexadecimal digit, lower case.
pub open spec fn hex_digit(d: int) -> char {
    if d < 10 {
        ((48 + d) as u8) as char
    } else {
        ((87 + d) as u8) as char
    }
}

/// How one character is written inside a JSON string: quote, backslash and
/// the named control characters get a two-character escape, the remaining
/// control characters a `\u00..` escape, and every other character stands as
/// itself.
pub open spec fn json_escape_char(c: char) -> Seq<char> {
    if c == '"' {
        seq!['\\', '"']
    } else if c == '\\' {
        seq!['\\', '\\']
    } else if c == '\u{8}' {
        seq!['\\', 'b']
    } else if c == '\t' {
        seq!['\\', 't']
    } else if c == '\n' {
        seq!['\\', 'n']
    } else if c == '\u{c}' {
        seq!['\\', 'f']
    } else if c == '\r' {
        seq!['\\', 'r']
    } else if (c as u32) < 32 {
        seq!['\\', 'u', '0', '0', hex_digit(c as u32 as int / 16), hex_digit(c as u32 as int % 16)]
    } else {
        seq![c]
    }
}

/// The body of a JSON string: every character written as JSON escapes it.
pub open spec fn json_escape(s: Seq<char>) -> Seq<char>
    decreases s.len(),
{
    if s.len() == 0 {
        Seq::empty()
    } else {
        json_escape_char(s[0]) + json_escape(s.drop_first())
    }
}

/// A JSON string value: the escaped body between quotes.
pub open spec fn json_string(s: Seq<char>) -> Seq<char> {
    seq!['"'] + json_escape(s) + seq!['"']
}

/// A JSON boolean value.
pub open spec fn json_bool(b: bool) -> Seq<char> {
    if b {
        "true"@
    } else {
        "false"@
    }
}

/// The JSON body of the outbound call, with the fields in the order the
/// service expects them.
pub open spec fn request_json(req: ApiRequest) -> Seq<char> {
    "{\"channel\":"@ + json_string(req.channel@) + ",\"mode\":"@ + json_string(req.mode@)
        + ",\"edition\":"@ + json_string(req.edition@) + ",\"crateType\":"@ + json_string(
        req.crate_type@,
    ) + ",\"tests\":"@ + json_bool(req.tests) + ",\"code\":"@ + json_string(req.code@)
        + ",\"backtrace\":"@ + json_bool(req.backtrace) + "}"@
}

proof fn lemma_json_escape_push(s: Seq<char>, c: char)
    ensures
        json_escape(s.push(c)) == json_escape(s) + json_escape_char(c),
    decreases s.len(),
{
    if s.len() == 0 {
        reveal_with_fuel(json_escape, 2);
        assert(s =~= Seq::<char>::empty());
        assert(s.push(c)[0] == c);
        assert(s.push(c).drop_first() =~= Seq::<char>::empty());
        assert(json_escape(s.push(c)) =~= json_escape(s) + json_escape_char(c));
    } else {
        assert(s.push(c).drop_first() =~= s.drop_first().push(c));
        lemma_json_escape_push(s.drop_first(), c);
        assert(s.push(c)[0] == s[0]);
        assert(json_escape(s.push(c)) =~= json_escape(s) + json_escape_char(c));
    }
}

fn hex_char(d: u32) -> (c: char)
    requires
        d < 16,
    ensures
        c == hex_digit(d as int),
{
    if d < 10 {
        (48 + d as u8) as char
    } else {
        (87 + d as u8) as char
    }
}

fn escape_into(out: &mut String, c: char)
    ensures
        final(out)@ == old(out)@ + json_escape_char(c),
{
    if c == '"' {
        out.push('\\');
        out.push('"');
    } else if c == '\\' {
        out.push('\\');
        out.push('\\');
    } else if c == '\u{8}' {
        out.push('\\');
        out.push('b');
    } else if c == '\t' {
        out.push('\\');
        out.push('t');
    } else if c == '\n' {
        out.push('\\');
        out.push('n');
    } else if c == '\u{c}' {
        out.push('\\');
        out.push('f');
    } else if c == '\r' {
        out.push('\\');
        out.push('r');
    } else {
        let u = c as u32;
        if u < 32 {
            out.push('\\');
            out.push('u');
            out.push('0');
            out.push('0');
            out.push(hex_char(u / 16));
            out.push(hex_char(u % 16));
        } else {
            out.push(c);
        }
    }
    proof {
        assert(final(out)@ =~= old(out)@ + json_escape_char(c));
    }
}

/// Writes `s` with JSON escaping.
#[verifier::loop_isolation(false)]
fn json_escape_exec(s: &str) -> (r: String)
    ensures
        r@ == json_escape(s@),
{
    let n = s.unicode_len();
    let mut out = String::new();
    let mut idx: usize = 0;
    while idx < n
        invariant
            0 <= idx <= n,
            out@ == json_escape(s@.subrange(0, idx as int)),
        decreases n - idx,
    {
        let c = s.get_char(idx);
        escape_into(&mut out, c);
        proof {
            assert(s@.subrange(0, idx + 1) =~= s@.subrange(0, idx as int).push(s@[idx as int]));
            lemma_json_escape_push(s@.subrange(0, idx as int), s@[idx as int]);
        }
        idx += 1;
    }
    proof {
        assert(s@.subrange(0, n as int) =~= s@);
    }
    out
}

fn append_json_string(out: &mut String, s: &str)
    ensures
        final(out)@ == old(out)@ + json_string(s@),
{
    out.push('"');
    let escaped = json_escape_exec(s);
    out.append(escaped.as_str());
    out.push('"');
    proof {
        assert(final(out)@ =~= old(out)@ + json_string(s@));
    }
}

fn append_json_bool(out: &mut String, b: bool)
    ensures
        final(out)@ == old(out)@ + json_bool(b),
{
    if b {
        out.append("true");
    } else {
        out.append("false");
    }
}

/// Renders the request as the JSON body of the outbound call.
pub fn request_body(req: &ApiRequest) -> (r: String)
    ensures
        r@ == request_json(*req),
{
    let mut out = String::new();
    out.append("{\"channel\":");
    append_json_string(&mut out, req.channel.as_str());
    out.append(",\"mode\":");
    append_json_string(&mut out, req.mode.as_str());
    out.append(",\"edition\":");
    append_json_string(&mut out, req.edition.as_str());
    out.append(",\"crateType\":");
    append_json_string(&mut out, req.crate_type.as_str());
    out.append(",\"tests\":");
    append_json_bool(&mut out, req.tests);
    out.append(",\"code\":");
    append_json_string(&mut out, req.code.as_str());
    out.append(",\"backtrace\":");
    append_json_bool(&mut out, req.backtrace);
    out.append("}");
    proof {
        assert(out@ =~= request_json(*req));
    }
    out
}

pub open spec fn eval_prefix() -> Seq<char> {
    "fn main() { println!(\"{:?}\", { "@
}

pub open spec fn eval_suffix() -> Seq<char> {
    " }) }"@
}

/// The program sent to the execution service: `?eval` code is wrapped in a
/// `main` that debug-prints the expression, `?play` code is sent as it
/// stands.
pub open spec fn playground_source(eval: bool, code: Seq<char>) -> Seq<char> {
    if eval {
        eval_prefix() + code + eval_suffix()
    } else {
        code
    }
}

/// Builds the program sent to the execution service for an extracted
/// command.
pub fn playground_code(ext: &Extraction) -> (r: String)
    ensures
        r@ == playground_source(ext.kind is Eval, ext.code@),
{
    match ext.kind {
        CommandKind::Eval => {
            let mut s = "fn main() { println!(\"{:?}\", { ".to_owned();
            s.append(ext.code.as_str());
            s.append(" }) }");
            proof {
                assert(s@ =~= eval_prefix() + ext.code@ + eval_suffix());
            }
            s
        },
        CommandKind::Play => ext.code.clone(),
    }
}

/// What came of one call to the execution service: its parsed answer, or no
/// answer within the time limit.
pub enum ExecOutcome {
    Completed { stdout: String, stderr: String, success: bool },
    TimedOut,
}

/// The text shown when the service did not answer within the time limit.
pub open spec fn timeout_note() -> Seq<char> {
    "Request exceeded timeout (>10s)"@
}

/// Chooses the output shown to the channel: the captured standard output of
/// a successful run, the captured standard error of a failed one, and the
/// timeout note when the service did not answer in time.
pub fn response_text(outcome: ExecOutcome) -> (r: String)
    ensures
        outcome matches ExecOutcome::Completed { stdout, stderr, success } ==> r@ == (if success {
            stdout@
        } else {
            stderr@
        }),
        outcome is TimedOut ==> r@ == timeout_note(),
{
    match outcome {
        ExecOutcome::Completed { stdout, stderr, success } => {
            if success {
                stdout
            } else {
                stderr
            }
        },
        ExecOutcome::TimedOut => "Request exceeded timeout (>10s)".to_owned(),
    }
}

} // verus!
