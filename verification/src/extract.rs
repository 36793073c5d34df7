//! Recognition of the command syntax in a message: a `?eval` or `?play`
//! keyword, white space, an opening ```` ```rust ```` fence, the code body,
//! and a closing fence. The first (leftmost) such command in the message is
//! the one extracted, and its code body ends at the first closing fence after
//! the opening one.

use vstd::prelude::*;

verus! {

/// One character of the white-space class accepted between the keyword and
/// the opening fence (the Unicode white-space characters).
pub open spec fn ws_char(c: char) -> bool {
    let u = c as u32;
    ||| u == 0x20
    ||| (0x9 <= u && u <= 0xd)
    ||| u == 0x85
    ||| u == 0xa0
    ||| u == 0x1680
    ||| (0x2000 <= u && u <= 0x200a)
    ||| u == 0x2028
    ||| u == 0x2029
    ||| u == 0x202f
    ||| u == 0x205f
    ||| u == 0x3000
}

/// The sequence `lit` occurs in `s` at position `i`.
pub open spec fn lit_at(s: Seq<char>, i: int, lit: Seq<char>) -> bool {
    &&& 0 <= i
    &&& i + lit.len() <= s.len()
    &&& forall|j: int| i <= j < i + lit.len() ==> #[trigger] s[j] == lit[j - i]
}

pub open spec fn eval_keyword() -> Seq<char> {
    seq!['?', 'e', 'v', 'a', 'l']
}

pub open spec fn play_keyword() -> Seq<char> {
    seq!['?', 'p', 'l', 'a', 'y']
}

pub open spec fn open_fence() -> Seq<char> {
    seq!['`', '`', '`', 'r', 'u', 's', 't', '\n']
}

/// A closing fence lies at `p` with `d` newlines: one or more newlines
/// followed by three backticks.
pub open spec fn close_at_with(s: Seq<char>, p: int, d: int) -> bool {
    &&& 0 <= p
    &&& 1 <= d
    &&& p + d + 3 <= s.len()
    &&& forall|j: int| p <= j < p + d ==> #[trigger] s[j] == '\n'
    &&& s[p + d] == '`'
    &&& s[p + d + 1] == '`'
    &&& s[p + d + 2] == '`'
}

/// A closing fence lies at position `p`.
pub open spec fn close_at(s: Seq<char>, p: int) -> bool {
    exists|d: int| close_at_with(s, p, d)
}

/// A complete command lies at position `i`: the keyword (`?eval` if `eval`,
/// else `?play`), `k` white-space characters, the opening fence, `c`
/// characters of code, and a closing fence.
pub open spec fn match_at_with(s: Seq<char>, i: int, eval: bool, k: int, c: int) -> bool {
    &&& lit_at(s, i, if eval { eval_keyword() } else { play_keyword() })
    &&& 1 <= k
    &&& forall|t: int| i + 5 <= t < i + 5 + k ==> ws_char(#[trigger] s[t])
    &&& lit_at(s, i + 5 + k, open_fence())
    &&& 0 <= c
    &&& close_at(s, i + 13 + k + c)
}

/// A complete command lies at position `i`.
pub open spec fn match_at(s: Seq<char>, i: int) -> bool {
    exists|eval: bool, k: int, c: int| match_at_with(s, i, eval, k, c)
}

/// Some position of `s` holds a complete command.
pub open spec fn has_command(s: Seq<char>) -> bool {
    exists|i: int| 0 <= i && match_at(s, i)
}

/// The command at position `i`, with `k` white-space characters and `c` code
/// characters, parses to keyword kind `eval` and code body `code`: the code
/// body ends at the first closing fence after the opening one.
pub open spec fn parse_at_with(
    s: Seq<char>,
    i: int,
    eval: bool,
    k: int,
    c: int,
    code: Seq<char>,
) -> bool {
    &&& match_at_with(s, i, eval, k, c)
    &&& forall|p: int| i + 13 + k <= p < i + 13 + k + c ==> !(#[trigger] close_at(s, p))
    &&& code == s.subrange(i + 13 + k, i + 13 + k + c)
}

/// The command at position `i` parses to keyword kind `eval` and code body
/// `code`.
pub open spec fn extracted_at(s: Seq<char>, i: int, eval: bool, code: Seq<char>) -> bool {
    exists|k: int, c: int| parse_at_with(s, i, eval, k, c, code)
}

/// No position before `i` holds a complete command.
pub open spec fn no_match_before(s: Seq<char>, i: int) -> bool {
    forall|i2: int| 0 <= i2 < i ==> !(#[trigger] match_at(s, i2))
}

/// The leftmost command of `s` parses to keyword kind `eval` and code body
/// `code`.
pub open spec fn extracted(s: Seq<char>, eval: bool, code: Seq<char>) -> bool {
    exists|i: int| 0 <= i && #[trigger] extracted_at(s, i, eval, code) && no_match_before(s, i)
}

/// Which of the two run keywords a command used.
#[derive(Clone, Copy, Debug, PartialEq, Eq, Structural)]
pub enum CommandKind {
    Eval,
    Play,
}

/// A command found in a message: its keyword kind and its code body.
pub struct Extraction {
    pub kind: CommandKind,
    pub code: String,
}

fn ws_at(s: &str, n: usize, q: usize) -> (b: bool)
    requires
        n == s@.len(),
        q < n,
    ensures
        b == ws_char(s@[q as int]),
{
    let u = s.get_char(q) as u32;
    u == 0x20 || (0x9 <= u && u <= 0xd) || u == 0x85 || u == 0xa0 || u == 0x1680 || (0x2000 <= u
        && u <= 0x200a) || u == 0x2028 || u == 0x2029 || u == 0x202f || u == 0x205f || u == 0x3000
}

#[verifier::loop_isolation(false)]
pub(crate) fn lit_at_exec(s: &str, n: usize, i: usize, lit: &str) -> (b: bool)
    requires
        n == s@.len(),
    ensures
        b == lit_at(s@, i as int, lit@),
{
    let m = lit.unicode_len();
    if i > n || m > n - i {
        return false;
    }
    let mut j: usize = 0;
    while j < m
        invariant
            0 <= j <= m,
            forall|j2: int| i <= j2 < i + j ==> #[trigger] s@[j2] == lit@[j2 - i],
        decreases m - j,
    {
        if s.get_char(i + j) != lit.get_char(j) {
            return false;
        }
        j += 1;
    }
    true
}

#[verifier::loop_isolation(false)]
fn is_close(s: &str, n: usize, p: usize) -> (b: bool)
    requires
        n == s@.len(),
        p < n,
    ensures
        b == close_at(s@, p as int),
{
    if s.get_char(p) != '\n' {
        proof {
            assert forall|d: int| !close_at_with(s@, p as int, d) by {
                if close_at_with(s@, p as int, d) {
                    assert(s@[p as int] == '\n');
                }
            }
        }
        return false;
    }
    let mut q: usize = p;
    while q < n && s.get_char(q) == '\n'
        invariant
            p <= q <= n,
            forall|t: int| p <= t < q ==> s@[t] == '\n',
        decreases n - q,
    {
        q += 1;
    }
    proof {
        if q == p {
            assert(s@[p as int] == '\n');
            assert(false);
        }
        assert forall|d: int| close_at_with(s@, p as int, d) implies p + d == q by {
            if p + d < q {
                assert(s@[p + d] == '\n');
            } else if p + d > q {
                assert(p + d + 3 <= n);
                assert(s@[p + (q - p)] == '\n');
            }
        }
    }
    if n - q < 3 {
        proof {
            assert forall|d: int| !close_at_with(s@, p as int, d) by {
                if close_at_with(s@, p as int, d) {
                    assert(p + d == q);
                    assert(p + d + 3 <= n);
                }
            }
        }
        return false;
    }
    if s.get_char(q) == '`' && s.get_char(q + 1) == '`' && s.get_char(q + 2) == '`' {
        proof {
            assert(close_at_with(s@, p as int, q - p));
        }
        true
    } else {
        proof {
            assert forall|d: int| !close_at_with(s@, p as int, d) by {
                if close_at_with(s@, p as int, d) {
                    assert(p + d == q);
                }
            }
        }
        false
    }
}

proof fn lemma_ws_run_forces_fence_position(
    s: Seq<char>,
    i: int,
    q: int,
    eval: bool,
    k: int,
    c: int,
)
    requires
        i + 5 <= q <= s.len(),
        forall|t: int| i + 5 <= t < q ==> ws_char(#[trigger] s[t]),
        q == s.len() || !ws_char(s[q]),
        match_at_with(s, i, eval, k, c),
    ensures
        i + 5 + k == q,
{
    let j = i + 5;
    if j + k < q {
        assert(s[j + k] == open_fence()[0]);
        assert(ws_char(s[j + k]));
        assert(false);
    } else if j + k > q {
        assert(j + k + open_fence().len() <= s.len());
        if q == s.len() {
            assert(false);
        } else {
            let t = q - j;
            assert(0 <= t < k);
            assert(ws_char(s[j + t]));
            assert(false);
        }
    }
}

#[verifier::loop_isolation(false)]
fn try_match_at(s: &str, n: usize, i: usize) -> (r: Option<Extraction>)
    requires
        n == s@.len(),
        i < n,
    ensures
        r is None ==> !match_at(s@, i as int),
        r matches Some(ext) ==> extracted_at(s@, i as int, ext.kind is Eval, ext.code@),
{
    proof {
        reveal_strlit("?eval");
        reveal_strlit("?play");
        reveal_strlit("```rust\n");
        assert("?eval"@ =~= eval_keyword());
        assert("?play"@ =~= play_keyword());
        assert("```rust\n"@ =~= open_fence());
    }
    let is_eval = lit_at_exec(s, n, i, "?eval");
    let is_play = lit_at_exec(s, n, i, "?play");
    if !is_eval && !is_play {
        proof {
            assert forall|eval: bool, k: int, c: int| !match_at_with(s@, i as int, eval, k, c) by {
                if match_at_with(s@, i as int, eval, k, c) {
                    if eval {
                        assert(lit_at(s@, i as int, eval_keyword()));
                    } else {
                        assert(lit_at(s@, i as int, play_keyword()));
                    }
                }
            }
        }
        return None;
    }
    let j = i + 5;
    let mut q: usize = j;
    while q < n && ws_at(s, n, q)
        invariant
            j <= q <= n,
            forall|t: int| j <= t < q ==> ws_char(#[trigger] s@[t]),
        decreases n - q,
    {
        q += 1;
    }
    if q == j {
        proof {
            assert forall|eval: bool, k: int, c: int| !match_at_with(s@, i as int, eval, k, c) by {
                if match_at_with(s@, i as int, eval, k, c) {
                    lemma_ws_run_forces_fence_position(s@, i as int, q as int, eval, k, c);
                }
            }
        }
        return None;
    }
    let has_fence = lit_at_exec(s, n, q, "```rust\n");
    if !has_fence {
        proof {
            assert forall|eval: bool, k: int, c: int| !match_at_with(s@, i as int, eval, k, c) by {
                if match_at_with(s@, i as int, eval, k, c) {
                    lemma_ws_run_forces_fence_position(s@, i as int, q as int, eval, k, c);
                    assert(lit_at(s@, q as int, open_fence()));
                }
            }
        }
        return None;
    }
    let m = q + 8;
    let mut p: usize = m;
    while p < n
        invariant
            m <= p <= n,
            forall|p2: int| m <= p2 < p ==> !close_at(s@, p2),
        decreases n - p,
    {
        if is_close(s, n, p) {
            let code_slice = s.substring_char(m, p);
            let code = code_slice.to_owned();
            let kind = if is_eval {
                CommandKind::Eval
            } else {
                CommandKind::Play
            };
            proof {
                let ik = (q - j) as int;
                let ic = (p - m) as int;
                assert(match_at_with(s@, i as int, is_eval, ik, ic));
                assert(kind is Eval == is_eval);
                assert(code@ == s@.subrange(i + 13 + ik, i + 13 + ik + ic));
                assert(parse_at_with(s@, i as int, is_eval, ik, ic, code@));
                assert(extracted_at(s@, i as int, is_eval, code@));
            }
            return Some(Extraction { kind, code });
        }
        p += 1;
    }
    proof {
        assert forall|eval: bool, k: int, c: int| !match_at_with(s@, i as int, eval, k, c) by {
            if match_at_with(s@, i as int, eval, k, c) {
                lemma_ws_run_forces_fence_position(s@, i as int, q as int, eval, k, c);
                let cp = i + 13 + k + c;
                assert(close_at(s@, cp));
                let d = choose|d: int| close_at_with(s@, cp, d);
                assert(cp + d + 3 <= n);
                assert(m <= cp < n);
            }
        }
    }
    None
}

/// Finds the leftmost complete command in `content`, if there is one, and
/// returns its keyword kind and code body.
#[verifier::loop_isolation(false)]
pub fn extract_command(content: &str) -> (r: Option<Extraction>)
    ensures
        r is None <==> !has_command(content@),
        r matches Some(ext) ==> extracted(content@, ext.kind is Eval, ext.code@),
{
    let n = content.unicode_len();
    let mut i: usize = 0;
    while i < n
        invariant
            0 <= i <= n,
            forall|i2: int| 0 <= i2 < i ==> !match_at(content@, i2),
        decreases n - i,
    {
        let attempt = try_match_at(content, n, i);
        match attempt {
            Some(ext) => {
                proof {
                    assert(match_at(content@, i as int));
                    assert(has_command(content@));
                    assert(no_match_before(content@, i as int));
                    assert(extracted(content@, ext.kind is Eval, ext.code@));
                }
                return Some(ext);
            },
            None => {
                i += 1;
            },
        }
    }
    proof {
        assert forall|i2: int| !(0 <= i2 && match_at(content@, i2)) by {
            if 0 <= i2 && match_at(content@, i2) {
                if i2 >= n {
                    let (eval, k, c) = choose|eval: bool, k: int, c: int|
                        match_at_with(content@, i2, eval, k, c);
                    assert(i2 + 5 <= i2 + 5 + k + open_fence().len() <= n);
                    assert(false);
                }
            }
        }
    }
    None
}

proof fn lemma_parse_unique_at(
    s: Seq<char>,
    i: int,
    e1: bool,
    k1: int,
    c1: int,
    code1: Seq<char>,
    e2: bool,
    k2: int,
    c2: int,
    code2: Seq<char>,
)
    requires
        parse_at_with(s, i, e1, k1, c1, code1),
        parse_at_with(s, i, e2, k2, c2, code2),
    ensures
        e1 == e2,
        k1 == k2,
        c1 == c2,
        code1 == code2,
{
    if e1 != e2 {
        assert(s[i + 1] == eval_keyword()[1] || s[i + 1] == play_keyword()[1]);
        assert(s[i + 1] == eval_keyword()[1] && s[i + 1] == play_keyword()[1]);
        assert(false);
    }
    if k1 < k2 {
        assert(s[i + 5 + k1] == open_fence()[0]);
        assert(ws_char(s[i + 5 + k1]));
        assert(false);
    }
    if k2 < k1 {
        assert(s[i + 5 + k2] == open_fence()[0]);
        assert(ws_char(s[i + 5 + k2]));
        assert(false);
    }
    if c1 < c2 {
        assert(close_at(s, i + 13 + k1 + c1));
        assert(!close_at(s, i + 13 + k2 + c1));
        assert(false);
    }
    if c2 < c1 {
        assert(close_at(s, i + 13 + k2 + c2));
        assert(!close_at(s, i + 13 + k1 + c2));
        assert(false);
    }
    assert(code1 =~= code2);
}

/// The command syntax is unambiguous: one message text parses to one keyword
/// kind and one code body.
pub proof fn lemma_extraction_unique(
    s: Seq<char>,
    e1: bool,
    code1: Seq<char>,
    e2: bool,
    code2: Seq<char>,
)
    requires
        extracted(s, e1, code1),
        extracted(s, e2, code2),
    ensures
        e1 == e2,
        code1 == code2,
{
    let i1 = choose|i: int| 0 <= i && #[trigger] extracted_at(s, i, e1, code1) && no_match_before(s, i);
    let i2 = choose|i: int| 0 <= i && #[trigger] extracted_at(s, i, e2, code2) && no_match_before(s, i);
    let (k1, c1) = choose|k: int, c: int| parse_at_with(s, i1, e1, k, c, code1);
    let (k2, c2) = choose|k: int, c: int| parse_at_with(s, i2, e2, k, c, code2);
    assert(match_at(s, i1));
    assert(match_at(s, i2));
    if i1 < i2 {
        assert(!match_at(s, i1));
        assert(false);
    }
    if i2 < i1 {
        assert(!match_at(s, i2));
        assert(false);
    }
    lemma_parse_unique_at(s, i1, e1, k1, c1, code1, e2, k2, c2, code2);
}

} // verus!
