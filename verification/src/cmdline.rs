//! Quote-aware splitting of a service launch command, and insertion of the
//! extra flag/value pair right after the executable token.
//!
//! A launch command is a single string: an executable path possibly followed
//! by arguments, where a segment may be quoted so that it can contain
//! whitespace.  Splitting resolves the quoting: quote characters are
//! stripped, whitespace inside quotes is kept as part of its token.  A string
//! that ends inside an open quote is malformed and is rejected rather than
//! guessed at.

use vstd::prelude::*;

verus! {

/// Errors for a launch command that cannot be patched.
#[derive(Clone, Copy, PartialEq, Eq, Structural, Debug)]
pub enum CmdError {
    /// The command string ends inside an open quote.
    UnbalancedQuote,
    /// The command string holds no token at all, so there is no executable
    /// to patch after.
    EmptyCommand,
}

/// Whitespace that separates tokens outside quotes.
pub open spec fn is_space(c: char) -> bool {
    c == ' ' || c == '\t' || c == '\n' || c == '\r'
}

/// Splitter state after reading a prefix of the command string.
pub ghost struct SplitterState {
    /// Tokens already completed.
    pub toks: Seq<Seq<char>>,
    /// Characters of the token currently being read.
    pub cur: Seq<char>,
    /// Whether the current token has begun (a quote alone begins a token, so
    /// an empty quoted segment still yields a token).
    pub started: bool,
    /// Whether the reader stands inside a quoted segment.
    pub in_quote: bool,
}

pub open spec fn split_init() -> SplitterState {
    SplitterState { toks: Seq::empty(), cur: Seq::empty(), started: false, in_quote: false }
}

/// One character of splitting.
pub open spec fn split_step(st: SplitterState, c: char) -> SplitterState {
    if st.in_quote {
        if c == '"' {
            SplitterState { toks: st.toks, cur: st.cur, started: st.started, in_quote: false }
        } else {
            SplitterState { toks: st.toks, cur: st.cur.push(c), started: st.started, in_quote: true }
        }
    } else if c == '"' {
        SplitterState { toks: st.toks, cur: st.cur, started: true, in_quote: true }
    } else if is_space(c) {
        if st.started {
            SplitterState { toks: st.toks.push(st.cur), cur: Seq::empty(), started: false, in_quote: false }
        } else {
            st
        }
    } else {
        SplitterState { toks: st.toks, cur: st.cur.push(c), started: true, in_quote: false }
    }
}

/// Splitter state after the first `n` characters of `s`.
pub open spec fn split_run(s: Seq<char>, n: int) -> SplitterState
    decreases n,
{
    if n <= 0 {
        split_init()
    } else {
        split_step(split_run(s, n - 1), s[n - 1])
    }
}

/// The token sequence of a command string, or `None` when a quote is left
/// unbalanced.
pub open spec fn split_tokens(s: Seq<char>) -> Option<Seq<Seq<char>>> {
    let st = split_run(s, s.len() as int);
    if st.in_quote {
        None
    } else if st.started {
        Some(st.toks.push(st.cur))
    } else {
        Some(st.toks)
    }
}

/// The character sequences of a sequence of strings.
pub open spec fn token_views(toks: Seq<String>) -> Seq<Seq<char>> {
    toks.map_values(|t: String| t@)
}

/// Appends the character `s[i]` to `cur`.
fn push_char_at(cur: &mut String, s: &str, i: usize)
    requires
        i < s@.len(),
        i < usize::MAX,
    ensures
        final(cur)@ == old(cur)@.push(s@[i as int]),
{
    let piece = s.substring_char(i, i + 1);
    cur.append(piece);
    proof {
        assert(old(cur)@ + s@.subrange(i as int, i as int + 1) =~= old(cur)@.push(s@[i as int]));
    }
}

/// Splits a launch command into its tokens, resolving quotes.
pub fn split_command(s: &str) -> (r: Result<Vec<String>, CmdError>)
    ensures
        match r {
            Ok(toks) => split_tokens(s@) == Some(token_views(toks@)),
            Err(e) => e == CmdError::UnbalancedQuote && split_tokens(s@) is None,
        },
{
    let n = s.unicode_len();
    let mut toks: Vec<String> = Vec::new();
    let mut cur: String = String::new();
    let mut started: bool = false;
    let mut in_quote: bool = false;
    let mut i: usize = 0;
    while i < n
        invariant
            n == s@.len(),
            i <= n,
            split_run(s@, i as int).toks == token_views(toks@),
            split_run(s@, i as int).cur == cur@,
            split_run(s@, i as int).started == started,
            split_run(s@, i as int).in_quote == in_quote,
        decreases n - i,
    {
        let ghost prev = split_run(s@, i as int);
        let c = s.get_char(i);
        assert(split_run(s@, i as int + 1) == split_step(prev, s@[i as int]));
        if in_quote {
            if c == '"' {
                in_quote = false;
            } else {
                push_char_at(&mut cur, s, i);
            }
        } else if c == '"' {
            in_quote = true;
            started = true;
        } else if c == ' ' || c == '\t' || c == '\n' || c == '\r' {
            if started {
                toks.push(cur);
                cur = String::new();
                started = false;
                proof {
                    assert(token_views(toks@) =~= prev.toks.push(prev.cur));
                }
            }
        } else {
            push_char_at(&mut cur, s, i);
            started = true;
        }
        i += 1;
    }
    if in_quote {
        Err(CmdError::UnbalancedQuote)
    } else if started {
        let ghost end = split_run(s@, n as int);
        toks.push(cur);
        proof {
            assert(token_views(toks@) =~= end.toks.push(end.cur));
        }
        Ok(toks)
    } else {
        Ok(toks)
    }
}

/// Law: the splitter is deterministic — equal command strings always yield
/// equal token sequences.  `split_command` returns exactly
/// `split_tokens` of its input, so two runs on one input cannot differ.
pub proof fn lemma_splitter_deterministic(s1: Seq<char>, s2: Seq<char>)
    requires
        s1 == s2,
    ensures
        split_tokens(s1) == split_tokens(s2),
{
}

/// The patched token sequence: the executable token, the inserted flag and
/// value, then the original arguments in their original order.
pub open spec fn patched_token_seq(toks: Seq<Seq<char>>, flag: Seq<char>, value: Seq<char>) -> Seq<
    Seq<char>,
> {
    seq![toks[0], flag, value] + toks.skip(1)
}

/// Law: patching inserts exactly the flag at position 1 and the value at
/// position 2, grows the token count by exactly 2, and neither reorders nor
/// rewrites any other token.
pub proof fn lemma_insertion_correct(toks: Seq<Seq<char>>, flag: Seq<char>, value: Seq<char>)
    requires
        toks.len() >= 1,
    ensures
        patched_token_seq(toks, flag, value).len() == toks.len() + 2,
        patched_token_seq(toks, flag, value)[0] == toks[0],
        patched_token_seq(toks, flag, value)[1] == flag,
        patched_token_seq(toks, flag, value)[2] == value,
        forall|k: int|
            3 <= k < toks.len() + 2 ==> patched_token_seq(toks, flag, value)[k] == toks[k - 2],
{
}

/// Inserts the flag at position 1 and its value at position 2, right after
/// the executable token.
pub fn insert_flag_pair(toks: Vec<String>, flag: &str, value: &str) -> (r: Vec<String>)
    requires
        toks@.len() >= 1,
    ensures
        token_views(r@) == patched_token_seq(token_views(toks@), flag@, value@),
        r@.len() == toks@.len() + 2,
{
    let mut r = toks;
    r.insert(1, String::from_str(flag));
    r.insert(2, String::from_str(value));
    proof {
        assert(token_views(r@) =~= patched_token_seq(token_views(toks@), flag@, value@));
    }
    r
}

} // verus!
