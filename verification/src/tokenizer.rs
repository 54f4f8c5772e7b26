//! Splitting one input line into tokens.
//!
//! The tokenizer is a state machine with three quoting modes. Outside quotes,
//! a space separates tokens, a backslash escapes the next character, and a
//! quote character opens the matching quoting mode. Inside single quotes every
//! character is literal. Inside double quotes a backslash escapes only `\`,
//! `$` and `"`; before any other character the backslash itself is kept.
//! A quote that is never closed swallows the rest of the line; a trailing
//! backslash is dropped.

use vstd::prelude::*;

verus! {

/// The quoting mode the tokenizer is in. A line is read in exactly one mode
/// at a time; "inside both kinds of quote at once" cannot be expressed.
#[derive(Clone, Copy, PartialEq, Eq, Structural, Debug)]
pub enum Mode {
    Unquoted,
    SingleQuoted,
    DoubleQuoted,
}

/// The whole tokenizer state: the mode, whether a backslash is pending,
/// the token being built, and the tokens already emitted.
pub struct TokState {
    pub mode: Mode,
    pub escaped: bool,
    pub cur: Seq<char>,
    pub done: Seq<Seq<char>>,
}

/// The state before any character has been read.
pub open spec fn tok_init() -> TokState {
    TokState { mode: Mode::Unquoted, escaped: false, cur: Seq::empty(), done: Seq::empty() }
}

/// One transition of the tokenizer: how reading the character `c` changes
/// the state `st`.
pub open spec fn tok_step(st: TokState, c: char) -> TokState {
    match st.mode {
        Mode::Unquoted => {
            if st.escaped {
                TokState { escaped: false, cur: st.cur.push(c), ..st }
            } else if c == '\\' {
                TokState { escaped: true, ..st }
            } else if c == '\'' {
                TokState { mode: Mode::SingleQuoted, ..st }
            } else if c == '"' {
                TokState { mode: Mode::DoubleQuoted, ..st }
            } else if c == ' ' {
                if st.cur.len() > 0 {
                    TokState { cur: Seq::empty(), done: st.done.push(st.cur), ..st }
                } else {
                    st
                }
            } else {
                TokState { cur: st.cur.push(c), ..st }
            }
        }
        Mode::SingleQuoted => {
            if c == '\'' {
                TokState { mode: Mode::Unquoted, ..st }
            } else {
                TokState { cur: st.cur.push(c), ..st }
            }
        }
        Mode::DoubleQuoted => {
            if st.escaped {
                if c == '\\' || c == '$' || c == '"' {
                    TokState { escaped: false, cur: st.cur.push(c), ..st }
                } else {
                    TokState { escaped: false, cur: st.cur.push('\\').push(c), ..st }
                }
            } else if c == '\\' {
                TokState { escaped: true, ..st }
            } else if c == '"' {
                TokState { mode: Mode::Unquoted, ..st }
            } else {
                TokState { cur: st.cur.push(c), ..st }
            }
        }
    }
}

/// The tokenizer state after reading all of `s`, character by character.
pub open spec fn tok_run(s: Seq<char>) -> TokState
    decreases s.len(),
{
    if s.len() == 0 {
        tok_init()
    } else {
        tok_step(tok_run(s.drop_last()), s.last())
    }
}

/// The tokens of one input line: run the state machine over the line, then
/// flush the last token if it is non-empty.
pub open spec fn spec_tokenize(s: Seq<char>) -> Seq<Seq<char>> {
    let st = tok_run(s);
    if st.cur.len() > 0 {
        st.done.push(st.cur)
    } else {
        st.done
    }
}

/// Relies on `String::push`: appends the given character to the end of the
/// string.
#[verifier::external_body]
fn push_char(s: &mut String, c: char)
    ensures
        final(s)@ == old(s)@.push(c),
{
    s.push(c);
}

/// Splits one input line (without its line terminator) into tokens,
/// honoring single quotes, double quotes and backslash escapes.
pub fn split_string(input: &str) -> (tokens: Vec<String>)
    ensures
        tokens.deep_view() == spec_tokenize(input@),
{
    let n = input.unicode_len();
    let mut mode = Mode::Unquoted;
    let mut escaped = false;
    let mut cur = String::new();
    let mut done: Vec<String> = Vec::new();
    let mut i: usize = 0;
    while i < n
        invariant
            n == input@.len(),
            i <= n,
            mode == tok_run(input@.subrange(0, i as int)).mode,
            escaped == tok_run(input@.subrange(0, i as int)).escaped,
            cur@ == tok_run(input@.subrange(0, i as int)).cur,
            done.deep_view() == tok_run(input@.subrange(0, i as int)).done,
        decreases n - i,
    {
        let ghost prev = tok_run(input@.subrange(0, i as int));
        let c = input.get_char(i);
        proof {
            assert(input@.subrange(0, (i + 1) as int).drop_last() =~= input@.subrange(
                0,
                i as int,
            ));
            assert(input@.subrange(0, (i + 1) as int).last() == input@[i as int]);
        }
        match mode {
            Mode::Unquoted => {
                if escaped {
                    push_char(&mut cur, c);
                    escaped = false;
                } else if c == '\\' {
                    escaped = true;
                } else if c == '\'' {
                    mode = Mode::SingleQuoted;
                } else if c == '"' {
                    mode = Mode::DoubleQuoted;
                } else if c == ' ' {
                    if !cur.as_str().is_empty() {
                        let ghost old_done = done.deep_view();
                        done.push(cur);
                        cur = String::new();
                        proof {
                            assert(done.deep_view() =~= old_done.push(prev.cur));
                        }
                    }
                } else {
                    push_char(&mut cur, c);
                }
            }
            Mode::SingleQuoted => {
                if c == '\'' {
                    mode = Mode::Unquoted;
                } else {
                    push_char(&mut cur, c);
                }
            }
            Mode::DoubleQuoted => {
                if escaped {
                    if c == '\\' || c == '$' || c == '"' {
                        push_char(&mut cur, c);
                    } else {
                        push_char(&mut cur, '\\');
                        push_char(&mut cur, c);
                    }
                    escaped = false;
                } else if c == '\\' {
                    escaped = true;
                } else if c == '"' {
                    mode = Mode::Unquoted;
                } else {
                    push_char(&mut cur, c);
                }
            }
        }
        i = i + 1;
    }
    proof {
        assert(input@.subrange(0, n as int) =~= input@);
    }
    if !cur.as_str().is_empty() {
        let ghost old_done = done.deep_view();
        done.push(cur);
        proof {
            assert(done.deep_view() =~= old_done.push(tok_run(input@).cur));
        }
    }
    done
}

} // verus!
