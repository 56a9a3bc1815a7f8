use vstd::prelude::*;
use crate::text::{chars_of, string_of};

verus! {

/// What the tokenizer has gathered after reading part of a command line.
pub struct ScanState {
    pub tokens: Seq<Seq<char>>,
    pub current: Seq<char>,
    pub quoted: bool,
}

/// Reads one more character: a double quote toggles quoting and is dropped; a space
/// outside quotes ends the current token, if there is one; any other character is kept.
pub open spec fn scan_step(st: ScanState, c: char) -> ScanState {
    if c == '"' {
        ScanState { quoted: !st.quoted, ..st }
    } else if c == ' ' && !st.quoted {
        if st.current.len() > 0 {
            ScanState { tokens: st.tokens.push(st.current), current: Seq::empty(), quoted: st.quoted }
        } else {
            st
        }
    } else {
        ScanState { current: st.current.push(c), ..st }
    }
}

/// The state after reading all of `s` from the start.
pub open spec fn scan(s: Seq<char>) -> ScanState
    decreases s.len(),
{
    if s.len() == 0 {
        ScanState { tokens: Seq::empty(), current: Seq::empty(), quoted: false }
    } else {
        scan_step(scan(s.drop_last()), s.last())
    }
}

/// The tokens of a command line: those that the scan closed, then the last one if it is
/// not empty (an unmatched quote leaves it open to the end).
pub open spec fn tokens_of(s: Seq<char>) -> Seq<Seq<char>> {
    let st = scan(s);
    if st.current.len() > 0 {
        st.tokens.push(st.current)
    } else {
        st.tokens
    }
}

/// The characters of each string.
pub open spec fn string_views(v: Seq<String>) -> Seq<Seq<char>> {
    v.map_values(|x: String| x@)
}

/// Splits a command line into an executable and its arguments: on spaces outside double
/// quotes, with the quotes removed and no empty token.
pub fn tokenize(input: &str) -> (r: Vec<String>)
    ensures
        string_views(r@) == tokens_of(input@),
{
    let cs = chars_of(input);
    let mut args: Vec<String> = Vec::new();
    let mut current: Vec<char> = Vec::new();
    let mut in_quotes = false;
    let mut i: usize = 0;
    while i < cs.len()
        invariant
            cs@ == input@,
            i <= cs@.len(),
            string_views(args@) == scan(cs@.take(i as int)).tokens,
            current@ == scan(cs@.take(i as int)).current,
            in_quotes == scan(cs@.take(i as int)).quoted,
        decreases cs@.len() - i,
    {
        let c = cs[i];
        assert(cs@.take(i + 1).drop_last() == cs@.take(i as int));
        if c == '"' {
            in_quotes = !in_quotes;
        } else if c == ' ' && !in_quotes {
            if current.len() > 0 {
                let tok = string_of(current.as_slice());
                let ghost before = args@;
                args.push(tok);
                assert(string_views(args@) == string_views(before).push(tok@));
                current = Vec::new();
            }
        } else {
            current.push(c);
        }
        i = i + 1;
    }
    assert(cs@.take(cs@.len() as int) == cs@);
    if current.len() > 0 {
        let tok = string_of(current.as_slice());
        let ghost before = args@;
        args.push(tok);
        assert(string_views(args@) == string_views(before).push(tok@));
    }
    args
}

} // verus!
