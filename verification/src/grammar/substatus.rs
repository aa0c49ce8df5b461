//! The grammar of the sub-state reply.
//!
//! The reply names the laser sub-state in full, but gives the feeder state
//! and the gas state both as `state(N)`, told apart only by their order.
//! The first such token is taken for the feeder and the second for the gas;
//! this is a guess that the reply itself cannot confirm.

use crate::model::{texts_of, ParsedMessage, ParsedMessageView, SubStatus, SubStatusView};
use crate::number::{decimal_i64, parse_i64};
use crate::text::{
    chars_of, has_char, split_whitespace, string_of, strip_prefix, trim_end_matches, views,
    without_trailing_char, words,
};
use vstd::prelude::*;

verus! {

/// The number that a token gives after the beginning `key`: what follows the
/// key, closing brackets at the end left out, read as a number.
pub open spec fn captured(token: Seq<char>, key: Seq<char>) -> Option<i64> {
    if key.is_prefix_of(token) {
        decimal_i64(without_trailing_char(token.skip(key.len() as int), ')'))
    } else {
        None
    }
}

/// The record of a reply that gives nothing.
pub open spec fn no_substatus() -> SubStatusView {
    SubStatusView {
        laser_sub_state: None,
        feeder_state: None,
        gas_state: None,
        extras: Seq::empty(),
    }
}

/// `s` with one more token among its extras.
pub open spec fn with_extra_token(s: SubStatusView, token: Seq<char>) -> SubStatusView {
    SubStatusView { extras: s.extras.push(token), ..s }
}

/// The record after one token. A token `laser_sub_state(N)` sets the laser
/// sub-state. A token `state(N)` sets the feeder state where that is not yet
/// set, else the gas state where that is not yet set, and else is kept among
/// the extras. Any other token that holds both an opening and a closing
/// bracket is kept among the extras; the rest is dropped.
pub open spec fn substatus_token(s: SubStatusView, token: Seq<char>) -> SubStatusView {
    match captured(token, "laser_sub_state("@) {
        Some(n) => SubStatusView { laser_sub_state: Some(n), ..s },
        None => match captured(token, "state("@) {
            Some(n) => if s.feeder_state is None {
                SubStatusView { feeder_state: Some(n), ..s }
            } else if s.gas_state is None {
                SubStatusView { gas_state: Some(n), ..s }
            } else {
                with_extra_token(s, token)
            },
            None => if token.contains('(') && token.contains(')') {
                with_extra_token(s, token)
            } else {
                s
            },
        },
    }
}

/// `substatus_token`, as a function.
pub open spec fn token_stepper() -> spec_fn(SubStatusView, Seq<char>) -> SubStatusView {
    |s: SubStatusView, t: Seq<char>| substatus_token(s, t)
}

/// The record after the tokens of one line, from left to right.
pub open spec fn substatus_line(s: SubStatusView, line: Seq<char>) -> SubStatusView {
    words(line).fold_left(s, token_stepper())
}

/// `substatus_line`, as a function.
pub open spec fn substatus_stepper() -> spec_fn(SubStatusView, Seq<char>) -> SubStatusView {
    |s: SubStatusView, l: Seq<char>| substatus_line(s, l)
}

/// The sub-state record that a reply gives.
pub open spec fn substatus(lines: Seq<Seq<char>>) -> SubStatusView {
    lines.fold_left(no_substatus(), substatus_stepper())
}

/// Reads the number that a token gives after the beginning `key`.
pub fn capture_num(token: &[char], key: &str) -> (r: Option<i64>)
    ensures
        r == captured(token@, key@),
{
    match strip_prefix(token, key) {
        Some(rest) => parse_i64(trim_end_matches(rest, ')')),
        None => None,
    }
}

/// Keeps a token among the extras.
fn keep_token(s: &mut SubStatus, token: &[char])
    ensures
        final(s)@ == with_extra_token(old(s)@, token@),
{
    let ghost before = s.extras@;
    let text = string_of(token);
    s.extras.push(text);
    assert(texts_of(s.extras@) == texts_of(before).push(token@));
}

/// Reads one token into `s`.
pub fn apply_token(s: &mut SubStatus, token: &[char])
    ensures
        final(s)@ == substatus_token(old(s)@, token@),
{
    match capture_num(token, "laser_sub_state(") {
        Some(n) => {
            s.laser_sub_state = Some(n);
        },
        None => match capture_num(token, "state(") {
            Some(n) => {
                if s.feeder_state.is_none() {
                    s.feeder_state = Some(n);
                } else if s.gas_state.is_none() {
                    s.gas_state = Some(n);
                } else {
                    keep_token(s, token);
                }
            },
            None => {
                if has_char(token, '(') && has_char(token, ')') {
                    keep_token(s, token);
                }
            },
        },
    }
}

/// Reads the tokens of one line into `s`.
pub fn apply_substatus_line(s: &mut SubStatus, line: &[char])
    ensures
        final(s)@ == substatus_line(old(s)@, line@),
{
    let tokens = split_whitespace(line);
    let mut i: usize = 0;
    while i < tokens.len()
        invariant
            i <= tokens.len(),
            views(tokens@) == words(line@),
            s@ == views(tokens@).take(i as int).fold_left(old(s)@, token_stepper()),
        decreases tokens.len() - i,
    {
        let ghost done = views(tokens@).take(i + 1);
        assert(done.drop_last() == views(tokens@).take(i as int));
        assert(done.last() == tokens@[i as int]@);
        apply_token(s, tokens[i]);
        i += 1;
    }
    assert(views(tokens@).take(tokens.len() as int) == views(tokens@));
}

/// Reads the sub-state record of a reply.
pub fn parse_substatus(lines: &[String]) -> (r: ParsedMessage)
    ensures
        r@ == ParsedMessageView::SubStatus(substatus(texts_of(lines@))),
{
    let mut s = SubStatus {
        laser_sub_state: None,
        feeder_state: None,
        gas_state: None,
        extras: Vec::new(),
    };
    assert(texts_of(s.extras@) == Seq::<Seq<char>>::empty());
    let mut i: usize = 0;
    while i < lines.len()
        invariant
            i <= lines.len(),
            s@ == substatus(texts_of(lines@).take(i as int)),
        decreases lines.len() - i,
    {
        let ghost done = texts_of(lines@).take(i + 1);
        assert(done.drop_last() == texts_of(lines@).take(i as int));
        let cs = chars_of(lines[i].as_str());
        apply_substatus_line(&mut s, cs.as_slice());
        i += 1;
    }
    assert(texts_of(lines@).take(lines.len() as int) == texts_of(lines@));
    ParsedMessage::SubStatus(s)
}

} // verus!
