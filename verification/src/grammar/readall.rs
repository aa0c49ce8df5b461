//! The grammar of the register dump.

use crate::model::{ports_of, texts_of, ParsedMessage, ParsedMessageView, PortLine, PortLineView};
use crate::text::{chars_of, halves, split_once, split_once_char, string_of, trim, trimmed};
use vstd::prelude::*;
use vstd::slice::slice_subrange;

verus! {

/// The input register of a line: the text between `IN=` and the comma that
/// follows it; empty where the line has no such text.
pub open spec fn input_of(line: Seq<char>) -> Seq<char> {
    match halves(line, "IN="@) {
        Some((_, right)) => match halves(right, seq![',']) {
            Some((value, _)) => trimmed(value),
            None => Seq::empty(),
        },
        None => Seq::empty(),
    }
}

/// The output register of a line: the text after `OUT=`; empty where the
/// line has no such text.
pub open spec fn output_of(line: Seq<char>) -> Seq<char> {
    match halves(line, "OUT="@) {
        Some((_, right)) => trimmed(right),
        None => Seq::empty(),
    }
}

/// The registers of one line: its first two characters name the port. A
/// line of fewer than two characters gives nothing.
pub open spec fn port_line(line: Seq<char>) -> Option<PortLineView> {
    if line.len() < 2 {
        None
    } else {
        Some(PortLineView { port: line.take(2), input: input_of(line), output: output_of(line) })
    }
}

/// `port_line`, as a function.
pub open spec fn to_port_line() -> spec_fn(Seq<char>) -> Option<PortLineView> {
    |l: Seq<char>| port_line(l)
}

/// The registers that the lines of a reply give, in their order.
pub open spec fn port_lines(lines: Seq<Seq<char>>) -> Seq<PortLineView> {
    lines.filter_map(to_port_line())
}

/// Reads the registers of one line.
pub fn read_port_line(line: &[char]) -> (r: Option<PortLine>)
    ensures
        match r {
            Some(p) => port_line(line@) == Some(p@),
            None => port_line(line@) is None,
        },
{
    if line.len() < 2 {
        return None;
    }
    let port = string_of(slice_subrange(line, 0, 2));
    let input = match split_once(line, "IN=") {
        Some((_, right)) => match split_once_char(right, ',') {
            Some((value, _)) => string_of(trim(value)),
            None => String::new(),
        },
        None => String::new(),
    };
    let output = match split_once(line, "OUT=") {
        Some((_, right)) => string_of(trim(right)),
        None => String::new(),
    };
    Some(PortLine { port, input, output })
}

/// Reads the register dump of a reply.
pub fn parse_readall(lines: &[String]) -> (r: ParsedMessage)
    ensures
        r@ == ParsedMessageView::ReadAll(port_lines(texts_of(lines@))),
{
    let mut out: Vec<PortLine> = Vec::new();
    assert(ports_of(out@) == Seq::<PortLineView>::empty());
    let mut i: usize = 0;
    while i < lines.len()
        invariant
            i <= lines.len(),
            ports_of(out@) == port_lines(texts_of(lines@).take(i as int)),
        decreases lines.len() - i,
    {
        let ghost before = out@;
        proof {
            texts_of(lines@).lemma_filter_map_take_succ(to_port_line(), i as int);
        }
        let cs = chars_of(lines[i].as_str());
        match read_port_line(cs.as_slice()) {
            Some(p) => {
                out.push(p);
                assert(ports_of(out@) == ports_of(before) + seq![p@]);
            },
            None => {},
        }
        i += 1;
    }
    assert(texts_of(lines@).take(lines.len() as int) == texts_of(lines@));
    ParsedMessage::ReadAll(out)
}

} // verus!
