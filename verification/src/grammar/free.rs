//! The grammar of the heap usage reply.

use crate::fields::{key_value, split_pair};
use crate::model::{texts_of, Free, ParseError, ParsedMessage, ParsedMessageView};
use crate::number::{decimal_i64, parse_i64};
use crate::text::{chars_of, remove_char, starts_with, without_char};
use vstd::prelude::*;

verus! {

/// The figures after one line of the reply. A line gives a figure where its
/// key begins with `total`, `used` or `maximum` and its value, spaces left
/// out, writes a number; any other line changes nothing.
pub open spec fn free_step(f: Free, line: Seq<char>) -> Free {
    match key_value(line) {
        Some(kv) => match decimal_i64(without_char(kv.value, ' ')) {
            Some(n) => if "total"@.is_prefix_of(kv.key) {
                Free { total: n, ..f }
            } else if "used"@.is_prefix_of(kv.key) {
                Free { used: n, ..f }
            } else if "maximum"@.is_prefix_of(kv.key) {
                Free { maximum: n, ..f }
            } else {
                f
            },
            None => f,
        },
        None => f,
    }
}

/// `free_step`, as a function.
pub open spec fn free_stepper() -> spec_fn(Free, Seq<char>) -> Free {
    |f: Free, l: Seq<char>| free_step(f, l)
}

/// The heap usage that a reply gives. A figure that no line gives is zero,
/// unlike the fields of the other records, which are then absent.
pub open spec fn free_figures(lines: Seq<Seq<char>>) -> Free {
    lines.fold_left(Free { total: 0, used: 0, maximum: 0 }, free_stepper())
}

/// Reads one line of the reply into `f`.
pub fn apply_free_line(f: &mut Free, line: &[char])
    ensures
        *final(f) == free_step(*old(f), line@),
{
    match split_pair(line) {
        Some((key, value)) => {
            let digits = remove_char(value, ' ');
            match parse_i64(digits.as_slice()) {
                Some(n) => {
                    if starts_with(key, "total") {
                        f.total = n;
                    } else if starts_with(key, "used") {
                        f.used = n;
                    } else if starts_with(key, "maximum") {
                        f.maximum = n;
                    }
                },
                None => {},
            }
        },
        None => {},
    }
}

/// Reads the heap usage of a reply. Every reply gives a record.
pub fn parse_free(lines: &[String]) -> (r: Result<ParsedMessage, ParseError>)
    ensures
        r is Ok,
        r->Ok_0@ == ParsedMessageView::Free(free_figures(texts_of(lines@))),
{
    let mut f = Free { total: 0, used: 0, maximum: 0 };
    let mut i: usize = 0;
    while i < lines.len()
        invariant
            i <= lines.len(),
            f == free_figures(texts_of(lines@).take(i as int)),
        decreases lines.len() - i,
    {
        let ghost done = texts_of(lines@).take(i + 1);
        assert(done.drop_last() == texts_of(lines@).take(i as int));
        let cs = chars_of(lines[i].as_str());
        apply_free_line(&mut f, cs.as_slice());
        i += 1;
    }
    assert(texts_of(lines@).take(lines.len() as int) == texts_of(lines@));
    Ok(ParsedMessage::Free(f))
}

} // verus!
