//! The grammar of the operating-time reply.

use crate::fields::{key_value, split_pair};
use crate::model::{
    texts_of, ParseError, ParsedMessage, ParsedMessageView, WorkTime, WorkTimeView,
};
use crate::number::{decimal_i64, parse_i64};
use crate::text::{chars_of, equals, string_of};
use vstd::prelude::*;

verus! {

/// The record of a reply that gives nothing.
pub open spec fn no_worktime() -> WorkTimeView {
    WorkTimeView {
        start_date: None,
        end_date: None,
        current_date: None,
        total_startup_time: None,
        current_startup_time: None,
        onkey_time: None,
        decode_times: None,
        days_available: None,
    }
}

/// `w` with a counter set to the number that `value` writes; `w` itself
/// where it writes none.
pub open spec fn with_counter(w: WorkTimeView, decode: bool, value: Seq<char>) -> WorkTimeView {
    match decimal_i64(value) {
        Some(n) => if decode {
            WorkTimeView { decode_times: Some(n), ..w }
        } else {
            WorkTimeView { days_available: Some(n), ..w }
        },
        None => w,
    }
}

/// The record after one line of the reply. The key must be one of the eight
/// known keys, letter for letter; any other line changes nothing.
pub open spec fn worktime_step(w: WorkTimeView, line: Seq<char>) -> WorkTimeView {
    match key_value(line) {
        Some(kv) => if kv.key == "Start date"@ {
            WorkTimeView { start_date: Some(kv.value), ..w }
        } else if kv.key == "End date"@ {
            WorkTimeView { end_date: Some(kv.value), ..w }
        } else if kv.key == "Current date"@ {
            WorkTimeView { current_date: Some(kv.value), ..w }
        } else if kv.key == "Total startup time"@ {
            WorkTimeView { total_startup_time: Some(kv.value), ..w }
        } else if kv.key == "Current startup time"@ {
            WorkTimeView { current_startup_time: Some(kv.value), ..w }
        } else if kv.key == "onkey time"@ {
            WorkTimeView { onkey_time: Some(kv.value), ..w }
        } else if kv.key == "decodeTimes"@ {
            with_counter(w, true, kv.value)
        } else if kv.key == "Days available"@ {
            with_counter(w, false, kv.value)
        } else {
            w
        },
        None => w,
    }
}

/// `worktime_step`, as a function.
pub open spec fn worktime_stepper() -> spec_fn(WorkTimeView, Seq<char>) -> WorkTimeView {
    |w: WorkTimeView, l: Seq<char>| worktime_step(w, l)
}

/// The operating-time record that a reply gives.
pub open spec fn worktime(lines: Seq<Seq<char>>) -> WorkTimeView {
    lines.fold_left(no_worktime(), worktime_stepper())
}

/// Reads one line of the reply into `w`.
pub fn apply_worktime_line(w: &mut WorkTime, line: &[char])
    ensures
        final(w)@ == worktime_step(old(w)@, line@),
{
    match split_pair(line) {
        Some((key, value)) => {
            if equals(key, "Start date") {
                w.start_date = Some(string_of(value));
            } else if equals(key, "End date") {
                w.end_date = Some(string_of(value));
            } else if equals(key, "Current date") {
                w.current_date = Some(string_of(value));
            } else if equals(key, "Total startup time") {
                w.total_startup_time = Some(string_of(value));
            } else if equals(key, "Current startup time") {
                w.current_startup_time = Some(string_of(value));
            } else if equals(key, "onkey time") {
                w.onkey_time = Some(string_of(value));
            } else if equals(key, "decodeTimes") {
                match parse_i64(value) {
                    Some(n) => w.decode_times = Some(n),
                    None => {},
                }
            } else if equals(key, "Days available") {
                match parse_i64(value) {
                    Some(n) => w.days_available = Some(n),
                    None => {},
                }
            }
        },
        None => {},
    }
}

/// Reads the operating-time record of a reply. Every reply gives a record.
pub fn parse_worktime(lines: &[String]) -> (r: Result<ParsedMessage, ParseError>)
    ensures
        r is Ok,
        r->Ok_0@ == ParsedMessageView::WorkTime(worktime(texts_of(lines@))),
{
    let mut w = WorkTime {
        start_date: None,
        end_date: None,
        current_date: None,
        total_startup_time: None,
        current_startup_time: None,
        onkey_time: None,
        decode_times: None,
        days_available: None,
    };
    let mut i: usize = 0;
    while i < lines.len()
        invariant
            i <= lines.len(),
            w@ == worktime(texts_of(lines@).take(i as int)),
        decreases lines.len() - i,
    {
        let ghost done = texts_of(lines@).take(i + 1);
        assert(done.drop_last() == texts_of(lines@).take(i as int));
        let cs = chars_of(lines[i].as_str());
        apply_worktime_line(&mut w, cs.as_slice());
        i += 1;
    }
    assert(texts_of(lines@).take(lines.len() as int) == texts_of(lines@));
    Ok(ParsedMessage::WorkTime(w))
}

} // verus!
