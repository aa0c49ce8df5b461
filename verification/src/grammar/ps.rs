//! The grammar of the thread table.
//!
//! A thread's name may hold spaces, so a row cannot be split into columns
//! from the left. The columns are taken from the right instead: first the
//! trailing numbers, then the columns of free text, and what is left is the
//! name.

use crate::fields::{
    count_lines_before, lines_before, pop_i32, pop_text, popped_i32, popped_text,
};
use crate::model::{rows_of, texts_of, ParsedMessage, ParsedMessageView, ThreadRow, ThreadRowView};
use crate::text::{
    chars_of, join, joined, occurs_in, split_whitespace, string_of, views, words,
};
use vstd::prelude::*;

verus! {

/// The names of the columns of the thread table, from left to right.
pub open spec fn ps_columns() -> Seq<Seq<char>> {
    seq![
        "thread"@,
        "pri"@,
        "status"@,
        "sp"@,
        "stack"@,
        "size"@,
        "max"@,
        "used"@,
        "left"@,
        "tick"@,
        "error"@,
    ]
}

/// The lines of the table below its header: the lines after the first that
/// holds the word `status` and after the rule beneath it. A reply without
/// such a header has none.
pub open spec fn table_body(lines: Seq<Seq<char>>) -> Seq<Seq<char>> {
    let header = lines_before(lines, "status"@) as int;
    if header + 2 <= lines.len() {
        lines.skip(header + 2)
    } else {
        Seq::empty()
    }
}

/// The row that the tokens of a line give. From the right: four numbers
/// (error, tick, left, used), of which the first token that writes no number
/// ends the run and stays for the next column; four columns of text (max,
/// size, stack, sp); the status; the priority, if the next token writes a
/// number. The tokens that are left, joined by single spaces, are the name.
pub open spec fn thread_row(tokens: Seq<Seq<char>>) -> ThreadRowView {
    let (error, t1) = popped_i32(tokens);
    let (tick, t2) = popped_i32(t1);
    let (left, t3) = popped_i32(t2);
    let (used, t4) = popped_i32(t3);
    let (max, t5) = popped_text(t4);
    let (size, t6) = popped_text(t5);
    let (stack, t7) = popped_text(t6);
    let (sp, t8) = popped_text(t7);
    let (status, t9) = popped_text(t8);
    let (pri, t10) = popped_i32(t9);
    ThreadRowView {
        thread: joined(t10, " "@),
        pri,
        status: match status {
            Some(s) => s,
            None => Seq::empty(),
        },
        sp,
        stack,
        size,
        max,
        used,
        left,
        tick,
        error,
    }
}

/// The row of a line of the table; a line with fewer than four tokens has
/// none.
pub open spec fn row_of_line(line: Seq<char>) -> Option<ThreadRowView> {
    let tokens = words(line);
    if tokens.len() < 4 {
        None
    } else {
        Some(thread_row(tokens))
    }
}

/// `row_of_line`, as a function.
pub open spec fn to_row() -> spec_fn(Seq<char>) -> Option<ThreadRowView> {
    |l: Seq<char>| row_of_line(l)
}

/// The rows of the lines that have one, in their order.
pub open spec fn rows_from(body: Seq<Seq<char>>) -> Seq<ThreadRowView> {
    body.filter_map(to_row())
}

/// The rows of the thread table in a reply.
pub open spec fn ps_rows(lines: Seq<Seq<char>>) -> Seq<ThreadRowView> {
    rows_from(table_body(lines))
}

/// What a reply to `ps` is understood to be.
pub open spec fn ps_message(lines: Seq<Seq<char>>) -> ParsedMessageView {
    ParsedMessageView::Ps { columns: ps_columns(), rows: ps_rows(lines) }
}

/// Reads a row from the tokens of a line.
pub fn read_row(tokens: Vec<&[char]>) -> (r: ThreadRow)
    ensures
        r@ == thread_row(views(tokens@)),
{
    let mut cols = tokens;
    let error = pop_i32(&mut cols);
    let tick = pop_i32(&mut cols);
    let left = pop_i32(&mut cols);
    let used = pop_i32(&mut cols);
    let max = pop_text(&mut cols);
    let size = pop_text(&mut cols);
    let stack = pop_text(&mut cols);
    let sp = pop_text(&mut cols);
    let status = match pop_text(&mut cols) {
        Some(s) => s,
        None => String::new(),
    };
    let pri = pop_i32(&mut cols);
    let name = join(&cols, " ");
    ThreadRow {
        thread: string_of(name.as_slice()),
        pri,
        status,
        sp,
        stack,
        size,
        max,
        used,
        left,
        tick,
        error,
    }
}

/// Names the columns of the thread table.
fn column_names() -> (r: Vec<String>)
    ensures
        texts_of(r@) == ps_columns(),
{
    let mut r: Vec<String> = Vec::new();
    r.push("thread".to_owned());
    r.push("pri".to_owned());
    r.push("status".to_owned());
    r.push("sp".to_owned());
    r.push("stack".to_owned());
    r.push("size".to_owned());
    r.push("max".to_owned());
    r.push("used".to_owned());
    r.push("left".to_owned());
    r.push("tick".to_owned());
    r.push("error".to_owned());
    assert(texts_of(r@) =~= ps_columns());
    r
}

/// Reads the thread table of a reply.
pub fn parse_ps(lines: &[String]) -> (r: ParsedMessage)
    ensures
        r@ == ps_message(texts_of(lines@)),
{
    let header = count_lines_before(lines, "status");
    let mut rows: Vec<ThreadRow> = Vec::new();
    assert(rows_of(rows@) == Seq::<ThreadRowView>::empty());
    if header < lines.len() && lines.len() - header >= 2 {
        let ghost body = texts_of(lines@).skip(header + 2);
        let mut i: usize = header + 2;
        while i < lines.len()
            invariant
                header + 2 <= i <= lines.len(),
                body == texts_of(lines@).skip(header + 2),
                rows_of(rows@) == rows_from(body.take(i - header - 2)),
            decreases lines.len() - i,
        {
            let ghost before = rows@;
            proof {
                body.lemma_filter_map_take_succ(to_row(), i - header - 2);
                assert(body[i - header - 2] == lines@[i as int]@);
            }
            let cs = chars_of(lines[i].as_str());
            let tokens = split_whitespace(cs.as_slice());
            if tokens.len() >= 4 {
                let row = read_row(tokens);
                rows.push(row);
                assert(rows_of(rows@) == rows_of(before) + seq![row@]);
            }
            i += 1;
        }
        assert(body.take(lines.len() - header - 2) == body);
    }
    ParsedMessage::Ps { columns: column_names(), rows }
}

/// Filtering and mapping a list goes through its parts one after the other.
pub proof fn lemma_rows_from_concat(a: Seq<Seq<char>>, b: Seq<Seq<char>>)
    ensures
        rows_from(a + b) == rows_from(a) + rows_from(b),
    decreases b.len(),
{
    if b.len() == 0 {
        assert(a + b == a);
    } else {
        lemma_rows_from_concat(a, b.drop_last());
        assert((a + b).drop_last() == a + b.drop_last());
        assert((a + b).last() == b.last());
    }
}

/// A line of the table with fewer than four tokens gives no row: the rows
/// are those of the lines around it.
pub proof fn lemma_short_line_gives_no_row(
    before: Seq<Seq<char>>,
    line: Seq<char>,
    after: Seq<Seq<char>>,
)
    requires
        words(line).len() < 4,
    ensures
        rows_from(before + seq![line] + after) == rows_from(before + after),
{
    lemma_rows_from_concat(before + seq![line], after);
    lemma_rows_from_concat(before, seq![line]);
    lemma_rows_from_concat(before, after);
    let one = seq![line];
    assert(one.drop_last() == Seq::<Seq<char>>::empty());
    assert(rows_from(Seq::<Seq<char>>::empty()) == Seq::<ThreadRowView>::empty());
    assert(to_row()(one.last()) is None);
    assert(rows_from(one) == Seq::<ThreadRowView>::empty());
}

/// Taking out a line below the first that holds `pat` leaves the number of
/// lines before that first one as it was.
pub proof fn lemma_lines_before_remove(lines: Seq<Seq<char>>, pat: Seq<char>, i: int)
    requires
        lines_before(lines, pat) < i < lines.len(),
    ensures
        lines_before(lines.remove(i), pat) == lines_before(lines, pat),
    decreases lines.len(),
{
    let rest = lines.remove(i);
    assert(rest.first() == lines.first());
    if !occurs_in(lines.first(), pat) {
        assert(rest.drop_first() == lines.drop_first().remove(i - 1));
        lemma_lines_before_remove(lines.drop_first(), pat, i - 1);
    }
}

/// Taking out a line above the first that holds `pat` leaves one line fewer
/// before that first one.
pub proof fn lemma_lines_before_remove_above(lines: Seq<Seq<char>>, pat: Seq<char>, i: int)
    requires
        0 <= i < lines_before(lines, pat),
    ensures
        lines_before(lines.remove(i), pat) == lines_before(lines, pat) - 1,
    decreases lines.len(),
{
    lemma_lines_before_bound(lines, pat);
    let rest = lines.remove(i);
    if i == 0 {
        assert(rest == lines.drop_first());
    } else {
        assert(rest.first() == lines.first());
        assert(rest.drop_first() == lines.drop_first().remove(i - 1));
        lemma_lines_before_remove_above(lines.drop_first(), pat, i - 1);
    }
}

/// The header is among the lines of the reply, or the reply has none.
pub proof fn lemma_lines_before_bound(lines: Seq<Seq<char>>, pat: Seq<char>)
    ensures
        lines_before(lines, pat) <= lines.len(),
    decreases lines.len(),
{
    if lines.len() > 0 && !occurs_in(lines.first(), pat) {
        lemma_lines_before_bound(lines.drop_first(), pat);
    }
}

/// A line with fewer than four tokens is dropped: the reply gives the rows
/// that it gives without that line. This holds of every line but the header
/// and the rule beneath it, which give no row but say where the table
/// begins.
pub proof fn lemma_ps_drops_short_line(lines: Seq<Seq<char>>, i: int)
    requires
        0 <= i < lines.len(),
        i != lines_before(lines, "status"@),
        i != lines_before(lines, "status"@) + 1,
        words(lines[i]).len() < 4,
    ensures
        ps_rows(lines.remove(i)) == ps_rows(lines),
{
    let header = lines_before(lines, "status"@) as int;
    let body = table_body(lines);
    lemma_lines_before_bound(lines, "status"@);
    if i < header {
        lemma_lines_before_remove_above(lines, "status"@, i);
        if header + 2 <= lines.len() {
            assert(lines.remove(i).skip(header + 1) == lines.skip(header + 2));
        }
    } else {
        let k = i - header - 2;
        lemma_lines_before_remove(lines, "status"@, i);
        assert(table_body(lines.remove(i)) == body.take(k) + body.skip(k + 1));
        assert(body == body.take(k) + seq![lines[i]] + body.skip(k + 1));
        lemma_short_line_gives_no_row(body.take(k), lines[i], body.skip(k + 1));
    }
}

} // verus!
