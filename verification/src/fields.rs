//! Field splitters that the grammars share.

use crate::model::{pairs_of, texts_of, KVLine, KVLineView};
use crate::number::{decimal_i32, parse_i32};
use crate::text::{
    chars_of, contains, halves, occurs_in, pieces, split, split_once_char, string_of, trim,
    trimmed, views,
};
use vstd::prelude::*;

verus! {

/// The key and the value of a line: the text before its first colon and the
/// text after it, each without the white space around it. A line without a
/// colon has neither.
pub open spec fn key_value(line: Seq<char>) -> Option<KVLineView> {
    match halves(line, seq![':']) {
        Some((k, v)) => Some(KVLineView { key: trimmed(k), value: trimmed(v) }),
        None => None,
    }
}

/// The value of a line that has a colon: the text after its first colon,
/// without the white space around it. A line without a colon has none.
pub open spec fn colon_value(line: Seq<char>) -> Option<Seq<char>> {
    match halves(line, seq![':']) {
        Some((_, v)) => Some(trimmed(v)),
        None => None,
    }
}

/// What a line says after its colon: the text after its first colon, or the
/// whole line where it has no colon, in both cases without the white space
/// around it. This reads a line that holds a single value, with or without
/// a key before it.
pub open spec fn after_colon(line: Seq<char>) -> Seq<char> {
    match colon_value(line) {
        Some(v) => v,
        None => trimmed(line),
    }
}

/// The key/value splitter, as a function.
pub open spec fn to_key_value() -> spec_fn(Seq<char>) -> Option<KVLineView> {
    |l: Seq<char>| key_value(l)
}

/// The key/value pairs of the lines that have a colon, in their order.
pub open spec fn key_values(lines: Seq<Seq<char>>) -> Seq<KVLineView> {
    lines.filter_map(to_key_value())
}

/// The key/value pairs of the comma-separated segments of a line, in their
/// order; a segment without a colon gives none.
pub open spec fn comma_groups(line: Seq<char>) -> Seq<KVLineView> {
    key_values(pieces(line, ','))
}

/// The models of a list of pairs of slices, the first as key.
pub open spec fn pair_views(v: Seq<(&[char], &[char])>) -> Seq<KVLineView> {
    v.map_values(|p: (&[char], &[char])| KVLineView { key: p.0@, value: p.1@ })
}

/// Splits a line at its first colon into key and value.
pub fn split_pair<'a>(line: &'a [char]) -> (r: Option<(&'a [char], &'a [char])>)
    ensures
        match r {
            Some((k, v)) => key_value(line@) == Some(KVLineView { key: k@, value: v@ }),
            None => key_value(line@) is None,
        },
{
    match split_once_char(line, ':') {
        Some((k, v)) => Some((trim(k), trim(v))),
        None => None,
    }
}

/// Splits a line at its first colon into key and value.
pub fn split_kv(line: &str) -> (r: Option<KVLine>)
    ensures
        match r {
            Some(kv) => key_value(line@) == Some(kv@),
            None => key_value(line@) is None,
        },
{
    let cs = chars_of(line);
    match split_pair(cs.as_slice()) {
        Some((k, v)) => Some(KVLine { key: string_of(k), value: string_of(v) }),
        None => None,
    }
}

/// Takes the value of a line that has a colon; a line without a colon gives
/// none.
pub fn take_colon_value(s: &str) -> (r: Option<String>)
    ensures
        crate::model::text_of(r) == colon_value(s@),
{
    let cs = chars_of(s);
    match split_once_char(cs.as_slice(), ':') {
        Some((_, v)) => Some(string_of(trim(v))),
        None => None,
    }
}

/// Takes the text after the first colon of a line, or the whole line where
/// it has no colon, without the white space around it.
pub fn take_after_colon(s: &str) -> (r: String)
    ensures
        r@ == after_colon(s@),
{
    let cs = chars_of(s);
    match split_once_char(cs.as_slice(), ':') {
        Some((_, v)) => string_of(trim(v)),
        None => string_of(trim(cs.as_slice())),
    }
}

/// Splits every line that has a colon into key and value.
pub fn parse_kv_lines(lines: &[String]) -> (r: Vec<KVLine>)
    ensures
        pairs_of(r@) == key_values(texts_of(lines@)),
{
    let mut out: Vec<KVLine> = Vec::new();
    let mut i: usize = 0;
    assert(pairs_of(out@) == Seq::<KVLineView>::empty());
    while i < lines.len()
        invariant
            i <= lines.len(),
            pairs_of(out@) == key_values(texts_of(lines@).take(i as int)),
        decreases lines.len() - i,
    {
        let ghost before = out@;
        proof {
            texts_of(lines@).lemma_filter_map_take_succ(to_key_value(), i as int);
        }
        match split_kv(lines[i].as_str()) {
            Some(kv) => {
                out.push(kv);
                assert(pairs_of(out@) == pairs_of(before) + seq![kv@]);
            },
            None => {},
        }
        i += 1;
    }
    assert(texts_of(lines@).take(lines.len() as int) == texts_of(lines@));
    out
}

/// Splits a line at its commas, and every segment that has a colon into key
/// and value.
pub fn split_comma_groups<'a>(line: &'a [char]) -> (r: Vec<(&'a [char], &'a [char])>)
    ensures
        pair_views(r@) == comma_groups(line@),
{
    let parts = split(line, ',');
    let mut out: Vec<(&'a [char], &'a [char])> = Vec::new();
    let mut i: usize = 0;
    assert(pair_views(out@) == Seq::<KVLineView>::empty());
    while i < parts.len()
        invariant
            i <= parts.len(),
            views(parts@) == pieces(line@, ','),
            pair_views(out@) == key_values(views(parts@).take(i as int)),
        decreases parts.len() - i,
    {
        let ghost before = out@;
        proof {
            views(parts@).lemma_filter_map_take_succ(to_key_value(), i as int);
        }
        match split_pair(parts[i]) {
            Some(kv) => {
                out.push(kv);
                assert(pair_views(out@) == pair_views(before) + seq![
                    KVLineView { key: kv.0@, value: kv.1@ },
                ]);
            },
            None => {},
        }
        i += 1;
    }
    assert(views(parts@).take(parts.len() as int) == views(parts@));
    out
}

/// The number that the last of `tokens` writes, where it writes one that
/// fits in an `i32`, and the tokens that are left for the fields before it:
/// all but the last where a number was read, all of them where none was.
pub open spec fn popped_i32(tokens: Seq<Seq<char>>) -> (Option<i32>, Seq<Seq<char>>) {
    if tokens.len() > 0 && decimal_i32(tokens.last()) is Some {
        (decimal_i32(tokens.last()), tokens.drop_last())
    } else {
        (None, tokens)
    }
}

/// Takes the last token off `v` where it writes a number that fits in an
/// `i32`; leaves `v` as it is where it does not.
pub fn pop_i32(v: &mut Vec<&[char]>) -> (r: Option<i32>)
    ensures
        (r, views(final(v)@)) == popped_i32(views(old(v)@)),
{
    if v.len() == 0 {
        return None;
    }
    let r = parse_i32(v[v.len() - 1]);
    if r.is_some() {
        v.pop();
        assert(views(v@) == views(old(v)@).drop_last());
    }
    r
}

/// The last of `tokens`, and the tokens before it; no text, and `tokens`
/// itself, where there is none.
pub open spec fn popped_text(tokens: Seq<Seq<char>>) -> (Option<Seq<char>>, Seq<Seq<char>>) {
    if tokens.len() > 0 {
        (Some(tokens.last()), tokens.drop_last())
    } else {
        (None, tokens)
    }
}

/// Takes the last token off `v`, if there is one.
pub fn pop_text(v: &mut Vec<&[char]>) -> (r: Option<String>)
    ensures
        (crate::model::text_of(r), views(final(v)@)) == popped_text(views(old(v)@)),
{
    match v.pop() {
        Some(t) => {
            assert(views(v@) == views(old(v)@).drop_last());
            Some(string_of(t))
        },
        None => None,
    }
}

/// The number of lines of `lines` before the first that holds `pat`; the
/// number of all lines where none does.
pub open spec fn lines_before(lines: Seq<Seq<char>>, pat: Seq<char>) -> nat
    decreases lines.len(),
{
    if lines.len() == 0 || occurs_in(lines.first(), pat) {
        0
    } else {
        1 + lines_before(lines.drop_first(), pat)
    }
}

/// The first line of `lines` that holds `pat`; the empty text where none
/// does.
pub open spec fn first_line_with(lines: Seq<Seq<char>>, pat: Seq<char>) -> Seq<char> {
    let i = lines_before(lines, pat) as int;
    if i < lines.len() {
        lines[i]
    } else {
        Seq::empty()
    }
}

/// Counts the lines before the first that holds the text `pat`.
pub fn count_lines_before(lines: &[String], pat: &str) -> (r: usize)
    ensures
        r == lines_before(texts_of(lines@), pat@),
        r <= lines.len(),
{
    let mut i: usize = 0;
    assert(texts_of(lines@).skip(0) == texts_of(lines@));
    loop
        invariant
            i <= lines.len(),
            lines_before(texts_of(lines@), pat@) == i + lines_before(
                texts_of(lines@).skip(i as int),
                pat@,
            ),
        ensures
            i == lines_before(texts_of(lines@), pat@),
            i <= lines.len(),
        decreases lines.len() - i,
    {
        if i >= lines.len() {
            break ;
        }
        assert(texts_of(lines@).skip(i as int).first() == lines@[i as int]@);
        let cs = chars_of(lines[i].as_str());
        if contains(cs.as_slice(), pat) {
            break ;
        }
        assert(texts_of(lines@).skip(i as int).drop_first() == texts_of(lines@).skip(i + 1));
        i += 1;
    }
    i
}

/// Finds the first line that holds the text `pat`.
pub fn find_line(lines: &[String], pat: &str) -> (r: String)
    ensures
        r@ == first_line_with(texts_of(lines@), pat@),
{
    let i = count_lines_before(lines, pat);
    if i < lines.len() {
        lines[i].clone()
    } else {
        String::new()
    }
}

} // verus!
