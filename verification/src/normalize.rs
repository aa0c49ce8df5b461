//! Cleaning of raw reply lines before any grammar reads them.

use crate::model::texts_of;
use crate::text::{
    chars_of, differs_from, equals, remove_char, string_of, trim_end, trimmed_end, without_char,
};
use vstd::prelude::*;

verus! {

/// A line without its carriage returns and without trailing white space.
pub open spec fn normalized_line(s: Seq<char>) -> Seq<char> {
    trimmed_end(without_char(s, '\r'))
}

/// The cleaning of one line, as a function.
pub open spec fn clean() -> spec_fn(Seq<char>) -> Seq<char> {
    |l: Seq<char>| normalized_line(l)
}

/// The test that a line is not blank.
pub open spec fn not_blank() -> spec_fn(Seq<char>) -> bool {
    |l: Seq<char>| l.len() > 0
}

/// The test that a line is not the echo of the shell prompt.
pub open spec fn not_prompt() -> spec_fn(Seq<char>) -> bool {
    |l: Seq<char>| l != "msh >"@
}

/// The lines of `lines` that are not the echo of the shell prompt.
pub open spec fn without_prompts(lines: Seq<Seq<char>>) -> Seq<Seq<char>> {
    lines.filter(not_prompt())
}

/// The cleaned reply: every line cleaned, then blank lines and prompt echoes
/// left out, the rest in their order.
pub open spec fn normalized(raw: Seq<Seq<char>>) -> Seq<Seq<char>> {
    without_prompts(raw.map_values(clean()).filter(not_blank()))
}

/// Removes carriage returns and trailing white space from a line.
pub fn normalize_line(s: &str) -> (r: String)
    ensures
        r@ == normalized_line(s@),
{
    let cs = chars_of(s);
    let kept = remove_char(cs.as_slice(), '\r');
    string_of(trim_end(kept.as_slice()))
}

/// Drops the lines that are exactly the echo of the shell prompt.
pub fn strip_prompt_noise(lines: &mut Vec<String>)
    ensures
        texts_of(final(lines)@) == without_prompts(texts_of(old(lines)@)),
{
    let mut all: Vec<String> = Vec::new();
    core::mem::swap(lines, &mut all);
    let mut i: usize = 0;
    assert(texts_of(all@).take(0).filter(not_prompt()) == Seq::<Seq<char>>::empty()) by {
        reveal(Seq::filter);
    }
    assert(texts_of(lines@) == Seq::<Seq<char>>::empty());
    while i < all.len()
        invariant
            i <= all.len(),
            all@ == old(lines)@,
            texts_of(lines@) == without_prompts(texts_of(all@).take(i as int)),
        decreases all.len() - i,
    {
        let ghost seen = texts_of(all@).take(i as int);
        let ghost before = lines@;
        proof {
            assert(texts_of(all@).take(i + 1) == seen.push(all@[i as int]@));
            seen.lemma_filter_push(all@[i as int]@, not_prompt());
        }
        let cs = chars_of(all[i].as_str());
        if !equals(cs.as_slice(), "msh >") {
            lines.push(all[i].clone());
            assert(texts_of(lines@) == texts_of(before).push(all@[i as int]@));
        }
        i += 1;
    }
    assert(texts_of(all@).take(all.len() as int) == texts_of(all@));
}

/// Cleans a raw reply: cleans every line, then drops blank lines and echoes
/// of the shell prompt.
pub fn normalize(raw: &[String]) -> (r: Vec<String>)
    ensures
        texts_of(r@) == normalized(texts_of(raw@)),
{
    let mut out: Vec<String> = Vec::new();
    let mut i: usize = 0;
    assert(texts_of(raw@).take(0).map_values(clean()).filter(not_blank()) == Seq::<
        Seq<char>,
    >::empty()) by {
        reveal(Seq::filter);
    }
    assert(texts_of(out@) == Seq::<Seq<char>>::empty());
    while i < raw.len()
        invariant
            i <= raw.len(),
            texts_of(out@) == texts_of(raw@).take(i as int).map_values(clean()).filter(
                not_blank(),
            ),
        decreases raw.len() - i,
    {
        let ghost seen = texts_of(raw@).take(i as int);
        let ghost before = out@;
        let line = normalize_line(raw[i].as_str());
        proof {
            assert(texts_of(raw@).take(i + 1) == seen.push(raw@[i as int]@));
            seen.lemma_push_map_commute(clean(), raw@[i as int]@);
            seen.map_values(clean()).lemma_filter_push(line@, not_blank());
        }
        if !line.as_str().is_empty() {
            out.push(line);
            assert(texts_of(out@) == texts_of(before).push(line@));
        }
        i += 1;
    }
    assert(texts_of(raw@).take(raw.len() as int) == texts_of(raw@));
    strip_prompt_noise(&mut out);
    out
}

/// Copies a list of lines.
pub fn copy_lines(lines: &[String]) -> (r: Vec<String>)
    ensures
        texts_of(r@) == texts_of(lines@),
{
    let mut out: Vec<String> = Vec::new();
    let mut i: usize = 0;
    while i < lines.len()
        invariant
            i <= lines.len(),
            texts_of(out@) == texts_of(lines@).take(i as int),
        decreases lines.len() - i,
    {
        out.push(lines[i].clone());
        assert(texts_of(out@) == texts_of(lines@).take(i as int).push(lines@[i as int]@));
        i += 1;
    }
    assert(texts_of(lines@).take(lines.len() as int) == texts_of(lines@));
    out
}

/// Filtering keeps a sequence as it is when every element passes the test.
pub proof fn lemma_filter_keeps_all<A>(s: Seq<A>, p: spec_fn(A) -> bool)
    requires
        forall|i: int| 0 <= i < s.len() ==> p(#[trigger] s[i]),
    ensures
        s.filter(p) == s,
    decreases s.len(),
{
    reveal(Seq::filter);
    if s.len() > 0 {
        lemma_filter_keeps_all(s.drop_last(), p);
        assert(s.drop_last().push(s.last()) == s);
    }
}

/// What is left after trailing white space is removed is the beginning of
/// the text.
pub proof fn lemma_trimmed_end_is_prefix(s: Seq<char>)
    ensures
        trimmed_end(s).len() <= s.len(),
        trimmed_end(s) == s.take(trimmed_end(s).len() as int),
    decreases s.len(),
{
    if s.len() > 0 && crate::text::is_whitespace(s.last()) {
        lemma_trimmed_end_is_prefix(s.drop_last());
        let n = trimmed_end(s).len() as int;
        assert(s.drop_last().take(n) == s.take(n));
    } else {
        assert(s.take(s.len() as int) == s);
    }
}

/// Removing trailing white space a second time changes nothing.
pub proof fn lemma_trimmed_end_idempotent(s: Seq<char>)
    ensures
        trimmed_end(trimmed_end(s)) == trimmed_end(s),
    decreases s.len(),
{
    if s.len() > 0 && crate::text::is_whitespace(s.last()) {
        lemma_trimmed_end_idempotent(s.drop_last());
    }
}

/// Cleaning a cleaned line changes nothing.
pub proof fn lemma_normalized_line_idempotent(s: Seq<char>)
    ensures
        normalized_line(normalized_line(s)) == normalized_line(s),
{
    let kept = without_char(s, '\r');
    let t = trimmed_end(kept);
    lemma_trimmed_end_is_prefix(kept);
    assert forall|i: int| 0 <= i < t.len() implies differs_from('\r')(#[trigger] t[i]) by {
        assert(t[i] == kept[i]);
        s.lemma_filter_pred(differs_from('\r'), i);
    }
    lemma_filter_keeps_all(t, differs_from('\r'));
    lemma_trimmed_end_idempotent(kept);
}

/// Cleaning a cleaned reply changes nothing.
pub proof fn lemma_normalized_idempotent(raw: Seq<Seq<char>>)
    ensures
        normalized(normalized(raw)) == normalized(raw),
{
    let mapped = raw.map_values(clean());
    let solid = mapped.filter(not_blank());
    let n = normalized(raw);
    assert forall|i: int| 0 <= i < n.len() implies clean()(#[trigger] n[i]) == n[i]
        && not_blank()(n[i]) && not_prompt()(n[i]) by {
        solid.lemma_filter_pred(not_prompt(), i);
        assert(n.contains(n[i]));
        solid.lemma_filter_contains_rev(not_prompt(), n[i]);
        let j = choose|j: int| 0 <= j < solid.len() && solid[j] == n[i];
        mapped.lemma_filter_pred(not_blank(), j);
        assert(solid.contains(solid[j]));
        mapped.lemma_filter_contains_rev(not_blank(), solid[j]);
        let k = choose|k: int| 0 <= k < mapped.len() && mapped[k] == solid[j];
        lemma_normalized_line_idempotent(raw[k]);
    }
    assert(n.map_values(clean()) == n);
    lemma_filter_keeps_all(n, not_blank());
    lemma_filter_keeps_all(n, not_prompt());
}

} // verus!
