//! Character-level primitives over text held as sequences of `char`.
//!
//! Every reply line is handled as a slice of `char`s, so that positions are
//! character positions and a result is a sub-slice of its input wherever
//! possible. The model of a piece of text is its `Seq<char>`.

use vstd::prelude::*;
use vstd::slice::slice_subrange;

verus! {

/// Whether `c` is white space: the code points that Unicode gives the
/// property `White_Space`.
pub open spec fn is_whitespace(c: char) -> bool {
    ||| '\u{9}' <= c <= '\u{d}'
    ||| c == ' '
    ||| c == '\u{85}'
    ||| c == '\u{a0}'
    ||| c == '\u{1680}'
    ||| '\u{2000}' <= c <= '\u{200a}'
    ||| c == '\u{2028}'
    ||| c == '\u{2029}'
    ||| c == '\u{202f}'
    ||| c == '\u{205f}'
    ||| c == '\u{3000}'
}

/// `s` without its trailing white space.
pub open spec fn trimmed_end(s: Seq<char>) -> Seq<char>
    decreases s.len(),
{
    if s.len() > 0 && is_whitespace(s.last()) {
        trimmed_end(s.drop_last())
    } else {
        s
    }
}

/// `s` without its leading white space.
pub open spec fn trimmed_start(s: Seq<char>) -> Seq<char>
    decreases s.len(),
{
    if s.len() > 0 && is_whitespace(s.first()) {
        trimmed_start(s.drop_first())
    } else {
        s
    }
}

/// `s` without its leading and trailing white space.
pub open spec fn trimmed(s: Seq<char>) -> Seq<char> {
    trimmed_end(trimmed_start(s))
}

/// The test that a character differs from `c`.
pub open spec fn differs_from(c: char) -> spec_fn(char) -> bool {
    |x: char| x != c
}

/// `s` without any occurrence of `c`.
pub open spec fn without_char(s: Seq<char>, c: char) -> Seq<char> {
    s.filter(differs_from(c))
}

/// Whether `pat` stands in `s` at position `i`.
pub open spec fn occurs_at(s: Seq<char>, pat: Seq<char>, i: int) -> bool {
    0 <= i && i + pat.len() <= s.len() && s.subrange(i, i + pat.len()) =~= pat
}

/// The first position at or after `from` where `pat` stands in `s`.
pub open spec fn position_from(s: Seq<char>, pat: Seq<char>, from: int) -> Option<int>
    decreases s.len() - from,
{
    if from < 0 || from + pat.len() > s.len() {
        None
    } else if occurs_at(s, pat, from) {
        Some(from)
    } else {
        position_from(s, pat, from + 1)
    }
}

/// The first position where `pat` stands in `s`.
pub open spec fn position(s: Seq<char>, pat: Seq<char>) -> Option<int> {
    position_from(s, pat, 0)
}

/// Whether `pat` stands anywhere in `s`.
pub open spec fn occurs_in(s: Seq<char>, pat: Seq<char>) -> bool {
    position(s, pat) is Some
}

/// The text before and the text after the first occurrence of `pat` in `s`.
pub open spec fn halves(s: Seq<char>, pat: Seq<char>) -> Option<(Seq<char>, Seq<char>)> {
    match position(s, pat) {
        Some(i) => Some((s.take(i), s.skip(i + pat.len()))),
        None => None,
    }
}

/// The pieces of `s` between the occurrences of `c`; there is always at
/// least one piece, and a piece may be empty.
pub open spec fn pieces(s: Seq<char>, c: char) -> Seq<Seq<char>>
    decreases s.len(),
    via pieces_terminates
{
    match position(s, seq![c]) {
        Some(i) => seq![s.take(i)] + pieces(s.skip(i + 1), c),
        None => seq![s],
    }
}

#[via_fn]
proof fn pieces_terminates(s: Seq<char>, c: char) {
    lemma_position_is_first(s, seq![c], 0);
}

/// The position that is found is the first at or after the start of the
/// search where the pattern stands; where none is found, the pattern stands
/// nowhere from there on.
pub proof fn lemma_position_is_first(s: Seq<char>, pat: Seq<char>, from: int)
    requires
        0 <= from,
    ensures
        match position_from(s, pat, from) {
            Some(i) => from <= i && occurs_at(s, pat, i) && forall|j: int|
                from <= j < i ==> !occurs_at(s, pat, j),
            None => forall|j: int| from <= j ==> !occurs_at(s, pat, j),
        },
    decreases s.len() - from,
{
    if from + pat.len() <= s.len() && !occurs_at(s, pat, from) {
        lemma_position_is_first(s, pat, from + 1);
    }
}

/// The length of the longest prefix of `s` that holds no white space.
pub open spec fn word_len(s: Seq<char>) -> nat
    decreases s.len(),
{
    if s.len() == 0 || is_whitespace(s.first()) {
        0
    } else {
        1 + word_len(s.drop_first())
    }
}

/// The maximal runs of characters of `s` that are not white space, in order.
pub open spec fn words(s: Seq<char>) -> Seq<Seq<char>>
    decreases s.len(),
    via words_terminates
{
    let t = trimmed_start(s);
    let n = word_len(t) as int;
    if n > 0 {
        seq![t.take(n)] + words(t.skip(n))
    } else {
        Seq::empty()
    }
}

#[via_fn]
proof fn words_terminates(s: Seq<char>) {
    lemma_trimmed_start_len(s);
    lemma_word_len_bound(trimmed_start(s));
}

/// Removing leading white space makes a text no longer.
pub proof fn lemma_trimmed_start_len(s: Seq<char>)
    ensures
        trimmed_start(s).len() <= s.len(),
    decreases s.len(),
{
    if s.len() > 0 && is_whitespace(s.first()) {
        lemma_trimmed_start_len(s.drop_first());
    }
}

/// The first word of a text is no longer than the text.
pub proof fn lemma_word_len_bound(s: Seq<char>)
    ensures
        word_len(s) <= s.len(),
    decreases s.len(),
{
    if s.len() > 0 && !is_whitespace(s.first()) {
        lemma_word_len_bound(s.drop_first());
    }
}

/// `s` without every leading repetition of `pat`.
pub open spec fn without_leading(s: Seq<char>, pat: Seq<char>) -> Seq<char>
    decreases s.len(),
{
    if pat.len() > 0 && pat.is_prefix_of(s) {
        without_leading(s.skip(pat.len() as int), pat)
    } else {
        s
    }
}

/// `s` without its trailing repetitions of `c`.
pub open spec fn without_trailing_char(s: Seq<char>, c: char) -> Seq<char>
    decreases s.len(),
{
    if s.len() > 0 && s.last() == c {
        without_trailing_char(s.drop_last(), c)
    } else {
        s
    }
}

/// The texts of `parts`, each two neighbours with `sep` between them.
pub open spec fn joined(parts: Seq<Seq<char>>, sep: Seq<char>) -> Seq<char>
    decreases parts.len(),
{
    if parts.len() == 0 {
        Seq::empty()
    } else if parts.len() == 1 {
        parts[0]
    } else {
        joined(parts.drop_last(), sep) + sep + parts.last()
    }
}

/// The texts that a sequence of slices holds.
pub open spec fn views(parts: Seq<&[char]>) -> Seq<Seq<char>> {
    parts.map_values(|p: &[char]| p@)
}

/// Appends one character to a string.
///
/// Trusted: `String::push` appends the given `char` to the end of the string
/// and changes nothing else.
#[verifier::external_body]
fn push_char(s: &mut String, c: char)
    ensures
        final(s)@ == old(s)@.push(c),
{
    s.push(c)
}

/// The characters of `s`, in order.
pub fn chars_of(s: &str) -> (r: Vec<char>)
    ensures
        r@ == s@,
{
    let mut r: Vec<char> = Vec::new();
    for c in it: s.chars()
        invariant
            r@ == it.seq().take(it.index() as int),
    {
        r.push(c);
    }
    r
}

/// The string made of the characters of `cs`, in order.
pub fn string_of(cs: &[char]) -> (r: String)
    ensures
        r@ == cs@,
{
    let mut r = String::new();
    let mut i: usize = 0;
    while i < cs.len()
        invariant
            i <= cs.len(),
            r@ == cs@.take(i as int),
        decreases cs.len() - i,
    {
        push_char(&mut r, cs[i]);
        i += 1;
    }
    r
}

/// Tells whether `c` is white space.
pub fn char_is_whitespace(c: char) -> (r: bool)
    ensures
        r == is_whitespace(c),
{
    ('\u{9}' <= c && c <= '\u{d}') || c == ' ' || c == '\u{85}' || c == '\u{a0}' || c
        == '\u{1680}' || ('\u{2000}' <= c && c <= '\u{200a}') || c == '\u{2028}' || c
        == '\u{2029}' || c == '\u{202f}' || c == '\u{205f}' || c == '\u{3000}'
}

/// Removes trailing white space.
pub fn trim_end(s: &[char]) -> (r: &[char])
    ensures
        r@ == trimmed_end(s@),
{
    let mut n: usize = s.len();
    assert(s@.take(n as int) == s@);
    while n > 0 && char_is_whitespace(s[n - 1])
        invariant
            n <= s.len(),
            trimmed_end(s@) == trimmed_end(s@.take(n as int)),
        decreases n,
    {
        assert(s@.take(n as int).drop_last() == s@.take(n - 1));
        n -= 1;
    }
    slice_subrange(s, 0, n)
}

/// Removes leading white space.
pub fn trim_start(s: &[char]) -> (r: &[char])
    ensures
        r@ == trimmed_start(s@),
        r@.len() <= s@.len(),
{
    let mut i: usize = 0;
    assert(s@.skip(0) == s@);
    while i < s.len() && char_is_whitespace(s[i])
        invariant
            i <= s.len(),
            trimmed_start(s@) == trimmed_start(s@.skip(i as int)),
        decreases s.len() - i,
    {
        assert(s@.skip(i as int).drop_first() == s@.skip(i + 1));
        i += 1;
    }
    slice_subrange(s, i, s.len())
}

/// Removes leading and trailing white space.
pub fn trim(s: &[char]) -> (r: &[char])
    ensures
        r@ == trimmed(s@),
{
    trim_end(trim_start(s))
}

/// Tells whether `pat` stands in `s` at position `i`.
fn matches_at(s: &[char], pat: &[char], i: usize) -> (r: bool)
    ensures
        r == occurs_at(s@, pat@, i as int),
{
    if i > s.len() || pat.len() > s.len() - i {
        return false;
    }
    let mut k: usize = 0;
    while k < pat.len()
        invariant
            k <= pat.len(),
            i + pat.len() <= s.len(),
            forall|j: int| 0 <= j < k ==> s@[i + j] == pat@[j],
        decreases pat.len() - k,
    {
        if s[i + k] != pat[k] {
            assert(s@.subrange(i as int, i + pat.len())[k as int] != pat@[k as int]);
            return false;
        }
        k += 1;
    }
    true
}

/// Tells whether `s` is the text `lit`.
pub fn equals(s: &[char], lit: &str) -> (r: bool)
    ensures
        r == (s@ == lit@),
{
    let p = chars_of(lit);
    assert(s@.subrange(0, s@.len() as int) == s@);
    p.len() == s.len() && matches_at(s, p.as_slice(), 0)
}

/// Tells whether `s` begins with the text `prefix`.
pub fn starts_with(s: &[char], prefix: &str) -> (r: bool)
    ensures
        r == prefix@.is_prefix_of(s@),
{
    let p = chars_of(prefix);
    matches_at(s, p.as_slice(), 0)
}

/// Finds the first position at or after `from` where `pat` stands in `s`.
fn find_from(s: &[char], pat: &[char], from: usize) -> (r: Option<usize>)
    ensures
        match r {
            Some(i) => position_from(s@, pat@, from as int) == Some(i as int) && i + pat.len()
                <= s.len(),
            None => position_from(s@, pat@, from as int) is None,
        },
{
    let mut i: usize = from;
    while i <= s.len() && pat.len() <= s.len() - i
        invariant
            from <= i,
            position_from(s@, pat@, from as int) == position_from(s@, pat@, i as int),
        decreases s.len() + 1 - i,
    {
        if matches_at(s, pat, i) {
            return Some(i);
        }
        i += 1;
    }
    None
}

/// Finds the first position where the text `pat` stands in `s`.
pub fn find(s: &[char], pat: &str) -> (r: Option<usize>)
    ensures
        match r {
            Some(i) => position(s@, pat@) == Some(i as int) && i + pat@.len() <= s.len(),
            None => position(s@, pat@) is None,
        },
{
    let p = chars_of(pat);
    find_from(s, p.as_slice(), 0)
}

/// Tells whether the text `pat` stands anywhere in `s`.
pub fn contains(s: &[char], pat: &str) -> (r: bool)
    ensures
        r == occurs_in(s@, pat@),
{
    find(s, pat).is_some()
}

/// Splits `s` at the first occurrence of the text `pat`.
pub fn split_once<'a>(s: &'a [char], pat: &str) -> (r: Option<(&'a [char], &'a [char])>)
    ensures
        match r {
            Some((a, b)) => halves(s@, pat@) == Some((a@, b@)),
            None => halves(s@, pat@) is None,
        },
{
    let p = chars_of(pat);
    match find_from(s, p.as_slice(), 0) {
        Some(i) => Some((slice_subrange(s, 0, i), slice_subrange(s, i + p.len(), s.len()))),
        None => None,
    }
}

/// Splits `s` at the first occurrence of `c`.
pub fn split_once_char<'a>(s: &'a [char], c: char) -> (r: Option<(&'a [char], &'a [char])>)
    ensures
        match r {
            Some((a, b)) => halves(s@, seq![c]) == Some((a@, b@)),
            None => halves(s@, seq![c]) is None,
        },
{
    let mut pat: Vec<char> = Vec::new();
    pat.push(c);
    assert(pat@ == seq![c]);
    match find_from(s, pat.as_slice(), 0) {
        Some(i) => Some((slice_subrange(s, 0, i), slice_subrange(s, i + 1, s.len()))),
        None => None,
    }
}

/// Splits `s` at every occurrence of `c`.
pub fn split<'a>(s: &'a [char], c: char) -> (r: Vec<&'a [char]>)
    ensures
        views(r@) == pieces(s@, c),
{
    let mut pat: Vec<char> = Vec::new();
    pat.push(c);
    assert(pat@ == seq![c]);
    let mut out: Vec<&'a [char]> = Vec::new();
    let mut rest: &'a [char] = s;
    assert(views(out@) + pieces(rest@, c) == pieces(s@, c));
    loop
        invariant_except_break
            views(out@) + pieces(rest@, c) == pieces(s@, c),
        invariant
            pat@ == seq![c],
        ensures
            views(out@) == pieces(s@, c),
        decreases rest@.len(),
    {
        let ghost before = out@;
        match find_from(rest, pat.as_slice(), 0) {
            Some(i) => {
                let head = slice_subrange(rest, 0, i);
                let tail = slice_subrange(rest, i + 1, rest.len());
                out.push(head);
                assert(views(out@) == views(before) + seq![head@]);
                assert(views(out@) + pieces(tail@, c) == views(before) + (seq![head@] + pieces(
                    tail@,
                    c,
                )));
                rest = tail;
            },
            None => {
                out.push(rest);
                assert(views(out@) == views(before) + seq![rest@]);
                break ;
            },
        }
    }
    out
}

/// Counts the characters of `s` before its first white space.
fn word_length(s: &[char]) -> (n: usize)
    ensures
        n == word_len(s@),
        n <= s.len(),
{
    let mut i: usize = 0;
    assert(s@.skip(0) == s@);
    while i < s.len() && !char_is_whitespace(s[i])
        invariant
            i <= s.len(),
            word_len(s@) == i + word_len(s@.skip(i as int)),
        decreases s.len() - i,
    {
        assert(s@.skip(i as int).drop_first() == s@.skip(i + 1));
        i += 1;
    }
    i
}

/// Splits `s` into its maximal runs of characters that are not white space.
pub fn split_whitespace<'a>(s: &'a [char]) -> (r: Vec<&'a [char]>)
    ensures
        views(r@) == words(s@),
{
    let mut out: Vec<&'a [char]> = Vec::new();
    let mut rest: &'a [char] = s;
    assert(views(out@) + words(rest@) == words(s@));
    loop
        invariant
            views(out@) + words(rest@) == words(s@),
        ensures
            views(out@) == words(s@),
        decreases rest@.len(),
    {
        let t = trim_start(rest);
        let n = word_length(t);
        if n == 0 {
            break ;
        }
        let ghost before = out@;
        let head = slice_subrange(t, 0, n);
        let tail = slice_subrange(t, n, t.len());
        out.push(head);
        assert(views(out@) == views(before) + seq![head@]);
        assert(views(out@) + words(tail@) == views(before) + (seq![head@] + words(tail@)));
        rest = tail;
    }
    out
}

/// Removes every leading repetition of the text `pat`.
pub fn trim_start_matches<'a>(s: &'a [char], pat: &str) -> (r: &'a [char])
    ensures
        r@ == without_leading(s@, pat@),
{
    let p = chars_of(pat);
    let mut rest: &'a [char] = s;
    while p.len() > 0 && matches_at(rest, p.as_slice(), 0)
        invariant
            without_leading(rest@, p@) == without_leading(s@, p@),
        decreases rest@.len(),
    {
        rest = slice_subrange(rest, p.len(), rest.len());
    }
    rest
}

/// Removes every trailing repetition of `c`.
pub fn trim_end_matches(s: &[char], c: char) -> (r: &[char])
    ensures
        r@ == without_trailing_char(s@, c),
{
    let mut n: usize = s.len();
    assert(s@.take(n as int) == s@);
    while n > 0 && s[n - 1] == c
        invariant
            n <= s.len(),
            without_trailing_char(s@, c) == without_trailing_char(s@.take(n as int), c),
        decreases n,
    {
        assert(s@.take(n as int).drop_last() == s@.take(n - 1));
        n -= 1;
    }
    slice_subrange(s, 0, n)
}

/// Copies `s` without any occurrence of `c`.
pub fn remove_char(s: &[char], c: char) -> (r: Vec<char>)
    ensures
        r@ == without_char(s@, c),
{
    let mut out: Vec<char> = Vec::new();
    let mut i: usize = 0;
    assert(s@.take(0).filter(differs_from(c)) == Seq::<char>::empty()) by {
        reveal(Seq::filter);
    }
    while i < s.len()
        invariant
            i <= s.len(),
            out@ == without_char(s@.take(i as int), c),
        decreases s.len() - i,
    {
        proof {
            assert(s@.take(i + 1) == s@.take(i as int).push(s@[i as int]));
            s@.take(i as int).lemma_filter_push(s@[i as int], differs_from(c));
        }
        if s[i] != c {
            out.push(s[i]);
        }
        i += 1;
    }
    assert(s@.take(s.len() as int) == s@);
    out
}

/// Joins the texts of `parts`, putting the text `sep` between each two.
pub fn join(parts: &Vec<&[char]>, sep: &str) -> (r: Vec<char>)
    ensures
        r@ == joined(views(parts@), sep@),
{
    let p = chars_of(sep);
    let mut out: Vec<char> = Vec::new();
    let mut i: usize = 0;
    while i < parts.len()
        invariant
            i <= parts.len(),
            p@ == sep@,
            out@ == joined(views(parts@).take(i as int), sep@),
        decreases parts.len() - i,
    {
        let ghost done = views(parts@).take(i + 1);
        assert(done.drop_last() == views(parts@).take(i as int));
        assert(done.last() == parts@[i as int]@);
        if i > 0 {
            out.extend_from_slice(p.as_slice());
        }
        out.extend_from_slice(parts[i]);
        assert(out@ == joined(done, sep@));
        i += 1;
    }
    assert(views(parts@).take(parts.len() as int) == views(parts@));
    out
}

/// Tells whether `c` is one of the characters of `s`.
pub fn has_char(s: &[char], c: char) -> (r: bool)
    ensures
        r == s@.contains(c),
{
    let mut i: usize = 0;
    while i < s.len()
        invariant
            i <= s.len(),
            forall|j: int| 0 <= j < i ==> s@[j] != c,
        decreases s.len() - i,
    {
        if s[i] == c {
            return true;
        }
        i += 1;
    }
    false
}

/// Takes the text `prefix` off the beginning of `s`, where `s` begins with
/// it.
pub fn strip_prefix<'a>(s: &'a [char], prefix: &str) -> (r: Option<&'a [char]>)
    ensures
        match r {
            Some(rest) => prefix@.is_prefix_of(s@) && rest@ == s@.skip(prefix@.len() as int),
            None => !prefix@.is_prefix_of(s@),
        },
{
    let p = chars_of(prefix);
    if matches_at(s, p.as_slice(), 0) {
        Some(slice_subrange(s, p.len(), s.len()))
    } else {
        None
    }
}

} // verus!
