//! The grammar of the flag words: warnings, errors and locks.
//!
//! A flag word is a single line in the shape `NAME(0xHEX) label ...`. The
//! line either has this shape or the reply gives no record: there is no
//! partly filled flag word.

use crate::model::{
    outcome_of, text_of, texts_of, FlagWord, FlagWordView, ParseError, ParsedMessage,
    ParsedMessageView,
};
use crate::normalize::copy_lines;
use crate::pattern::{captures, captures_of, groups_of, regex_captures};
use crate::text::{chars_of, equals};
use vstd::prelude::*;

verus! {

/// The shape of a flag word, as a regular expression: one of the three
/// names in any case, the mask in brackets as group 2, and the labels after
/// optional white space as group 3.
pub const FLAG_PATTERN: &'static str =
    "(?i)^(WARNING|ERROR|LOCK)\\((?P<hex>0x[0-9a-fA-F]+)\\)\\s*(?P<labels>.*)$";

/// The text of the capture group `i`; none where there is no such group or
/// it took no part in the match.
pub open spec fn group_text(groups: Seq<Option<Seq<char>>>, i: int) -> Option<Seq<char>> {
    if 0 <= i < groups.len() {
        groups[i]
    } else {
        None
    }
}

/// The flag word that the groups of a match give: the mask is the text of
/// group 2 and the labels are the text of group 3. A match without a mask
/// or without the group of the labels gives no flag word.
pub open spec fn flag_word(groups: Seq<Option<Seq<char>>>) -> Option<FlagWordView> {
    match (group_text(groups, 2), group_text(groups, 3)) {
        (Some(raw), Some(labels)) => if raw.len() > 0 {
            Some(FlagWordView { raw, labels })
        } else {
            None
        },
        _ => None,
    }
}

/// The record that a flag word makes for the family `prefix`. The family
/// decides the variant, whichever name the line itself bears.
pub open spec fn flag_message(prefix: Seq<char>, word: FlagWordView, lines: Seq<Seq<char>>) -> ParsedMessageView {
    if prefix == "WARNING"@ {
        ParsedMessageView::Warning(word)
    } else if prefix == "ERROR"@ {
        ParsedMessageView::Error(word)
    } else if prefix == "LOCK"@ {
        ParsedMessageView::Lock(word)
    } else {
        ParsedMessageView::Unknown { cmd: prefix, lines }
    }
}

/// The flag word that a search gave, if it gave a whole one.
pub open spec fn found_word(found: Option<Seq<Option<Seq<char>>>>) -> Option<FlagWordView> {
    match found {
        Some(groups) => flag_word(groups),
        None => None,
    }
}

/// What a reply gives for the family `prefix`, where `found` is what the
/// search of its first line for the shape of a flag word gave: a record
/// where the search gave a whole flag word, and else an error. There is no
/// record of a flag word that is filled in part.
pub open spec fn flagword_outcome(
    prefix: Seq<char>,
    found: Option<Seq<Option<Seq<char>>>>,
    lines: Seq<Seq<char>>,
) -> Result<ParsedMessageView, ParseError> {
    if lines.len() == 0 {
        Err(ParseError::Empty)
    } else {
        match found_word(found) {
            Some(word) => Ok(flag_message(prefix, word, lines)),
            None => Err(ParseError::NoMatch),
        }
    }
}

/// What the search of the first line of a reply for the shape of a flag
/// word gives.
pub open spec fn flag_search(lines: Seq<Seq<char>>) -> Option<Seq<Option<Seq<char>>>> {
    if lines.len() == 0 {
        None
    } else {
        regex_captures(FLAG_PATTERN@, lines[0])
    }
}

/// Copies the text of the capture group `i`.
fn group_string(groups: &Vec<Option<String>>, i: usize) -> (r: Option<String>)
    ensures
        text_of(r) == group_text(groups_of(groups@), i as int),
{
    if i < groups.len() {
        groups[i].clone()
    } else {
        None
    }
}

/// Makes a flag word from the groups of a match, if they give a whole one.
fn read_flag_word(groups: &Vec<Option<String>>) -> (r: Option<FlagWord>)
    ensures
        match r {
            Some(w) => flag_word(groups_of(groups@)) == Some(w@),
            None => flag_word(groups_of(groups@)) is None,
        },
{
    match (group_string(groups, 2), group_string(groups, 3)) {
        (Some(raw), Some(labels)) => {
            if raw.as_str().is_empty() {
                None
            } else {
                Some(FlagWord { raw, labels })
            }
        },
        _ => None,
    }
}

/// Makes the record of a reply for the family `prefix` from what the search
/// of its first line gave.
///
/// Fails with `Empty` where the reply has no line, and with `NoMatch` where
/// it has one and the search gave no whole flag word: nothing at all, or a
/// match without a mask or without the group of the labels.
pub fn flagword_from_captures(
    prefix: &str,
    found: Option<Vec<Option<String>>>,
    lines: &[String],
) -> (r: Result<ParsedMessage, ParseError>)
    ensures
        outcome_of(r) == flagword_outcome(prefix@, captures_of(found), texts_of(lines@)),
{
    if lines.len() == 0 {
        return Err(ParseError::Empty);
    }
    let word = match found {
        Some(groups) => read_flag_word(&groups),
        None => None,
    };
    let word = match word {
        Some(word) => word,
        None => {
            return Err(ParseError::NoMatch);
        },
    };
    let family = chars_of(prefix);
    if equals(family.as_slice(), "WARNING") {
        Ok(ParsedMessage::Warning(word))
    } else if equals(family.as_slice(), "ERROR") {
        Ok(ParsedMessage::Error(word))
    } else if equals(family.as_slice(), "LOCK") {
        Ok(ParsedMessage::Lock(word))
    } else {
        Ok(ParsedMessage::Unknown { cmd: prefix.to_owned(), lines: copy_lines(lines) })
    }
}

/// Reads the flag word of a reply for the family `prefix`.
///
/// Only the first line is read. Whether it has the shape of a flag word is
/// decided by the regular expression engine.
pub fn parse_flagword(prefix: &str, lines: &[String]) -> (r: Result<ParsedMessage, ParseError>)
    ensures
        outcome_of(r) == flagword_outcome(prefix@, flag_search(texts_of(lines@)), texts_of(lines@)),
{
    if lines.len() == 0 {
        return Err(ParseError::Empty);
    }
    let found = captures(FLAG_PATTERN, lines[0].as_str());
    flagword_from_captures(prefix, found, lines)
}

} // verus!
