//! The grammar of the version banner.

use crate::fields::{find_line, first_line_with};
use crate::model::{
    texts_of, ParseError, ParsedMessage, ParsedMessageView, VersionInfo, VersionInfoView,
};
use crate::text::{chars_of, has_char, split_whitespace, string_of, views, words};
use vstd::prelude::*;

verus! {

/// The first of `tokens` that holds a dot.
pub open spec fn first_dotted(tokens: Seq<Seq<char>>) -> Option<Seq<char>>
    decreases tokens.len(),
{
    if tokens.len() == 0 {
        None
    } else if tokens.first().contains('.') {
        Some(tokens.first())
    } else {
        first_dotted(tokens.drop_first())
    }
}

/// The version that a build line gives: its first token that looks like a
/// dotted version number, or `unknown` where it has none.
pub open spec fn version_of(build: Seq<char>) -> Seq<char> {
    match first_dotted(words(build)) {
        Some(t) => t,
        None => "unknown"@,
    }
}

/// The version record of a reply. The build line is the first line that
/// holds `build`, the copyright line the first that holds `Copyright`,
/// wherever in the reply they stand; a line that is missing is empty.
pub open spec fn version_info(lines: Seq<Seq<char>>) -> VersionInfoView {
    let build = first_line_with(lines, "build"@);
    VersionInfoView {
        rtthread_version: version_of(build),
        build,
        copyright: first_line_with(lines, "Copyright"@),
    }
}

/// Reads the version that a build line gives.
pub fn read_version(build: &str) -> (r: String)
    ensures
        r@ == version_of(build@),
{
    let cs = chars_of(build);
    let tokens = split_whitespace(cs.as_slice());
    let mut i: usize = 0;
    assert(views(tokens@).skip(0) == views(tokens@));
    while i < tokens.len()
        invariant
            i <= tokens.len(),
            views(tokens@) == words(build@),
            first_dotted(words(build@)) == first_dotted(views(tokens@).skip(i as int)),
        decreases tokens.len() - i,
    {
        assert(views(tokens@).skip(i as int).first() == tokens@[i as int]@);
        if has_char(tokens[i], '.') {
            return string_of(tokens[i]);
        }
        assert(views(tokens@).skip(i as int).drop_first() == views(tokens@).skip(i + 1));
        i += 1;
    }
    "unknown".to_owned()
}

/// Reads the version banner of a reply. Every reply gives a record.
pub fn parse_version(lines: &[String]) -> (r: Result<ParsedMessage, ParseError>)
    ensures
        r is Ok,
        r->Ok_0@ == ParsedMessageView::Version(version_info(texts_of(lines@))),
{
    let build = find_line(lines, "build");
    let copyright = find_line(lines, "Copyright");
    let rtthread_version = read_version(build.as_str());
    Ok(ParsedMessage::Version(VersionInfo { rtthread_version, build, copyright }))
}

} // verus!
