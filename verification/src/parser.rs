//! The entry point: from a command and its raw reply to a typed record.

use crate::fields::{after_colon, key_values, parse_kv_lines, take_after_colon};
use crate::grammar::flagword::{flag_search, flagword_outcome, found_word, parse_flagword};
use crate::grammar::free::{free_figures, parse_free};
use crate::grammar::net::{
    dns, ifconfig, listen_ports, parse_dns, parse_ifconfig, parse_netstat,
};
use crate::grammar::process::{parse_process_like, process_params};
use crate::grammar::ps::{parse_ps, ps_message};
use crate::grammar::readall::{parse_readall, port_lines};
use crate::grammar::substatus::{parse_substatus, substatus};
use crate::grammar::version::{parse_version, version_info};
use crate::grammar::worktime::{parse_worktime, worktime};
use crate::model::{
    outcome_of, texts_of, NetstatView, ParseError, ParsedMessage, ParsedMessageView, Status,
    StatusView,
};
use crate::normalize::{normalize, normalized};
use crate::text::{chars_of, equals};
use vstd::prelude::*;

verus! {

/// Whether `cmd` is one of the commands that have a grammar.
pub open spec fn is_known_command(cmd: Seq<char>) -> bool {
    ||| cmd == "version"@
    ||| cmd == "free"@
    ||| cmd == "ps"@
    ||| cmd == "worktime"@
    ||| cmd == "warning"@
    ||| cmd == "error"@
    ||| cmd == "lock"@
    ||| cmd == "mode"@
    ||| cmd == "state"@
    ||| cmd == "status"@
    ||| cmd == "substatus"@
    ||| cmd == "iostate"@
    ||| cmd == "ifconfig"@
    ||| cmd == "dns"@
    ||| cmd == "netstat"@
    ||| cmd == "readall"@
    ||| cmd == "cur_pro"@
    ||| cmd == "feeder_pro"@
}

/// The fallback record: the command and the cleaned lines of its reply.
pub open spec fn fallback(cmd: Seq<char>, lines: Seq<Seq<char>>) -> ParsedMessageView {
    ParsedMessageView::Unknown { cmd, lines }
}

/// The record of a grammar that may fail: what it gave, or the fallback.
pub open spec fn or_fallback(
    outcome: Result<ParsedMessageView, ParseError>,
    cmd: Seq<char>,
    lines: Seq<Seq<char>>,
) -> ParsedMessageView {
    match outcome {
        Ok(m) => m,
        Err(_) => fallback(cmd, lines),
    }
}

/// The first of `lines`; the empty text where there is none.
pub open spec fn first_line(lines: Seq<Seq<char>>) -> Seq<char> {
    if lines.len() > 0 {
        lines[0]
    } else {
        Seq::empty()
    }
}

/// The record of the flag word family `family` for the cleaned reply
/// `lines` to the command `cmd`.
pub open spec fn flag_record(family: Seq<char>, cmd: Seq<char>, lines: Seq<Seq<char>>) -> ParsedMessageView {
    or_fallback(flagword_outcome(family, flag_search(lines), lines), cmd, lines)
}

/// The record that the cleaned reply `lines` to the command `cmd` gives.
pub open spec fn parsed_lines(cmd: Seq<char>, lines: Seq<Seq<char>>) -> ParsedMessageView {
    if cmd == "version"@ {
        ParsedMessageView::Version(version_info(lines))
    } else if cmd == "free"@ {
        ParsedMessageView::Free(free_figures(lines))
    } else if cmd == "ps"@ {
        ps_message(lines)
    } else if cmd == "worktime"@ {
        ParsedMessageView::WorkTime(worktime(lines))
    } else if cmd == "warning"@ {
        flag_record("WARNING"@, cmd, lines)
    } else if cmd == "error"@ {
        flag_record("ERROR"@, cmd, lines)
    } else if cmd == "lock"@ {
        flag_record("LOCK"@, cmd, lines)
    } else if cmd == "mode"@ {
        ParsedMessageView::Mode { mode: after_colon(first_line(lines)) }
    } else if cmd == "state"@ {
        ParsedMessageView::State { state: after_colon(first_line(lines)) }
    } else if cmd == "status"@ {
        ParsedMessageView::Status(StatusView { lines: key_values(lines) })
    } else if cmd == "substatus"@ {
        ParsedMessageView::SubStatus(substatus(lines))
    } else if cmd == "iostate"@ {
        ParsedMessageView::IOState(key_values(lines))
    } else if cmd == "ifconfig"@ {
        ParsedMessageView::IfConfig(ifconfig(lines))
    } else if cmd == "dns"@ {
        ParsedMessageView::Dns(dns(lines))
    } else if cmd == "netstat"@ {
        ParsedMessageView::Netstat(NetstatView { listen_ports: listen_ports(lines) })
    } else if cmd == "readall"@ {
        ParsedMessageView::ReadAll(port_lines(lines))
    } else if cmd == "cur_pro"@ {
        ParsedMessageView::ProcessCur(process_params(lines))
    } else if cmd == "feeder_pro"@ {
        ParsedMessageView::ProcessFeeder(process_params(lines))
    } else {
        fallback(cmd, lines)
    }
}

/// The record that the raw reply `raw` to the command `cmd` gives: the
/// reply is cleaned, and the grammar of `cmd` reads the cleaned lines.
pub open spec fn parsed(cmd: Seq<char>, raw: Seq<Seq<char>>) -> ParsedMessageView {
    parsed_lines(cmd, normalized(raw))
}

/// Gives what a grammar gave, or the fallback record where it failed.
fn unwrap_or_fallback(outcome: Result<ParsedMessage, ParseError>, cmd: &str, lines: Vec<String>) -> (r:
    ParsedMessage)
    ensures
        r@ == or_fallback(outcome_of(outcome), cmd@, texts_of(lines@)),
{
    match outcome {
        Ok(m) => m,
        Err(_) => ParsedMessage::Unknown { cmd: cmd.to_owned(), lines },
    }
}

/// Takes the single value of the first line of a reply.
fn first_value(lines: &Vec<String>) -> (r: String)
    ensures
        r@ == after_colon(first_line(texts_of(lines@))),
{
    if lines.len() > 0 {
        take_after_colon(lines[0].as_str())
    } else {
        let nothing = String::new();
        take_after_colon(nothing.as_str())
    }
}

/// Turns the raw reply `lines` to the command `cmd` into a typed record.
///
/// Every command and every reply gives a record. A command without a
/// grammar, and a reply that its grammar does not accept, give the fallback
/// record, which holds the command and the cleaned lines.
pub fn parse(cmd: &str, lines: &[String]) -> (r: ParsedMessage)
    ensures
        r@ == parsed(cmd@, texts_of(lines@)),
        !is_known_command(cmd@) ==> r@ == fallback(cmd@, normalized(texts_of(lines@))),
{
    let norm = normalize(lines);
    let name = chars_of(cmd);
    let c = name.as_slice();
    if equals(c, "version") {
        let outcome = parse_version(norm.as_slice());
        unwrap_or_fallback(outcome, cmd, norm)
    } else if equals(c, "free") {
        let outcome = parse_free(norm.as_slice());
        unwrap_or_fallback(outcome, cmd, norm)
    } else if equals(c, "ps") {
        parse_ps(norm.as_slice())
    } else if equals(c, "worktime") {
        let outcome = parse_worktime(norm.as_slice());
        unwrap_or_fallback(outcome, cmd, norm)
    } else if equals(c, "warning") {
        let outcome = parse_flagword("WARNING", norm.as_slice());
        unwrap_or_fallback(outcome, cmd, norm)
    } else if equals(c, "error") {
        let outcome = parse_flagword("ERROR", norm.as_slice());
        unwrap_or_fallback(outcome, cmd, norm)
    } else if equals(c, "lock") {
        let outcome = parse_flagword("LOCK", norm.as_slice());
        unwrap_or_fallback(outcome, cmd, norm)
    } else if equals(c, "mode") {
        ParsedMessage::Mode { mode: first_value(&norm) }
    } else if equals(c, "state") {
        ParsedMessage::State { state: first_value(&norm) }
    } else if equals(c, "status") {
        ParsedMessage::Status(Status { lines: parse_kv_lines(norm.as_slice()) })
    } else if equals(c, "substatus") {
        parse_substatus(norm.as_slice())
    } else if equals(c, "iostate") {
        ParsedMessage::IOState(parse_kv_lines(norm.as_slice()))
    } else if equals(c, "ifconfig") {
        parse_ifconfig(norm.as_slice())
    } else if equals(c, "dns") {
        parse_dns(norm.as_slice())
    } else if equals(c, "netstat") {
        parse_netstat(norm.as_slice())
    } else if equals(c, "readall") {
        parse_readall(norm.as_slice())
    } else if equals(c, "cur_pro") {
        ParsedMessage::ProcessCur(parse_process_like(norm.as_slice()))
    } else if equals(c, "feeder_pro") {
        ParsedMessage::ProcessFeeder(parse_process_like(norm.as_slice()))
    } else {
        ParsedMessage::Unknown { cmd: cmd.to_owned(), lines: norm }
    }
}

/// The command whose grammar makes a record of the kind of `m`; the
/// fallback record belongs to no command.
pub open spec fn command_of(m: ParsedMessageView) -> Option<Seq<char>> {
    match m {
        ParsedMessageView::Version(_) => Some("version"@),
        ParsedMessageView::Free(_) => Some("free"@),
        ParsedMessageView::Ps { .. } => Some("ps"@),
        ParsedMessageView::WorkTime(_) => Some("worktime"@),
        ParsedMessageView::Warning(_) => Some("warning"@),
        ParsedMessageView::Error(_) => Some("error"@),
        ParsedMessageView::Lock(_) => Some("lock"@),
        ParsedMessageView::Mode { .. } => Some("mode"@),
        ParsedMessageView::State { .. } => Some("state"@),
        ParsedMessageView::Status(_) => Some("status"@),
        ParsedMessageView::SubStatus(_) => Some("substatus"@),
        ParsedMessageView::IOState(_) => Some("iostate"@),
        ParsedMessageView::IfConfig(_) => Some("ifconfig"@),
        ParsedMessageView::Dns(_) => Some("dns"@),
        ParsedMessageView::Netstat(_) => Some("netstat"@),
        ParsedMessageView::ReadAll(_) => Some("readall"@),
        ParsedMessageView::ProcessCur(_) => Some("cur_pro"@),
        ParsedMessageView::ProcessFeeder(_) => Some("feeder_pro"@),
        ParsedMessageView::Unknown { .. } => None,
    }
}

/// The record of a reply is of the kind that belongs to its command, or it
/// is the fallback record and holds the command and the cleaned lines.
pub proof fn lemma_record_belongs_to_command(cmd: Seq<char>, raw: Seq<Seq<char>>)
    ensures
        parsed(cmd, raw) == fallback(cmd, normalized(raw)) || command_of(parsed(cmd, raw))
            == Some(cmd),
{
    reveal_strlit("WARNING");
    reveal_strlit("ERROR");
    reveal_strlit("LOCK");
    assert("WARNING"@[0] != "ERROR"@[0]);
    assert("WARNING"@[0] != "LOCK"@[0]);
    assert("ERROR"@[0] != "LOCK"@[0]);
}

/// A reply to a flag word command gives a whole flag word or the fallback
/// record, never a flag word that is filled in part. Where the search of
/// its first line gives a whole flag word, that is the record, and its mask
/// is not empty; where the reply has no line, or the search gives nothing
/// or a match without a mask, the record is the fallback.
pub proof fn lemma_flag_word_is_whole_or_fallback(raw: Seq<Seq<char>>)
    ensures
        parsed("warning"@, raw) == (match found_word(flag_search(normalized(raw))) {
            Some(word) => ParsedMessageView::Warning(word),
            None => fallback("warning"@, normalized(raw)),
        }),
        parsed("error"@, raw) == (match found_word(flag_search(normalized(raw))) {
            Some(word) => ParsedMessageView::Error(word),
            None => fallback("error"@, normalized(raw)),
        }),
        parsed("lock"@, raw) == (match found_word(flag_search(normalized(raw))) {
            Some(word) => ParsedMessageView::Lock(word),
            None => fallback("lock"@, normalized(raw)),
        }),
        match found_word(flag_search(normalized(raw))) {
            Some(word) => word.raw.len() > 0,
            None => true,
        },
{
    reveal_strlit("WARNING");
    reveal_strlit("ERROR");
    reveal_strlit("LOCK");
    reveal_strlit("warning");
    reveal_strlit("error");
    reveal_strlit("lock");
    reveal_strlit("version");
    reveal_strlit("free");
    reveal_strlit("ps");
    reveal_strlit("worktime");
    assert("WARNING"@[0] != "ERROR"@[0]);
    assert("WARNING"@[0] != "LOCK"@[0]);
    assert("ERROR"@[0] != "LOCK"@[0]);
    assert("warning"@[0] == 'w' && "error"@[0] == 'e' && "lock"@[0] == 'l');
    assert("version"@[0] == 'v' && "free"@[0] == 'f' && "ps"@[0] == 'p');
    assert("worktime"@.len() == 8 && "warning"@.len() == 7);
}

/// A command without a grammar gives the fallback record, whatever the
/// reply.
pub proof fn lemma_unknown_command_falls_back(cmd: Seq<char>, raw: Seq<Seq<char>>)
    requires
        !is_known_command(cmd),
    ensures
        parsed(cmd, raw) == fallback(cmd, normalized(raw)),
{
}

} // verus!
