//! The grammars of the network replies: interface settings, name servers
//! and open sockets.

use crate::fields::{colon_value, take_colon_value};
use crate::model::{
    texts_of, Dns, DnsView, IfConfig, IfConfigView, Netstat, NetstatView,
    ParsedMessage, ParsedMessageView,
};
use crate::number::{decimal_i64, parse_i64};
use crate::text::{chars_of, halves, split_once, starts_with, trim, trimmed};
use vstd::prelude::*;

verus! {

/// The settings of a reply that gives none.
pub open spec fn no_ifconfig() -> IfConfigView {
    IfConfigView {
        iface: None,
        mtu: None,
        mac: None,
        flags: None,
        ip_addr: None,
        gw_addr: None,
        netmask: None,
        dns0: None,
        dns1: None,
    }
}

/// `r` with the transfer unit that `value` writes; `r` itself where it
/// writes no number.
pub open spec fn with_mtu(r: IfConfigView, value: Option<Seq<char>>) -> IfConfigView {
    match value {
        Some(v) => match decimal_i64(v) {
            Some(n) => IfConfigView { mtu: Some(n), ..r },
            None => r,
        },
        None => r,
    }
}

/// The settings after one line of the reply. The beginning of the line
/// names the setting, and the text after the first colon is its value; a
/// line of a known beginning without a colon leaves the setting absent. A
/// line of any other beginning changes nothing.
pub open spec fn ifconfig_step(r: IfConfigView, line: Seq<char>) -> IfConfigView {
    let value = colon_value(line);
    if "network interface device:"@.is_prefix_of(line) {
        IfConfigView { iface: value, ..r }
    } else if "MTU:"@.is_prefix_of(line) {
        with_mtu(r, value)
    } else if "MAC:"@.is_prefix_of(line) {
        IfConfigView { mac: value, ..r }
    } else if "FLAGS:"@.is_prefix_of(line) {
        IfConfigView { flags: value, ..r }
    } else if "ip address:"@.is_prefix_of(line) {
        IfConfigView { ip_addr: value, ..r }
    } else if "gw address:"@.is_prefix_of(line) {
        IfConfigView { gw_addr: value, ..r }
    } else if "net mask"@.is_prefix_of(line) {
        IfConfigView { netmask: value, ..r }
    } else if "dns server #0"@.is_prefix_of(line) {
        IfConfigView { dns0: value, ..r }
    } else if "dns server #1"@.is_prefix_of(line) {
        IfConfigView { dns1: value, ..r }
    } else {
        r
    }
}

/// `ifconfig_step`, as a function.
pub open spec fn ifconfig_stepper() -> spec_fn(IfConfigView, Seq<char>) -> IfConfigView {
    |r: IfConfigView, l: Seq<char>| ifconfig_step(r, l)
}

/// The interface settings that a reply gives.
pub open spec fn ifconfig(lines: Seq<Seq<char>>) -> IfConfigView {
    lines.fold_left(no_ifconfig(), ifconfig_stepper())
}

/// Reads one line of the reply into `r`.
pub fn apply_ifconfig_line(r: &mut IfConfig, line: &str)
    ensures
        final(r)@ == ifconfig_step(old(r)@, line@),
{
    let cs = chars_of(line);
    let s = cs.as_slice();
    if starts_with(s, "network interface device:") {
        r.iface = take_colon_value(line);
    } else if starts_with(s, "MTU:") {
        match take_colon_value(line) {
            Some(v) => {
                let digits = chars_of(v.as_str());
                match parse_i64(digits.as_slice()) {
                    Some(n) => r.mtu = Some(n),
                    None => {},
                }
            },
            None => {},
        }
    } else if starts_with(s, "MAC:") {
        r.mac = take_colon_value(line);
    } else if starts_with(s, "FLAGS:") {
        r.flags = take_colon_value(line);
    } else if starts_with(s, "ip address:") {
        r.ip_addr = take_colon_value(line);
    } else if starts_with(s, "gw address:") {
        r.gw_addr = take_colon_value(line);
    } else if starts_with(s, "net mask") {
        r.netmask = take_colon_value(line);
    } else if starts_with(s, "dns server #0") {
        r.dns0 = take_colon_value(line);
    } else if starts_with(s, "dns server #1") {
        r.dns1 = take_colon_value(line);
    }
}

/// Reads the interface settings of a reply.
pub fn parse_ifconfig(lines: &[String]) -> (r: ParsedMessage)
    ensures
        r@ == ParsedMessageView::IfConfig(ifconfig(texts_of(lines@))),
{
    let mut c = IfConfig {
        iface: None,
        mtu: None,
        mac: None,
        flags: None,
        ip_addr: None,
        gw_addr: None,
        netmask: None,
        dns0: None,
        dns1: None,
    };
    let mut i: usize = 0;
    while i < lines.len()
        invariant
            i <= lines.len(),
            c@ == ifconfig(texts_of(lines@).take(i as int)),
        decreases lines.len() - i,
    {
        let ghost done = texts_of(lines@).take(i + 1);
        assert(done.drop_last() == texts_of(lines@).take(i as int));
        apply_ifconfig_line(&mut c, lines[i].as_str());
        i += 1;
    }
    assert(texts_of(lines@).take(lines.len() as int) == texts_of(lines@));
    ParsedMessage::IfConfig(c)
}

/// The name servers after one line of the reply, read as the lines of the
/// interface settings are.
pub open spec fn dns_step(r: DnsView, line: Seq<char>) -> DnsView {
    let value = colon_value(line);
    if "network interface device:"@.is_prefix_of(line) {
        DnsView { iface: value, ..r }
    } else if "dns server #0"@.is_prefix_of(line) {
        DnsView { dns0: value, ..r }
    } else if "dns server #1"@.is_prefix_of(line) {
        DnsView { dns1: value, ..r }
    } else {
        r
    }
}

/// `dns_step`, as a function.
pub open spec fn dns_stepper() -> spec_fn(DnsView, Seq<char>) -> DnsView {
    |r: DnsView, l: Seq<char>| dns_step(r, l)
}

/// The name servers that a reply gives.
pub open spec fn dns(lines: Seq<Seq<char>>) -> DnsView {
    lines.fold_left(DnsView { iface: None, dns0: None, dns1: None }, dns_stepper())
}

/// Reads one line of the reply into `r`.
pub fn apply_dns_line(r: &mut Dns, line: &str)
    ensures
        final(r)@ == dns_step(old(r)@, line@),
{
    let cs = chars_of(line);
    let s = cs.as_slice();
    if starts_with(s, "network interface device:") {
        r.iface = take_colon_value(line);
    } else if starts_with(s, "dns server #0") {
        r.dns0 = take_colon_value(line);
    } else if starts_with(s, "dns server #1") {
        r.dns1 = take_colon_value(line);
    }
}

/// Reads the name servers of a reply.
pub fn parse_dns(lines: &[String]) -> (r: ParsedMessage)
    ensures
        r@ == ParsedMessageView::Dns(dns(texts_of(lines@))),
{
    let mut d = Dns { iface: None, dns0: None, dns1: None };
    let mut i: usize = 0;
    while i < lines.len()
        invariant
            i <= lines.len(),
            d@ == dns(texts_of(lines@).take(i as int)),
        decreases lines.len() - i,
    {
        let ghost done = texts_of(lines@).take(i + 1);
        assert(done.drop_last() == texts_of(lines@).take(i as int));
        apply_dns_line(&mut d, lines[i].as_str());
        i += 1;
    }
    assert(texts_of(lines@).take(lines.len() as int) == texts_of(lines@));
    ParsedMessage::Dns(d)
}

/// The local port that a line names: the number between `local port` and
/// the `state` that follows it.
pub open spec fn port_of(line: Seq<char>) -> Option<i64> {
    match halves(line, "local port"@) {
        Some((_, right)) => match halves(trimmed(right), "state"@) {
            Some((port, _)) => decimal_i64(trimmed(port)),
            None => None,
        },
        None => None,
    }
}

/// `port_of`, as a function.
pub open spec fn to_port() -> spec_fn(Seq<char>) -> Option<i64> {
    |l: Seq<char>| port_of(l)
}

/// The local ports that the lines of a reply name, in their order.
pub open spec fn listen_ports(lines: Seq<Seq<char>>) -> Seq<i64> {
    lines.filter_map(to_port())
}

/// Reads the local port that a line names.
pub fn read_port(line: &[char]) -> (r: Option<i64>)
    ensures
        r == port_of(line@),
{
    match split_once(line, "local port") {
        Some((_, right)) => match split_once(trim(right), "state") {
            Some((port, _)) => parse_i64(trim(port)),
            None => None,
        },
        None => None,
    }
}

/// Reads the open sockets of a reply.
pub fn parse_netstat(lines: &[String]) -> (r: ParsedMessage)
    ensures
        r@ == ParsedMessageView::Netstat(
            NetstatView { listen_ports: listen_ports(texts_of(lines@)) },
        ),
{
    let mut ports: Vec<i64> = Vec::new();
    let mut i: usize = 0;
    while i < lines.len()
        invariant
            i <= lines.len(),
            ports@ == listen_ports(texts_of(lines@).take(i as int)),
        decreases lines.len() - i,
    {
        proof {
            texts_of(lines@).lemma_filter_map_take_succ(to_port(), i as int);
        }
        let cs = chars_of(lines[i].as_str());
        match read_port(cs.as_slice()) {
            Some(n) => ports.push(n),
            None => {},
        }
        i += 1;
    }
    assert(texts_of(lines@).take(lines.len() as int) == texts_of(lines@));
    ParsedMessage::Netstat(Netstat { listen_ports: ports })
}

} // verus!
