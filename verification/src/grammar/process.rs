//! The grammar of the process-parameter replies of the laser and of the
//! wire feeder.
//!
//! A reply has no fixed shape. Each line is tried against a list of known
//! shapes, the first that fits decides, and a line that fits none but has a
//! colon is kept among the extras.

use crate::fields::{
    colon_value, comma_groups, key_value, pair_views, split_comma_groups, split_pair,
};
use crate::model::{no_params, pairs_of, texts_of, KVLine, KVLineView, ProcessParams, ProcessParamsView};
use crate::number::{decimal_i64, parse_i64};
use crate::text::{
    chars_of, equals, halves, occurs_in, split_once_char, starts_with, string_of, trim,
    trim_start_matches, trimmed, without_leading,
};
use vstd::prelude::*;

verus! {

/// The numeric parameters of a process.
#[derive(Clone, Copy, Debug)]
pub enum Param {
    Power,
    PwmFre,
    PwmDuty,
    Mode,
    HeadMode,
    HeadFre,
    HeadWidth,
    PulseOn,
    PulseOff,
    GasEarly,
    GasDelay,
    PowRise,
    PowFall,
    PowEarly,
    PowDelay,
    PowerOn,
    PowerOff,
    Index,
    FeederMode,
    FeederOutSpeed,
    FeederOutLen,
    FeederInSpeed,
    FeederInLen,
    FeederCycle,
    FeederSmoothness,
    FeederOutDelay,
    FeederInDelay,
}

/// The shapes of line whose comma groups each name one parameter.
#[derive(Clone, Copy, Debug)]
pub enum Shape {
    /// `power:100,fre:3000,duty:100,mode:0`
    Pwm,
    /// the groups after the mode in `head mode:1,fre:8,width:80`
    Head,
    /// `pulse tick on:150,off:150`
    Pulse,
    /// `gas tick early:200,delay:150`
    Gas,
    /// `power tick rise:100,fall:50,early:0,delay:200`
    PowerTick,
    /// `power on:0, power off:0`
    PowerSwitch,
    /// `feeder_cycle:400, smoothness:40,out_delay:0,in_delay:400`
    Cycle,
}

/// Which length a `len` group of the feeder line gives.
///
/// The feeder line uses the key `len` twice, once after `out_speed` and once
/// after `in_speed`. The key alone does not say which length is meant: the
/// speed last seen does.
#[derive(Clone, Copy, Debug)]
pub enum Expect {
    Nothing,
    OutLen,
    InLen,
}

/// `p` with the parameter `which` set to `n`.
pub open spec fn with_param(p: ProcessParamsView, which: Param, n: i64) -> ProcessParamsView {
    match which {
        Param::Power => ProcessParamsView { power: Some(n), ..p },
        Param::PwmFre => ProcessParamsView { pwm_fre: Some(n), ..p },
        Param::PwmDuty => ProcessParamsView { pwm_duty: Some(n), ..p },
        Param::Mode => ProcessParamsView { mode: Some(n), ..p },
        Param::HeadMode => ProcessParamsView { head_mode: Some(n), ..p },
        Param::HeadFre => ProcessParamsView { head_fre: Some(n), ..p },
        Param::HeadWidth => ProcessParamsView { head_width: Some(n), ..p },
        Param::PulseOn => ProcessParamsView { pulse_on: Some(n), ..p },
        Param::PulseOff => ProcessParamsView { pulse_off: Some(n), ..p },
        Param::GasEarly => ProcessParamsView { gas_early: Some(n), ..p },
        Param::GasDelay => ProcessParamsView { gas_delay: Some(n), ..p },
        Param::PowRise => ProcessParamsView { pow_rise: Some(n), ..p },
        Param::PowFall => ProcessParamsView { pow_fall: Some(n), ..p },
        Param::PowEarly => ProcessParamsView { pow_early: Some(n), ..p },
        Param::PowDelay => ProcessParamsView { pow_delay: Some(n), ..p },
        Param::PowerOn => ProcessParamsView { power_on: Some(n), ..p },
        Param::PowerOff => ProcessParamsView { power_off: Some(n), ..p },
        Param::Index => ProcessParamsView { index: Some(n), ..p },
        Param::FeederMode => ProcessParamsView { feeder_mode: Some(n), ..p },
        Param::FeederOutSpeed => ProcessParamsView { feeder_out_speed: Some(n), ..p },
        Param::FeederOutLen => ProcessParamsView { feeder_out_len: Some(n), ..p },
        Param::FeederInSpeed => ProcessParamsView { feeder_in_speed: Some(n), ..p },
        Param::FeederInLen => ProcessParamsView { feeder_in_len: Some(n), ..p },
        Param::FeederCycle => ProcessParamsView { feeder_cycle: Some(n), ..p },
        Param::FeederSmoothness => ProcessParamsView { feeder_smoothness: Some(n), ..p },
        Param::FeederOutDelay => ProcessParamsView { feeder_out_delay: Some(n), ..p },
        Param::FeederInDelay => ProcessParamsView { feeder_in_delay: Some(n), ..p },
    }
}

/// `p` with the parameter `which` set to the number that `value` writes;
/// `p` itself where `value` writes no number that fits in an `i64`.
pub open spec fn assigned(p: ProcessParamsView, which: Param, value: Seq<char>) -> ProcessParamsView {
    match decimal_i64(value) {
        Some(n) => with_param(p, which, n),
        None => p,
    }
}

/// The parameter that the key `key` names in a line of the shape `shape`.
pub open spec fn param_for(shape: Shape, key: Seq<char>) -> Option<Param> {
    match shape {
        Shape::Pwm => if key == "power"@ {
            Some(Param::Power)
        } else if key == "fre"@ {
            Some(Param::PwmFre)
        } else if key == "duty"@ {
            Some(Param::PwmDuty)
        } else if key == "mode"@ {
            Some(Param::Mode)
        } else {
            None
        },
        Shape::Head => if key == "fre"@ {
            Some(Param::HeadFre)
        } else if key == "width"@ {
            Some(Param::HeadWidth)
        } else {
            None
        },
        Shape::Pulse => if key == "on"@ {
            Some(Param::PulseOn)
        } else if key == "off"@ {
            Some(Param::PulseOff)
        } else {
            None
        },
        Shape::Gas => if key == "early"@ {
            Some(Param::GasEarly)
        } else if key == "delay"@ {
            Some(Param::GasDelay)
        } else {
            None
        },
        Shape::PowerTick => if key == "rise"@ {
            Some(Param::PowRise)
        } else if key == "fall"@ {
            Some(Param::PowFall)
        } else if key == "early"@ {
            Some(Param::PowEarly)
        } else if key == "delay"@ {
            Some(Param::PowDelay)
        } else {
            None
        },
        Shape::PowerSwitch => if key == "power on"@ {
            Some(Param::PowerOn)
        } else if key == "power off"@ {
            Some(Param::PowerOff)
        } else {
            None
        },
        Shape::Cycle => if key == "feeder_cycle"@ {
            Some(Param::FeederCycle)
        } else if key == "smoothness"@ {
            Some(Param::FeederSmoothness)
        } else if key == "out_delay"@ {
            Some(Param::FeederOutDelay)
        } else if key == "in_delay"@ {
            Some(Param::FeederInDelay)
        } else if key == "out_len"@ {
            Some(Param::FeederOutLen)
        } else if key == "in_len"@ {
            Some(Param::FeederInLen)
        } else {
            None
        },
    }
}

/// `p` after one comma group of a line of the shape `shape`: a group whose
/// key names a parameter sets it, any other group changes nothing.
pub open spec fn with_group(p: ProcessParamsView, shape: Shape, g: KVLineView) -> ProcessParamsView {
    match param_for(shape, g.key) {
        Some(which) => assigned(p, which, g.value),
        None => p,
    }
}

/// The step of `with_group` for one shape, as a function.
pub open spec fn group_step(shape: Shape) -> spec_fn(ProcessParamsView, KVLineView) -> ProcessParamsView {
    |p: ProcessParamsView, g: KVLineView| with_group(p, shape, g)
}

/// `p` after the comma groups of a line of the shape `shape`, taken from
/// left to right.
pub open spec fn with_groups(p: ProcessParamsView, shape: Shape, groups: Seq<KVLineView>) -> ProcessParamsView {
    groups.fold_left(p, group_step(shape))
}

/// The parameters and the expectation after one comma group of the feeder
/// line. A speed sets the expectation for the next `len`; a `len` is given to
/// the length that is expected and uses the expectation up, and is dropped
/// where no length is expected.
pub open spec fn feeder_step(state: (ProcessParamsView, Expect), g: KVLineView) -> (
    ProcessParamsView,
    Expect,
) {
    let (p, expect) = state;
    if g.key == "feeder_mode"@ {
        (assigned(p, Param::FeederMode, g.value), expect)
    } else if g.key == "out_speed"@ {
        (assigned(p, Param::FeederOutSpeed, g.value), Expect::OutLen)
    } else if g.key == "in_speed"@ {
        (assigned(p, Param::FeederInSpeed, g.value), Expect::InLen)
    } else if g.key == "len"@ {
        match expect {
            Expect::OutLen => (assigned(p, Param::FeederOutLen, g.value), Expect::Nothing),
            Expect::InLen => (assigned(p, Param::FeederInLen, g.value), Expect::Nothing),
            Expect::Nothing => (p, Expect::Nothing),
        }
    } else {
        (p, expect)
    }
}

/// The step of the feeder line, as a function.
pub open spec fn feeder_stepper() -> spec_fn((ProcessParamsView, Expect), KVLineView) -> (
    ProcessParamsView,
    Expect,
) {
    |state: (ProcessParamsView, Expect), g: KVLineView| feeder_step(state, g)
}

/// `p` after the comma groups of the feeder line, taken from left to right,
/// with no length expected at the start.
pub open spec fn with_feeder_groups(p: ProcessParamsView, groups: Seq<KVLineView>) -> ProcessParamsView {
    groups.fold_left((p, Expect::Nothing), feeder_stepper()).0
}

/// `p` after a line that begins with `head mode:`. What follows up to the
/// first comma is the mode; the groups after it are read by `Shape::Head`.
pub open spec fn with_head_line(p: ProcessParamsView, s: Seq<char>) -> ProcessParamsView {
    let t = trimmed(without_leading(s, "head mode:"@));
    match halves(t, seq![',']) {
        Some((mode, rest)) => with_groups(
            assigned(p, Param::HeadMode, trimmed(mode)),
            Shape::Head,
            comma_groups(rest),
        ),
        None => assigned(p, Param::HeadMode, t),
    }
}

/// `p` with one more pair among its extras.
pub open spec fn with_extra(p: ProcessParamsView, kv: KVLineView) -> ProcessParamsView {
    ProcessParamsView { extras: p.extras.push(kv), ..p }
}

/// `p` after one line of the reply. The shapes are tried in this order, and
/// the first whose beginning the line has decides.
pub open spec fn with_line(p: ProcessParamsView, raw: Seq<char>) -> ProcessParamsView {
    let s = trimmed(raw);
    if "power:"@.is_prefix_of(s) && occurs_in(s, seq![',']) {
        with_groups(p, Shape::Pwm, comma_groups(s))
    } else if "head mode:"@.is_prefix_of(s) {
        with_head_line(p, s)
    } else if "pulse tick"@.is_prefix_of(s) {
        with_groups(p, Shape::Pulse, comma_groups(trimmed(without_leading(s, "pulse tick"@))))
    } else if "gas tick"@.is_prefix_of(s) {
        with_groups(p, Shape::Gas, comma_groups(trimmed(without_leading(s, "gas tick"@))))
    } else if "power tick"@.is_prefix_of(s) {
        with_groups(
            p,
            Shape::PowerTick,
            comma_groups(trimmed(without_leading(s, "power tick"@))),
        )
    } else if "power on"@.is_prefix_of(s) {
        with_groups(p, Shape::PowerSwitch, comma_groups(s))
    } else if "process index:"@.is_prefix_of(s) {
        match colon_value(s) {
            Some(v) => assigned(p, Param::Index, v),
            None => p,
        }
    } else if "feeder_mode:"@.is_prefix_of(s) {
        with_feeder_groups(p, comma_groups(s))
    } else if "feeder_cycle:"@.is_prefix_of(s) || "smoothness:"@.is_prefix_of(s) {
        with_groups(p, Shape::Cycle, comma_groups(s))
    } else {
        match key_value(s) {
            Some(kv) => with_extra(p, kv),
            None => p,
        }
    }
}

/// The step of `with_line`, as a function.
pub open spec fn line_step() -> spec_fn(ProcessParamsView, Seq<char>) -> ProcessParamsView {
    |p: ProcessParamsView, l: Seq<char>| with_line(p, l)
}

/// The process parameters that a reply gives: no parameter at the start,
/// then its lines from first to last.
pub open spec fn process_params(lines: Seq<Seq<char>>) -> ProcessParamsView {
    lines.fold_left(no_params(), line_step())
}

/// Sets the parameter `which` to `n`.
fn set_param(p: &mut ProcessParams, which: Param, n: i64)
    ensures
        final(p)@ == with_param(old(p)@, which, n),
{
    match which {
        Param::Power => p.power = Some(n),
        Param::PwmFre => p.pwm_fre = Some(n),
        Param::PwmDuty => p.pwm_duty = Some(n),
        Param::Mode => p.mode = Some(n),
        Param::HeadMode => p.head_mode = Some(n),
        Param::HeadFre => p.head_fre = Some(n),
        Param::HeadWidth => p.head_width = Some(n),
        Param::PulseOn => p.pulse_on = Some(n),
        Param::PulseOff => p.pulse_off = Some(n),
        Param::GasEarly => p.gas_early = Some(n),
        Param::GasDelay => p.gas_delay = Some(n),
        Param::PowRise => p.pow_rise = Some(n),
        Param::PowFall => p.pow_fall = Some(n),
        Param::PowEarly => p.pow_early = Some(n),
        Param::PowDelay => p.pow_delay = Some(n),
        Param::PowerOn => p.power_on = Some(n),
        Param::PowerOff => p.power_off = Some(n),
        Param::Index => p.index = Some(n),
        Param::FeederMode => p.feeder_mode = Some(n),
        Param::FeederOutSpeed => p.feeder_out_speed = Some(n),
        Param::FeederOutLen => p.feeder_out_len = Some(n),
        Param::FeederInSpeed => p.feeder_in_speed = Some(n),
        Param::FeederInLen => p.feeder_in_len = Some(n),
        Param::FeederCycle => p.feeder_cycle = Some(n),
        Param::FeederSmoothness => p.feeder_smoothness = Some(n),
        Param::FeederOutDelay => p.feeder_out_delay = Some(n),
        Param::FeederInDelay => p.feeder_in_delay = Some(n),
    }
}

/// Sets the parameter `which` to the number that `value` writes, if it
/// writes one.
pub fn set(p: &mut ProcessParams, which: Param, value: &[char])
    ensures
        final(p)@ == assigned(old(p)@, which, value@),
{
    match parse_i64(value) {
        Some(n) => set_param(p, which, n),
        None => {},
    }
}

/// Looks up the parameter that a key names in a line of the given shape.
pub fn lookup(shape: Shape, key: &[char]) -> (r: Option<Param>)
    ensures
        r == param_for(shape, key@),
{
    match shape {
        Shape::Pwm => if equals(key, "power") {
            Some(Param::Power)
        } else if equals(key, "fre") {
            Some(Param::PwmFre)
        } else if equals(key, "duty") {
            Some(Param::PwmDuty)
        } else if equals(key, "mode") {
            Some(Param::Mode)
        } else {
            None
        },
        Shape::Head => if equals(key, "fre") {
            Some(Param::HeadFre)
        } else if equals(key, "width") {
            Some(Param::HeadWidth)
        } else {
            None
        },
        Shape::Pulse => if equals(key, "on") {
            Some(Param::PulseOn)
        } else if equals(key, "off") {
            Some(Param::PulseOff)
        } else {
            None
        },
        Shape::Gas => if equals(key, "early") {
            Some(Param::GasEarly)
        } else if equals(key, "delay") {
            Some(Param::GasDelay)
        } else {
            None
        },
        Shape::PowerTick => if equals(key, "rise") {
            Some(Param::PowRise)
        } else if equals(key, "fall") {
            Some(Param::PowFall)
        } else if equals(key, "early") {
            Some(Param::PowEarly)
        } else if equals(key, "delay") {
            Some(Param::PowDelay)
        } else {
            None
        },
        Shape::PowerSwitch => if equals(key, "power on") {
            Some(Param::PowerOn)
        } else if equals(key, "power off") {
            Some(Param::PowerOff)
        } else {
            None
        },
        Shape::Cycle => if equals(key, "feeder_cycle") {
            Some(Param::FeederCycle)
        } else if equals(key, "smoothness") {
            Some(Param::FeederSmoothness)
        } else if equals(key, "out_delay") {
            Some(Param::FeederOutDelay)
        } else if equals(key, "in_delay") {
            Some(Param::FeederInDelay)
        } else if equals(key, "out_len") {
            Some(Param::FeederOutLen)
        } else if equals(key, "in_len") {
            Some(Param::FeederInLen)
        } else {
            None
        },
    }
}

/// Reads the comma groups of a line of the given shape into `p`.
pub fn apply_groups(p: &mut ProcessParams, shape: Shape, line: &[char])
    ensures
        final(p)@ == with_groups(old(p)@, shape, comma_groups(line@)),
{
    let groups = split_comma_groups(line);
    let mut i: usize = 0;
    while i < groups.len()
        invariant
            i <= groups.len(),
            pair_views(groups@) == comma_groups(line@),
            p@ == with_groups(old(p)@, shape, pair_views(groups@).take(i as int)),
        decreases groups.len() - i,
    {
        let ghost done = pair_views(groups@).take(i + 1);
        assert(done.drop_last() == pair_views(groups@).take(i as int));
        let (key, value) = groups[i];
        match lookup(shape, key) {
            Some(which) => set(p, which, value),
            None => {},
        }
        i += 1;
    }
    assert(pair_views(groups@).take(groups.len() as int) == pair_views(groups@));
}

/// Reads the comma groups of the feeder line into `p`.
pub fn apply_feeder_groups(p: &mut ProcessParams, line: &[char])
    ensures
        final(p)@ == with_feeder_groups(old(p)@, comma_groups(line@)),
{
    let groups = split_comma_groups(line);
    let mut expect = Expect::Nothing;
    let mut i: usize = 0;
    while i < groups.len()
        invariant
            i <= groups.len(),
            pair_views(groups@) == comma_groups(line@),
            (p@, expect) == pair_views(groups@).take(i as int).fold_left(
                (old(p)@, Expect::Nothing),
                feeder_stepper(),
            ),
        decreases groups.len() - i,
    {
        let ghost done = pair_views(groups@).take(i + 1);
        assert(done.drop_last() == pair_views(groups@).take(i as int));
        let (key, value) = groups[i];
        if equals(key, "feeder_mode") {
            set(p, Param::FeederMode, value);
        } else if equals(key, "out_speed") {
            set(p, Param::FeederOutSpeed, value);
            expect = Expect::OutLen;
        } else if equals(key, "in_speed") {
            set(p, Param::FeederInSpeed, value);
            expect = Expect::InLen;
        } else if equals(key, "len") {
            match expect {
                Expect::OutLen => set(p, Param::FeederOutLen, value),
                Expect::InLen => set(p, Param::FeederInLen, value),
                Expect::Nothing => {},
            }
            expect = Expect::Nothing;
        }
        i += 1;
    }
    assert(pair_views(groups@).take(groups.len() as int) == pair_views(groups@));
}

/// Reads a line that begins with `head mode:` into `p`.
fn apply_head_line(p: &mut ProcessParams, s: &[char])
    ensures
        final(p)@ == with_head_line(old(p)@, s@),
{
    let t = trim(trim_start_matches(s, "head mode:"));
    match split_once_char(t, ',') {
        Some((mode, rest)) => {
            set(p, Param::HeadMode, trim(mode));
            apply_groups(p, Shape::Head, rest);
        },
        None => set(p, Param::HeadMode, t),
    }
}

/// Reads one line of the reply into `p`.
pub fn apply_line(p: &mut ProcessParams, raw: &[char])
    ensures
        final(p)@ == with_line(old(p)@, raw@),
{
    let s = trim(raw);
    if starts_with(s, "power:") && split_once_char(s, ',').is_some() {
        apply_groups(p, Shape::Pwm, s);
    } else if starts_with(s, "head mode:") {
        apply_head_line(p, s);
    } else if starts_with(s, "pulse tick") {
        apply_groups(p, Shape::Pulse, trim(trim_start_matches(s, "pulse tick")));
    } else if starts_with(s, "gas tick") {
        apply_groups(p, Shape::Gas, trim(trim_start_matches(s, "gas tick")));
    } else if starts_with(s, "power tick") {
        apply_groups(p, Shape::PowerTick, trim(trim_start_matches(s, "power tick")));
    } else if starts_with(s, "power on") {
        apply_groups(p, Shape::PowerSwitch, s);
    } else if starts_with(s, "process index:") {
        match split_once_char(s, ':') {
            Some((_, v)) => set(p, Param::Index, trim(v)),
            None => {},
        }
    } else if starts_with(s, "feeder_mode:") {
        apply_feeder_groups(p, s);
    } else if starts_with(s, "feeder_cycle:") || starts_with(s, "smoothness:") {
        apply_groups(p, Shape::Cycle, s);
    } else {
        match split_pair(s) {
            Some((k, v)) => {
                let ghost before = p.extras@;
                let kv = KVLine { key: string_of(k), value: string_of(v) };
                p.extras.push(kv);
                assert(pairs_of(p.extras@) == pairs_of(before).push(kv@));
            },
            None => {},
        }
    }
}

/// Reads the process parameters that a reply gives.
pub fn parse_process_like(lines: &[String]) -> (r: ProcessParams)
    ensures
        r@ == process_params(texts_of(lines@)),
{
    let mut p = ProcessParams::default();
    let mut i: usize = 0;
    while i < lines.len()
        invariant
            i <= lines.len(),
            p@ == process_params(texts_of(lines@).take(i as int)),
        decreases lines.len() - i,
    {
        let ghost done = texts_of(lines@).take(i + 1);
        assert(done.drop_last() == texts_of(lines@).take(i as int));
        let cs = chars_of(lines[i].as_str());
        apply_line(&mut p, cs.as_slice());
        i += 1;
    }
    assert(texts_of(lines@).take(lines.len() as int) == texts_of(lines@));
    p
}

} // verus!
