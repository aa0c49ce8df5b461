use msh_reply::fields::{
    count_lines_before, find_line, parse_kv_lines, pop_i32, pop_text, split_comma_groups,
    split_kv, split_pair, take_after_colon, take_colon_value,
};
use msh_reply::grammar::flagword::{flagword_from_captures, parse_flagword, FLAG_PATTERN};
use msh_reply::grammar::free::parse_free;
use msh_reply::grammar::net::read_port;
use msh_reply::grammar::process::{lookup, parse_process_like, Param, Shape};
use msh_reply::grammar::ps::read_row;
use msh_reply::grammar::substatus::capture_num;
use msh_reply::grammar::version::{parse_version, read_version};
use msh_reply::grammar::worktime::parse_worktime;
use msh_reply::normalize::{copy_lines, normalize, normalize_line, strip_prompt_noise};
use msh_reply::{ParseError, ParsedMessage, ProcessParams};

fn lines(raw: &[&str]) -> Vec<String> {
    raw.iter().map(|s| s.to_string()).collect()
}

fn cs(s: &str) -> Vec<char> {
    s.chars().collect()
}

fn st(s: &[char]) -> String {
    s.iter().collect()
}

#[test]
fn a_line_loses_carriage_returns_and_trailing_white_space() {
    assert_eq!(normalize_line("abc\r"), "abc");
    assert_eq!(normalize_line("a\rb\r\n"), "ab");
    assert_eq!(normalize_line("  a b \t \u{a0}"), "  a b");
    assert_eq!(normalize_line(" \r \r"), "");
    assert_eq!(normalize_line(""), "");
    assert_eq!(normalize_line("msh > \r"), "msh >");
}

#[test]
fn prompt_echoes_are_dropped() {
    let mut v = lines(&["msh >", "a", " msh >", "msh >", "msh > ", "msh >b", "msh >"]);
    strip_prompt_noise(&mut v);
    assert_eq!(v, lines(&["a", " msh >", "msh > ", "msh >b"]));
    let mut none: Vec<String> = Vec::new();
    strip_prompt_noise(&mut none);
    assert!(none.is_empty());
}

#[test]
fn a_reply_is_cleaned_line_by_line_in_order() {
    let raw = lines(&["b\r", "", "msh > ", "a  ", " \t", "msh >x", "b"]);
    assert_eq!(normalize(&raw), lines(&["b", "a", "msh >x", "b"]));
    assert!(normalize(&[]).is_empty());
    assert!(normalize(&lines(&["", "msh >", "\r\r"])).is_empty());
}

#[test]
fn cleaning_twice_is_cleaning_once() {
    let raws = [
        lines(&["b\r", "", "msh > ", "a  ", " \t", "msh >x", "b"]),
        lines(&["msh >\r\r", "  msh >", "\rmsh >", "x\r\ry  \r "]),
        lines(&[]),
    ];
    for raw in raws {
        let once = normalize(&raw);
        let twice = normalize(&once);
        assert_eq!(once, twice);
    }
}

#[test]
fn lines_are_copied_as_they_are() {
    let raw = lines(&["a ", "", "msh >"]);
    assert_eq!(copy_lines(&raw), raw);
}

#[test]
fn key_and_value_are_split_at_the_first_colon() {
    let kv = split_kv("  total memory :  64 : 7 ").unwrap();
    assert_eq!(kv.key, "total memory");
    assert_eq!(kv.value, "64 : 7");
    let kv = split_kv(":").unwrap();
    assert_eq!(kv.key, "");
    assert_eq!(kv.value, "");
    assert!(split_kv("no colon").is_none());
    assert!(split_kv("").is_none());
    let line = cs(" a : b ");
    let (k, v) = split_pair(&line).unwrap();
    assert_eq!(st(k), "a");
    assert_eq!(st(v), "b");
    assert!(split_pair(&cs("ab")).is_none());
}

#[test]
fn text_after_the_first_colon_or_the_whole_line() {
    assert_eq!(take_after_colon("mode:  auto  "), "auto");
    assert_eq!(take_after_colon("mode: auto : x"), "auto : x");
    assert_eq!(take_after_colon("a:b:c"), "b:c");
    assert_eq!(take_after_colon("a:"), "");
    assert_eq!(take_after_colon(":  "), "");
    assert_eq!(take_after_colon("auto"), "auto");
    assert_eq!(take_after_colon("  auto  mode \t"), "auto  mode");
    assert_eq!(take_after_colon("   "), "");
    assert_eq!(take_after_colon(""), "");
}

#[test]
fn value_of_a_line_with_a_colon() {
    assert_eq!(take_colon_value("mode:  auto  ").as_deref(), Some("auto"));
    assert_eq!(take_colon_value("a:b:c").as_deref(), Some("b:c"));
    assert_eq!(take_colon_value("a:").as_deref(), Some(""));
    assert_eq!(take_colon_value("auto"), None);
    assert_eq!(take_colon_value(""), None);
}

#[test]
fn lines_without_colon_give_no_pair() {
    let got = parse_kv_lines(&lines(&["a:1", "b", "c : 3 "]));
    let got: Vec<(&str, &str)> = got.iter().map(|kv| (kv.key.as_str(), kv.value.as_str())).collect();
    assert_eq!(got, vec![("a", "1"), ("c", "3")]);
}

#[test]
fn comma_groups_of_a_line() {
    let line = cs("power:100, fre : 3000 ,,duty,mode:0:1,");
    let got: Vec<(String, String)> =
        split_comma_groups(&line).into_iter().map(|(k, v)| (st(k), st(v))).collect();
    let expect: Vec<(String, String)> = vec![
        ("power".into(), "100".into()),
        ("fre".into(), "3000".into()),
        ("mode".into(), "0:1".into()),
    ];
    assert_eq!(got, expect);
    assert!(split_comma_groups(&cs("")).is_empty());
}

#[test]
fn a_trailing_number_is_taken_and_other_text_is_left() {
    let a = cs("name");
    let b = cs("12");
    let c = cs("0x5");
    let mut v: Vec<&[char]> = vec![&a, &c, &b];
    assert_eq!(pop_i32(&mut v), Some(12));
    assert_eq!(v.len(), 2);
    assert_eq!(pop_i32(&mut v), None);
    assert_eq!(v.len(), 2);
    assert_eq!(pop_i32(&mut v), None);
    assert_eq!(pop_text(&mut v).as_deref(), Some("0x5"));
    assert_eq!(pop_text(&mut v).as_deref(), Some("name"));
    assert_eq!(pop_text(&mut v), None);
    assert_eq!(pop_i32(&mut v), None);
    assert!(v.is_empty());
}

#[test]
fn a_trailing_number_must_fit_in_32_bits() {
    let big = cs("2147483648");
    let small = cs("-2147483648");
    let mut v: Vec<&[char]> = vec![&small, &big];
    assert_eq!(pop_i32(&mut v), None);
    assert_eq!(v.len(), 2);
    v.pop();
    assert_eq!(pop_i32(&mut v), Some(i32::MIN));
    assert!(v.is_empty());
}

#[test]
fn first_line_that_holds_a_text() {
    let raw = lines(&["a", "x build", "build 2", "c"]);
    assert_eq!(count_lines_before(&raw, "build"), 1);
    assert_eq!(count_lines_before(&raw, "c"), 3);
    assert_eq!(count_lines_before(&raw, "zzz"), 4);
    assert_eq!(count_lines_before(&[], "a"), 0);
    assert_eq!(find_line(&raw, "build"), "x build");
    assert_eq!(find_line(&raw, "zzz"), "");
}

#[test]
fn version_token_of_a_build_line() {
    assert_eq!(read_version(" / | \\     4.1.0 build Apr 29 2025"), "4.1.0");
    assert_eq!(read_version("3.1.5 then 4.1.0"), "3.1.5");
    assert_eq!(read_version("v. build"), "v.");
    assert_eq!(read_version("build 17:44:53"), "unknown");
    assert_eq!(read_version(""), "unknown");
}

#[test]
fn grammars_that_always_give_a_record() {
    assert!(matches!(parse_version(&[]), Ok(ParsedMessage::Version(_))));
    assert!(matches!(parse_free(&[]), Ok(ParsedMessage::Free(_))));
    assert!(matches!(parse_worktime(&[]), Ok(ParsedMessage::WorkTime(_))));
    assert!(matches!(parse_version(&lines(&["???"])), Ok(ParsedMessage::Version(_))));
    assert!(matches!(parse_free(&lines(&["???"])), Ok(ParsedMessage::Free(_))));
    assert!(matches!(parse_worktime(&lines(&["???"])), Ok(ParsedMessage::WorkTime(_))));
}

#[test]
fn flag_word_errors() {
    assert!(matches!(parse_flagword("WARNING", &[]), Err(ParseError::Empty)));
    assert!(matches!(parse_flagword("WARNING", &lines(&["WARNING"])), Err(ParseError::NoMatch)));
    assert!(matches!(parse_flagword("OTHER", &[]), Err(ParseError::Empty)));
    assert_eq!(ParseError::Empty.message(), "empty");
    assert_eq!(ParseError::NoMatch.message(), "no match");
}

#[test]
fn flag_word_of_another_family_keeps_the_lines() {
    let raw = lines(&["LOCK(0x10) A", "second"]);
    match parse_flagword("OTHER", &raw) {
        Ok(ParsedMessage::Unknown { cmd, lines }) => {
            assert_eq!(cmd, "OTHER");
            assert_eq!(lines, raw);
        }
        other => panic!("unexpected: {:?}", other),
    }
    match parse_flagword("ERROR", &raw) {
        Ok(ParsedMessage::Error(w)) => {
            assert_eq!(w.raw, "0x10");
            assert_eq!(w.labels, "A");
        }
        other => panic!("unexpected: {:?}", other),
    }
}

#[test]
fn flag_word_from_the_groups_of_a_match() {
    let raw = lines(&["x"]);
    let groups = vec![
        Some("whole".to_string()),
        Some("LOCK".to_string()),
        Some("0x1".to_string()),
        Some("A B".to_string()),
    ];
    match flagword_from_captures("LOCK", Some(groups), &raw) {
        Ok(ParsedMessage::Lock(w)) => {
            assert_eq!(w.raw, "0x1");
            assert_eq!(w.labels, "A B");
        }
        other => panic!("unexpected: {:?}", other),
    }
    let groups = vec![None, None, Some("0x2".to_string()), Some(String::new()), Some("more".to_string())];
    match flagword_from_captures("WARNING", Some(groups), &raw) {
        Ok(ParsedMessage::Warning(w)) => {
            assert_eq!(w.raw, "0x2");
            assert_eq!(w.labels, "");
        }
        other => panic!("unexpected: {:?}", other),
    }
    assert!(matches!(flagword_from_captures("LOCK", None, &raw), Err(ParseError::NoMatch)));
    assert!(matches!(flagword_from_captures("LOCK", None, &[]), Err(ParseError::Empty)));
    assert!(matches!(
        flagword_from_captures("LOCK", Some(vec![]), &[]),
        Err(ParseError::Empty)
    ));
}

#[test]
fn a_match_that_gives_no_whole_flag_word_is_no_match() {
    let raw = lines(&["x"]);
    let some = |t: &str| Some(t.to_string());
    let cases: Vec<Vec<Option<String>>> = vec![
        vec![],
        vec![some("whole")],
        vec![some("whole"), some("LOCK"), some("0x1")],
        vec![some("whole"), some("LOCK"), None, some("A")],
        vec![some("whole"), some("LOCK"), some("0x1"), None],
        vec![some("whole"), some("LOCK"), some(""), some("A")],
        vec![some("whole"), some("LOCK"), None, None],
    ];
    for groups in cases {
        for family in ["WARNING", "ERROR", "LOCK", "OTHER"] {
            let got = flagword_from_captures(family, Some(groups.clone()), &raw);
            assert!(matches!(got, Err(ParseError::NoMatch)), "{:?} {:?}", family, groups);
        }
    }
}

#[test]
fn the_flag_pattern_is_a_regular_expression() {
    let re = regex::Regex::new(FLAG_PATTERN).unwrap();
    let caps = re.captures("Lock(0x0aF) a b").unwrap();
    assert_eq!(caps.name("hex").unwrap().as_str(), "0x0aF");
    assert_eq!(caps.name("labels").unwrap().as_str(), "a b");
    assert_eq!(caps.get(2).unwrap().as_str(), "0x0aF");
    assert_eq!(caps.get(3).unwrap().as_str(), "a b");
}

#[test]
fn number_after_a_key() {
    assert_eq!(capture_num(&cs("laser_sub_state(3)"), "laser_sub_state("), Some(3));
    assert_eq!(capture_num(&cs("state(-12)))"), "state("), Some(-12));
    assert_eq!(capture_num(&cs("state(4"), "state("), Some(4));
    assert_eq!(capture_num(&cs("state()"), "state("), None);
    assert_eq!(capture_num(&cs("state(1)2)"), "state("), None);
    assert_eq!(capture_num(&cs("xstate(1)"), "state("), None);
    assert_eq!(capture_num(&cs("stat"), "state("), None);
}

#[test]
fn port_between_the_markers() {
    assert_eq!(read_port(&cs("x local port 80 state LISTEN")), Some(80));
    assert_eq!(read_port(&cs("local port80state")), Some(80));
    assert_eq!(read_port(&cs("local port 80")), None);
    assert_eq!(read_port(&cs("port 80 state")), None);
    assert_eq!(read_port(&cs("local port 8 0 state")), None);
    assert_eq!(read_port(&cs("local port 1 state 2 state")), Some(1));
}

#[test]
fn row_from_tokens() {
    let parts: Vec<Vec<char>> =
        ["main", "loop", "x", "5", "suspend", "0x1", "0x2", "7%", "0x3", "1", "2", "3", "4"]
            .iter()
            .map(|t| cs(t))
            .collect();
    let tokens: Vec<&[char]> = parts.iter().map(|t| t.as_slice()).collect();
    let r = read_row(tokens);
    assert_eq!(r.thread, "main loop x");
    assert_eq!(r.pri, Some(5));
    assert_eq!(r.status, "suspend");
    assert_eq!(r.sp.as_deref(), Some("0x1"));
    assert_eq!(r.stack.as_deref(), Some("0x2"));
    assert_eq!(r.size.as_deref(), Some("7%"));
    assert_eq!(r.max.as_deref(), Some("0x3"));
    assert_eq!(r.used, Some(1));
    assert_eq!(r.left, Some(2));
    assert_eq!(r.tick, Some(3));
    assert_eq!(r.error, Some(4));
    let r = read_row(vec![]);
    assert_eq!(r.thread, "");
    assert_eq!(r.status, "");
    assert_eq!(r.max, None);
    assert_eq!(r.pri, None);
}

#[test]
fn row_with_a_priority_that_is_no_number_keeps_it_in_the_name() {
    let parts: Vec<Vec<char>> =
        ["idle", "high", "ready", "a", "b", "c", "d"].iter().map(|t| cs(t)).collect();
    let tokens: Vec<&[char]> = parts.iter().map(|t| t.as_slice()).collect();
    let r = read_row(tokens);
    assert_eq!(r.thread, "idle high");
    assert_eq!(r.pri, None);
    assert_eq!(r.status, "ready");
}

#[test]
fn keys_name_parameters_by_the_shape_of_their_line() {
    assert!(matches!(lookup(Shape::Pwm, &cs("fre")), Some(Param::PwmFre)));
    assert!(matches!(lookup(Shape::Head, &cs("fre")), Some(Param::HeadFre)));
    assert!(matches!(lookup(Shape::Gas, &cs("early")), Some(Param::GasEarly)));
    assert!(matches!(lookup(Shape::PowerTick, &cs("early")), Some(Param::PowEarly)));
    assert!(matches!(lookup(Shape::Gas, &cs("delay")), Some(Param::GasDelay)));
    assert!(matches!(lookup(Shape::PowerTick, &cs("delay")), Some(Param::PowDelay)));
    assert!(matches!(lookup(Shape::Pulse, &cs("on")), Some(Param::PulseOn)));
    assert!(matches!(lookup(Shape::PowerSwitch, &cs("power on")), Some(Param::PowerOn)));
    assert!(matches!(lookup(Shape::Cycle, &cs("in_len")), Some(Param::FeederInLen)));
    assert!(lookup(Shape::Pulse, &cs("early")).is_none());
    assert!(lookup(Shape::Pwm, &cs("Power")).is_none());
    assert!(lookup(Shape::Head, &cs("mode")).is_none());
}

#[test]
fn no_parameter_is_set_at_the_start() {
    let p = ProcessParams::default();
    assert_eq!(p.power, None);
    assert_eq!(p.index, None);
    assert_eq!(p.feeder_in_delay, None);
    assert!(p.extras.is_empty());
    let q = parse_process_like(&[]);
    assert_eq!(format!("{:?}", p), format!("{:?}", q));
}
