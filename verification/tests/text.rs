use msh_reply::text::{
    char_is_whitespace, chars_of, contains, equals, find, has_char, join, remove_char, split,
    split_once, split_once_char, split_whitespace, starts_with, string_of, strip_prefix, trim,
    trim_end, trim_end_matches, trim_start, trim_start_matches,
};

fn cs(s: &str) -> Vec<char> {
    s.chars().collect()
}

fn st(s: &[char]) -> String {
    s.iter().collect()
}

const SAMPLES: [&str; 24] = [
    "",
    " ",
    "a",
    "  a  ",
    "\t\r\n a b \u{a0}",
    "total   : 64424",
    "power:100,fre:3000,duty:100,mode:0",
    "head mode:head mode:1,fre:8",
    "a,b,,c,",
    ",",
    ",,",
    "::",
    "key:value:more",
    " \u{3000}wide\u{2003}space\u{85}",
    "no colon here",
    "ends with colon:",
    ":starts with colon",
    "laser_sub_state(3)))",
    "TCP local port 80 state LISTEN",
    "PA IN=0x3704, OUT=0x   0",
    "é:ü,ß",
    "\u{1680}x\u{180e}y\u{200b}z\u{feff}",
    "statestate",
    "aaa",
];

#[test]
fn whitespace_is_what_std_calls_whitespace() {
    let mut n: u32 = 0;
    while n <= 0x10ffff {
        if let Some(c) = char::from_u32(n) {
            assert_eq!(char_is_whitespace(c), c.is_whitespace(), "code point {:x}", n);
        }
        n += 1;
    }
}

#[test]
fn chars_and_strings_convert_both_ways() {
    for s in SAMPLES {
        assert_eq!(chars_of(s), cs(s));
        assert_eq!(string_of(&cs(s)), s);
    }
}

#[test]
fn trimming_agrees_with_std() {
    for s in SAMPLES {
        let v = cs(s);
        assert_eq!(st(trim(&v)), s.trim());
        assert_eq!(st(trim_end(&v)), s.trim_end());
        assert_eq!(st(trim_start(&v)), s.trim_start());
    }
}

#[test]
fn trimming_keeps_inner_white_space() {
    assert_eq!(st(trim(&cs("  a  b  "))), "a  b");
    assert_eq!(st(trim_end(&cs("  a  b  "))), "  a  b");
    assert_eq!(st(trim_start(&cs("  a  b  "))), "a  b  ");
    assert_eq!(st(trim(&cs(" \t "))), "");
}

#[test]
fn searching_agrees_with_std() {
    let patterns = [":", ",", "state", "local port", "IN=", "OUT=", "aa", "a", "", "é", "zzz"];
    for s in SAMPLES {
        let v = cs(s);
        for p in patterns {
            let expect = s.find(p).map(|b| s[..b].chars().count());
            assert_eq!(find(&v, p), expect, "find {:?} in {:?}", p, s);
            assert_eq!(contains(&v, p), s.contains(p));
            assert_eq!(starts_with(&v, p), s.starts_with(p));
            assert_eq!(equals(&v, p), s == p);
            let halves = split_once(&v, p).map(|(a, b)| (st(a), st(b)));
            let expect = s.split_once(p).map(|(a, b)| (a.to_string(), b.to_string()));
            assert_eq!(halves, expect, "split_once {:?} at {:?}", s, p);
            let rest = strip_prefix(&v, p).map(|r| st(r));
            assert_eq!(rest, s.strip_prefix(p).map(|r| r.to_string()));
        }
    }
}

#[test]
fn find_gives_the_first_of_several() {
    assert_eq!(find(&cs("abcabc"), "bc"), Some(1));
    assert_eq!(find(&cs("abcabc"), "cb"), None);
    assert_eq!(find(&cs("aaa"), "aa"), Some(0));
    assert_eq!(find(&cs("ab"), "abc"), None);
}

#[test]
fn splitting_at_a_character_agrees_with_std() {
    for s in SAMPLES {
        let v = cs(s);
        for c in [',', ':', ' ', 'a'] {
            let got: Vec<String> = split(&v, c).into_iter().map(st).collect();
            let expect: Vec<String> = s.split(c).map(|p| p.to_string()).collect();
            assert_eq!(got, expect, "split {:?} at {:?}", s, c);
            let halves = split_once_char(&v, c).map(|(a, b)| (st(a), st(b)));
            let expect = s.split_once(c).map(|(a, b)| (a.to_string(), b.to_string()));
            assert_eq!(halves, expect);
            assert_eq!(has_char(&v, c), s.contains(c));
            assert_eq!(st(trim_end_matches(&v, c)), s.trim_end_matches(c));
            let kept: String = remove_char(&v, c).into_iter().collect();
            assert_eq!(kept, s.replace(c, ""));
        }
    }
}

#[test]
fn split_gives_empty_pieces() {
    let got: Vec<String> = split(&cs("a,,b,"), ',').into_iter().map(st).collect();
    assert_eq!(got, vec!["a", "", "b", ""]);
    let got: Vec<String> = split(&cs(""), ',').into_iter().map(st).collect();
    assert_eq!(got, vec![""]);
}

#[test]
fn tokens_agree_with_std() {
    for s in SAMPLES {
        let v = cs(s);
        let got: Vec<String> = split_whitespace(&v).into_iter().map(st).collect();
        let expect: Vec<String> = s.split_whitespace().map(|p| p.to_string()).collect();
        assert_eq!(got, expect, "tokens of {:?}", s);
    }
}

#[test]
fn tokens_of_a_line_with_several_blanks() {
    let got: Vec<String> = split_whitespace(&cs("  tidle   31\tready ")).into_iter().map(st).collect();
    assert_eq!(got, vec!["tidle", "31", "ready"]);
    assert!(split_whitespace(&cs(" \t ")).is_empty());
}

#[test]
fn leading_repetitions_are_all_removed() {
    for s in SAMPLES {
        let v = cs(s);
        for p in ["head mode:", "a", "state", ":", ""] {
            assert_eq!(st(trim_start_matches(&v, p)), s.trim_start_matches(p), "{:?} {:?}", s, p);
        }
    }
    assert_eq!(st(trim_start_matches(&cs("ababab1"), "ab")), "1");
}

#[test]
fn joining_puts_the_separator_between() {
    let a = cs("my");
    let b = cs("thread");
    let c = cs("name");
    let parts: Vec<&[char]> = vec![&a, &b, &c];
    assert_eq!(st(&join(&parts, " ")), "my thread name");
    let one: Vec<&[char]> = vec![&a];
    assert_eq!(st(&join(&one, " ")), "my");
    let none: Vec<&[char]> = vec![];
    assert_eq!(st(&join(&none, " ")), "");
    let with_empty: Vec<&[char]> = vec![&a, &[], &b];
    assert_eq!(st(&join(&with_empty, ", ")), "my, , thread");
}
