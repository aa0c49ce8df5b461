use msh_reply::number::{parse_i32, parse_i64};
use msh_reply::text::{
    find, remove_char, split, split_once, split_whitespace, starts_with, trim, trim_end,
    trim_end_matches, trim_start, trim_start_matches,
};

fn st(s: &[char]) -> String {
    s.iter().collect()
}

fn next(seed: &mut u64) -> u64 {
    *seed = seed.wrapping_mul(6364136223846793005).wrapping_add(1442695040888963407);
    *seed >> 33
}

fn sample(seed: &mut u64, alphabet: &[char], max_len: u64) -> String {
    let n = next(seed) % (max_len + 1);
    let mut s = String::new();
    for _ in 0..n {
        s.push(alphabet[(next(seed) % alphabet.len() as u64) as usize]);
    }
    s
}

#[test]
fn text_functions_agree_with_std_on_many_texts() {
    let alphabet = [' ', '\t', '\r', 'a', 'b', ':', ',', '\u{a0}', 'é', '(', ')', '\u{2003}'];
    let patterns = ["a", "ab", ":", "a:", " ", "é", ")", "ba", ""];
    let mut seed: u64 = 7;
    for _ in 0..20000 {
        let s = sample(&mut seed, &alphabet, 10);
        let v: Vec<char> = s.chars().collect();
        assert_eq!(st(trim(&v)), s.trim(), "{:?}", s);
        assert_eq!(st(trim_end(&v)), s.trim_end(), "{:?}", s);
        assert_eq!(st(trim_start(&v)), s.trim_start(), "{:?}", s);
        let got: Vec<String> = split_whitespace(&v).into_iter().map(st).collect();
        let expect: Vec<&str> = s.split_whitespace().collect();
        assert_eq!(got, expect, "{:?}", s);
        let got: Vec<String> = split(&v, ',').into_iter().map(st).collect();
        let expect: Vec<&str> = s.split(',').collect();
        assert_eq!(got, expect, "{:?}", s);
        assert_eq!(st(trim_end_matches(&v, ')')), s.trim_end_matches(')'));
        let kept: String = remove_char(&v, '\r').into_iter().collect();
        assert_eq!(kept, s.replace('\r', ""));
        let p = patterns[(next(&mut seed) % patterns.len() as u64) as usize];
        let expect = s.find(p).map(|b| s[..b].chars().count());
        assert_eq!(find(&v, p), expect, "{:?} {:?}", s, p);
        assert_eq!(starts_with(&v, p), s.starts_with(p));
        let got = split_once(&v, p).map(|(a, b)| (st(a), st(b)));
        let expect = s.split_once(p).map(|(a, b)| (a.to_string(), b.to_string()));
        assert_eq!(got, expect, "{:?} {:?}", s, p);
        assert_eq!(st(trim_start_matches(&v, p)), s.trim_start_matches(p), "{:?} {:?}", s, p);
    }
}

#[test]
fn integers_agree_with_std_on_many_texts() {
    let alphabet = ['0', '1', '2', '9', '8', '-', '+', ' ', 'x'];
    let mut seed: u64 = 11;
    for _ in 0..20000 {
        let s = sample(&mut seed, &alphabet, 21);
        let v: Vec<char> = s.chars().collect();
        assert_eq!(parse_i64(&v), s.parse::<i64>().ok(), "{:?}", s);
        assert_eq!(parse_i32(&v), s.parse::<i32>().ok(), "{:?}", s);
    }
    let digits = ['0', '1', '9', '2', '3', '7'];
    for _ in 0..20000 {
        let mut s = sample(&mut seed, &['-', '+'], 1);
        s.push_str(&sample(&mut seed, &digits, 20));
        let v: Vec<char> = s.chars().collect();
        assert_eq!(parse_i64(&v), s.parse::<i64>().ok(), "{:?}", s);
        assert_eq!(parse_i32(&v), s.parse::<i32>().ok(), "{:?}", s);
    }
}
