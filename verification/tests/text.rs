use ricci_cli::text::{
    byte_len_of, char_is_whitespace, chars_of, chars_within, chars_within_end, contains_in,
    count_in, decimal_of, exceeds_bytes, find_in, matches_at, push_joined, same_chars,
    split_lines, split_words, str_contains, str_eq, string_of, subvec, suffix_stripped_len,
    trim_bounds, trimmed, utf8_len_of,
};

fn v(s: &str) -> Vec<char> {
    s.chars().collect()
}

fn s(v: &[char]) -> String {
    v.iter().collect()
}

const SAMPLES: [&str; 16] = [
    "",
    " ",
    "a",
    "  a b  ",
    "\t\n x \r\n",
    "한글 텍스트\n둘째 줄",
    "a\nb\n",
    "a\r\nb\r",
    "\n\n",
    "\r\n\r",
    "no newline",
    "trailing\n",
    "\u{a0}nbsp\u{3000}",
    "x\u{2003}y\u{85}z",
    "```rust\nfn main() {}\n```",
    "a\n\r\nb\r\r\n",
];

#[test]
fn whitespace_is_that_of_unicode() {
    for code in 0..=0x10FFFFu32 {
        if let Some(c) = char::from_u32(code) {
            assert_eq!(char_is_whitespace(c), c.is_whitespace(), "U+{:04X}", code);
        }
    }
}

#[test]
fn conversions_round_trip() {
    for sample in SAMPLES {
        assert_eq!(chars_of(sample), v(sample));
        assert_eq!(string_of(&v(sample)), sample);
    }
}

#[test]
fn trimming_agrees_with_std() {
    for sample in SAMPLES {
        assert_eq!(s(&trimmed(&v(sample))), sample.trim(), "{:?}", sample);
        let chars = v(sample);
        let (a, b) = trim_bounds(&chars, 0, chars.len());
        assert_eq!(s(&chars[a..b]), sample.trim());
    }
    let chars = v("ab  cd  ef");
    let (a, b) = trim_bounds(&chars, 2, 8);
    assert_eq!((a, b), (4, 6));
}

#[test]
fn lines_agree_with_std() {
    for sample in SAMPLES {
        let lines: Vec<String> = split_lines(&v(sample)).iter().map(|l| s(l)).collect();
        let expected: Vec<String> = sample.lines().map(|l| l.to_string()).collect();
        assert_eq!(lines, expected, "{:?}", sample);
    }
}

#[test]
fn words_agree_with_std() {
    for sample in SAMPLES {
        let words: Vec<String> = split_words(&v(sample)).iter().map(|l| s(l)).collect();
        let expected: Vec<String> = sample.split_whitespace().map(|l| l.to_string()).collect();
        assert_eq!(words, expected, "{:?}", sample);
    }
}

#[test]
fn finding_agrees_with_std() {
    let patterns = ["", "a", "\n", "ab", "줄", "```", " ", "b\r", "zz"];
    for sample in SAMPLES {
        for pattern in patterns {
            let chars = v(sample);
            let found = find_in(&chars, &v(pattern), 0);
            let expected = sample.find(pattern).map(|at| sample[..at].chars().count());
            assert_eq!(found, expected, "{:?} in {:?}", pattern, sample);
            assert_eq!(contains_in(&chars, &v(pattern)), sample.contains(pattern));
            assert_eq!(str_contains(sample, pattern), sample.contains(pattern));
            assert_eq!(matches_at(&chars, &v(pattern), 0), sample.starts_with(pattern));
            assert_eq!(count_in(&chars, &v(pattern)), sample.matches(pattern).count());
        }
    }
    assert_eq!(find_in(&v("abcabc"), &v("bc"), 2), Some(4));
    assert_eq!(find_in(&v("abcabc"), &v("bc"), 5), None);
    assert_eq!(find_in(&v("abc"), &v(""), 3), Some(3));
    assert_eq!(find_in(&v("abc"), &v(""), 4), None);
    assert_eq!(count_in(&v("aaaa"), &v("aa")), 2);
    assert_eq!(count_in(&v("aaa"), &v("aa")), 1);
}

#[test]
fn equality_and_slices() {
    assert!(str_eq("한글", "한글") && !str_eq("a", "b") && !str_eq("a", "ab") && str_eq("", ""));
    assert!(same_chars(&v("ab"), &v("ab")) && !same_chars(&v("ab"), &v("ba")));
    assert_eq!(subvec(&v("hello"), 1, 3), v("el"));
    assert_eq!(subvec(&v("hello"), 2, 2), v(""));
}

#[test]
fn decimal_notation() {
    for n in [0u64, 1, 9, 10, 11, 99, 100, 101, 12345, 1_000_000, u64::MAX] {
        assert_eq!(s(&decimal_of(n)), n.to_string());
    }
}

#[test]
fn bytes_of_utf8() {
    for c in ['a', '\u{7f}', '\u{80}', 'é', '\u{7ff}', '\u{800}', '한', '\u{ffff}', '\u{10000}', '😀'] {
        assert_eq!(utf8_len_of(c), c.len_utf8());
    }
    for sample in SAMPLES {
        assert_eq!(byte_len_of(sample), sample.len());
        for max in [0usize, 1, 2, 3, 4, 6, 50, 100] {
            let chars = v(sample);
            assert_eq!(exceeds_bytes(&chars, max), sample.len() > max);
            let n = chars_within(&chars, max);
            let prefix: String = chars[..n].iter().collect();
            assert!(prefix.len() <= max);
            assert!(n == chars.len() || prefix.len() + chars[n].len_utf8() > max);
            let m = chars_within_end(&chars, max);
            let suffix: String = chars[chars.len() - m..].iter().collect();
            assert!(suffix.len() <= max);
            assert!(m == chars.len() || suffix.len() + chars[chars.len() - m - 1].len_utf8() > max);
        }
    }
}

#[test]
fn suffixes_are_stripped_as_std_does() {
    let cases = [("a.rs.rs", ".rs"), ("a.rs", ".py"), ("xxx", "x"), ("abab", "ab"), ("a", ""), ("", "a"), ("한글글", "글")];
    for (text, suffix) in cases {
        let chars = v(text);
        let n = suffix_stripped_len(&chars, &v(suffix));
        assert_eq!(s(&chars[..n]), text.trim_end_matches(suffix), "{:?} {:?}", text, suffix);
    }
}

#[test]
fn joining_agrees_with_std() {
    let items = vec!["a".to_string(), "".to_string(), "b c".to_string()];
    for n in 0..=3 {
        let mut out = v("-> ");
        push_joined(&mut out, &items, n, ", ");
        assert_eq!(s(&out), format!("-> {}", items[..n].join(", ")));
    }
}

#[test]
fn a_time_stands_behind_its_date() {
    let mut out: Vec<char> = "at ".chars().collect();
    ricci_cli::clock::push_dated_time(&mut out, &Some("2024-02-29".to_string()), 86_399);
    assert_eq!(out.iter().collect::<String>(), "at 2024-02-29 23:59:59");
    let mut bare: Vec<char> = Vec::new();
    ricci_cli::clock::push_dated_time(&mut bare, &None, -1);
    assert_eq!(bare.iter().collect::<String>(), "23:59:59");
    let mut short: Vec<char> = Vec::new();
    ricci_cli::clock::push_dated_hours_minutes(&mut short, &Some("1999-12-31".to_string()), 3_660);
    assert_eq!(short.iter().collect::<String>(), "1999-12-31 01:01");
}

#[test]
fn the_calendar_gives_the_date_of_a_timestamp() {
    let mut out: Vec<char> = Vec::new();
    ricci_cli::clock::push_date_time(&mut out, 951_782_400 + 45_296);
    assert_eq!(out.iter().collect::<String>(), "2000-02-29 12:34:56");
    let mut early: Vec<char> = Vec::new();
    ricci_cli::clock::push_date_hours_minutes(&mut early, -86_400);
    assert_eq!(early.iter().collect::<String>(), "1969-12-31 00:00");
    let mut far: Vec<char> = Vec::new();
    ricci_cli::clock::push_date_time(&mut far, i64::MAX);
    assert_eq!(far.iter().collect::<String>(), "15:30:07");
}
