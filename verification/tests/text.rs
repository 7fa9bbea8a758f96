use term_sessions::number::{parse_count, to_decimal};
use term_sessions::search::{find, lines, split, split_once, starts_with, strip_prefix, trim_end_matches};
use term_sessions::text::{is_space, to_chars, to_string, trim};

fn chars(s: &str) -> Vec<char> {
    s.chars().collect()
}

fn text(v: &[char]) -> String {
    v.iter().collect()
}

const SAMPLES: [&str; 24] = [
    "",
    " ",
    "a",
    "  a  ",
    "\t\r\n a b \u{3000}\u{85}",
    "\u{a0}x\u{2003}",
    "## main...origin/main [ahead 1, behind 2]",
    "a\nb",
    "a\r\nb\r\n",
    "\n",
    "\n\n",
    "a\r",
    "\r\n",
    "a\n\r",
    "a,b,,c,",
    ",",
    "old -> new -> newer",
    "+12",
    "007",
    "é\nü\n",
    "]]]",
    "x]y]]",
    "...",
    " [",
];

#[test]
fn whitespace_is_the_unicode_property() {
    for v in 0u32..=0x10FFFF {
        if let Some(c) = char::from_u32(v) {
            assert_eq!(is_space(c), c.is_whitespace(), "U+{:04X}", v);
        }
    }
}

#[test]
fn characters_and_strings_convert_both_ways() {
    for s in SAMPLES {
        assert_eq!(to_chars(s), chars(s));
        assert_eq!(to_string(&chars(s)), s);
    }
}

#[test]
fn trim_is_the_standard_trim() {
    for s in SAMPLES {
        assert_eq!(text(&trim(&chars(s))), s.trim(), "{:?}", s);
    }
    assert_eq!(text(&trim(&chars("  a b  "))), "a b");
    assert_eq!(text(&trim(&chars(" \t "))), "");
}

#[test]
fn lines_are_the_standard_lines() {
    for s in SAMPLES {
        let got: Vec<String> = lines(&chars(s)).iter().map(|l| text(l)).collect();
        let want: Vec<String> = s.lines().map(|l| l.to_string()).collect();
        assert_eq!(got, want, "{:?}", s);
    }
    let got: Vec<String> = lines(&chars("a\r\nb\n\nc")).iter().map(|l| text(l)).collect();
    assert_eq!(got, vec!["a", "b", "", "c"]);
}

#[test]
fn split_is_the_standard_split() {
    for s in SAMPLES {
        let got: Vec<String> = split(&chars(s), ',').iter().map(|l| text(l)).collect();
        let want: Vec<String> = s.split(',').map(|l| l.to_string()).collect();
        assert_eq!(got, want, "{:?}", s);
    }
    let got: Vec<String> = split(&chars("a,,b"), ',').iter().map(|l| text(l)).collect();
    assert_eq!(got, vec!["a", "", "b"]);
}

#[test]
fn find_and_split_once_take_the_first_occurrence() {
    let patterns = [" -> ", "...", " [", ",", "", "a", "\n"];
    for s in SAMPLES {
        for p in patterns {
            let want = s.find(p).map(|byte| s[..byte].chars().count());
            assert_eq!(find(&chars(s), &chars(p)), want, "{:?} in {:?}", p, s);
            let got = split_once(&chars(s), &chars(p)).map(|(a, b)| (text(&a), text(&b)));
            let want = s.split_once(p).map(|(a, b)| (a.to_string(), b.to_string()));
            assert_eq!(got, want, "{:?} in {:?}", p, s);
        }
    }
    assert_eq!(find(&chars("a -> b -> c"), &chars(" -> ")), Some(1));
    assert_eq!(find(&chars("abc"), &chars("abcd")), None);
}

#[test]
fn prefixes_are_recognised_and_removed() {
    let patterns = ["## ", "a", "", "ahead ", "+"];
    for s in SAMPLES {
        for p in patterns {
            assert_eq!(starts_with(&chars(s), &chars(p)), s.starts_with(p));
            let got = strip_prefix(&chars(s), &chars(p)).map(|r| text(&r));
            assert_eq!(got, s.strip_prefix(p).map(|r| r.to_string()));
        }
    }
    assert_eq!(strip_prefix(&chars("## main"), &chars("## ")).map(|r| text(&r)), Some("main".to_string()));
    assert_eq!(strip_prefix(&chars("#"), &chars("## ")), None);
}

#[test]
fn trailing_characters_are_removed() {
    for s in SAMPLES {
        assert_eq!(text(&trim_end_matches(&chars(s), ']')), s.trim_end_matches(']'));
    }
    assert_eq!(text(&trim_end_matches(&chars("x]y]]"), ']')), "x]y");
    assert_eq!(text(&trim_end_matches(&chars("]]"), ']')), "");
}

#[test]
fn counts_parse_as_the_machine_word_or_zero() {
    let max = usize::MAX.to_string();
    let over = format!("{}0", max);
    let mut bumped = max.clone().into_bytes();
    let last = bumped.len() - 1;
    bumped[last] += 1;
    let bumped = String::from_utf8(bumped).unwrap();
    let inputs = [
        "", "0", "7", "12", "+12", "007", "-1", "+", "++1", "1 ", " 1", "1a", "١٢", "1_000",
        max.as_str(), over.as_str(), bumped.as_str(), "99999999999999999999999999",
    ];
    for s in inputs {
        assert_eq!(parse_count(&chars(s)), s.parse::<usize>().unwrap_or(0), "{:?}", s);
    }
    assert_eq!(parse_count(&chars("42")), 42);
    assert_eq!(parse_count(&chars("+3")), 3);
    assert_eq!(parse_count(&chars("x")), 0);
    assert_eq!(parse_count(&chars(&max)), usize::MAX);
    assert_eq!(parse_count(&chars(&over)), 0);
}

#[test]
fn numbers_are_written_in_decimal() {
    for n in [0u32, 1, 9, 10, 11, 99, 100, 4096, 65535, 1_000_000, u32::MAX] {
        assert_eq!(text(&to_decimal(n)), n.to_string());
    }
    assert_eq!(text(&to_decimal(1234)), "1234");
}
