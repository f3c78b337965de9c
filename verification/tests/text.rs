use examine::text::{
    char_is_whitespace, contains, is_text, parse_number, segment_end,
    skip_blank, split_bounds, starts_with, to_chars, token_bounds, token_end, trim_bounds,
};

const SAMPLES: [&str; 24] = [
    "",
    " ",
    "a",
    " a ",
    "\t\n a b \r\n",
    "\u{a0}x\u{2009}y\u{3000}",
    "\u{85}",
    "\u{1680}\u{2028}\u{2029}\u{202f}\u{205f}z",
    "no-blank",
    "two  words",
    "a.b.c",
    "..",
    "a/b/",
    "/",
    "line one\nline two\n",
    "\n\n",
    "ends with newline\n",
    "crlf\r\nlines\r\n",
    "héllo wörld",
    "日本語 テキスト",
    "😀 emoji 😀",
    "go 1.21",
    "module example.org/x",
    "\u{200b}zero-width\u{200b}",
];

fn text_at(s: &str, bounds: (usize, usize)) -> String {
    s.chars().skip(bounds.0).take(bounds.1 - bounds.0).collect()
}

#[test]
fn whitespace_is_what_char_says() {
    for code in 0..=0x10FFFFu32 {
        if let Some(c) = char::from_u32(code) {
            assert_eq!(char_is_whitespace(c), c.is_whitespace(), "U+{:04X}", code);
        }
    }
}

#[test]
fn to_chars_gives_the_characters() {
    for s in SAMPLES {
        assert_eq!(to_chars(s), s.chars().collect::<Vec<char>>());
    }
}

#[test]
fn trim_bounds_agree_with_trim() {
    for s in SAMPLES {
        let chars = to_chars(s);
        let bounds = trim_bounds(&chars);
        assert!(bounds.0 <= bounds.1 && bounds.1 <= chars.len());
        assert_eq!(text_at(s, bounds), s.trim(), "{:?}", s);
    }
}

#[test]
fn blank_and_token_counts() {
    for s in SAMPLES {
        let chars = to_chars(s);
        assert_eq!(
            skip_blank(&chars),
            s.chars().take_while(|c| c.is_whitespace()).count(),
            "{:?}",
            s
        );
        assert_eq!(
            token_end(&chars),
            s.chars().take_while(|c| !c.is_whitespace()).count(),
            "{:?}",
            s
        );
    }
}

#[test]
fn token_bounds_agree_with_split_whitespace() {
    for s in SAMPLES {
        let chars = to_chars(s);
        let bounds = token_bounds(&chars);
        assert_eq!(
            text_at(s, bounds),
            s.split_whitespace().next().unwrap_or(""),
            "{:?}",
            s
        );
    }
}

#[test]
fn split_bounds_agree_with_split() {
    for s in SAMPLES {
        for sep in ['.', '/', '\n', ' ', 'l', 'x'] {
            let chars = to_chars(s);
            let bounds = split_bounds(&chars, sep);
            let found: Vec<String> = bounds.iter().map(|b| text_at(s, *b)).collect();
            let expected: Vec<&str> = s.split(sep).collect();
            assert_eq!(found, expected, "{:?} at {:?}", s, sep);
            assert_eq!(
                segment_end(&chars, sep),
                s.chars().take_while(|c| *c != sep).count()
            );
        }
    }
}

#[test]
fn contains_agrees_with_str() {
    let patterns = ["", "a", "b/", "line", "two", "\n", "wör", "😀", "go ", "xyz", "..", "ne t", "e\nl"];
    for s in SAMPLES {
        let chars = to_chars(s);
        for pattern in patterns {
            assert_eq!(
                contains(&chars, pattern),
                s.contains(pattern),
                "{:?} in {:?}",
                pattern,
                s
            );
            assert_eq!(
                starts_with(&chars, pattern),
                s.starts_with(pattern),
                "{:?} at the start of {:?}",
                pattern,
                s
            );
            assert_eq!(is_text(&chars, pattern), s == pattern);
        }
        assert!(contains(&chars, s));
        assert!(starts_with(&chars, s));
        assert!(is_text(&chars, s));
    }
}

#[test]
fn numbers_agree_with_parse() {
    let texts = [
        "0", "1", "18", "+18", "-18", "", "+", "-", "++1", "+-1", "0018", "4294967295",
        "4294967296", "4294967294", "42949672950", "429496729", "9999999999", "1_0", "1e3", "1.0",
        " 1", "1 ", "12a", "a12", "٣", "１２", "00000000000000000000000001", "3000000000",
        "4294967300", "+4294967295", "+4294967296", "+0", "+00", "0x10",
    ];
    for text in texts {
        let chars = to_chars(text);
        assert_eq!(parse_number(&chars), text.parse::<u32>().ok(), "{:?}", text);
    }
}

#[test]
fn numbers_up_to_a_bound_round_trip() {
    for n in (0..200_000u32).chain(u32::MAX - 1000..=u32::MAX) {
        let text = n.to_string();
        assert_eq!(parse_number(&to_chars(&text)), Some(n));
    }
}
