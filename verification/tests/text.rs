//! Strings, held against what std says of them.
use zeroclaw_runtime::message::{msg, plain, Text, Texts};
use zeroclaw_runtime::text::{
    chars_of, contains, equals_lowered, is_blank, is_whitespace, join, parse_u64, same_opt, same_text, sorts_before,
    split_at_mark, split_at_whitespace, starts_with, strip_prefix, to_ascii_lowercase, trim, trim_start, write_u64,
};

const SAMPLES: [&str; 16] = [
    "",
    " ",
    "a",
    " a ",
    "\t\u{a0}a b\u{2003}\n",
    "\u{200b}x\u{feff}",
    "/goal start  ship it ",
    "é\u{85}ü",
    "ÀB c",
    "k=v=w",
    "=",
    "goal goal",
    "日本 語",
    "UNLIMITED",
    "unlimited",
    "\u{1f600} smile",
];

#[test]
fn whitespace_is_what_the_standard_says() {
    for code in 0..=0x10ffffu32 {
        if let Some(c) = char::from_u32(code) {
            assert_eq!(is_whitespace(c), c.is_whitespace(), "U+{code:04X}");
        }
    }
}

#[test]
fn pieces_of_texts_are_what_the_standard_says() {
    for s in SAMPLES {
        assert_eq!(trim(s), s.trim());
        assert_eq!(trim_start(s), s.trim_start());
        assert_eq!(to_ascii_lowercase(s), s.to_ascii_lowercase());
        assert_eq!(is_blank(s), s.trim().is_empty());
        assert_eq!(split_at_mark(s, '='), s.split_once('='));
        assert_eq!(split_at_whitespace(s), s.split_once(char::is_whitespace));
        assert_eq!(chars_of(s), s.chars().collect::<Vec<char>>());
        for t in SAMPLES {
            assert_eq!(same_text(s, t), s == t);
            assert_eq!(starts_with(s, t), s.starts_with(t));
            assert_eq!(strip_prefix(s, t), s.strip_prefix(t));
            assert_eq!(contains(s, t), s.contains(t));
            assert_eq!(sorts_before(s, t), s < t, "{s:?} against {t:?}");
            assert_eq!(join(s, t), format!("{s}{t}"));
            assert_eq!(equals_lowered(s, t), s.to_ascii_lowercase() == t);
            let (a, b) = (Some(s.to_string()), Some(t.to_string()));
            assert_eq!(same_opt(&a, &b), a == b);
        }
    }
    assert!(same_opt(&None, &None));
    assert!(!same_opt(&None, &Some(String::new())));
}

#[test]
fn counts_are_read_as_the_standard_reads_them() {
    for s in [
        "", "+", "-", "0", "+5", "-0", "-5", "007", "12", " 12", "12 ", "1_000", "0x10", "18446744073709551615",
        "18446744073709551616", "99999999999999999999", "٣", "1e3", "++1", "000000000000000000000000000001",
    ] {
        assert_eq!(parse_u64(s), s.parse::<u64>().ok(), "{s:?}");
    }
}

#[test]
fn counts_are_written_as_the_standard_writes_them() {
    for n in [0, 7, 10, 42, 999, 1_000, 1_000_000, u64::MAX - 1, u64::MAX] {
        assert_eq!(write_u64(n), n.to_string());
        assert_eq!(parse_u64(&write_u64(n)), Some(n));
    }
}

#[test]
fn every_ascii_letter_is_lowered() {
    for code in 0..=0x250u32 {
        if let Some(c) = char::from_u32(code) {
            let s = c.to_string();
            assert_eq!(to_ascii_lowercase(&s), s.to_ascii_lowercase(), "U+{code:04X}");
        }
    }
}

#[test]
fn texts_with_fixed_characters_are_spelled_out() {
    assert_eq!(plain("a").spell().as_deref(), Some("a"));
    assert_eq!(Text::Fixed("b").spell().as_deref(), Some("b"));
    assert_eq!(Text::Number(120).spell().as_deref(), Some("120"));
    assert_eq!(Text::Trimmed(Box::new(plain(" c\n"))).spell().as_deref(), Some("c"));
    let joined = Text::Joined(
        ", ",
        Box::new(Texts::Item(plain("a"), Box::new(Texts::Item(Text::Number(7), Box::new(Texts::End))))),
    );
    assert_eq!(joined.spell().as_deref(), Some("a, 7"));
    assert_eq!(msg("goal-command-help").spell(), None);
    assert!(Text::Trimmed(Box::new(plain(" \t"))).is_blank());
    assert!(!Text::Trimmed(Box::new(plain(" x"))).is_blank());
}
