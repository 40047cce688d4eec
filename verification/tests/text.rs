use k_ruoka_mcp::amount::{Double, max_amount, one, zero};
use k_ruoka_mcp::text;

#[test]
fn white_space_is_unicodes() {
    for n in 0..=0x10ffffu32 {
        if let Some(c) = char::from_u32(n) {
            assert_eq!(text::white(c), c.is_whitespace(), "U+{n:04X}");
        }
    }
}

#[test]
fn trimming_agrees_with_std() {
    for s in ["", " ", "a", " a ", "\t\u{2003}ä b\u{3000}\n", "\u{200b} x"] {
        assert_eq!(text::trim(s), s.trim());
        assert_eq!(text::trim_start(s), s.trim_start());
        assert_eq!(text::blank(s), s.trim().is_empty());
    }
    assert_eq!(text::trim_end_of("a.b...", '.'), "a.b");
    assert_eq!(text::trim_end_of("...", '.'), "");
}

#[test]
fn searching_agrees_with_std() {
    for s in ["", "a", "abcabd", "Pyyntö estetty", "aaab"] {
        for part in ["", "a", "abd", "tö e", "aab", "abcabdx"] {
            assert_eq!(text::contains(s, part), s.contains(part), "{s:?} {part:?}");
            assert_eq!(text::starts_with(s, part), s.starts_with(part), "{s:?} {part:?}");
            assert_eq!(text::same(s, part), s == part, "{s:?} {part:?}");
            assert_eq!(text::less(s, part), s < part, "{s:?} {part:?}");
        }
    }
}

#[test]
fn splitting_agrees_with_std() {
    for s in ["", ".", "a", "a.b", "150.0.7871.181", ".a..", "x\ny\n"] {
        assert_eq!(text::split(s, '.'), s.split('.').collect::<Vec<_>>());
        assert_eq!(text::split(s, '\n'), s.split('\n').collect::<Vec<_>>());
    }
    for s in ["", "  ", "a", " Google Chrome 150.0\u{a0}x ", "a\n\nb"] {
        assert_eq!(text::split_words(s), s.split_whitespace().collect::<Vec<_>>());
    }
    let parts = vec!["a".to_string(), "b".to_string(), "c".to_string()];
    assert_eq!(text::join(&parts, ", "), "a, b, c");
    assert_eq!(text::join(&Vec::new(), ", "), "");
}

#[test]
fn numbers_agree_with_std() {
    for n in [0u64, 7, 10, 99, 100, 65535, u64::MAX] {
        assert_eq!(text::number(n), n.to_string());
    }
    for s in [
        "", "+", "0", "007", "+42", "-1", "12x", "18446744073709551615", "18446744073709551616",
        "99999999999999999999999", "++1", " 1",
    ] {
        assert_eq!(text::parse_number(s), s.parse::<u64>().ok(), "{s:?}");
    }
}

#[test]
fn heads_are_counted_in_characters() {
    assert_eq!(text::head("äöå", 2), "äö");
    assert_eq!(text::head("äöå", 3), "äöå");
    assert_eq!(text::head("äöå", 9), "äöå");
    assert_eq!(text::head("", 1), "");
}

#[test]
fn doubles_compare_as_the_hardware_does() {
    let samples = [
        0.0,
        -0.0,
        1.0,
        -1.0,
        0.5,
        998.9999,
        999.0,
        999.0000001,
        1e9,
        -1e9,
        f64::MIN_POSITIVE,
        5e-324,
        -5e-324,
        f64::MAX,
        f64::MIN,
        f64::INFINITY,
        f64::NEG_INFINITY,
        f64::NAN,
    ];
    for a in samples {
        let x = Double { bits: a.to_bits() };
        assert_eq!(x.is_nan(), a.is_nan(), "{a}");
        assert_eq!(x.finite(), a.is_finite(), "{a}");
        for b in samples {
            let y = Double { bits: b.to_bits() };
            assert_eq!(x.less(y), a < b, "{a} {b}");
            assert_eq!(x.equals(y), a == b, "{a} {b}");
        }
    }
    assert_eq!(f64::from_bits(zero().bits), 0.0);
    assert_eq!(f64::from_bits(one().bits), 1.0);
    assert_eq!(f64::from_bits(max_amount().bits), 999.0);
}
