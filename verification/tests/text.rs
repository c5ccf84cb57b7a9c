use chainlink::text::{chars_of, same_text, trim_bounds, whitespace};

#[test]
fn whitespace_is_what_unicode_says() {
    for code in 0..=0x10ffff_u32 {
        if let Some(c) = char::from_u32(code) {
            assert_eq!(whitespace(c), c.is_whitespace(), "U+{:04X}", code);
        }
    }
}

#[test]
fn chars_of_keeps_every_character() {
    assert_eq!(chars_of(""), Vec::<char>::new());
    assert_eq!(chars_of("aé\u{3000}z"), vec!['a', 'é', '\u{3000}', 'z']);
}

#[test]
fn trim_bounds_match_trim() {
    for sample in ["", " ", "a", " a", "a ", "  a b  ", "\t\n x \r\n", "\u{a0}é\u{2003}", "   "] {
        let chars = chars_of(sample);
        let (lo, hi) = trim_bounds(&chars);
        let kept: String = chars[lo..hi].iter().collect();
        assert_eq!(kept, sample.trim(), "{:?}", sample);
    }
    assert_eq!(trim_bounds(&chars_of("  ab ")), (2, 4));
}

#[test]
fn same_text_compares_characters() {
    assert!(same_text("", ""));
    assert!(same_text("low", "low"));
    assert!(!same_text("low", "Low"));
    assert!(!same_text("low", "lo"));
    assert!(!same_text("a", "b"));
}
