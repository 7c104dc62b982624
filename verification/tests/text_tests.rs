use cn2en::{chars_of, is_blank_str, is_whitespace, trim};

#[test]
fn whitespace_matches_std_for_every_char() {
    for code in 0..=0x10FFFFu32 {
        if let Some(c) = char::from_u32(code) {
            assert_eq!(is_whitespace(c), c.is_whitespace(), "char U+{:04X}", code);
        }
    }
}

#[test]
fn trim_matches_std() {
    let samples = [
        "",
        "   ",
        "  hello  ",
        "\t\n 你好 \u{3000}",
        "\u{3000}\u{3000}",
        "a\u{2009}b",
        "\u{85}x\u{a0}",
        "no-trim",
        " 中文，世界！ ",
    ];
    for s in samples.iter() {
        assert_eq!(trim(s), s.trim(), "sample {:?}", s);
    }
}

#[test]
fn blank_detection() {
    assert!(is_blank_str(""));
    assert!(is_blank_str(" \t\r\n\u{3000}"));
    assert!(!is_blank_str(" a "));
    assert!(!is_blank_str("中"));
}

#[test]
fn chars_of_collects_in_order() {
    assert_eq!(chars_of("a中b"), vec!['a', '中', 'b']);
    assert_eq!(chars_of(""), Vec::<char>::new());
}
