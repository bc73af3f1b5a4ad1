use prism_provider_meta::text::{
    append_decimal_i64, append_decimal_u64, char_is_control, char_is_whitespace, parse_u64,
    str_has_visible_text,
};

#[test]
fn whitespace_and_control_match_std_for_every_char() {
    for code in 0u32..=0x10FFFF {
        if let Some(c) = char::from_u32(code) {
            assert_eq!(char_is_whitespace(c), c.is_whitespace(), "{code:#x}");
            assert_eq!(char_is_control(c), c.is_control(), "{code:#x}");
        }
    }
}

#[test]
fn visible_text_matches_trim() {
    for s in ["", " ", "\t\n", "\u{3000}", " a ", "x", "\u{200b}"] {
        assert_eq!(str_has_visible_text(s), !s.trim().is_empty(), "{s:?}");
    }
}

#[test]
fn parse_u64_matches_std() {
    for s in [
        "", "+", "-", "-1", "0", "+0", "007", "120", "+120", " 120", "120 ", "1_0", "++1",
        "18446744073709551615", "18446744073709551616", "99999999999999999999999", "١",
    ] {
        assert_eq!(parse_u64(s), s.parse::<u64>().ok(), "{s:?}");
    }
}

#[test]
fn decimal_rendering_matches_display() {
    for n in [0u64, 7, 10, 190, 4294967296, u64::MAX] {
        let mut out = String::from("x");
        append_decimal_u64(&mut out, n);
        assert_eq!(out, format!("x{n}"));
    }
    for n in [0i64, -1, 42, -613, i64::MIN, i64::MAX] {
        let mut out = String::new();
        append_decimal_i64(&mut out, n);
        assert_eq!(out, n.to_string());
    }
}
