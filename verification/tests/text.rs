use keystream::text::{eq_ignore_ascii_case, is_white_space_char, parse_u32, str_eq, trim, u32_text};

#[test]
fn trim_matches_std() {
    for s in ["", " ", "a", "  a b  ", "\t\nx\r\n", "\u{2003}y\u{2029}", "\u{85}z\u{200b}", "\u{feff}q"] {
        assert_eq!(trim(s), s.trim(), "{:?}", s);
    }
}

#[test]
fn white_space_matches_std() {
    for u in 0u32..0x3100 {
        if let Some(c) = char::from_u32(u) {
            assert_eq!(is_white_space_char(c), c.is_whitespace(), "{:#x}", u);
        }
    }
}

#[test]
fn parse_u32_matches_std() {
    for s in ["0", "1", "+1", "-0", "+", "", "00", "4294967295", "4294967296", "1_0", " 1", "٣"] {
        assert_eq!(parse_u32(s), s.parse::<u32>().ok(), "{:?}", s);
    }
}

#[test]
fn u32_text_matches_format() {
    for n in [0u32, 9, 10, 99, 100, 123456789, u32::MAX] {
        assert_eq!(u32_text(n), format!("{}", n));
    }
}

#[test]
fn case_folding_is_ascii_only() {
    assert!(eq_ignore_ascii_case("LyDiAn", &['l', 'y', 'd', 'i', 'a', 'n']));
    assert!(!eq_ignore_ascii_case("lydia", &['l', 'y', 'd', 'i', 'a', 'n']));
    assert!(!eq_ignore_ascii_case("\u{212a}", &['k']));
    assert!(str_eq("run", &['r', 'u', 'n']));
    assert!(!str_eq("Run", &['r', 'u', 'n']));
}
