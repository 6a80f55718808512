use cosmic_audio_bg::text::{char_vec, contains, is_whitespace, parse_u32, str_eq, trim};

#[test]
fn trim_removes_unicode_white_space_at_both_ends() {
    assert_eq!(trim("  Battery\n"), "Battery");
    assert_eq!(trim("\u{a0}\u{3000}x y\t"), "x y");
    assert_eq!(trim(" \n\t "), "");
    assert_eq!(trim(""), "");
    assert_eq!(trim("a"), "a");
    for s in ["  Lid Switch\n", "\u{2003}é\u{2028}", "x", "  ", "a\u{85}"] {
        assert_eq!(trim(s), s.trim());
    }
}

#[test]
fn whitespace_matches_std() {
    for c in ['\t', '\n', '\u{b}', '\u{c}', '\r', ' ', '\u{85}', '\u{a0}', '\u{1680}', '\u{2000}',
        '\u{200a}', '\u{2028}', '\u{2029}', '\u{202f}', '\u{205f}', '\u{3000}', 'a', '\u{200b}',
        '\u{180e}', '\u{feff}', '0', '\u{1f}']
    {
        assert_eq!(is_whitespace(c), c.is_whitespace(), "{:?}", c);
    }
}

#[test]
fn contains_finds_runs() {
    assert!(contains("state:      closed\n", "closed"));
    assert!(!contains("state:      open\n", "closed"));
    assert!(contains("Lid Switch", "Lid"));
    assert!(!contains("lid switch", "Lid"));
    assert!(contains("abc", ""));
    assert!(contains("", ""));
    assert!(!contains("ab", "abc"));
    assert!(contains("aab", "ab"));
}

#[test]
fn equality_and_chars() {
    assert!(str_eq("eDP-1", "eDP-1"));
    assert!(!str_eq("eDP-1", "eDP-2"));
    assert!(!str_eq("eDP", "eDP-1"));
    assert_eq!(char_vec("héllo"), vec!['h', 'é', 'l', 'l', 'o']);
}

#[test]
fn parse_matches_std_for_u32() {
    for s in ["0", "7", "+7", "0042", "4294967295", "4294967296", "", "+", "-", "-0", "-1", " 1",
        "1 ", "1_000", "٣", "99999999999999999999", "+-1"]
    {
        assert_eq!(parse_u32(s), s.parse::<u32>().ok(), "{s:?}");
    }
}
