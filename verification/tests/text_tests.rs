use dev_panels::text::{is_blank, parse_usize, trim, usize_to_string};
use dev_panels::html::{escape_html, rgb_hex};

#[test]
fn trim_removes_surrounding_white_space() {
    assert_eq!(trim("  https://db.local \t\n"), "https://db.local");
    assert_eq!(trim("inner  space"), "inner  space");
    assert_eq!(trim("   "), "");
    assert_eq!(trim(""), "");
    assert_eq!(trim("\u{a0}x\u{3000}"), "x");
}

#[test]
fn trim_twice_is_trim_once() {
    for s in ["  a b  ", "\t\n", "x", " \u{2003}y\r\n"] {
        let once = trim(s);
        assert_eq!(trim(&once), once);
    }
}

#[test]
fn blank_text_is_only_white_space() {
    assert!(is_blank(""));
    assert!(is_blank(" \t\r\n"));
    assert!(!is_blank(" a "));
}

#[test]
fn decimal_rendering() {
    assert_eq!(usize_to_string(0), "0");
    assert_eq!(usize_to_string(7), "7");
    assert_eq!(usize_to_string(1204), "1204");
    assert_eq!(usize_to_string(usize::MAX), usize::MAX.to_string());
}

#[test]
fn parse_usize_matches_std() {
    for s in ["0", "42", "+7", "", "+", "-1", "12a", " 3", "007", "18446744073709551615", "18446744073709551616"] {
        assert_eq!(parse_usize(s), s.parse::<usize>().ok(), "input {:?}", s);
    }
}

#[test]
fn parse_of_rendering_round_trips() {
    for n in [0usize, 1, 9, 10, 99, 100, 12345, usize::MAX] {
        assert_eq!(parse_usize(&usize_to_string(n)), Some(n));
    }
}

#[test]
fn escape_html_replaces_markup() {
    assert_eq!(escape_html("<a href=\"x\">Tom & Jerry's</a>"),
        "&lt;a href=&quot;x&quot;&gt;Tom &amp; Jerry&#39;s&lt;/a&gt;");
    assert_eq!(escape_html("plain text"), "plain text");
    assert_eq!(escape_html("&amp;"), "&amp;amp;");
}

#[test]
fn escaped_text_has_no_markup_characters() {
    let out = escape_html("<<>>\"\"''&&");
    assert!(!out.contains('<') && !out.contains('>') && !out.contains('"') && !out.contains('\''));
}

#[test]
fn rgb_hex_is_two_lower_case_digits_per_channel() {
    assert_eq!(rgb_hex(0, 0, 0), "#000000");
    assert_eq!(rgb_hex(255, 16, 171), "#ff10ab");
}

#[test]
fn whitespace_matches_std_for_every_char() {
    for u in 0u32..=0x10FFFF {
        if let Some(c) = char::from_u32(u) {
            assert_eq!(dev_panels::text::is_whitespace(c), c.is_whitespace(), "U+{:04X}", u);
        }
    }
}

#[test]
fn different_texts_escape_differently() {
    assert_ne!(escape_html("&lt;"), escape_html("<"));
    assert_ne!(escape_html("a;"), escape_html("a&#59;"));
    assert_eq!(escape_html("&lt;"), "&amp;lt;");
}
