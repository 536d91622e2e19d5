use stock_scanner::numbers::{parse_unsigned, render_decimal};
use stock_scanner::text::{chars_of, split_trimmed, trim, white_space};

#[test]
fn parse_accepts_what_from_str_accepts() {
    assert_eq!(parse_unsigned("0", 255), Some(0));
    assert_eq!(parse_unsigned("255", 255), Some(255));
    assert_eq!(parse_unsigned("+7", 255), Some(7));
    assert_eq!(parse_unsigned("007", 255), Some(7));
    assert_eq!(parse_unsigned("18446744073709551615", u64::MAX), Some(u64::MAX));
}

#[test]
fn parse_rejects_what_from_str_rejects() {
    assert_eq!(parse_unsigned("256", 255), None);
    assert_eq!(parse_unsigned("", 255), None);
    assert_eq!(parse_unsigned("+", 255), None);
    assert_eq!(parse_unsigned("-0", 255), None);
    assert_eq!(parse_unsigned("1 ", 255), None);
    assert_eq!(parse_unsigned("1.5", 255), None);
    assert_eq!(parse_unsigned("99999999999999999999", u64::MAX), None);
    for s in ["12", "+12", "", "-1", "300", "x"] {
        assert_eq!(parse_unsigned(s, 255).map(|n| n as u8), s.parse::<u8>().ok());
    }
}

#[test]
fn render_then_parse() {
    for n in [0u64, 7, 10, 65, 100, 255, 1234567, u64::MAX] {
        let s = render_decimal(n);
        assert_eq!(s, n.to_string());
        assert_eq!(parse_unsigned(&s, u64::MAX), Some(n));
    }
}

#[test]
fn trim_cuts_unicode_white_space() {
    assert_eq!(trim("  a b \t\n"), "a b");
    assert_eq!(trim("\u{3000}x\u{85}"), "x");
    assert_eq!(trim("   "), "");
    assert_eq!(trim(""), "");
    for s in [" q ", "\u{a0}q\u{2009}", "q\u{200b}"] {
        assert_eq!(trim(s), s.trim());
    }
}

#[test]
fn white_space_matches_std() {
    for c in ['\t', ' ', '\u{85}', '\u{a0}', '\u{1680}', '\u{2000}', '\u{200a}', '\u{2028}', '\u{205f}', '\u{3000}', 'a', '\u{200b}', '\u{feff}', '_'] {
        assert_eq!(white_space(c), c.is_whitespace());
    }
}

#[test]
fn split_and_trim() {
    assert_eq!(split_trimmed("a, b ,c", ','), vec!["a", "b", "c"]);
    assert_eq!(split_trimmed(",", ','), vec!["", ""]);
    assert_eq!(split_trimmed("x", ','), vec!["x"]);
    let s = " p ;q;; r";
    let ours = split_trimmed(s, ';');
    let std_way: Vec<String> = s.split(';').map(|p| p.trim().to_string()).collect();
    assert_eq!(ours, std_way);
}

#[test]
fn chars_in_order() {
    assert_eq!(chars_of("añb"), vec!['a', 'ñ', 'b']);
}

#[test]
fn split_pieces_rejoin_to_the_text() {
    for s in ["a,b,,c", "", ",", "abc", ",x,"] {
        let pieces = split_trimmed(s, ',');
        assert_eq!(pieces.join(","), s);
        assert!(pieces.iter().all(|p| !p.contains(',')));
        assert_eq!(pieces.len(), s.matches(',').count() + 1);
    }
}
