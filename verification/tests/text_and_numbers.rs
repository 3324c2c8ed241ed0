//! The byte-text utilities and the decimal rendering and parsing the
//! counted verbs rely on.

use git_util::numbers::{parse_u8, u16_to_string};
use git_util::ripgrep::{Ripgrep, RipgrepOptions};
use git_util::text::{ascii_lower, bytes_have_prefix, contains_subslice, split_bytes, split_lines,
    trim_quote_bytes};

#[test]
fn decimal_rendering_is_exact() {
    assert_eq!(u16_to_string(0), "0");
    assert_eq!(u16_to_string(7), "7");
    assert_eq!(u16_to_string(10), "10");
    assert_eq!(u16_to_string(255), "255");
    assert_eq!(u16_to_string(65535), "65535");
}

#[test]
fn count_parsing_accepts_what_the_standard_parser_accepts() {
    assert_eq!(parse_u8("0"), Some(0));
    assert_eq!(parse_u8("255"), Some(255));
    assert_eq!(parse_u8("+7"), Some(7));
    assert_eq!(parse_u8("007"), Some(7));
    assert_eq!(parse_u8("256"), None);
    assert_eq!(parse_u8(""), None);
    assert_eq!(parse_u8("+"), None);
    assert_eq!(parse_u8("-1"), None);
    assert_eq!(parse_u8("12a"), None);
    assert_eq!(parse_u8(" 5"), None);
}

#[test]
fn lines_split_like_the_standard_lines_iterator() {
    let lines = split_lines(b"first\nsecond\r\nthird");
    assert_eq!(lines.len(), 3);
    assert_eq!(lines[0], b"first".to_vec());
    assert_eq!(lines[1], b"second".to_vec());
    assert_eq!(lines[2], b"third".to_vec());

    assert!(split_lines(b"").is_empty());
    // a trailing line feed adds no empty line, an inner one does
    assert_eq!(split_lines(b"a\n\n").len(), 2);
    assert_eq!(split_lines(b"a\n").len(), 1);
}

#[test]
fn byte_splitting_keeps_empty_pieces() {
    let pieces = split_bytes(b"a;;b;", b';');
    assert_eq!(pieces.len(), 4);
    assert_eq!(pieces[0], b"a".to_vec());
    assert_eq!(pieces[1], b"".to_vec());
    assert_eq!(pieces[2], b"b".to_vec());
    assert_eq!(pieces[3], b"".to_vec());
}

#[test]
fn substring_search_is_literal() {
    assert!(contains_subslice(b"the secretKey", b"secret"));
    assert!(!contains_subslice(b"the secre-tKey", b"secret"));
    assert!(contains_subslice(b"anything", b""));
    assert!(!contains_subslice(b"short", b"much longer"));
    // a regex metacharacter means nothing here
    assert!(!contains_subslice(b"aaa", b"a.a"));
}

#[test]
fn prefix_test_and_case_folding() {
    assert!(bytes_have_prefix(b"alias.co", b"alias."));
    assert!(!bytes_have_prefix(b"alia", b"alias."));
    assert_eq!(ascii_lower(b"PassWord-42"), b"password-42".to_vec());
}

#[test]
fn quote_trimming_strips_both_ends_only() {
    assert_eq!(trim_quote_bytes(b"'quoted'"), b"quoted".to_vec());
    assert_eq!(trim_quote_bytes(b"''double''"), b"double".to_vec());
    assert_eq!(trim_quote_bytes(b"it's inner"), b"it's inner".to_vec());
    assert_eq!(trim_quote_bytes(b"''"), b"".to_vec());
    assert_eq!(trim_quote_bytes(b""), b"".to_vec());
}

#[test]
fn ripgrep_options_render_in_order_with_the_pattern_last() {
    let args = Ripgrep::parse_options(
        &vec![RipgrepOptions::Context(2), RipgrepOptions::FixedStrings, RipgrepOptions::InvertMatch],
        &"needle".to_string(),
    );
    assert_eq!(
        args,
        vec![
            "--context=2".to_string(),
            "--fixed-strings".to_string(),
            "--invert-match".to_string(),
            "needle".to_string()
        ]
    );

    let bare = Ripgrep::parse_options(&Vec::new(), &"p".to_string());
    assert_eq!(bare, vec!["p".to_string()]);
}
