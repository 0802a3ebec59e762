use aimcal_ical::Span;
use aimcal_ical::syntax::{Token, tokenize};

fn kinds(src: &str) -> Vec<Token<'_>> {
    tokenize(src).into_iter().map(|t| t.0).collect()
}

/// Tokenize and require that no error token is produced.
fn assert_tokenize(src: &str, expected: &[Token]) {
    let tokens = kinds(src);
    assert!(!tokens.contains(&Token::Error), "unexpected error token in {src:?}");
    assert_eq!(tokens, expected);
}

fn check_ascii_range(range: std::ops::RangeInclusive<u32>, word: bool) {
    for i in range {
        let c = u8::try_from(i).unwrap_or_default() as char;
        let src = c.to_string();
        let expected = if word { Token::Word(&src) } else { Token::Symbol(&src) };
        let tokens = kinds(&src);
        assert_eq!(tokens, vec![expected], "U+{i:02X}");

        let src2 = format!("{c}{c}");
        let expected2 = if word { Token::Word(&src2) } else { Token::Symbol(&src2) };
        let tokens = kinds(&src2);
        assert_eq!(tokens, vec![expected2], "U+{i:02X}");
    }
}

#[test]
fn tokenizes_ascii_range() {
    check_ascii_range(0x09..=0x09, false);
    check_ascii_range(0x20..=0x21, false);
    check_ascii_range(0x23..=0x2B, false);
    check_ascii_range(0x2E..=0x2F, false);
    check_ascii_range(0x30..=0x39, true);
    check_ascii_range(0x3C..=0x3C, false);
    check_ascii_range(0x3E..=0x40, false);
    check_ascii_range(0x41..=0x5A, true);
    check_ascii_range(0x5B..=0x5B, false);
    check_ascii_range(0x5D..=0x5E, false);
    check_ascii_range(0x60..=0x60, false);
    check_ascii_range(0x61..=0x7A, true);
    check_ascii_range(0x7B..=0x7E, false);
}

#[test]
fn tokenizes_special_ascii_chars() {
    let src = r#";:=,"\_"#;
    let expected = [
        Token::Semicolon,
        Token::Colon,
        Token::Equal,
        Token::Comma,
        Token::DQuote,
        Token::Symbol(r"\"),
        Token::Word("_"),
    ];
    assert_tokenize(src, &expected);
}

#[test]
fn handles_line_folding() {
    let src = "WORD1\r\n WORD2\r\n\tWORD3\r\nWORD4";
    let expected = [
        Token::Word("WORD1"),
        Token::Word("WORD2"),
        Token::Word("WORD3"),
        Token::Newline,
        Token::Word("WORD4"),
    ];
    assert_tokenize(src, &expected);
}

#[test]
fn tokenizes_escape_sequences() {
    let src = r"\\\;\,\N\n\r";
    let expected = [
        Token::Symbol(r"\\\"),
        Token::Semicolon,
        Token::Symbol(r"\"),
        Token::Comma,
        Token::Symbol(r"\"),
        Token::Word("N"),
        Token::Symbol(r"\"),
        Token::Word("n"),
        Token::Symbol(r"\"),
        Token::Word("r"),
    ];
    assert_tokenize(src, &expected);
}

#[test]
fn tokenizes_words_and_unicode() {
    let src = "ABC_foo-123 456 你好🎉🎊Hello世界";
    let expected = [
        Token::Word("ABC_foo-123"),
        Token::Symbol(" "),
        Token::Word("456"),
        Token::Symbol(" "),
        Token::UnicodeText("你好🎉🎊"),
        Token::Word("Hello"),
        Token::UnicodeText("世界"),
    ];
    assert_tokenize(src, &expected);
}

#[test]
fn handles_quotes_and_folding() {
    let src = "SUMMARY:\"Test\" description\r\n with folding";
    let expected = [
        Token::Word("SUMMARY"),
        Token::Colon,
        Token::DQuote,
        Token::Word("Test"),
        Token::DQuote,
        Token::Symbol(" "),
        Token::Word("description"),
        Token::Word("with"),
        Token::Symbol(" "),
        Token::Word("folding"),
    ];
    assert_tokenize(src, &expected);
}

#[test]
fn tokenizes_control_chars_as_error() {
    assert_eq!(kinds("\x00"), vec![Token::Error]);
    assert_eq!(kinds("\x07"), vec![Token::Error]);
    assert_eq!(kinds("\n"), vec![Token::Error]);
    assert_eq!(kinds("\x1B"), vec![Token::Error]);
    assert_eq!(kinds("\x7F"), vec![Token::Error]);
}

#[test]
fn tokenizes_mixed_valid_and_invalid_chars() {
    let tokens = kinds("WORD\x01WORD2");
    assert_eq!(tokens, vec![Token::Word("WORD"), Token::Error, Token::Word("WORD2")]);
}

#[test]
fn tokenizes_bare_cr_as_error() {
    let tokens = kinds("WORD1\rWORD2");
    assert_eq!(tokens, vec![Token::Word("WORD1"), Token::Error, Token::Word("WORD2")]);
}

#[test]
fn tokenizes_lf_without_cr_as_error() {
    let tokens = kinds("WORD1\nWORD2");
    assert_eq!(tokens, vec![Token::Word("WORD1"), Token::Error, Token::Word("WORD2")]);
}

#[test]
fn tokenizes_multiple_consecutive_control_chars() {
    let tokens = kinds("WORD\x01\x02\x03WORD2");
    assert_eq!(
        tokens,
        vec![Token::Word("WORD"), Token::Error, Token::Error, Token::Error, Token::Word("WORD2")]
    );
}

#[test]
fn tokenizes_valid_crlf_sequence() {
    let tokens = kinds("WORD1\r\nWORD2");
    assert_eq!(tokens, vec![Token::Word("WORD1"), Token::Newline, Token::Word("WORD2")]);
}

#[test]
fn tokenizes_multiple_crlf_sequences() {
    let tokens = kinds("WORD1\r\n\r\nWORD2");
    assert_eq!(
        tokens,
        vec![Token::Word("WORD1"), Token::Newline, Token::Newline, Token::Word("WORD2")]
    );
}

#[test]
fn tokenizes_htab_as_symbol() {
    let tokens = kinds("WORD1\tWORD2");
    assert_eq!(tokens, vec![Token::Word("WORD1"), Token::Symbol("\t"), Token::Word("WORD2")]);
}

#[test]
fn lexer_tokenizes_complete_minimal_icalendar() {
    let src = "\
BEGIN:VCALENDAR
VERSION:2.0
PRODID:-//Example Corp.//CalDAV Client//EN
BEGIN:VEVENT
UID:12345@example.com
DTSTAMP:20250101T120000Z
DTSTART:20250615T133000Z
DTEND:20250615T143000Z
SUMMARY:Team Meeting
END:VEVENT
END:VCALENDAR
";
    let tokens = kinds(src);
    assert!(tokens.contains(&Token::Word("BEGIN")));
    assert!(tokens.contains(&Token::Word("VCALENDAR")));
    assert!(tokens.contains(&Token::Word("VERSION")));
    assert!(tokens.contains(&Token::Word("VEVENT")));
    assert!(tokens.contains(&Token::Word("SUMMARY")));
    assert!(tokens.contains(&Token::Word("Team")));
    assert!(tokens.contains(&Token::Word("Meeting")));
}

#[test]
fn lexer_handles_multiline_unicode_description() {
    let src = "\
DESCRIPTION:Important meeting with team members from 中国🇨🇳 and Japan 🇯🇵\
\r\n to discuss Q1 2025 strategy and planning.\r\n Please prepare your reports.\
";
    let tokens = kinds(src);
    assert!(tokens.iter().any(|t| matches!(t, Token::UnicodeText(_))));
    assert!(tokens.contains(&Token::Word("DESCRIPTION")));
    assert!(tokens.contains(&Token::Word("Important")));
}

#[test]
fn lexer_returns_token_positions() {
    let src = "BEGIN:VCALENDAR";
    let tokens: Vec<_> = tokenize(src).into_iter().collect();
    assert_eq!(tokens.len(), 3);
    assert_eq!(tokens[0].0, Token::Word("BEGIN"));
    assert_eq!(tokens[0].1, Span::new(0, 5));
    assert_eq!(tokens[1].0, Token::Colon);
    assert_eq!(tokens[1].1, Span::new(5, 6));
    assert_eq!(tokens[2].0, Token::Word("VCALENDAR"));
    assert_eq!(tokens[2].1, Span::new(6, 15));
}

#[test]
fn lexer_handles_complex_nested_components() {
    let src = "\
BEGIN:VCALENDAR
VERSION:2.0
PRODID:-//Test//Test//EN
BEGIN:VTIMEZONE
TZID:America/New_York
BEGIN:DAYLIGHT
DTSTART:20070311T020000
TZOFFSETFROM:-0500
TZOFFSETTO:-0400
END:DAYLIGHT
END:VTIMEZONE
BEGIN:VEVENT
DTSTART;TZID=America/New_York:20250101T090000
DURATION:PT1H
SUMMARY:Test Event with 参数
END:VEVENT
END:VCALENDAR
";
    let tokens = kinds(src);
    assert!(tokens.contains(&Token::Word("VTIMEZONE")));
    assert!(tokens.contains(&Token::Word("DAYLIGHT")));
    assert!(tokens.contains(&Token::Word("VEVENT")));
    assert!(tokens.contains(&Token::Word("TZID")));
}

#[test]
fn lexer_handles_real_world_attendee_list() {
    let src = "\
BEGIN:VEVENT
UID:meeting123@example.com
DTSTART:20250115T140000Z
ATTENDEE;RSVP=TRUE;CUTYPE=INDIVIDUAL;PARTSTAT=NEEDS-ACTION:mailto:alice@example.com
ATTENDEE;RSVP=FALSE;CUTYPE=ROOM;PARTSTAT=ACCEPTED:mailto:conf-room@example.com
ATTENDEE;RSVP=TRUE;CUTYPE=GROUP;PARTSTAT=TENTATIVE:mailto:team@example.com
END:VEVENT
";
    let tokens = kinds(src);
    assert!(tokens.contains(&Token::Word("ATTENDEE")));
    assert!(tokens.contains(&Token::Word("RSVP")));
    assert!(tokens.contains(&Token::Word("CUTYPE")));
    assert!(tokens.contains(&Token::Word("PARTSTAT")));
}
