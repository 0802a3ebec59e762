use std::borrow::Cow;

use aimcal_ical::syntax::{
    ContentLine, ContentLineError, ParameterErrorKind, ParseOptions, ScanResult,
    scan_content_lines, tokenize,
};

fn test_scan(src: &str) -> ScanResult<'_> {
    scan_content_lines(src, tokenize(src), ParseOptions::default())
}

fn component_name<'src>(line: &ContentLine<'src>) -> Option<Cow<'src, str>> {
    let is_begin = line.name.eq_str_ignore_ascii_case("BEGIN");
    let is_end = line.name.eq_str_ignore_ascii_case("END");
    if (is_begin || is_end) && !line.value.is_empty() {
        Some(line.value.resolve())
    } else {
        None
    }
}

#[test]
fn scanner_valid_simple_property() {
    let src = "SUMMARY:Team Meeting\r\n";
    let result = test_scan(src);

    assert_eq!(result.lines.len(), 1);
    assert!(!result.has_errors);

    let line = &result.lines[0];
    assert_eq!(line.name.to_owned(), "SUMMARY");
    assert!(line.parameters.is_empty());
    assert_eq!(line.value.to_owned(), "Team Meeting");
    assert!(line.is_valid());
}

#[test]
fn scanner_property_with_single_parameter() {
    let src = "DTSTART;TZID=America/New_York:20250101T090000\r\n";
    let result = test_scan(src);

    assert_eq!(result.lines.len(), 1);
    assert!(!result.has_errors);

    let line = &result.lines[0];
    assert_eq!(line.name.to_owned(), "DTSTART");
    assert_eq!(line.parameters.len(), 1);
    assert_eq!(line.parameters[0].name.to_owned(), "TZID");
    assert_eq!(line.parameters[0].values.len(), 1);
    assert_eq!(line.parameters[0].values[0].value.to_owned(), "America/New_York");
    assert!(!line.parameters[0].values[0].quoted);
    assert_eq!(line.value.to_owned(), "20250101T090000");
}

#[test]
fn scanner_property_with_multiple_parameters() {
    let src =
        "ATTENDEE;RSVP=TRUE;CUTYPE=INDIVIDUAL;ROLE=REQ-PARTICIPANT:mailto:test@example.com\r\n";
    let result = test_scan(src);

    assert_eq!(result.lines.len(), 1);
    assert!(!result.has_errors);

    let line = &result.lines[0];
    assert_eq!(line.name.to_owned(), "ATTENDEE");
    assert_eq!(line.parameters.len(), 3);

    assert_eq!(line.parameters[0].name.to_owned(), "RSVP");
    assert_eq!(line.parameters[1].name.to_owned(), "CUTYPE");
    assert_eq!(line.parameters[2].name.to_owned(), "ROLE");
}

#[test]
fn scanner_quoted_parameter_value() {
    let src = "X-CUSTOM;PARAM=\"value with spaces\":test\r\n";
    let result = test_scan(src);

    assert_eq!(result.lines.len(), 1);
    assert!(!result.has_errors);

    let param = &result.lines[0].parameters[0];
    assert!(param.values[0].quoted);
    assert_eq!(param.values[0].value.to_owned(), "value with spaces");
}

#[test]
fn scanner_begin_end_lines() {
    let src = "BEGIN:VCALENDAR\r\nEND:VCALENDAR\r\n";
    let result = test_scan(src);

    assert_eq!(result.lines.len(), 2);
    assert!(!result.has_errors);

    assert!(result.lines[0].name.eq_str_ignore_ascii_case("BEGIN"));
    assert_eq!(component_name(&result.lines[0]).as_deref(), Some("VCALENDAR"));

    assert!(result.lines[1].name.eq_str_ignore_ascii_case("END"));
    assert_eq!(component_name(&result.lines[1]).as_deref(), Some("VCALENDAR"));
}

#[test]
fn scanner_multiple_content_lines() {
    let src =
        "VERSION:2.0\r\nPRODID:-//Example Corp.//CalDAV Client//EN\r\nCALSCALE:GREGORIAN\r\n";
    let result = test_scan(src);

    assert_eq!(result.lines.len(), 3);
    assert!(!result.has_errors);

    assert_eq!(result.lines[0].name.to_owned(), "VERSION");
    assert_eq!(result.lines[1].name.to_owned(), "PRODID");
    assert_eq!(result.lines[2].name.to_owned(), "CALSCALE");
}

#[test]
fn scanner_missing_colon() {
    let src = "VERSION 2.0\r\n";
    let result = test_scan(src);

    assert_eq!(result.lines.len(), 1);
    assert!(result.has_errors);

    let line = &result.lines[0];
    assert!(line.error.is_some());

    match &line.error {
        Some(ContentLineError::MissingColon { .. }) => {}
        _ => panic!("Expected MissingColon error, got {:?}", line.error),
    }
}

#[test]
fn scanner_empty_value() {
    let src = "SUMMARY:\r\n";
    let result = test_scan(src);

    assert_eq!(result.lines.len(), 1);
    assert!(result.lines[0].is_valid());
    assert_eq!(result.lines[0].value.to_owned(), "");
}

#[test]
fn scanner_invalid_parameter_missing_equals() {
    let src = "DTSTART;TZID:20250101\r\n";
    let result = test_scan(src);

    assert_eq!(result.lines.len(), 1);
    assert!(result.has_errors);

    let line = &result.lines[0];
    match &line.error {
        Some(ContentLineError::InvalidParameter { kind, .. }) => {
            assert!(matches!(kind, ParameterErrorKind::MissingEquals));
        }
        _ => panic!("Expected InvalidParameter error, got {:?}", line.error),
    }
}

#[test]
fn scanner_parameter_empty_value() {
    let src = "DTSTART;TZID=:20250101\r\n";
    let result = test_scan(src);

    assert_eq!(result.lines.len(), 1);
    assert!(result.has_errors);

    match &result.lines[0].error {
        Some(ContentLineError::InvalidParameter { kind: ParameterErrorKind::MissingValue, .. }) => {}
        _ => panic!("Expected MissingValue error, got {:?}", result.lines[0].error),
    }
}

#[test]
fn scanner_unterminated_quote() {
    let src = "X-CUSTOM;PARAM=\"unclosed:value\r\n";
    let result = test_scan(src);

    assert_eq!(result.lines.len(), 1);
    assert!(result.has_errors);

    match &result.lines[0].error {
        Some(ContentLineError::InvalidParameter {
            kind: ParameterErrorKind::UnterminatedQuote, ..
        }) => {}
        _ => panic!("Expected UnterminatedQuote error, got {:?}", result.lines[0].error),
    }
}

#[test]
fn scanner_unicode_in_value() {
    let src = "SUMMARY:Team会议📅\r\n";
    let result = test_scan(src);

    assert!(!result.has_errors);
    assert_eq!(result.lines[0].value.to_owned(), "Team会议📅");
}

#[test]
fn scanner_hyphenated_property_name() {
    let src = "PERCENT-COMPLETE:75\r\n";
    let result = test_scan(src);

    assert!(!result.has_errors);
    assert_eq!(result.lines[0].name.to_owned(), "PERCENT-COMPLETE");
}

#[test]
fn scanner_x_property() {
    let src = "X-CUSTOM-PROP;X-PARAM=x-value:value\r\n";
    let result = test_scan(src);

    assert!(!result.has_errors);
    assert_eq!(result.lines[0].name.to_owned(), "X-CUSTOM-PROP");
    assert_eq!(result.lines[0].parameters[0].name.to_owned(), "X-PARAM");
}

#[test]
fn scanner_complex_calendar() {
    let src = "BEGIN:VCALENDAR\r\n\
VERSION:2.0\r\n\
PRODID:-//Example Corp.//CalDAV Client//EN\r\n\
BEGIN:VEVENT\r\n\
UID:123@example.com\r\n\
DTSTAMP:20250101T120000Z\r\n\
DTSTART;TZID=America/New_York:20250615T133000\r\n\
DTEND;TZID=America/New_York:20250615T143000\r\n\
SUMMARY:Team Meeting\r\n\
END:VEVENT\r\n\
END:VCALENDAR\r\n";

    let result = test_scan(src);

    assert!(!result.has_errors);
    assert_eq!(result.lines.len(), 11);

    assert!(result.lines[0].name.eq_str_ignore_ascii_case("BEGIN"));
    assert_eq!(component_name(&result.lines[0]).as_deref(), Some("VCALENDAR"));

    assert!(result.lines[3].name.eq_str_ignore_ascii_case("BEGIN"));
    assert_eq!(component_name(&result.lines[3]).as_deref(), Some("VEVENT"));

    assert_eq!(result.lines[6].name.to_owned(), "DTSTART");
    assert_eq!(result.lines[6].parameters.len(), 1);
    assert_eq!(result.lines[6].parameters[0].name.to_owned(), "TZID");
}

#[test]
fn scanner_multi_value_parameter() {
    let src = "X-CUSTOM;PARAM=value1,value2,value3:test\r\n";
    let result = test_scan(src);

    assert!(!result.has_errors);
    assert_eq!(result.lines[0].parameters[0].values.len(), 3);
    assert_eq!(result.lines[0].parameters[0].values[0].value.resolve().as_ref(), "value1");
    assert_eq!(result.lines[0].parameters[0].values[1].value.resolve().as_ref(), "value2");
    assert_eq!(result.lines[0].parameters[0].values[2].value.resolve().as_ref(), "value3");
}

#[test]
fn scanner_parameter_error_keeps_next_line() {
    let src = "A;B\r\nC:d\r\n";
    let result = test_scan(src);

    assert_eq!(result.lines.len(), 2);
    assert!(result.has_errors);
    assert!(matches!(
        result.lines[0].error,
        Some(ContentLineError::InvalidParameter { kind: ParameterErrorKind::MissingEquals, .. })
    ));
    assert!(result.lines[1].error.is_none());
    assert_eq!(result.lines[1].name.resolve().as_ref(), "C");
    assert_eq!(result.lines[1].value.resolve().as_ref(), "d");
}

#[test]
fn scanner_parameter_error_line_span_ends_at_line_break() {
    let src = "DTSTART;TZID=:20250101\r\n";
    let result = test_scan(src);
    let line = &result.lines[0];
    assert_eq!(line.name.resolve().as_ref(), "DTSTART");
    match &line.error {
        Some(ContentLineError::InvalidParameter { span, kind: ParameterErrorKind::MissingValue }) => {
            assert_eq!(*span, aimcal_ical::Span::new(7, 8));
        }
        e => panic!("unexpected {e:?}"),
    }
    assert_eq!(line.span, aimcal_ical::Span::new(0, 24));

    let src = "X;Y\r\nZ;W";
    let result = test_scan(src);
    assert_eq!(result.lines.len(), 2);
    assert_eq!(result.lines[0].span, aimcal_ical::Span::new(0, 5));
    assert_eq!(result.lines[1].span, aimcal_ical::Span::new(5, 8));
}
