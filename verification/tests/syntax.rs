use aimcal_ical::syntax::{
    ParseOptions, scan_content_lines, syntax_analysis, syntax_analysis_with_options, tokenize,
};

#[test]
fn parses_component_with_lf_endings() {
    let src = "\
BEGIN:VCALENDAR\n\
VERSION:2.0\n\
END:VCALENDAR\n\
";
    let result = syntax_analysis(src);
    assert!(result.is_ok(), "Parse failed: {:?}", result.err());
    let components = result.unwrap();
    assert_eq!(components.len(), 1);
    assert_eq!(components[0].name.resolve().as_ref(), "VCALENDAR");
}

#[test]
fn strict_mode_rejects_bare_lf() {
    let src = "\
BEGIN:VCALENDAR\n\
END:VCALENDAR\n\
";
    let opts = ParseOptions::new().strict_line_endings(true);
    let result = syntax_analysis_with_options(src, opts);
    assert!(result.is_err());
    let errs = result.unwrap_err();
    assert!(!errs.is_empty());
    assert!(errs.iter().any(|e| e.to_string().contains("bare LF")));
}

#[test]
fn strict_mode_accepts_crlf() {
    let src = "\
BEGIN:VCALENDAR\r\n\
VERSION:2.0\r\n\
END:VCALENDAR\r\n\
";
    let opts = ParseOptions::new().strict_line_endings(true);
    let result = syntax_analysis_with_options(src, opts);
    assert!(result.is_ok(), "Parse failed: {:?}", result.err());
    let components = result.unwrap();
    assert_eq!(components.len(), 1);
}

#[test]
fn parses_component() {
    let src = "\
BEGIN:VCALENDAR\r\n\
END:VCALENDAR\r\n\
";

    let result = syntax_analysis(src);

    assert!(result.is_ok(), "Parse failed: {:?}", result.err());
    let components = result.unwrap();
    assert_eq!(components.len(), 1);
    assert_eq!(components[0].name.resolve().as_ref(), "VCALENDAR");
}

#[test]
fn matches_begin_end_tags() {
    let src = "\
BEGIN:VCALENDAR\r\n\
END:VCALENDAR\r\n\
";

    let result = syntax_analysis(src);
    assert!(result.is_ok(), "Parse failed: {:?}", result.err());
    let components = result.unwrap();
    assert_eq!(components.len(), 1);
    assert_eq!(components[0].name.resolve().as_ref(), "VCALENDAR");

    let src = "\
BEGIN:VCALENDAR\r\n\
END:VEVENT\r\n\
";

    let result = syntax_analysis(src);
    assert!(result.is_err());
    let errs = result.unwrap_err();
    assert_eq!(errs.len(), 1);
    assert!(errs[0].to_string().contains("mismatched nesting"));
}

#[test]
fn parses_property() {
    let src = "SUMMARY:Hello World!\r\n";
    let tokens = tokenize(src);
    let scan_result = scan_content_lines(src, tokens, ParseOptions::default());

    assert_eq!(scan_result.lines.len(), 1);
    let line = &scan_result.lines[0];
    assert!(line.error.is_none());
    assert_eq!(line.name.resolve().as_ref(), "SUMMARY");
    assert_eq!(line.value.resolve().as_ref(), "Hello World!");

    let src = "DTSTART;TZID=America/New_York:20251113\r\n T100000\r\n";
    let tokens = tokenize(src);
    let scan_result = scan_content_lines(src, tokens, ParseOptions::default());

    assert_eq!(scan_result.lines.len(), 1);
    let line = &scan_result.lines[0];
    assert!(line.error.is_none());
    assert_eq!(line.name.resolve().as_ref(), "DTSTART");
    assert_eq!(line.parameters.len(), 1);
    assert_eq!(line.parameters[0].name.resolve().as_ref(), "TZID");
    assert_eq!(line.parameters[0].values[0].value.resolve().as_ref(), "America/New_York");
}

#[test]
fn parses_parameter() {
    let src = "TZID=America/New_York";
    let tokens = tokenize(src);
    let scan_result = scan_content_lines(src, tokens, ParseOptions::default());

    assert_eq!(scan_result.lines.len(), 1);
    let line = &scan_result.lines[0];
    assert_eq!(line.name.resolve().as_ref(), "TZID");
}
