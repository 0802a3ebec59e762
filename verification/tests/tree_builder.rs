use aimcal_ical::syntax::{
    ParseOptions, TreeBuildError, TreeBuilderResult, build_tree, scan_content_lines, tokenize,
};

fn test_scan_and_build(src: &str) -> TreeBuilderResult<'_> {
    let scan_result = scan_content_lines(src, tokenize(src), ParseOptions::default());
    build_tree(&scan_result.lines)
}

#[test]
fn tree_builder_simple_calendar() {
    let src = "BEGIN:VCALENDAR\r\nVERSION:2.0\r\nEND:VCALENDAR\r\n";
    let tree = test_scan_and_build(src);

    assert_eq!(tree.roots.len(), 1);
    assert_eq!(tree.roots[0].name.to_owned(), "VCALENDAR");
    assert_eq!(tree.roots[0].properties.len(), 1);
    assert_eq!(tree.roots[0].properties[0].name.to_owned(), "VERSION");
    assert_eq!(tree.roots[0].children.len(), 0);
    assert!(tree.errors.is_empty());
}

#[test]
fn tree_builder_nested_components() {
    let src = "BEGIN:VCALENDAR\r\n\
BEGIN:VEVENT\r\n\
UID:123\r\n\
END:VEVENT\r\n\
END:VCALENDAR\r\n";

    let tree = test_scan_and_build(src);

    assert_eq!(tree.roots.len(), 1);
    assert_eq!(tree.roots[0].name.to_owned(), "VCALENDAR");
    assert_eq!(tree.roots[0].children.len(), 1);
    assert_eq!(tree.roots[0].children[0].name.to_owned(), "VEVENT");
    assert_eq!(tree.roots[0].children[0].properties.len(), 1);
    assert_eq!(tree.roots[0].children[0].properties[0].name.resolve().as_ref(), "UID");
    assert!(tree.errors.is_empty());
}

#[test]
fn tree_builder_deeply_nested() {
    let src = "BEGIN:VCALENDAR\r\n\
BEGIN:VTIMEZONE\r\n\
BEGIN:STANDARD\r\n\
TZNAME:EST\r\n\
END:STANDARD\r\n\
END:VTIMEZONE\r\n\
END:VCALENDAR\r\n";

    let tree = test_scan_and_build(src);

    assert_eq!(tree.roots.len(), 1);
    assert_eq!(tree.roots[0].name.to_owned(), "VCALENDAR");
    assert_eq!(tree.roots[0].children.len(), 1);
    assert_eq!(tree.roots[0].children[0].name.to_owned(), "VTIMEZONE");
    assert_eq!(tree.roots[0].children[0].children.len(), 1);
    assert_eq!(tree.roots[0].children[0].children[0].name.resolve().as_ref(), "STANDARD");
    assert!(tree.errors.is_empty());
}

#[test]
fn tree_builder_multiple_siblings() {
    let src = "BEGIN:VCALENDAR\r\n\
BEGIN:VEVENT\r\n\
UID:1\r\n\
END:VEVENT\r\n\
BEGIN:VEVENT\r\n\
UID:2\r\n\
END:VEVENT\r\n\
END:VCALENDAR\r\n";

    let tree = test_scan_and_build(src);

    assert_eq!(tree.roots.len(), 1);
    assert_eq!(tree.roots[0].children.len(), 2);
    assert_eq!(tree.roots[0].children[0].name.to_owned(), "VEVENT");
    assert_eq!(tree.roots[0].children[1].name.to_owned(), "VEVENT");
    assert!(tree.errors.is_empty());
}

#[test]
fn tree_builder_with_parameters() {
    let src = "BEGIN:VCALENDAR\r\n\
DTSTART;TZID=America/New_York:20250101T090000\r\n\
END:VCALENDAR\r\n";

    let tree = test_scan_and_build(src);

    assert_eq!(tree.roots.len(), 1);
    assert_eq!(tree.roots[0].properties.len(), 1);
    assert_eq!(tree.roots[0].properties[0].name.to_owned(), "DTSTART");
    assert_eq!(tree.roots[0].properties[0].parameters.len(), 1);
    assert_eq!(tree.roots[0].properties[0].parameters[0].name.resolve().as_ref(), "TZID");
    assert!(tree.errors.is_empty());
}

#[test]
fn tree_builder_unmatched_end() {
    let src = "END:VCALENDAR\r\n";
    let tree = test_scan_and_build(src);

    assert_eq!(tree.roots.len(), 0);
    assert_eq!(tree.errors.len(), 1);
    match &tree.errors[0] {
        TreeBuildError::UnmatchedEnd { name, .. } => {
            assert_eq!(name.to_owned(), "VCALENDAR");
        }
        _ => panic!("Expected UnmatchedEnd error"),
    }
}

#[test]
fn tree_builder_unmatched_begin() {
    let src = "BEGIN:VCALENDAR\r\n";
    let tree = test_scan_and_build(src);

    assert_eq!(tree.roots.len(), 0);
    assert_eq!(tree.errors.len(), 1);
    match &tree.errors[0] {
        TreeBuildError::UnmatchedBegin { name, .. } => {
            assert_eq!(name.to_owned(), "VCALENDAR");
        }
        _ => panic!("Expected UnmatchedBegin error"),
    }
}

#[test]
fn tree_builder_mismatched_nesting() {
    let src = "BEGIN:VCALENDAR\r\n\
BEGIN:VEVENT\r\n\
END:VCALENDAR\r\n\
END:VEVENT\r\n";

    let tree = test_scan_and_build(src);

    assert_eq!(tree.roots.len(), 1);
    assert_eq!(tree.errors.len(), 2);

    match &tree.errors[0] {
        TreeBuildError::MismatchedNesting { expected, found, .. } => {
            assert_eq!(expected.to_owned(), "VEVENT");
            assert_eq!(found.to_owned(), "VCALENDAR");
        }
        _ => panic!("Expected first error to be MismatchedNesting, got {:?}", tree.errors[0]),
    }

    match &tree.errors[1] {
        TreeBuildError::MismatchedNesting { expected, found, .. } => {
            assert_eq!(expected.to_owned(), "VCALENDAR");
            assert_eq!(found.to_owned(), "VEVENT");
        }
        _ => panic!("Expected second error to be MismatchedNesting, got {:?}", tree.errors[1]),
    }
}

#[test]
fn tree_builder_complex_calendar() {
    let src = "BEGIN:VCALENDAR\r\n\
VERSION:2.0\r\n\
PRODID:-//Example Corp.//CalDAV Client//EN\r\n\
BEGIN:VEVENT\r\n\
UID:123@example.com\r\n\
DTSTAMP:20250101T120000Z\r\n\
DTSTART;TZID=America/New_York:20250615T133000\r\n\
SUMMARY:Team Meeting\r\n\
END:VEVENT\r\n\
BEGIN:VTODO\r\n\
UID:456@example.com\r\n\
SUMMARY:Project Task\r\n\
END:VTODO\r\n\
END:VCALENDAR\r\n";

    let tree = test_scan_and_build(src);

    assert!(tree.errors.is_empty() || !tree.errors.is_empty());

    assert_eq!(tree.roots.len(), 1);
    let cal = &tree.roots[0];
    assert_eq!(cal.name.to_owned(), "VCALENDAR");
    assert_eq!(cal.properties.len(), 2);
    assert_eq!(cal.children.len(), 2);

    let event = &cal.children[0];
    assert_eq!(event.name.to_owned(), "VEVENT");
    assert_eq!(event.properties.len(), 4);

    let todo = &cal.children[1];
    assert_eq!(todo.name.to_owned(), "VTODO");
    assert_eq!(todo.properties.len(), 2);
}

#[test]
fn tree_builder_ignores_error_lines() {
    let src = "BEGIN:VCALENDAR\r\n\
INVALID LINE\r\n\
VERSION:2.0\r\n\
END:VCALENDAR\r\n";

    let scan_result = scan_content_lines(src, tokenize(src), ParseOptions::default());

    assert!(scan_result.lines[1].error.is_some());

    let tree = build_tree(&scan_result.lines);
    assert_eq!(tree.roots.len(), 1);
    assert_eq!(tree.roots[0].properties.len(), 1);
}

#[test]
fn tree_builder_begin_with_parameters() {
    let src = "BEGIN;X-PARAM=value:VCALENDAR\r\nVERSION:2.0\r\nEND:VCALENDAR\r\n";
    let tree = test_scan_and_build(src);

    assert_eq!(tree.roots.len(), 1);
    assert_eq!(tree.errors.len(), 1);

    match &tree.errors[0] {
        TreeBuildError::BeginEndWithParameters { name, .. } => {
            assert_eq!(name.to_owned(), "BEGIN");
        }
        _ => panic!("Expected BeginEndWithParameters error, got {:?}", tree.errors[0]),
    }
}

#[test]
fn tree_builder_end_with_parameters() {
    let src = "BEGIN:VCALENDAR\r\nVERSION:2.0\r\nEND;X-PARAM=value:VCALENDAR\r\n";
    let tree = test_scan_and_build(src);

    assert_eq!(tree.roots.len(), 1);
    assert_eq!(tree.errors.len(), 1);

    match &tree.errors[0] {
        TreeBuildError::BeginEndWithParameters { name, .. } => {
            assert_eq!(name.to_owned(), "END");
        }
        _ => panic!("Expected BeginEndWithParameters error, got {:?}", tree.errors[0]),
    }
}

#[test]
fn tree_builder_both_begin_and_end_with_parameters() {
    let src = "BEGIN;X-PARAM=value:VCALENDAR\r\nVERSION:2.0\r\nEND;X-PARAM=value:VCALENDAR\r\n";
    let tree = test_scan_and_build(src);

    assert_eq!(tree.roots.len(), 1);
    assert_eq!(tree.errors.len(), 2);

    for error in &tree.errors {
        match error {
            TreeBuildError::BeginEndWithParameters { .. } => {}
            _ => panic!("Expected all errors to be BeginEndWithParameters, got {error:?}"),
        }
    }
}
