use aimcal_ical::semantic::tz_validator::{validate_tzids, TzContext, ValidateTzids};
use aimcal_ical::semantic::{semantic_analysis, CalendarComponent, ICalendar, SemanticError};
use aimcal_ical::syntax::syntax_analysis;
use aimcal_ical::typed::typed_analysis;

const PARIS: &str = "BEGIN:VTIMEZONE\r\nTZID:Europe/Paris\r\nBEGIN:STANDARD\r\nDTSTART:19701025T030000\r\nTZOFFSETFROM:+0200\r\nTZOFFSETTO:+0100\r\nEND:STANDARD\r\nEND:VTIMEZONE\r\n";

fn calendar(body: &str) -> ICalendar<'static> {
    let src: &'static str =
        Box::leak(format!("BEGIN:VCALENDAR\r\nPRODID:-//A//B//EN\r\nVERSION:2.0\r\n{body}END:VCALENDAR\r\n").into_boxed_str());
    let typed = typed_analysis(syntax_analysis(src).expect("syntax")).expect("typed");
    let mut cals = semantic_analysis(typed).expect("semantic");
    assert_eq!(cals.len(), 1);
    cals.remove(0)
}

fn missing(errs: &[SemanticError<'static>]) -> Vec<String> {
    errs.iter()
        .map(|e| match e {
            SemanticError::TimezoneNotFound { tzid, .. } => tzid.clone(),
            e => panic!("unexpected {e:?}"),
        })
        .collect()
}

#[test]
fn defined_time_zone_is_accepted() {
    let body = format!(
        "{PARIS}BEGIN:VEVENT\r\nUID:1\r\nDTSTAMP:20240301T101500Z\r\nDTSTART;TZID=Europe/Paris:20240301T120000\r\nEND:VEVENT\r\n"
    );
    let mut cal = calendar(&body);
    assert!(validate_tzids(&mut cal).is_ok());
    assert_eq!(cal.components.len(), 2);
}

#[test]
fn undefined_time_zones_are_reported_in_order() {
    let body = "BEGIN:VEVENT\r\nUID:1\r\nDTSTAMP:20240301T101500Z\r\nDTSTART;TZID=A:20240301T120000\r\nDTEND;TZID=B:20240301T130000\r\nRDATE;TZID=C:20240302T120000,20240303T120000\r\nEXDATE;TZID=D:20240304T120000\r\nEND:VEVENT\r\n";
    let mut cal = calendar(body);
    let errs = validate_tzids(&mut cal).err().unwrap();
    assert_eq!(missing(&errs), vec!["A", "B", "C", "C", "D"]);
}

#[test]
fn floating_and_utc_date_times_need_no_time_zone() {
    let body = "BEGIN:VEVENT\r\nUID:1\r\nDTSTAMP:20240301T101500Z\r\nDTSTART:20240301T120000\r\nRDATE;VALUE=DATE;TZID=Nowhere:20240302\r\nEND:VEVENT\r\n";
    let mut cal = calendar(body);
    assert!(validate_tzids(&mut cal).is_ok());
}

#[test]
fn components_validate_their_own_time_zones() {
    let body = format!(
        "{PARIS}BEGIN:VTODO\r\nUID:2\r\nDTSTAMP:20240301T101500Z\r\nDUE;TZID=Europe/Berlin:20240301T120000\r\nEND:VTODO\r\nBEGIN:VJOURNAL\r\nUID:3\r\nDTSTAMP:20240301T101500Z\r\nDTSTART;TZID=Europe/Paris:20240301T120000\r\nEND:VJOURNAL\r\n"
    );
    let mut cal = calendar(&body);
    let ids = vec!["Europe/Paris".to_string()];
    let ctx = TzContext { vtimezone_tzids: &ids };
    let mut results = Vec::new();
    for c in cal.components.iter_mut() {
        results.push(c.validate_tzids(&ctx));
    }
    assert!(results[0].is_ok());
    match &results[1] {
        Err(errs) => assert_eq!(missing(errs), vec!["Europe/Berlin"]),
        Ok(()) => panic!("the due date names an undefined time zone"),
    }
    assert!(results[2].is_ok());
    match &mut cal.components[2] {
        CalendarComponent::VJournal(j) => {
            assert!(ctx.validate_dt(&mut j.dt_start).is_ok());
            let none = vec![];
            let empty = TzContext { vtimezone_tzids: &none };
            assert!(empty.validate_dt(&mut j.dt_start).is_err());
        }
        c => panic!("unexpected {c:?}"),
    }
}
