use aimcal_ical::parameter::{FreeBusyType, ParameterKind};
use aimcal_ical::property::datetime::{DateTime, FreeBusy, Period};
use aimcal_ical::property::{Property, PropertyKind};
use aimcal_ical::semantic::{semantic_analysis, CalendarComponent, SemanticError, VFreeBusy, VTimeZone};
use aimcal_ical::syntax::syntax_analysis;
use aimcal_ical::typed::{parsed_property, typed_analysis, ParsedProperty, TypedComponent, TypedError};
use aimcal_ical::value::{Value, ValueDate, ValueDateTime, ValueDuration, ValuePeriod, ValueTime};

fn components(src: &str) -> Vec<TypedComponent<'_>> {
    typed_analysis(syntax_analysis(src).expect("syntax")).expect("typed")
}

fn property(line: &str) -> ParsedProperty<'_> {
    let src: &'static str = Box::leak(format!("BEGIN:VFREEBUSY\r\n{line}\r\nEND:VFREEBUSY\r\n").into_boxed_str());
    let mut raw = syntax_analysis(src).expect("syntax");
    let mut comp = raw.remove(0);
    parsed_property(comp.properties.remove(0)).expect("typed")
}

fn point(day: i8, utc: bool) -> ValueDateTime {
    ValueDateTime {
        date: ValueDate { year: 2024, month: 3, day },
        time: ValueTime { hour: 9, minute: 0, second: 0, utc },
    }
}

fn hour(positive: bool) -> ValueDuration {
    ValueDuration::DateTime { positive, day: 0, hour: 1, minute: 0, second: 0 }
}

/// A `FREEBUSY` property holding the given periods: the value layer does not
/// read periods, so they are put in by hand.
fn free_busy(line: &str, periods: Vec<ValuePeriod>) -> ParsedProperty<'_> {
    let mut p = property(line);
    let span = p.span;
    p.kind = PropertyKind::FreeBusy;
    p.value = Value::Period { values: periods, span };
    p
}

#[test]
fn free_busy_periods() {
    let p = free_busy(
        "COMMENT;FBTYPE=FREE:x",
        vec![
            ValuePeriod::Explicit { start: point(1, true), end: point(2, true) },
            ValuePeriod::Duration { start: point(3, false), duration: hour(true) },
        ],
    );
    let f = FreeBusy::try_from(p).unwrap();
    assert!(matches!(f.fb_type, FreeBusyType::Free));
    assert_eq!(f.values.len(), 2);
    assert!(matches!(f.values[0], Period::ExplicitUtc { .. }));
    assert!(matches!(f.values[1], Period::DurationFloating { .. }));
    assert!(matches!(f.values[1].start(), DateTime::Floating { .. }));
    assert!(f.values[0].tz_id().is_none());

    // without FBTYPE the periods are busy; a backward duration is an error
    let p = free_busy(
        "COMMENT:x",
        vec![
            ValuePeriod::Duration { start: point(3, false), duration: hour(false) },
            ValuePeriod::Duration { start: point(4, false), duration: hour(false) },
        ],
    );
    let errs = FreeBusy::try_from(p).err().unwrap();
    assert_eq!(errs.len(), 2);
    match &errs[0] {
        TypedError::PropertyInvalidValue { value, .. } => assert_eq!(value, "Duration must be positive for periods"),
        e => panic!("unexpected {e:?}"),
    }
    let p = free_busy("COMMENT:x", vec![]);
    assert!(matches!(FreeBusy::try_from(p).err().unwrap()[0], TypedError::PropertyMissingValue { .. }));
    let p = free_busy("COMMENT:x", vec![ValuePeriod::Explicit { start: point(1, false), end: point(2, false) }]);
    let f = FreeBusy::try_from(p).unwrap();
    assert!(matches!(f.fb_type, FreeBusyType::Busy));
}

#[test]
fn period_from_value() {
    let v: Value<aimcal_ical::SpannedSegments<'_>> = Value::Period {
        values: vec![ValuePeriod::Duration { start: point(1, true), duration: hour(true) }],
        span: aimcal_ical::Span { start: 0, end: 0 },
    };
    assert!(matches!(Period::try_from(v).unwrap(), Period::DurationUtc { .. }));
    let v: Value<aimcal_ical::SpannedSegments<'_>> =
        Value::Integer { values: vec![1], span: aimcal_ical::Span { start: 0, end: 0 } };
    assert!(matches!(Period::try_from(v).err().unwrap()[0], TypedError::ValueTypeDisallowed { .. }));
}

#[test]
fn fbtype_parameter_is_read() {
    let src = "BEGIN:VFREEBUSY\r\nCOMMENT;FBTYPE=BUSY-TENTATIVE:x\r\nEND:VFREEBUSY\r\n";
    let comp = components(src).remove(0);
    match &comp.properties[0] {
        Property::Comment(t) => assert_eq!(t.retained_parameters[0].kind(), ParameterKind::FreeBusyType),
        p => panic!("unexpected {p:?}"),
    }
}

#[test]
fn free_busy_component() {
    let src = "BEGIN:VFREEBUSY\r\nUID:1\r\nDTSTAMP:20240301T101500Z\r\nDTSTART:20240301T000000Z\r\nORGANIZER:mailto:a@example.com\r\nEND:VFREEBUSY\r\n";
    let fb = VFreeBusy::try_from(components(src).remove(0)).unwrap();
    assert!(fb.busy.is_empty());
    assert_eq!(fb.uid.content.value.resolve().as_ref(), "1");
    let errs = VFreeBusy::try_from(components("BEGIN:VFREEBUSY\r\nEND:VFREEBUSY\r\n").remove(0)).err().unwrap();
    assert_eq!(errs.len(), 4);
    assert!(matches!(errs[3], SemanticError::MissingProperty { property: PropertyKind::Organizer, .. }));
}

#[test]
fn time_zone() {
    let src = "BEGIN:VTIMEZONE\r\nTZID:Europe/Paris\r\nBEGIN:STANDARD\r\nDTSTART:19701025T030000\r\nTZOFFSETFROM:+0200\r\nTZOFFSETTO:+0100\r\nTZNAME:CET\r\nEND:STANDARD\r\nBEGIN:DAYLIGHT\r\nDTSTART:19700329T020000\r\nTZOFFSETFROM:+0100\r\nTZOFFSETTO:+0200\r\nEND:DAYLIGHT\r\nEND:VTIMEZONE\r\n";
    let tz = VTimeZone::try_from(components(src).remove(0)).unwrap();
    assert_eq!(tz.standard.len(), 1);
    assert_eq!(tz.daylight.len(), 1);
    assert_eq!(tz.standard[0].tz_names.len(), 1);

    let src = "BEGIN:VTIMEZONE\r\nTZID:X\r\nBEGIN:SUMMER\r\nEND:SUMMER\r\nEND:VTIMEZONE\r\n";
    let errs = VTimeZone::try_from(components(src).remove(0)).err().unwrap();
    match &errs[0] {
        SemanticError::UnknownComponent { component, .. } => assert_eq!(component, "SUMMER"),
        e => panic!("unexpected {e:?}"),
    }
    assert_eq!(errs.len(), 4);
}

#[test]
fn calendar_analysis() {
    let src = "BEGIN:VCALENDAR\r\nPRODID:-//A//B//EN\r\nVERSION:2.0\r\nX-WR-CALNAME:Home\r\nBEGIN:VEVENT\r\nUID:1\r\nDTSTAMP:20240301T101500Z\r\nDTSTART:20240301T120000Z\r\nEND:VEVENT\r\nBEGIN:X-THING\r\nBEGIN:VTODO\r\nUID:2\r\nDTSTAMP:20240301T101500Z\r\nEND:VTODO\r\nEND:X-THING\r\nEND:VCALENDAR\r\n";
    let cals = semantic_analysis(components(src)).unwrap();
    assert_eq!(cals.len(), 1);
    let cal = &cals[0];
    assert_eq!(cal.components.len(), 2);
    assert!(matches!(cal.components[0], CalendarComponent::Event(_)));
    match &cal.components[1] {
        CalendarComponent::XComponent(x) => {
            assert_eq!(x.name, "X-THING");
            assert!(matches!(x.children[0], CalendarComponent::Todo(_)));
        }
        c => panic!("unexpected {c:?}"),
    }
    assert_eq!(cal.x_properties.len(), 1);

    // a child that fails is left out while another converts
    let src = "BEGIN:VCALENDAR\r\nPRODID:x\r\nVERSION:2.0\r\nBEGIN:VEVENT\r\nEND:VEVENT\r\nBEGIN:VTODO\r\nUID:2\r\nDTSTAMP:20240301T101500Z\r\nEND:VTODO\r\nEND:VCALENDAR\r\n";
    let cals = semantic_analysis(components(src)).unwrap();
    assert_eq!(cals[0].components.len(), 1);

    // when no child converts, their errors are the calendar's
    let src = "BEGIN:VCALENDAR\r\nPRODID:x\r\nVERSION:2.0\r\nBEGIN:VEVENT\r\nEND:VEVENT\r\nEND:VCALENDAR\r\n";
    let errs = semantic_analysis(components(src)).err().unwrap();
    assert_eq!(errs.len(), 3);

    let errs = semantic_analysis(components("BEGIN:VCALENDAR\r\nEND:VCALENDAR\r\n")).err().unwrap();
    assert_eq!(errs.len(), 2);

    let errs = semantic_analysis(Vec::new()).err().unwrap();
    match &errs[0] {
        SemanticError::ConstraintViolation { message, .. } => assert_eq!(message, "No VCALENDAR components found"),
        e => panic!("unexpected {e:?}"),
    }
}

fn utc(year: i16, month: i8, day: i8, hour: i8, minute: i8) -> DateTime {
    DateTime::Utc {
        date: ValueDate { year, month, day },
        time: aimcal_ical::property::datetime::Time { hour, minute, second: 0 },
    }
}

#[test]
fn period_end_adds_the_duration() {
    let p: Period<aimcal_ical::SpannedSegments<'_>> = Period::DurationUtc {
        start: utc(2024, 2, 28, 23, 0),
        duration: ValueDuration::DateTime { positive: true, day: 0, hour: 2, minute: 30, second: 0 },
    };
    assert_eq!(p.checked_end(), Some(utc(2024, 2, 29, 1, 30)));
    assert_eq!(p.end(), utc(2024, 2, 29, 1, 30));

    let p: Period<aimcal_ical::SpannedSegments<'_>> = Period::DurationUtc {
        start: utc(2024, 3, 1, 8, 0),
        duration: ValueDuration::Week { positive: false, week: 1 },
    };
    assert_eq!(p.checked_end(), Some(utc(2024, 2, 23, 8, 0)));

    let p: Period<aimcal_ical::SpannedSegments<'_>> = Period::ExplicitUtc { start: utc(2024, 1, 1, 0, 0), end: utc(2024, 1, 2, 0, 0) };
    assert_eq!(p.checked_end(), Some(utc(2024, 1, 2, 0, 0)));

    // out of jiff's range
    let p: Period<aimcal_ical::SpannedSegments<'_>> = Period::DurationUtc {
        start: utc(9999, 12, 31, 23, 0),
        duration: ValueDuration::DateTime { positive: true, day: 2, hour: 0, minute: 0, second: 0 },
    };
    assert_eq!(p.checked_end(), None);
}
