use aimcal_ical::parameter::{AlarmTriggerRelationship, Encoding, ParameterKind};
use aimcal_ical::property::alarm::{ActionValue, Trigger, TriggerValue};
use aimcal_ical::property::datetime::{DateTime, DateTimeProperty, DateTimeUtc, Time};
use aimcal_ical::property::descriptive::{
    Attachment, AttachmentValue, Categories, Classification, ClassificationValue, PercentComplete, Priority,
    Resources,
};
use aimcal_ical::property::{Property, PropertyKind, PropertyValueKind};
use aimcal_ical::semantic::valarm::VAlarm;
use aimcal_ical::semantic::vevent::VEvent;
use aimcal_ical::semantic::vjournal::VJournal;
use aimcal_ical::semantic::vtodo::VTodo;
use aimcal_ical::semantic::SemanticError;
use aimcal_ical::syntax::syntax_analysis;
use aimcal_ical::typed::{parsed_property, typed_analysis, ParsedProperty, TypedComponent, TypedError};
use aimcal_ical::value::{ValueDate, ValueDuration};

fn component(src: &str) -> TypedComponent<'_> {
    let raw = syntax_analysis(src).expect("syntax");
    let mut typed = typed_analysis(raw).expect("typed");
    assert_eq!(typed.len(), 1);
    typed.remove(0)
}

fn property(line: &str) -> ParsedProperty<'_> {
    let src: &'static str = Box::leak(format!("BEGIN:VEVENT\r\n{line}\r\nEND:VEVENT\r\n").into_boxed_str());
    let mut raw = syntax_analysis(src).expect("syntax");
    let mut comp = raw.remove(0);
    assert_eq!(comp.properties.len(), 1);
    parsed_property(comp.properties.remove(0)).expect("typed")
}

fn invalid_message(e: &TypedError<'_>) -> String {
    match e {
        TypedError::PropertyInvalidValue { value, .. } => value.clone(),
        e => panic!("unexpected {e:?}"),
    }
}

#[test]
fn date_time_property_forms() {
    let d = DateTimeProperty::try_from(property("DTSTART:20240301T101500Z")).unwrap();
    assert!(d.is_utc());
    assert_eq!(d.date(), ValueDate { year: 2024, month: 3, day: 1 });
    assert_eq!(d.time(), Some(Time { hour: 10, minute: 15, second: 0 }));
    assert!(d.tz_id.is_none());

    let d = DateTimeProperty::try_from(property("DTSTART:20240301T101500")).unwrap();
    assert!(d.is_floating());

    let d = DateTimeProperty::try_from(property("DTSTART;TZID=Europe/Paris:20240301T101500")).unwrap();
    assert!(d.is_zoned());
    assert_eq!(d.tz_id.unwrap().resolve().as_ref(), "Europe/Paris");

    let d = DateTimeProperty::try_from(property("DTSTART;VALUE=DATE:20240301")).unwrap();
    assert!(d.is_date_only());
    assert_eq!(d.value, DateTime::Date(ValueDate { year: 2024, month: 3, day: 1 }));
    assert_eq!(d.time(), None);

    // a UTC time ignores the zone
    let d = DateTimeProperty::try_from(property("DTSTART;TZID=Europe/Paris:20240301T101500Z")).unwrap();
    assert!(d.is_utc());
    assert!(d.tz_id.is_none());
}

#[test]
fn date_time_property_errors() {
    let errs = DateTimeProperty::try_from(property("DTSTART;TZID=Europe/Paris;VALUE=DATE:20240301"))
        .err()
        .unwrap();
    assert_eq!(invalid_message(&errs[0]), "Expected date-time value");

    let errs = DateTimeProperty::try_from(property("DTSTART;TZID=A;TZID=B:20240301T101500")).err().unwrap();
    assert_eq!(errs.len(), 1);
    assert!(matches!(
        errs[0],
        TypedError::ParameterDuplicated { parameter: ParameterKind::TimeZoneIdentifier, .. }
    ));
}

#[test]
fn date_time_utc_requires_utc() {
    let u = DateTimeUtc::try_from(property("DTSTAMP:20240301T101500Z")).unwrap();
    assert_eq!(u.time(), Time { hour: 10, minute: 15, second: 0 });
    let errs = DateTimeUtc::try_from(property("DTSTAMP:20240301T101500")).err().unwrap();
    assert_eq!(invalid_message(&errs[0]), "Floating time not allowed, must be UTC time (ends with 'Z')");
    let errs = DateTimeUtc::try_from(property("DTSTAMP;TZID=X:20240301T101500")).err().unwrap();
    assert_eq!(invalid_message(&errs[0]), "Timezone reference not allowed, must be UTC time (ends with 'Z')");
    let errs = DateTimeUtc::try_from(property("DTSTART;VALUE=DATE:20240301")).err().unwrap();
    assert_eq!(invalid_message(&errs[0]), "DATE value not allowed, must be DATE-TIME with UTC time");
}

#[test]
fn time_checks_its_ranges() {
    assert_eq!(Time::new(23, 59, 60).unwrap(), Time { hour: 23, minute: 59, second: 60 });
    assert!(Time::new(24, 0, 0).is_err());
    assert!(Time::new(0, -1, 0).is_err());
}

#[test]
fn triggers() {
    let t = Trigger::try_from(property("TRIGGER:-PT1H")).unwrap();
    assert_eq!(
        t.value,
        TriggerValue::Duration(ValueDuration::DateTime { positive: false, day: 0, hour: 1, minute: 0, second: 0 })
    );
    assert_eq!(t.related, Some(AlarmTriggerRelationship::Start));

    let t = Trigger::try_from(property("TRIGGER;RELATED=END:PT1H")).unwrap();
    assert_eq!(t.related, Some(AlarmTriggerRelationship::End));

    let t = Trigger::try_from(property("TRIGGER;VALUE=DATE-TIME:20240301T101500Z")).unwrap();
    assert!(matches!(t.value, TriggerValue::DateTime(DateTime::Floating { .. })));
    assert_eq!(t.related, None);

    let raw = syntax_analysis("BEGIN:VALARM\r\nTRIGGER;RELATED=MIDDLE:PT1H\r\nEND:VALARM\r\n").unwrap();
    let errs = typed_analysis(raw).err().unwrap();
    assert!(matches!(
        errs[0],
        TypedError::ParameterValueInvalid { parameter: ParameterKind::AlarmTriggerRelationship, .. }
    ));
}

#[test]
fn attachments() {
    let a = Attachment::try_from(property("ATTACH;FMTTYPE=text/plain:http://example.com/a.txt")).unwrap();
    match &a.value {
        AttachmentValue::Uri(u) => assert_eq!(u.resolve().as_ref(), "http://example.com/a.txt"),
        v => panic!("unexpected {v:?}"),
    }
    assert_eq!(a.fmt_type.as_ref().unwrap().resolve().as_ref(), "text/plain");
    assert_eq!(a.encoding, None);

    let a = Attachment::try_from(property("ATTACH;ENCODING=BASE64;VALUE=BINARY:AAAA")).unwrap();
    assert!(matches!(a.value, AttachmentValue::Binary(_)));
    assert_eq!(a.encoding, Some(Encoding::Base64));

    let errs = Attachment::try_from(property("ATTACH;FMTTYPE=a;FMTTYPE=b:http://x")).err().unwrap();
    assert_eq!(errs.len(), 1);
    assert!(matches!(errs[0], TypedError::ParameterDuplicated { parameter: ParameterKind::FormatType, .. }));
}

#[test]
fn descriptive_properties() {
    let c = Classification::try_from(property("CLASS:private")).unwrap();
    assert_eq!(c.value, ClassificationValue::Private);
    let errs = Classification::try_from(property("CLASS:SECRET")).err().unwrap();
    assert_eq!(invalid_message(&errs[0]), "Invalid classification: SECRET");

    assert_eq!(PercentComplete::try_from(property("PERCENT-COMPLETE:39")).unwrap().value, 39);
    let errs = PercentComplete::try_from(property("PERCENT-COMPLETE:101")).err().unwrap();
    assert_eq!(invalid_message(&errs[0]), "Percent complete must be 0-100");
    assert_eq!(Priority::try_from(property("PRIORITY:0")).unwrap().value, 0);
    let errs = Priority::try_from(property("PRIORITY:10")).err().unwrap();
    assert_eq!(invalid_message(&errs[0]), "Priority must be 0-9");
    assert_eq!(Priority::new(3).value, 3);
    assert_eq!(PercentComplete::new(100).value, 100);

    let c = Categories::try_from(property("CATEGORIES;LANGUAGE=en:WORK,HOME")).unwrap();
    assert_eq!(c.values.len(), 2);
    assert_eq!(c.language.unwrap().resolve().as_ref(), "en");
    let errs =
        Categories::try_from(property("CATEGORIES;LANGUAGE=en;LANGUAGE=fr;LANGUAGE=de:WORK")).err().unwrap();
    assert_eq!(errs.len(), 1);

    let r = Resources::try_from(property("RESOURCES;ALTREP=\"http://x\":EASEL,PROJECTOR")).unwrap();
    assert_eq!(r.values.len(), 2);
    assert_eq!(r.altrep.unwrap().resolve().as_ref(), "http://x");
    let errs =
        Resources::try_from(property("RESOURCES;LANGUAGE=en;LANGUAGE=fr;LANGUAGE=de:EASEL")).err().unwrap();
    assert_eq!(errs.len(), 2);
}

#[test]
fn property_dispatch() {
    match Property::try_from(property("SUMMARY:Hello")).unwrap() {
        Property::Summary(t) => assert_eq!(t.content.value.resolve().as_ref(), "Hello"),
        p => panic!("unexpected {p:?}"),
    }
    let p = Property::try_from(property("X-FOO:bar")).unwrap();
    assert!(matches!(p, Property::XName(_)));
    assert!(matches!(p.kind(), PropertyKind::XName(_)));
    let mut p = property("SUMMARY:FREQ=DAILY");
    p.kind = PropertyKind::RRule;
    let errs = Property::try_from(p).err().unwrap();
    assert_eq!(invalid_message(&errs[0]), "RRULE parsing not yet implemented");
}

#[test]
fn typed_analysis_converts_properties() {
    let raw = syntax_analysis("BEGIN:VEVENT\r\nPRIORITY:12\r\nEND:VEVENT\r\n").unwrap();
    let errs = typed_analysis(raw).err().unwrap();
    assert_eq!(invalid_message(&errs[0]), "Priority must be 0-9");
}

#[test]
fn display_alarm() {
    let comp = component("BEGIN:VALARM\r\nACTION:DISPLAY\r\nTRIGGER:-PT1H\r\nDESCRIPTION:Wake up\r\nX-A:1\r\nEND:VALARM\r\n");
    let alarm = VAlarm::try_from(comp).unwrap();
    assert_eq!(alarm.action.value, ActionValue::Display);
    assert_eq!(alarm.description.unwrap().content.value.resolve().as_ref(), "Wake up");
    assert_eq!(alarm.x_properties.len(), 1);
    assert!(alarm.repeat.is_none());
}

#[test]
fn alarm_errors() {
    let comp = component("BEGIN:VALARM\r\nACTION:EMAIL\r\nTRIGGER:-PT1H\r\nDURATION:PT1H\r\nEND:VALARM\r\n");
    let errs = VAlarm::try_from(comp).err().unwrap();
    assert_eq!(errs.len(), 4);
    assert!(matches!(errs[0], SemanticError::ConstraintViolation { .. }));
    assert!(matches!(errs[1], SemanticError::MissingProperty { property: PropertyKind::Description, .. }));
    assert!(matches!(errs[2], SemanticError::MissingProperty { property: PropertyKind::Summary, .. }));
    assert!(matches!(errs[3], SemanticError::MissingProperty { property: PropertyKind::Attendee, .. }));

    let comp = component("BEGIN:VALARM\r\nACTION:AUDIO\r\nACTION:AUDIO\r\nEND:VALARM\r\n");
    let errs = VAlarm::try_from(comp).err().unwrap();
    assert_eq!(errs.len(), 2);
    assert!(matches!(errs[0], SemanticError::DuplicateProperty { property: PropertyKind::Action, .. }));
    assert!(matches!(errs[1], SemanticError::MissingProperty { property: PropertyKind::Trigger, .. }));
}

#[test]
fn event_with_alarm() {
    let src = "BEGIN:VEVENT\r\nUID:1\r\nDTSTAMP:20240301T101500Z\r\nDTSTART:20240301T120000Z\r\nSUMMARY:Lunch\r\nATTENDEE:mailto:a@example.com\r\nSTATUS:CONFIRMED\r\nBEGIN:VALARM\r\nACTION:AUDIO\r\nTRIGGER:-PT1H\r\nEND:VALARM\r\nEND:VEVENT\r\n";
    let event = VEvent::try_from(component(src)).unwrap();
    assert_eq!(event.uid.content.value.resolve().as_ref(), "1");
    assert_eq!(event.summary.unwrap().content.value.resolve().as_ref(), "Lunch");
    assert_eq!(event.attendees.len(), 1);
    assert_eq!(event.alarms.len(), 1);
    assert!(event.status.is_some());
}

#[test]
fn event_errors() {
    let src = "BEGIN:VEVENT\r\nUID:1\r\nUID:2\r\nSTATUS:COMPLETED\r\nEND:VEVENT\r\n";
    let errs = VEvent::try_from(component(src)).err().unwrap();
    assert_eq!(errs.len(), 4);
    assert!(matches!(errs[0], SemanticError::DuplicateProperty { property: PropertyKind::Uid, .. }));
    match &errs[1] {
        SemanticError::InvalidValue { value, .. } => assert_eq!(value, "Invalid event status value: COMPLETED"),
        e => panic!("unexpected {e:?}"),
    }
    assert!(matches!(errs[2], SemanticError::MissingProperty { property: PropertyKind::DtStamp, .. }));
    assert!(matches!(errs[3], SemanticError::MissingProperty { property: PropertyKind::DtStart, .. }));
}

#[test]
fn todo_and_journal() {
    let src = "BEGIN:VTODO\r\nUID:1\r\nDTSTAMP:20240301T101500Z\r\nPERCENT-COMPLETE:50\r\nCOMPLETED:20240302T101500Z\r\nEND:VTODO\r\n";
    let todo = VTodo::try_from(component(src)).unwrap();
    assert_eq!(todo.percent_complete.unwrap().value, 50);
    assert!(todo.completed.is_some());
    let errs = VTodo::try_from(component("BEGIN:VTODO\r\nEND:VTODO\r\n")).err().unwrap();
    assert_eq!(errs.len(), 2);

    let src = "BEGIN:VJOURNAL\r\nUID:1\r\nDTSTAMP:20240301T101500Z\r\nDTSTART;VALUE=DATE:20240301\r\nDESCRIPTION:one\r\nDESCRIPTION:two\r\nCATEGORIES:A\r\nCATEGORIES:B\r\nEND:VJOURNAL\r\n";
    let journal = VJournal::try_from(component(src)).unwrap();
    assert_eq!(journal.descriptions.len(), 2);
    assert_eq!(journal.categories.len(), 2);
    let errs = VJournal::try_from(component("BEGIN:VEVENT\r\nEND:VEVENT\r\n")).err().unwrap();
    assert!(matches!(errs[0], SemanticError::ExpectedComponent { .. }));
    assert_eq!(errs.len(), 4);
}

#[test]
fn float_type_is_refused_where_only_text_is_allowed() {
    let raw = syntax_analysis("BEGIN:VEVENT\r\nX-RATE;VALUE=FLOAT:1.5,-2\r\nEND:VEVENT\r\n").unwrap();
    let errs = typed_analysis(raw).err().unwrap();
    assert_eq!(errs.len(), 1);
    assert!(matches!(errs[0], TypedError::ValueTypeDisallowed { value_type: PropertyValueKind::Float, .. }));
}

#[test]
fn typed_analysis_reports_every_error_in_order() {
    let src = "BEGIN:VEVENT\r\nPRIORITY:12\r\nSUMMARY:ok\r\nPERCENT-COMPLETE:200\r\nBEGIN:VALARM\r\nPRIORITY:10\r\nEND:VALARM\r\nEND:VEVENT\r\nBEGIN:VTODO\r\nPRIORITY:11\r\nEND:VTODO\r\n";
    let raw = syntax_analysis(src).unwrap();
    let errs = typed_analysis(raw).err().unwrap();
    let messages: Vec<String> = errs.iter().map(invalid_message).collect();
    assert_eq!(
        messages,
        vec!["Priority must be 0-9", "Percent complete must be 0-100", "Priority must be 0-9", "Priority must be 0-9"]
    );
}
