use aimcal_ical::parameter::{
    CalendarUserType, Parameter, ParameterKind, ParticipationRole, ParticipationStatus,
    RelationshipType,
};
use aimcal_ical::property::alarm::{Action, ActionValue, Repeat};
use aimcal_ical::property::calendar::{CalendarScale, CalendarScaleValue, Method, MethodValue, ProductId, Version, VersionValue};
use aimcal_ical::property::changemgmt::Sequence;
use aimcal_ical::property::common::{Text, TextOnly, TextWithLanguage, Texts, UriProperty};
use aimcal_ical::property::datetime::{Duration, TimeTransparency, TimeTransparencyValue};
use aimcal_ical::property::descriptive::{Status, StatusValue};
use aimcal_ical::property::relationship::{Attendee, Organizer, RelatedTo};
use aimcal_ical::property::timezone::UtcOffsetProperty;
use aimcal_ical::property::{PropertyKind, PropertyValueKind};
use aimcal_ical::semantic::{EventStatus, EventStatusValue, JournalStatus, SemanticError, TodoStatus, TodoStatusValue};
use aimcal_ical::syntax::syntax_analysis;
use aimcal_ical::typed::{parsed_property, typed_analysis, ParsedProperty, TypedComponent, TypedError};
use aimcal_ical::value::{Value, ValueDuration, ValueUtcOffset};

fn component(src: &str) -> TypedComponent<'_> {
    let raw = syntax_analysis(src).expect("syntax");
    let mut typed = typed_analysis(raw).expect("typed");
    assert_eq!(typed.len(), 1);
    typed.remove(0)
}

fn parsed_all(src: &str) -> Vec<ParsedProperty<'_>> {
    let mut raw = syntax_analysis(src).expect("syntax");
    assert_eq!(raw.len(), 1);
    let comp = raw.remove(0);
    comp.properties.into_iter().map(|p| parsed_property(p).expect("typed")).collect()
}

fn property(src: &str) -> ParsedProperty<'_> {
    let mut props = parsed_all(src);
    assert_eq!(props.len(), 1);
    props.remove(0)
}

fn wrap(line: &str) -> String {
    format!("BEGIN:VEVENT\r\n{line}\r\nEND:VEVENT\r\n")
}

#[test]
fn typed_analysis_types_text_properties() {
    let src = wrap("SUMMARY;LANGUAGE=en;ALTREP=\"http://x\":Team meeting");
    let prop = property(&src);
    assert!(matches!(prop.kind, PropertyKind::Summary));
    let text = Text::try_from(prop).expect("text");
    assert_eq!(text.content.value.resolve().as_ref(), "Team meeting");
    assert_eq!(text.language.unwrap().resolve().as_ref(), "en");
    assert_eq!(text.altrep.unwrap().resolve().as_ref(), "http://x");
}

#[test]
fn text_reports_duplicated_language() {
    let src = wrap("SUMMARY;LANGUAGE=en;LANGUAGE=fr:Hello");
    let prop = property(&src);
    let errs = Text::try_from(prop).err().expect("error");
    assert_eq!(errs.len(), 1);
    assert!(matches!(
        errs[0],
        TypedError::ParameterDuplicated { parameter: ParameterKind::Language, .. }
    ));
}

#[test]
fn texts_split_at_unescaped_commas() {
    let src = wrap("CATEGORIES:WORK,PERSONAL\\,FUN");
    let prop = property(&src);
    let texts = Texts::try_from(prop).expect("texts");
    assert_eq!(texts.values.len(), 2);
    assert_eq!(texts.values[0].value.resolve().as_ref(), "WORK");
    assert_eq!(texts.values[1].value.resolve().as_ref(), "PERSONAL\\,FUN");
}

#[test]
fn attendee_reads_parameters_and_defaults() {
    let src = wrap("ATTENDEE;CN=John Doe;PARTSTAT=ACCEPTED;RSVP=TRUE;X-FOO=bar:mailto:john@example.com");
    let prop = property(&src);
    let a = Attendee::try_from(prop).expect("attendee");
    assert_eq!(a.cal_address.resolve().as_ref(), "mailto:john@example.com");
    assert_eq!(a.cn.as_ref().unwrap().resolve().as_ref(), "John Doe");
    assert!(matches!(a.role, ParticipationRole::ReqParticipant));
    assert!(matches!(a.part_stat, ParticipationStatus::Accepted));
    assert!(matches!(a.cutype, CalendarUserType::Individual));
    assert_eq!(a.rsvp, Some(true));
    assert_eq!(a.x_parameters.len(), 1);
    assert_eq!(a.x_parameters[0].name.resolve().as_ref(), "X-FOO");
    let owned = a.to_owned();
    assert_eq!(owned.cal_address, "mailto:john@example.com");
    assert_eq!(owned.cn.as_deref(), Some("John Doe"));
}

#[test]
fn attendee_reports_all_duplicates() {
    let src = wrap("ATTENDEE;CN=A;CN=B;ROLE=CHAIR;ROLE=CHAIR:mailto:a@example.com");
    let prop = property(&src);
    let errs = Attendee::try_from(prop).err().expect("errors");
    assert_eq!(errs.len(), 2);
    assert!(matches!(errs[0], TypedError::ParameterDuplicated { parameter: ParameterKind::CommonName, .. }));
    assert!(matches!(
        errs[1],
        TypedError::ParameterDuplicated { parameter: ParameterKind::ParticipationRole, .. }
    ));
}

#[test]
fn attendee_rejects_other_kinds() {
    let src = wrap("SUMMARY:Hello");
    let prop = property(&src);
    let errs = Attendee::try_from(prop).err().expect("errors");
    assert_eq!(errs.len(), 1);
    assert!(matches!(
        &errs[0],
        TypedError::PropertyUnexpectedKind { expected: PropertyKind::Attendee, found: PropertyKind::Summary, .. }
    ));
}

#[test]
fn organizer_and_related_to() {
    let src = wrap("ORGANIZER;CN=Boss;SENT-BY=\"mailto:pa@example.com\":mailto:boss@example.com");
    let o = Organizer::try_from(property(&src)).expect("organizer");
    assert_eq!(o.cal_address.resolve().as_ref(), "mailto:boss@example.com");
    assert_eq!(o.sent_by.unwrap().resolve().as_ref(), "mailto:pa@example.com");

    let src = wrap("RELATED-TO;RELTYPE=CHILD:uid-123");
    let r = RelatedTo::try_from(property(&src)).expect("related-to");
    assert!(matches!(r.reltype, RelationshipType::Child));
    assert_eq!(r.content.value.resolve().as_ref(), "uid-123");

    let src = wrap("RELATED-TO:uid-456");
    let r = RelatedTo::try_from(property(&src)).expect("related-to");
    assert!(matches!(r.reltype, RelationshipType::Parent));
}

#[test]
fn enumerated_properties() {
    let src = "BEGIN:VCALENDAR\r\nCALSCALE:gregorian\r\nMETHOD:REQUEST\r\nVERSION:2.0\r\nPRODID:-//Acme//Calendar 1.0//EN\r\nEND:VCALENDAR\r\n";
    let mut props = parsed_all(src);
    let prodid = props.pop().unwrap();
    let version = props.pop().unwrap();
    let method = props.pop().unwrap();
    let calscale = props.pop().unwrap();
    assert_eq!(CalendarScale::try_from(calscale).unwrap().value, CalendarScaleValue::Gregorian);
    assert_eq!(Method::try_from(method).unwrap().value, MethodValue::Request);
    assert_eq!(Version::try_from(version).unwrap().value, VersionValue::V2_0);
    let p = ProductId::try_from(prodid).unwrap();
    assert_eq!(p.company, "-");
    assert_eq!(p.product, "Acme");
    assert_eq!(p.language.as_deref(), Some("Calendar 1.0"));
}

#[test]
fn product_id_without_separator_is_the_product() {
    let src = "BEGIN:VCALENDAR\r\nPRODID:Just a product\r\nEND:VCALENDAR\r\n";
    let p = ProductId::try_from(property(src)).unwrap();
    assert_eq!(p.company, "");
    assert_eq!(p.product, "Just a product");
    assert_eq!(p.language, None);
}

#[test]
fn method_error_names_the_value() {
    let src = "BEGIN:VCALENDAR\r\nMETHOD:SHOUT\r\nEND:VCALENDAR\r\n";
    let errs = Method::try_from(property(src)).err().unwrap();
    match &errs[0] {
        TypedError::PropertyInvalidValue { value, .. } => assert_eq!(value, "Unsupported method type: SHOUT"),
        e => panic!("unexpected {e:?}"),
    }
}

#[test]
fn alarm_properties() {
    let src = "BEGIN:VALARM\r\nACTION:display\r\nREPEAT:4\r\nDURATION:PT15M\r\nEND:VALARM\r\n";
    let raw = syntax_analysis(src).unwrap();
    let result = typed_analysis(raw);
    // a time that starts with minutes is read
    assert!(result.is_ok());

    let src = "BEGIN:VALARM\r\nACTION:display\r\nREPEAT:4\r\nDURATION:PT1H15M\r\nEND:VALARM\r\n";
    let mut props = parsed_all(src);
    let duration = props.pop().unwrap();
    let repeat = props.pop().unwrap();
    let action = props.pop().unwrap();
    assert_eq!(Action::try_from(action).unwrap().value, ActionValue::Display);
    assert_eq!(Repeat::try_from(repeat).unwrap().value, 4);
    assert_eq!(
        Duration::try_from(duration).unwrap().value,
        ValueDuration::DateTime { positive: true, day: 0, hour: 1, minute: 15, second: 0 }
    );
}

#[test]
fn action_procedure_is_deprecated() {
    let src = "BEGIN:VALARM\r\nACTION:PROCEDURE\r\nEND:VALARM\r\n";
    let errs = Action::try_from(property(src)).err().unwrap();
    match &errs[0] {
        TypedError::PropertyInvalidValue { value, .. } => {
            assert_eq!(value, "PROCEDURE action has been deprecated")
        }
        e => panic!("unexpected {e:?}"),
    }
    let src = "BEGIN:VALARM\r\nACTION:BEEP\r\nEND:VALARM\r\n";
    let errs = Action::try_from(property(src)).err().unwrap();
    match &errs[0] {
        TypedError::PropertyInvalidValue { value, .. } => assert_eq!(value, "Invalid alarm action: BEEP"),
        e => panic!("unexpected {e:?}"),
    }
}

#[test]
fn negative_counts_are_invalid() {
    let src = "BEGIN:VALARM\r\nREPEAT:-2\r\nEND:VALARM\r\n";
    let errs = Repeat::try_from(property(src)).err().unwrap();
    match &errs[0] {
        TypedError::PropertyInvalidValue { value, .. } => {
            assert_eq!(value, "Repeat count must be non-negative: -2")
        }
        e => panic!("unexpected {e:?}"),
    }
    let src = wrap("SEQUENCE:-15");
    let errs = Sequence::try_from(property(&src)).err().unwrap();
    match &errs[0] {
        TypedError::PropertyInvalidValue { value, .. } => {
            assert_eq!(value, "Sequence must be non-negative: -15")
        }
        e => panic!("unexpected {e:?}"),
    }
    let src = wrap("SEQUENCE:3");
    assert_eq!(Sequence::try_from(property(&src)).unwrap().value, 3);
}

#[test]
fn transparency_and_status() {
    let src = wrap("TRANSP:transparent");
    let t = TimeTransparency::try_from(property(&src)).unwrap();
    assert_eq!(t.value, TimeTransparencyValue::Transparent);

    let src = wrap("STATUS:CONFIRMED");
    let s = Status::try_from(property(&src)).unwrap();
    assert_eq!(s.value, StatusValue::Confirmed);
    let e = EventStatus::try_from(s).unwrap();
    assert_eq!(e.value, EventStatusValue::Confirmed);

    let src = wrap("STATUS:DRAFT");
    let s = Status::try_from(property(&src)).unwrap();
    let err = TodoStatus::try_from(s).err().unwrap();
    match err {
        SemanticError::InvalidValue { value, .. } => assert_eq!(value, "Invalid todo status value: DRAFT"),
        e => panic!("unexpected {e:?}"),
    }
    let s = Status::new(StatusValue::Final);
    assert_eq!(s.value, StatusValue::Final);
    assert_eq!(EventStatus::new(EventStatusValue::Cancelled).value, EventStatusValue::Cancelled);
    assert_eq!(TodoStatus::new(TodoStatusValue::Completed).value, TodoStatusValue::Completed);
    let src = wrap("STATUS:FINAL");
    let j = JournalStatus::try_from(Status::try_from(property(&src)).unwrap()).unwrap();
    assert_eq!(j.to_owned().value, j.value);
}

#[test]
fn utc_offsets_and_uris() {
    let src = "BEGIN:STANDARD\r\nTZOFFSETFROM:-0500\r\nTZURL:http://tz.example.com/x\r\nEND:STANDARD\r\n";
    let mut props = parsed_all(src);
    let url = props.pop().unwrap();
    let from = props.pop().unwrap();
    let u = UtcOffsetProperty::try_from(from).unwrap();
    assert_eq!(u.value, ValueUtcOffset { positive: false, hour: 5, minute: 0, second: 0 });
    let uri = UriProperty::try_from(url).unwrap();
    assert_eq!(uri.uri.resolve().as_ref(), "http://tz.example.com/x");
}

#[test]
fn text_only_and_language() {
    let src = wrap("UID;LANGUAGE=en:abc-123");
    let t = TextOnly::try_from(property(&src)).unwrap();
    assert_eq!(t.content.value.resolve().as_ref(), "abc-123");
    // the standard parameter is kept, as TextOnly uses none
    assert_eq!(t.retained_parameters.len(), 1);
    assert!(matches!(t.retained_parameters[0], Parameter::Language { .. }));

    let src = "BEGIN:STANDARD\r\nTZNAME;LANGUAGE=fr:HNE\r\nEND:STANDARD\r\n";
    let t = TextWithLanguage::try_from(property(src)).unwrap();
    assert_eq!(t.language.unwrap().resolve().as_ref(), "fr");
    let owned = Text::new("plain".to_string());
    assert_eq!(owned.content.value, "plain");
    assert!(owned.language.is_none());
    assert_eq!(TextOnly::new("x".to_string()).content.value, "x");
}

#[test]
fn value_parameter_selects_and_restricts_types() {
    // DTSTART allows DATE: the VALUE parameter selects it
    let src = wrap("DTSTART;VALUE=DATE:20240301");
    let prop = property(&src);
    assert!(matches!(prop.value, Value::Date { .. }));
    // DTSTART does not allow INTEGER
    let src = wrap("DTSTART;VALUE=INTEGER:5");
    let raw = syntax_analysis(&src).unwrap();
    let errs = typed_analysis(raw).err().unwrap();
    assert!(matches!(
        errs[0],
        TypedError::ValueTypeDisallowed { value_type: PropertyValueKind::Integer, .. }
    ));
    // without VALUE, the first type that reads wins
    let src = wrap("DTSTART:20240301T101500Z");
    let prop = property(&src);
    match prop.value {
        Value::DateTime { values, .. } => {
            assert_eq!(values.len(), 1);
            assert_eq!(values[0].date.year, 2024);
            assert!(values[0].time.utc);
        }
        v => panic!("unexpected {v:?}"),
    }
}

#[test]
fn invalid_values_and_parameters_are_reported() {
    let src = wrap("DTSTART:tomorrow");
    let errs = typed_analysis(syntax_analysis(&src).unwrap()).err().unwrap();
    assert!(matches!(errs[0], TypedError::ValueSyntax { .. }));

    let src = wrap("ATTENDEE;RSVP=MAYBE:mailto:a@example.com");
    let errs = typed_analysis(syntax_analysis(&src).unwrap()).err().unwrap();
    assert!(matches!(
        errs[0],
        TypedError::ParameterValueInvalid { parameter: ParameterKind::RsvpExpectation, .. }
    ));

    let src = wrap("ATTENDEE;CN=a,b:mailto:a@example.com");
    let errs = typed_analysis(syntax_analysis(&src).unwrap()).err().unwrap();
    assert!(matches!(
        errs[0],
        TypedError::ParameterMultipleValuesDisallowed { parameter: ParameterKind::CommonName, .. }
    ));
}

#[test]
fn nested_components_are_typed() {
    let src = "BEGIN:VCALENDAR\r\nVERSION:2.0\r\nBEGIN:VEVENT\r\nSUMMARY:x\r\nBEGIN:VALARM\r\nREPEAT:1\r\nEND:VALARM\r\nEND:VEVENT\r\nEND:VCALENDAR\r\n";
    let comp = component(src);
    assert_eq!(comp.name.resolve().as_ref(), "VCALENDAR");
    assert_eq!(comp.children.len(), 1);
    assert_eq!(comp.children[0].children.len(), 1);
    assert_eq!(comp.children[0].children[0].name.resolve().as_ref(), "VALARM");
}
