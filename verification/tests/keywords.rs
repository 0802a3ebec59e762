use aimcal_ical::parameter::{
    param_kind_from_name, CalendarUserType, FreeBusyType, ParameterKind, ParticipationRole, ParticipationStatus,
    RelationshipType,
};
use aimcal_ical::property::alarm::ActionValue;
use aimcal_ical::property::calendar::{CalendarScaleValue, MethodValue, VersionValue};
use aimcal_ical::property::datetime::TimeTransparencyValue;
use aimcal_ical::property::descriptive::{ClassificationValue, StatusValue};
use aimcal_ical::property::{PropertyKind, PropertyKindOwned};
use aimcal_ical::semantic::collect::collect_properties;
use aimcal_ical::property::ast::{TAG_DT_START, TAG_SUMMARY, TAG_UID};
use aimcal_ical::syntax::syntax_analysis;
use aimcal_ical::typed::typed_analysis;
use aimcal_ical::{Span, SpannedSegments};

fn text(s: &str) -> SpannedSegments<'_> {
    SpannedSegments::new(vec![(s, Span::new(0, s.len()))])
}

fn lower(s: &str) -> &'static str {
    Box::leak(s.to_ascii_lowercase().into_boxed_str())
}

#[test]
fn method_keywords_read_back() {
    let all = [
        MethodValue::Publish,
        MethodValue::Request,
        MethodValue::Reply,
        MethodValue::Add,
        MethodValue::Cancel,
        MethodValue::Refresh,
        MethodValue::Counter,
        MethodValue::DeclineCounter,
    ];
    for v in all {
        assert_eq!(MethodValue::from_text(&text(v.as_str())), Some(v));
        assert_eq!(MethodValue::from_text(&text(lower(v.as_str()))), Some(v));
    }
    assert_eq!(MethodValue::from_text(&text("PUBLISHED")), None);
}

#[test]
fn value_keywords_read_back() {
    for v in [CalendarScaleValue::Gregorian] {
        assert_eq!(CalendarScaleValue::from_text(&text(v.as_str())), Some(v));
    }
    for v in [VersionValue::V2_0] {
        assert_eq!(VersionValue::from_text(&text(v.as_str())), Some(v));
    }
    for v in [
        StatusValue::Tentative,
        StatusValue::Confirmed,
        StatusValue::NeedsAction,
        StatusValue::Completed,
        StatusValue::InProcess,
        StatusValue::Draft,
        StatusValue::Final,
        StatusValue::Cancelled,
    ] {
        assert_eq!(StatusValue::from_text(&text(v.as_str())), Some(v));
        assert_eq!(StatusValue::from_text(&text(lower(v.as_str()))), Some(v));
    }
    for v in [ClassificationValue::Public, ClassificationValue::Private, ClassificationValue::Confidential] {
        assert_eq!(ClassificationValue::from_text(&text(v.as_str())), Some(v));
    }
    for v in [ActionValue::Audio, ActionValue::Display, ActionValue::Email] {
        assert_eq!(ActionValue::from_text(&text(v.as_str())), Some(v));
    }
    for v in [TimeTransparencyValue::Opaque, TimeTransparencyValue::Transparent] {
        assert_eq!(TimeTransparencyValue::from_text(&text(v.as_str())), Some(v));
    }
}

#[test]
fn property_kind_names_read_back() {
    let kinds: Vec<PropertyKindOwned> = vec![
        PropertyKind::CalScale,
        PropertyKind::Method,
        PropertyKind::ProdId,
        PropertyKind::Version,
        PropertyKind::Categories,
        PropertyKind::PercentComplete,
        PropertyKind::DtStart,
        PropertyKind::TzOffsetFrom,
        PropertyKind::TzOffsetTo,
        PropertyKind::RecurrenceId,
        PropertyKind::RelatedTo,
        PropertyKind::LastModified,
        PropertyKind::RequestStatus,
    ];
    for kind in kinds {
        let name = kind.keyword().expect("standard kind");
        assert_eq!(PropertyKind::from_name(text(name)).keyword(), Some(name));
        assert_eq!(PropertyKind::from_name(text(lower(name))).keyword(), Some(name));
    }
    assert!(matches!(PropertyKind::from_name(text("X-FOO")), PropertyKind::XName(_)));
    assert!(matches!(PropertyKind::from_name(text("DTSTARTS")), PropertyKind::Unrecognized(_)));
}

#[test]
fn parameter_names_and_values_read_back() {
    for k in [
        ParameterKind::AlternateText,
        ParameterKind::CommonName,
        ParameterKind::Delegators,
        ParameterKind::Delegatees,
        ParameterKind::RelationshipType,
        ParameterKind::SendBy,
        ParameterKind::TimeZoneIdentifier,
        ParameterKind::FreeBusyType,
    ] {
        let name = k.name().expect("standard parameter");
        assert_eq!(param_kind_from_name(&text(name)), k);
    }
    assert_eq!(ParameterKind::XName.name(), None);
    for v in [CalendarUserType::<SpannedSegments<'_>>::Group, CalendarUserType::Room] {
        let kw = v.keyword().unwrap();
        assert_eq!(CalendarUserType::from_value(text(kw)).keyword(), Some(kw));
    }
    let kw = FreeBusyType::<SpannedSegments<'_>>::BusyUnavailable.keyword().unwrap();
    assert_eq!(kw, "BUSY-UNAVAILABLE");
    assert!(matches!(FreeBusyType::from_value(text(kw)), FreeBusyType::BusyUnavailable));
    let kw = ParticipationRole::<SpannedSegments<'_>>::OptParticipant.keyword().unwrap();
    assert!(matches!(ParticipationRole::from_value(text(kw)), ParticipationRole::OptParticipant));
    let kw = ParticipationStatus::<SpannedSegments<'_>>::InProcess.keyword().unwrap();
    assert!(matches!(ParticipationStatus::from_value(text(kw)), ParticipationStatus::InProcess));
    let kw = RelationshipType::<SpannedSegments<'_>>::Sibling.keyword().unwrap();
    assert!(matches!(RelationshipType::from_value(text(kw)), RelationshipType::Sibling));
}

#[test]
fn collecting_loses_no_property() {
    let src = "BEGIN:VEVENT\r\nUID:a\r\nSUMMARY:one\r\nX-A:1\r\nSUMMARY:two\r\nDTSTART:20240101T000000Z\r\nUID:b\r\nCOMMENT:c\r\nEND:VEVENT\r\n";
    let raw = syntax_analysis(src).expect("syntax");
    let mut typed = typed_analysis(raw).expect("typed");
    let comp = typed.remove(0);
    let total = comp.properties.len();
    assert_eq!(total, 7);
    let tags = vec![TAG_UID, TAG_SUMMARY, TAG_DT_START];
    let got = collect_properties(comp.properties, &tags, None);
    let filled = got.slots.iter().filter(|s| s.is_some()).count();
    assert_eq!(filled, 3);
    assert_eq!(got.errors.len(), 2);
    assert_eq!(got.others.len(), 2);
    assert_eq!(filled + got.errors.len() + got.others.len(), total);
}

#[test]
fn spans_and_segments() {
    let s: Span = (3..7).into();
    assert_eq!(s, Span::new(3, 7));
    assert_eq!(s.into_range(), 3..7);

    let one = SpannedSegments::new(vec![("abc", Span::new(0, 3))]);
    assert!(matches!(one.resolve(), std::borrow::Cow::Borrowed("abc")));
    let two = SpannedSegments::new(vec![("ab", Span::new(0, 2)), ("é", Span::new(5, 7))]);
    assert_eq!(two.resolve().as_ref(), "abé");
    assert_eq!(two.to_owned().len(), two.len());
}
