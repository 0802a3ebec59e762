use aimcal_ical::property::{PropertyKind, PropertyKindOwned};

fn kinds() -> Vec<PropertyKindOwned> {
    vec![
        PropertyKind::CalScale,
        PropertyKind::Method,
        PropertyKind::ProdId,
        PropertyKind::Version,
        PropertyKind::Attach,
        PropertyKind::Categories,
        PropertyKind::Class,
        PropertyKind::Comment,
        PropertyKind::Description,
        PropertyKind::Geo,
        PropertyKind::Location,
        PropertyKind::PercentComplete,
        PropertyKind::Priority,
        PropertyKind::Resources,
        PropertyKind::Status,
        PropertyKind::Summary,
        PropertyKind::Completed,
        PropertyKind::DtEnd,
        PropertyKind::Due,
        PropertyKind::DtStart,
        PropertyKind::Duration,
        PropertyKind::FreeBusy,
        PropertyKind::Transp,
        PropertyKind::TzId,
        PropertyKind::TzName,
        PropertyKind::TzOffsetFrom,
        PropertyKind::TzOffsetTo,
        PropertyKind::TzUrl,
        PropertyKind::Attendee,
        PropertyKind::Contact,
        PropertyKind::Organizer,
        PropertyKind::RecurrenceId,
        PropertyKind::RelatedTo,
        PropertyKind::Url,
        PropertyKind::Uid,
        PropertyKind::ExDate,
        PropertyKind::RDate,
        PropertyKind::RRule,
        PropertyKind::Action,
        PropertyKind::Repeat,
        PropertyKind::Trigger,
        PropertyKind::Created,
        PropertyKind::DtStamp,
        PropertyKind::LastModified,
        PropertyKind::Sequence,
        PropertyKind::RequestStatus,
        PropertyKind::XName("X-FOO".to_string()),
        PropertyKind::Unrecognized("FOO".to_string()),
    ]
}

#[test]
fn all_kinds_have_value_types() {
    for kind in kinds() {
        if matches!(kind, PropertyKind::XName(_) | PropertyKind::Unrecognized(_)) {
            continue;
        }

        let value_types = kind
            .value_types()
            .expect("Known property kind must have value types");
        assert!(
            !value_types.is_empty(),
            "Property {kind:?}: value_types must not be empty",
        );
    }
}
