//! The typed property of each kind (RFC 5545 Section 3.7 and 3.8).

use vstd::prelude::*;
use vstd::string::StringExecFns;

use crate::property::alarm::{Action, Repeat, Trigger, action_result, repeat_result, trigger_result};
use crate::property::calendar::{
    CalendarScale, Method, ProductId, Version, calendar_scale_result, method_result, product_id_result,
    version_result,
};
use crate::property::changemgmt::{Sequence, sequence_result};
use crate::property::common::{
    Text, TextOnly, TextWithLanguage, UriProperty, text_only_result, text_result, text_with_language_result,
    uri_property_result,
};
use crate::property::datetime::{
    DateTimeProperty, DateTimeUtc, Duration, FreeBusy, TimeTransparency, date_time_property_result, date_time_utc_result, free_busy_result,
    duration_result, time_transparency_result,
};
use crate::property::descriptive::{
    Attachment, Categories, Classification, PercentComplete, Priority, Resources, Status, attachment_result,
    categories_result, classification_result, percent_complete_result, priority_result, resources_result,
    status_result,
};
use crate::property::relationship::{Attendee, Organizer, RelatedTo, attendee_result, organizer_result, related_to_result};
use crate::property::recurrence::{ExDate, RDate, ex_date_result, r_date_result};
use crate::property::timezone::{UtcOffsetProperty, utc_offset_property_result};
use crate::property::{PropertyKind, PropertyKindRef};
use crate::property::alarm::invalid_value_error;
use crate::string_storage::{Span, SpannedSegments};
use crate::typed::{ParsedProperty, TypedError};

verus! {

/// The typed property of each kind, one variant per `PropertyKind`.
///
/// Each variant holds the type of its property, read from a
/// `ParsedProperty`. The variants that keep the `ParsedProperty` itself are
/// the experimental and unrecognized properties, and the kinds whose values
/// this library does not read further.
#[derive(Debug)]
pub enum Property<'src> {
    /// 3.7.1 Calendar Scale
    CalScale(CalendarScale<SpannedSegments<'src>>),
    /// 3.7.2 Method
    Method(Method<SpannedSegments<'src>>),
    /// 3.7.3 Product Identifier
    ProdId(ProductId<SpannedSegments<'src>>),
    /// 3.7.4 Version
    Version(Version<SpannedSegments<'src>>),
    /// 3.8.1.1 Attachment
    Attach(Attachment<SpannedSegments<'src>>),
    /// 3.8.1.2 Categories
    Categories(Categories<SpannedSegments<'src>>),
    /// 3.8.1.3 Classification
    Class(Classification<SpannedSegments<'src>>),
    /// 3.8.1.4 Comment
    Comment(Text<SpannedSegments<'src>>),
    /// 3.8.1.5 Description
    Description(Text<SpannedSegments<'src>>),
    /// 3.8.1.6 Geographic Position, kept as typed: its two floats are read outside this library
    Geo(ParsedProperty<'src>),
    /// 3.8.1.7 Location
    Location(Text<SpannedSegments<'src>>),
    /// 3.8.1.8 Percent Complete
    PercentComplete(PercentComplete<SpannedSegments<'src>>),
    /// 3.8.1.9 Priority
    Priority(Priority<SpannedSegments<'src>>),
    /// 3.8.1.10 Resources
    Resources(Resources<SpannedSegments<'src>>),
    /// 3.8.1.11 Status
    Status(Status<SpannedSegments<'src>>),
    /// 3.8.1.12 Summary
    Summary(Text<SpannedSegments<'src>>),
    /// 3.8.2.1 Date-Time Completed
    Completed(DateTimeUtc<SpannedSegments<'src>>),
    /// 3.8.2.2 Date-Time End
    DtEnd(DateTimeProperty<SpannedSegments<'src>>),
    /// 3.8.2.3 Date-Time Due
    Due(DateTimeProperty<SpannedSegments<'src>>),
    /// 3.8.2.4 Date-Time Start
    DtStart(DateTimeProperty<SpannedSegments<'src>>),
    /// 3.8.2.5 Duration
    Duration(Duration<SpannedSegments<'src>>),
    /// 3.8.2.6 Free/Busy Time
    FreeBusy(FreeBusy<SpannedSegments<'src>>),
    /// 3.8.2.7 Time Transparency
    Transp(TimeTransparency<SpannedSegments<'src>>),
    /// 3.8.3.1 Time Zone Identifier
    TzId(TextOnly<SpannedSegments<'src>>),
    /// 3.8.3.2 Time Zone Name
    TzName(TextWithLanguage<SpannedSegments<'src>>),
    /// 3.8.3.3 Time Zone Offset From
    TzOffsetFrom(UtcOffsetProperty<SpannedSegments<'src>>),
    /// 3.8.3.4 Time Zone Offset To
    TzOffsetTo(UtcOffsetProperty<SpannedSegments<'src>>),
    /// 3.8.3.5 Time Zone URL
    TzUrl(UriProperty<SpannedSegments<'src>>),
    /// 3.8.4.1 Attendee
    Attendee(Attendee<SpannedSegments<'src>>),
    /// 3.8.4.2 Contact
    Contact(Text<SpannedSegments<'src>>),
    /// 3.8.4.3 Organizer
    Organizer(Organizer<SpannedSegments<'src>>),
    /// 3.8.4.4 Recurrence ID
    RecurrenceId(DateTimeProperty<SpannedSegments<'src>>),
    /// 3.8.4.5 Related To
    RelatedTo(RelatedTo<SpannedSegments<'src>>),
    /// 3.8.4.6 URL
    Url(UriProperty<SpannedSegments<'src>>),
    /// 3.8.4.7 Unique Identifier
    Uid(TextOnly<SpannedSegments<'src>>),
    /// 3.8.5.1 Exception Date-Times
    ExDate(ExDate<SpannedSegments<'src>>),
    /// 3.8.5.2 Recurrence Date-Times
    RDate(RDate<SpannedSegments<'src>>),
    /// 3.8.6.1 Action
    Action(Action<SpannedSegments<'src>>),
    /// 3.8.6.2 Repeat Count
    Repeat(Repeat<SpannedSegments<'src>>),
    /// 3.8.6.3 Trigger
    Trigger(Trigger<SpannedSegments<'src>>),
    /// 3.8.7.1 Date-Time Created
    Created(DateTimeProperty<SpannedSegments<'src>>),
    /// 3.8.7.2 Date-Time Stamp
    DtStamp(DateTimeProperty<SpannedSegments<'src>>),
    /// 3.8.7.3 Last Modified
    LastModified(DateTimeProperty<SpannedSegments<'src>>),
    /// 3.8.7.4 Sequence Number
    Sequence(Sequence<SpannedSegments<'src>>),
    /// 3.8.8.3 Request Status
    RequestStatus(TextWithLanguage<SpannedSegments<'src>>),
    /// Experimental property (`X-` prefix), kept as typed
    XName(ParsedProperty<'src>),
    /// Property not recognized by this implementation, kept as typed
    Unrecognized(ParsedProperty<'src>),
}

/// What converting a parsed property to its typed property gives: what the
/// conversion of its kind's type gives, wrapped in that kind's variant; the
/// kinds kept as typed give the property itself; `RRULE` is not read.
pub open spec fn property_result<'src>(
    prop: ParsedProperty<'src>,
    r: Result<Property<'src>, Vec<TypedError<'src>>>,
) -> bool {
    match prop.kind {
        PropertyKind::CalScale => match r {
            Ok(Property::CalScale(v)) => calendar_scale_result(prop, Ok(v)),
            Ok(_) => false,
            Err(es) => calendar_scale_result(prop, Err(es)),
        },
        PropertyKind::Method => match r {
            Ok(Property::Method(v)) => method_result(prop, Ok(v)),
            Ok(_) => false,
            Err(es) => method_result(prop, Err(es)),
        },
        PropertyKind::ProdId => match r {
            Ok(Property::ProdId(v)) => product_id_result(prop, Ok(v)),
            Ok(_) => false,
            Err(es) => product_id_result(prop, Err(es)),
        },
        PropertyKind::Version => match r {
            Ok(Property::Version(v)) => version_result(prop, Ok(v)),
            Ok(_) => false,
            Err(es) => version_result(prop, Err(es)),
        },
        PropertyKind::Attach => match r {
            Ok(Property::Attach(v)) => attachment_result(prop, Ok(v)),
            Ok(_) => false,
            Err(es) => attachment_result(prop, Err(es)),
        },
        PropertyKind::Categories => match r {
            Ok(Property::Categories(v)) => categories_result(prop, Ok(v)),
            Ok(_) => false,
            Err(es) => categories_result(prop, Err(es)),
        },
        PropertyKind::Class => match r {
            Ok(Property::Class(v)) => classification_result(prop, Ok(v)),
            Ok(_) => false,
            Err(es) => classification_result(prop, Err(es)),
        },
        PropertyKind::Comment => match r {
            Ok(Property::Comment(v)) => text_result(prop, Ok(v)),
            Ok(_) => false,
            Err(es) => text_result(prop, Err(es)),
        },
        PropertyKind::Description => match r {
            Ok(Property::Description(v)) => text_result(prop, Ok(v)),
            Ok(_) => false,
            Err(es) => text_result(prop, Err(es)),
        },
        PropertyKind::Geo => r == Ok::<Property<'src>, Vec<TypedError<'src>>>(Property::Geo(prop)),
        PropertyKind::Location => match r {
            Ok(Property::Location(v)) => text_result(prop, Ok(v)),
            Ok(_) => false,
            Err(es) => text_result(prop, Err(es)),
        },
        PropertyKind::PercentComplete => match r {
            Ok(Property::PercentComplete(v)) => percent_complete_result(prop, Ok(v)),
            Ok(_) => false,
            Err(es) => percent_complete_result(prop, Err(es)),
        },
        PropertyKind::Priority => match r {
            Ok(Property::Priority(v)) => priority_result(prop, Ok(v)),
            Ok(_) => false,
            Err(es) => priority_result(prop, Err(es)),
        },
        PropertyKind::Resources => match r {
            Ok(Property::Resources(v)) => resources_result(prop, Ok(v)),
            Ok(_) => false,
            Err(es) => resources_result(prop, Err(es)),
        },
        PropertyKind::Status => match r {
            Ok(Property::Status(v)) => status_result(prop, Ok(v)),
            Ok(_) => false,
            Err(es) => status_result(prop, Err(es)),
        },
        PropertyKind::Summary => match r {
            Ok(Property::Summary(v)) => text_result(prop, Ok(v)),
            Ok(_) => false,
            Err(es) => text_result(prop, Err(es)),
        },
        PropertyKind::Completed => match r {
            Ok(Property::Completed(v)) => date_time_utc_result(prop, Ok(v)),
            Ok(_) => false,
            Err(es) => date_time_utc_result(prop, Err(es)),
        },
        PropertyKind::DtEnd => match r {
            Ok(Property::DtEnd(v)) => date_time_property_result(prop, Ok(v)),
            Ok(_) => false,
            Err(es) => date_time_property_result(prop, Err(es)),
        },
        PropertyKind::Due => match r {
            Ok(Property::Due(v)) => date_time_property_result(prop, Ok(v)),
            Ok(_) => false,
            Err(es) => date_time_property_result(prop, Err(es)),
        },
        PropertyKind::DtStart => match r {
            Ok(Property::DtStart(v)) => date_time_property_result(prop, Ok(v)),
            Ok(_) => false,
            Err(es) => date_time_property_result(prop, Err(es)),
        },
        PropertyKind::Duration => match r {
            Ok(Property::Duration(v)) => duration_result(prop, Ok(v)),
            Ok(_) => false,
            Err(es) => duration_result(prop, Err(es)),
        },
        PropertyKind::FreeBusy => match r {
            Ok(Property::FreeBusy(v)) => free_busy_result(prop, Ok(v)),
            Ok(_) => false,
            Err(es) => free_busy_result(prop, Err(es)),
        },
        PropertyKind::Transp => match r {
            Ok(Property::Transp(v)) => time_transparency_result(prop, Ok(v)),
            Ok(_) => false,
            Err(es) => time_transparency_result(prop, Err(es)),
        },
        PropertyKind::TzId => match r {
            Ok(Property::TzId(v)) => text_only_result(prop, Ok(v)),
            Ok(_) => false,
            Err(es) => text_only_result(prop, Err(es)),
        },
        PropertyKind::TzName => match r {
            Ok(Property::TzName(v)) => text_with_language_result(prop, Ok(v)),
            Ok(_) => false,
            Err(es) => text_with_language_result(prop, Err(es)),
        },
        PropertyKind::TzOffsetFrom => match r {
            Ok(Property::TzOffsetFrom(v)) => utc_offset_property_result(prop, Ok(v)),
            Ok(_) => false,
            Err(es) => utc_offset_property_result(prop, Err(es)),
        },
        PropertyKind::TzOffsetTo => match r {
            Ok(Property::TzOffsetTo(v)) => utc_offset_property_result(prop, Ok(v)),
            Ok(_) => false,
            Err(es) => utc_offset_property_result(prop, Err(es)),
        },
        PropertyKind::TzUrl => match r {
            Ok(Property::TzUrl(v)) => uri_property_result(prop, Ok(v)),
            Ok(_) => false,
            Err(es) => uri_property_result(prop, Err(es)),
        },
        PropertyKind::Attendee => match r {
            Ok(Property::Attendee(v)) => attendee_result(prop, Ok(v)),
            Ok(_) => false,
            Err(es) => attendee_result(prop, Err(es)),
        },
        PropertyKind::Contact => match r {
            Ok(Property::Contact(v)) => text_result(prop, Ok(v)),
            Ok(_) => false,
            Err(es) => text_result(prop, Err(es)),
        },
        PropertyKind::Organizer => match r {
            Ok(Property::Organizer(v)) => organizer_result(prop, Ok(v)),
            Ok(_) => false,
            Err(es) => organizer_result(prop, Err(es)),
        },
        PropertyKind::RecurrenceId => match r {
            Ok(Property::RecurrenceId(v)) => date_time_property_result(prop, Ok(v)),
            Ok(_) => false,
            Err(es) => date_time_property_result(prop, Err(es)),
        },
        PropertyKind::RelatedTo => match r {
            Ok(Property::RelatedTo(v)) => related_to_result(prop, Ok(v)),
            Ok(_) => false,
            Err(es) => related_to_result(prop, Err(es)),
        },
        PropertyKind::Url => match r {
            Ok(Property::Url(v)) => uri_property_result(prop, Ok(v)),
            Ok(_) => false,
            Err(es) => uri_property_result(prop, Err(es)),
        },
        PropertyKind::Uid => match r {
            Ok(Property::Uid(v)) => text_only_result(prop, Ok(v)),
            Ok(_) => false,
            Err(es) => text_only_result(prop, Err(es)),
        },
        PropertyKind::ExDate => match r {
            Ok(Property::ExDate(v)) => ex_date_result(prop, Ok(v)),
            Ok(_) => false,
            Err(es) => ex_date_result(prop, Err(es)),
        },
        PropertyKind::RDate => match r {
            Ok(Property::RDate(v)) => r_date_result(prop, Ok(v)),
            Ok(_) => false,
            Err(es) => r_date_result(prop, Err(es)),
        },
        PropertyKind::RRule => r matches Err(es) && es@.len() == 1 && invalid_value_error(
            es@[0],
            prop.kind,
            "RRULE parsing not yet implemented"@,
            prop.span,
        ),
        PropertyKind::Action => match r {
            Ok(Property::Action(v)) => action_result(prop, Ok(v)),
            Ok(_) => false,
            Err(es) => action_result(prop, Err(es)),
        },
        PropertyKind::Repeat => match r {
            Ok(Property::Repeat(v)) => repeat_result(prop, Ok(v)),
            Ok(_) => false,
            Err(es) => repeat_result(prop, Err(es)),
        },
        PropertyKind::Trigger => match r {
            Ok(Property::Trigger(v)) => trigger_result(prop, Ok(v)),
            Ok(_) => false,
            Err(es) => trigger_result(prop, Err(es)),
        },
        PropertyKind::Created => match r {
            Ok(Property::Created(v)) => date_time_property_result(prop, Ok(v)),
            Ok(_) => false,
            Err(es) => date_time_property_result(prop, Err(es)),
        },
        PropertyKind::DtStamp => match r {
            Ok(Property::DtStamp(v)) => date_time_property_result(prop, Ok(v)),
            Ok(_) => false,
            Err(es) => date_time_property_result(prop, Err(es)),
        },
        PropertyKind::LastModified => match r {
            Ok(Property::LastModified(v)) => date_time_property_result(prop, Ok(v)),
            Ok(_) => false,
            Err(es) => date_time_property_result(prop, Err(es)),
        },
        PropertyKind::Sequence => match r {
            Ok(Property::Sequence(v)) => sequence_result(prop, Ok(v)),
            Ok(_) => false,
            Err(es) => sequence_result(prop, Err(es)),
        },
        PropertyKind::RequestStatus => match r {
            Ok(Property::RequestStatus(v)) => text_with_language_result(prop, Ok(v)),
            Ok(_) => false,
            Err(es) => text_with_language_result(prop, Err(es)),
        },
        PropertyKind::XName(_) => r == Ok::<Property<'src>, Vec<TypedError<'src>>>(Property::XName(prop)),
        PropertyKind::Unrecognized(_) => r == Ok::<Property<'src>, Vec<TypedError<'src>>>(Property::Unrecognized(prop)),
    }
}

/// The position of a property's variant among the variants, which tells
/// the kinds of typed properties apart.
pub open spec fn property_tag<'src>(p: Property<'src>) -> nat {
    match p {
        Property::CalScale(_) => 0,
        Property::Method(_) => 1,
        Property::ProdId(_) => 2,
        Property::Version(_) => 3,
        Property::Attach(_) => 4,
        Property::Categories(_) => 5,
        Property::Class(_) => 6,
        Property::Comment(_) => 7,
        Property::Description(_) => 8,
        Property::Geo(_) => 9,
        Property::Location(_) => 10,
        Property::PercentComplete(_) => 11,
        Property::Priority(_) => 12,
        Property::Resources(_) => 13,
        Property::Status(_) => 14,
        Property::Summary(_) => 15,
        Property::Completed(_) => 16,
        Property::DtEnd(_) => 17,
        Property::Due(_) => 18,
        Property::DtStart(_) => 19,
        Property::Duration(_) => 20,
        Property::FreeBusy(_) => 21,
        Property::Transp(_) => 22,
        Property::TzId(_) => 23,
        Property::TzName(_) => 24,
        Property::TzOffsetFrom(_) => 25,
        Property::TzOffsetTo(_) => 26,
        Property::TzUrl(_) => 27,
        Property::Attendee(_) => 28,
        Property::Contact(_) => 29,
        Property::Organizer(_) => 30,
        Property::RecurrenceId(_) => 31,
        Property::RelatedTo(_) => 32,
        Property::Url(_) => 33,
        Property::Uid(_) => 34,
        Property::ExDate(_) => 35,
        Property::RDate(_) => 36,
        Property::Action(_) => 37,
        Property::Repeat(_) => 38,
        Property::Trigger(_) => 39,
        Property::Created(_) => 40,
        Property::DtStamp(_) => 41,
        Property::LastModified(_) => 42,
        Property::Sequence(_) => 43,
        Property::RequestStatus(_) => 44,
        Property::XName(_) => 45,
        Property::Unrecognized(_) => 46,
    }
}

/// The tag of `Property::CalScale`.
pub const TAG_CAL_SCALE: usize = 0;

/// The tag of `Property::Method`.
pub const TAG_METHOD: usize = 1;

/// The tag of `Property::ProdId`.
pub const TAG_PROD_ID: usize = 2;

/// The tag of `Property::Version`.
pub const TAG_VERSION: usize = 3;

/// The tag of `Property::Attach`.
pub const TAG_ATTACH: usize = 4;

/// The tag of `Property::Categories`.
pub const TAG_CATEGORIES: usize = 5;

/// The tag of `Property::Class`.
pub const TAG_CLASS: usize = 6;

/// The tag of `Property::Comment`.
pub const TAG_COMMENT: usize = 7;

/// The tag of `Property::Description`.
pub const TAG_DESCRIPTION: usize = 8;

/// The tag of `Property::Geo`.
pub const TAG_GEO: usize = 9;

/// The tag of `Property::Location`.
pub const TAG_LOCATION: usize = 10;

/// The tag of `Property::PercentComplete`.
pub const TAG_PERCENT_COMPLETE: usize = 11;

/// The tag of `Property::Priority`.
pub const TAG_PRIORITY: usize = 12;

/// The tag of `Property::Resources`.
pub const TAG_RESOURCES: usize = 13;

/// The tag of `Property::Status`.
pub const TAG_STATUS: usize = 14;

/// The tag of `Property::Summary`.
pub const TAG_SUMMARY: usize = 15;

/// The tag of `Property::Completed`.
pub const TAG_COMPLETED: usize = 16;

/// The tag of `Property::DtEnd`.
pub const TAG_DT_END: usize = 17;

/// The tag of `Property::Due`.
pub const TAG_DUE: usize = 18;

/// The tag of `Property::DtStart`.
pub const TAG_DT_START: usize = 19;

/// The tag of `Property::Duration`.
pub const TAG_DURATION: usize = 20;

/// The tag of `Property::FreeBusy`.
pub const TAG_FREE_BUSY: usize = 21;

/// The tag of `Property::Transp`.
pub const TAG_TRANSP: usize = 22;

/// The tag of `Property::TzId`.
pub const TAG_TZ_ID: usize = 23;

/// The tag of `Property::TzName`.
pub const TAG_TZ_NAME: usize = 24;

/// The tag of `Property::TzOffsetFrom`.
pub const TAG_TZ_OFFSET_FROM: usize = 25;

/// The tag of `Property::TzOffsetTo`.
pub const TAG_TZ_OFFSET_TO: usize = 26;

/// The tag of `Property::TzUrl`.
pub const TAG_TZ_URL: usize = 27;

/// The tag of `Property::Attendee`.
pub const TAG_ATTENDEE: usize = 28;

/// The tag of `Property::Contact`.
pub const TAG_CONTACT: usize = 29;

/// The tag of `Property::Organizer`.
pub const TAG_ORGANIZER: usize = 30;

/// The tag of `Property::RecurrenceId`.
pub const TAG_RECURRENCE_ID: usize = 31;

/// The tag of `Property::RelatedTo`.
pub const TAG_RELATED_TO: usize = 32;

/// The tag of `Property::Url`.
pub const TAG_URL: usize = 33;

/// The tag of `Property::Uid`.
pub const TAG_UID: usize = 34;

/// The tag of `Property::ExDate`.
pub const TAG_EX_DATE: usize = 35;

/// The tag of `Property::RDate`.
pub const TAG_R_DATE: usize = 36;

/// The tag of `Property::Action`.
pub const TAG_ACTION: usize = 37;

/// The tag of `Property::Repeat`.
pub const TAG_REPEAT: usize = 38;

/// The tag of `Property::Trigger`.
pub const TAG_TRIGGER: usize = 39;

/// The tag of `Property::Created`.
pub const TAG_CREATED: usize = 40;

/// The tag of `Property::DtStamp`.
pub const TAG_DT_STAMP: usize = 41;

/// The tag of `Property::LastModified`.
pub const TAG_LAST_MODIFIED: usize = 42;

/// The tag of `Property::Sequence`.
pub const TAG_SEQUENCE: usize = 43;

/// The tag of `Property::RequestStatus`.
pub const TAG_REQUEST_STATUS: usize = 44;

/// The tag of `Property::XName`.
pub const TAG_X_NAME: usize = 45;

/// The tag of `Property::Unrecognized`.
pub const TAG_UNRECOGNIZED: usize = 46;

/// The span of a typed property in the source.
pub open spec fn property_span<'src>(p: Property<'src>) -> Span {
    match p {
        Property::CalScale(x) => x.span,
        Property::Method(x) => x.span,
        Property::ProdId(x) => x.span,
        Property::Version(x) => x.span,
        Property::Attach(x) => x.span,
        Property::Categories(x) => x.span,
        Property::Class(x) => x.span,
        Property::Comment(x) => x.span,
        Property::Description(x) => x.span,
        Property::Geo(x) => x.span,
        Property::Location(x) => x.span,
        Property::PercentComplete(x) => x.span,
        Property::Priority(x) => x.span,
        Property::Resources(x) => x.span,
        Property::Status(x) => x.span,
        Property::Summary(x) => x.span,
        Property::Completed(x) => x.span,
        Property::DtEnd(x) => x.span,
        Property::Due(x) => x.span,
        Property::DtStart(x) => x.span,
        Property::Duration(x) => x.span,
        Property::FreeBusy(x) => x.span,
        Property::Transp(x) => x.span,
        Property::TzId(x) => x.span,
        Property::TzName(x) => x.span,
        Property::TzOffsetFrom(x) => x.span,
        Property::TzOffsetTo(x) => x.span,
        Property::TzUrl(x) => x.span,
        Property::Attendee(x) => x.span,
        Property::Contact(x) => x.span,
        Property::Organizer(x) => x.span,
        Property::RecurrenceId(x) => x.span,
        Property::RelatedTo(x) => x.span,
        Property::Url(x) => x.span,
        Property::Uid(x) => x.span,
        Property::ExDate(x) => x.span,
        Property::RDate(x) => x.span,
        Property::Action(x) => x.span,
        Property::Repeat(x) => x.span,
        Property::Trigger(x) => x.span,
        Property::Created(x) => x.span,
        Property::DtStamp(x) => x.span,
        Property::LastModified(x) => x.span,
        Property::Sequence(x) => x.span,
        Property::RequestStatus(x) => x.span,
        Property::XName(x) => x.span,
        Property::Unrecognized(x) => x.span,
    }
}

/// The kind of a typed property.
pub open spec fn property_kind<'src>(p: Property<'src>) -> PropertyKindRef<'src> {
    match p {
        Property::CalScale(_) => PropertyKind::CalScale,
        Property::Method(_) => PropertyKind::Method,
        Property::ProdId(_) => PropertyKind::ProdId,
        Property::Version(_) => PropertyKind::Version,
        Property::Attach(_) => PropertyKind::Attach,
        Property::Categories(_) => PropertyKind::Categories,
        Property::Class(_) => PropertyKind::Class,
        Property::Comment(_) => PropertyKind::Comment,
        Property::Description(_) => PropertyKind::Description,
        Property::Geo(_) => PropertyKind::Geo,
        Property::Location(_) => PropertyKind::Location,
        Property::PercentComplete(_) => PropertyKind::PercentComplete,
        Property::Priority(_) => PropertyKind::Priority,
        Property::Resources(_) => PropertyKind::Resources,
        Property::Status(_) => PropertyKind::Status,
        Property::Summary(_) => PropertyKind::Summary,
        Property::Completed(_) => PropertyKind::Completed,
        Property::DtEnd(_) => PropertyKind::DtEnd,
        Property::Due(_) => PropertyKind::Due,
        Property::DtStart(_) => PropertyKind::DtStart,
        Property::Duration(_) => PropertyKind::Duration,
        Property::FreeBusy(_) => PropertyKind::FreeBusy,
        Property::Transp(_) => PropertyKind::Transp,
        Property::TzId(_) => PropertyKind::TzId,
        Property::TzName(_) => PropertyKind::TzName,
        Property::TzOffsetFrom(_) => PropertyKind::TzOffsetFrom,
        Property::TzOffsetTo(_) => PropertyKind::TzOffsetTo,
        Property::TzUrl(_) => PropertyKind::TzUrl,
        Property::Attendee(_) => PropertyKind::Attendee,
        Property::Contact(_) => PropertyKind::Contact,
        Property::Organizer(_) => PropertyKind::Organizer,
        Property::RecurrenceId(_) => PropertyKind::RecurrenceId,
        Property::RelatedTo(_) => PropertyKind::RelatedTo,
        Property::Url(_) => PropertyKind::Url,
        Property::Uid(_) => PropertyKind::Uid,
        Property::ExDate(_) => PropertyKind::ExDate,
        Property::RDate(_) => PropertyKind::RDate,
        Property::Action(_) => PropertyKind::Action,
        Property::Repeat(_) => PropertyKind::Repeat,
        Property::Trigger(_) => PropertyKind::Trigger,
        Property::Created(_) => PropertyKind::Created,
        Property::DtStamp(_) => PropertyKind::DtStamp,
        Property::LastModified(_) => PropertyKind::LastModified,
        Property::Sequence(_) => PropertyKind::Sequence,
        Property::RequestStatus(_) => PropertyKind::RequestStatus,
        Property::XName(p) => p.kind,
        Property::Unrecognized(p) => p.kind,
    }
}

impl<'src> Property<'src> {
    /// Convert a parsed property to the typed property of its kind.
    #[verifier::rlimit(50)]
    pub fn try_from(prop: ParsedProperty<'src>) -> (r: Result<Self, Vec<TypedError<'src>>>)
        ensures
            property_result(prop, r),
    {
        match prop.kind {
            PropertyKind::CalScale => match CalendarScale::try_from(prop) {
                Ok(v) => Ok(Property::CalScale(v)),
                Err(e) => Err(e),
            },
            PropertyKind::Method => match Method::try_from(prop) {
                Ok(v) => Ok(Property::Method(v)),
                Err(e) => Err(e),
            },
            PropertyKind::ProdId => match ProductId::try_from(prop) {
                Ok(v) => Ok(Property::ProdId(v)),
                Err(e) => Err(e),
            },
            PropertyKind::Version => match Version::try_from(prop) {
                Ok(v) => Ok(Property::Version(v)),
                Err(e) => Err(e),
            },
            PropertyKind::Attach => match Attachment::try_from(prop) {
                Ok(v) => Ok(Property::Attach(v)),
                Err(e) => Err(e),
            },
            PropertyKind::Categories => match Categories::try_from(prop) {
                Ok(v) => Ok(Property::Categories(v)),
                Err(e) => Err(e),
            },
            PropertyKind::Class => match Classification::try_from(prop) {
                Ok(v) => Ok(Property::Class(v)),
                Err(e) => Err(e),
            },
            PropertyKind::Comment => match Text::try_from(prop) {
                Ok(v) => Ok(Property::Comment(v)),
                Err(e) => Err(e),
            },
            PropertyKind::Description => match Text::try_from(prop) {
                Ok(v) => Ok(Property::Description(v)),
                Err(e) => Err(e),
            },
            PropertyKind::Geo => Ok(Property::Geo(prop)),
            PropertyKind::Location => match Text::try_from(prop) {
                Ok(v) => Ok(Property::Location(v)),
                Err(e) => Err(e),
            },
            PropertyKind::PercentComplete => match PercentComplete::try_from(prop) {
                Ok(v) => Ok(Property::PercentComplete(v)),
                Err(e) => Err(e),
            },
            PropertyKind::Priority => match Priority::try_from(prop) {
                Ok(v) => Ok(Property::Priority(v)),
                Err(e) => Err(e),
            },
            PropertyKind::Resources => match Resources::try_from(prop) {
                Ok(v) => Ok(Property::Resources(v)),
                Err(e) => Err(e),
            },
            PropertyKind::Status => match Status::try_from(prop) {
                Ok(v) => Ok(Property::Status(v)),
                Err(e) => Err(e),
            },
            PropertyKind::Summary => match Text::try_from(prop) {
                Ok(v) => Ok(Property::Summary(v)),
                Err(e) => Err(e),
            },
            PropertyKind::Completed => match DateTimeUtc::try_from(prop) {
                Ok(v) => Ok(Property::Completed(v)),
                Err(e) => Err(e),
            },
            PropertyKind::DtEnd => match DateTimeProperty::try_from(prop) {
                Ok(v) => Ok(Property::DtEnd(v)),
                Err(e) => Err(e),
            },
            PropertyKind::Due => match DateTimeProperty::try_from(prop) {
                Ok(v) => Ok(Property::Due(v)),
                Err(e) => Err(e),
            },
            PropertyKind::DtStart => match DateTimeProperty::try_from(prop) {
                Ok(v) => Ok(Property::DtStart(v)),
                Err(e) => Err(e),
            },
            PropertyKind::Duration => match Duration::try_from(prop) {
                Ok(v) => Ok(Property::Duration(v)),
                Err(e) => Err(e),
            },
            PropertyKind::FreeBusy => match FreeBusy::try_from(prop) {
                Ok(v) => Ok(Property::FreeBusy(v)),
                Err(e) => Err(e),
            },
            PropertyKind::Transp => match TimeTransparency::try_from(prop) {
                Ok(v) => Ok(Property::Transp(v)),
                Err(e) => Err(e),
            },
            PropertyKind::TzId => match TextOnly::try_from(prop) {
                Ok(v) => Ok(Property::TzId(v)),
                Err(e) => Err(e),
            },
            PropertyKind::TzName => match TextWithLanguage::try_from(prop) {
                Ok(v) => Ok(Property::TzName(v)),
                Err(e) => Err(e),
            },
            PropertyKind::TzOffsetFrom => match UtcOffsetProperty::try_from(prop) {
                Ok(v) => Ok(Property::TzOffsetFrom(v)),
                Err(e) => Err(e),
            },
            PropertyKind::TzOffsetTo => match UtcOffsetProperty::try_from(prop) {
                Ok(v) => Ok(Property::TzOffsetTo(v)),
                Err(e) => Err(e),
            },
            PropertyKind::TzUrl => match UriProperty::try_from(prop) {
                Ok(v) => Ok(Property::TzUrl(v)),
                Err(e) => Err(e),
            },
            PropertyKind::Attendee => match Attendee::try_from(prop) {
                Ok(v) => Ok(Property::Attendee(v)),
                Err(e) => Err(e),
            },
            PropertyKind::Contact => match Text::try_from(prop) {
                Ok(v) => Ok(Property::Contact(v)),
                Err(e) => Err(e),
            },
            PropertyKind::Organizer => match Organizer::try_from(prop) {
                Ok(v) => Ok(Property::Organizer(v)),
                Err(e) => Err(e),
            },
            PropertyKind::RecurrenceId => match DateTimeProperty::try_from(prop) {
                Ok(v) => Ok(Property::RecurrenceId(v)),
                Err(e) => Err(e),
            },
            PropertyKind::RelatedTo => match RelatedTo::try_from(prop) {
                Ok(v) => Ok(Property::RelatedTo(v)),
                Err(e) => Err(e),
            },
            PropertyKind::Url => match UriProperty::try_from(prop) {
                Ok(v) => Ok(Property::Url(v)),
                Err(e) => Err(e),
            },
            PropertyKind::Uid => match TextOnly::try_from(prop) {
                Ok(v) => Ok(Property::Uid(v)),
                Err(e) => Err(e),
            },
            PropertyKind::ExDate => match ExDate::try_from(prop) {
                Ok(v) => Ok(Property::ExDate(v)),
                Err(e) => Err(e),
            },
            PropertyKind::RDate => match RDate::try_from(prop) {
                Ok(v) => Ok(Property::RDate(v)),
                Err(e) => Err(e),
            },
            PropertyKind::RRule => {
                let span = prop.span;
                Err(
                    vec![TypedError::PropertyInvalidValue { property: prop.kind, value: "RRULE parsing not yet implemented".to_owned(), span }],
                )
            },
            PropertyKind::Action => match Action::try_from(prop) {
                Ok(v) => Ok(Property::Action(v)),
                Err(e) => Err(e),
            },
            PropertyKind::Repeat => match Repeat::try_from(prop) {
                Ok(v) => Ok(Property::Repeat(v)),
                Err(e) => Err(e),
            },
            PropertyKind::Trigger => match Trigger::try_from(prop) {
                Ok(v) => Ok(Property::Trigger(v)),
                Err(e) => Err(e),
            },
            PropertyKind::Created => match DateTimeProperty::try_from(prop) {
                Ok(v) => Ok(Property::Created(v)),
                Err(e) => Err(e),
            },
            PropertyKind::DtStamp => match DateTimeProperty::try_from(prop) {
                Ok(v) => Ok(Property::DtStamp(v)),
                Err(e) => Err(e),
            },
            PropertyKind::LastModified => match DateTimeProperty::try_from(prop) {
                Ok(v) => Ok(Property::LastModified(v)),
                Err(e) => Err(e),
            },
            PropertyKind::Sequence => match Sequence::try_from(prop) {
                Ok(v) => Ok(Property::Sequence(v)),
                Err(e) => Err(e),
            },
            PropertyKind::RequestStatus => match TextWithLanguage::try_from(prop) {
                Ok(v) => Ok(Property::RequestStatus(v)),
                Err(e) => Err(e),
            },
            PropertyKind::XName(_) => Ok(Property::XName(prop)),
            PropertyKind::Unrecognized(_) => Ok(Property::Unrecognized(prop)),
        }
    }

    /// The position of this property's variant among the variants.
    pub fn tag(&self) -> (r: usize)
        ensures
            r == property_tag(*self),
    {
        match self {
            Property::CalScale(_) => 0,
            Property::Method(_) => 1,
            Property::ProdId(_) => 2,
            Property::Version(_) => 3,
            Property::Attach(_) => 4,
            Property::Categories(_) => 5,
            Property::Class(_) => 6,
            Property::Comment(_) => 7,
            Property::Description(_) => 8,
            Property::Geo(_) => 9,
            Property::Location(_) => 10,
            Property::PercentComplete(_) => 11,
            Property::Priority(_) => 12,
            Property::Resources(_) => 13,
            Property::Status(_) => 14,
            Property::Summary(_) => 15,
            Property::Completed(_) => 16,
            Property::DtEnd(_) => 17,
            Property::Due(_) => 18,
            Property::DtStart(_) => 19,
            Property::Duration(_) => 20,
            Property::FreeBusy(_) => 21,
            Property::Transp(_) => 22,
            Property::TzId(_) => 23,
            Property::TzName(_) => 24,
            Property::TzOffsetFrom(_) => 25,
            Property::TzOffsetTo(_) => 26,
            Property::TzUrl(_) => 27,
            Property::Attendee(_) => 28,
            Property::Contact(_) => 29,
            Property::Organizer(_) => 30,
            Property::RecurrenceId(_) => 31,
            Property::RelatedTo(_) => 32,
            Property::Url(_) => 33,
            Property::Uid(_) => 34,
            Property::ExDate(_) => 35,
            Property::RDate(_) => 36,
            Property::Action(_) => 37,
            Property::Repeat(_) => 38,
            Property::Trigger(_) => 39,
            Property::Created(_) => 40,
            Property::DtStamp(_) => 41,
            Property::LastModified(_) => 42,
            Property::Sequence(_) => 43,
            Property::RequestStatus(_) => 44,
            Property::XName(_) => 45,
            Property::Unrecognized(_) => 46,
        }
    }
    /// The span of this property in the source.
    pub fn span(&self) -> (r: Span)
        ensures
            r == property_span(*self),
    {
        match self {
            Property::CalScale(x) => x.span,
            Property::Method(x) => x.span,
            Property::ProdId(x) => x.span,
            Property::Version(x) => x.span,
            Property::Attach(x) => x.span,
            Property::Categories(x) => x.span,
            Property::Class(x) => x.span,
            Property::Comment(x) => x.span,
            Property::Description(x) => x.span,
            Property::Geo(x) => x.span,
            Property::Location(x) => x.span,
            Property::PercentComplete(x) => x.span,
            Property::Priority(x) => x.span,
            Property::Resources(x) => x.span,
            Property::Status(x) => x.span,
            Property::Summary(x) => x.span,
            Property::Completed(x) => x.span,
            Property::DtEnd(x) => x.span,
            Property::Due(x) => x.span,
            Property::DtStart(x) => x.span,
            Property::Duration(x) => x.span,
            Property::FreeBusy(x) => x.span,
            Property::Transp(x) => x.span,
            Property::TzId(x) => x.span,
            Property::TzName(x) => x.span,
            Property::TzOffsetFrom(x) => x.span,
            Property::TzOffsetTo(x) => x.span,
            Property::TzUrl(x) => x.span,
            Property::Attendee(x) => x.span,
            Property::Contact(x) => x.span,
            Property::Organizer(x) => x.span,
            Property::RecurrenceId(x) => x.span,
            Property::RelatedTo(x) => x.span,
            Property::Url(x) => x.span,
            Property::Uid(x) => x.span,
            Property::ExDate(x) => x.span,
            Property::RDate(x) => x.span,
            Property::Action(x) => x.span,
            Property::Repeat(x) => x.span,
            Property::Trigger(x) => x.span,
            Property::Created(x) => x.span,
            Property::DtStamp(x) => x.span,
            Property::LastModified(x) => x.span,
            Property::Sequence(x) => x.span,
            Property::RequestStatus(x) => x.span,
            Property::XName(x) => x.span,
            Property::Unrecognized(x) => x.span,
        }
    }
    /// Returns the `PropertyKind` for this property
    pub fn kind(&self) -> (r: PropertyKindRef<'src>)
        ensures
            r@ == property_kind(*self)@,
            !(*self is XName || *self is Unrecognized) ==> r == property_kind(*self),
    {
        match self {
            Property::CalScale(_) => PropertyKind::CalScale,
            Property::Method(_) => PropertyKind::Method,
            Property::ProdId(_) => PropertyKind::ProdId,
            Property::Version(_) => PropertyKind::Version,
            Property::Attach(_) => PropertyKind::Attach,
            Property::Categories(_) => PropertyKind::Categories,
            Property::Class(_) => PropertyKind::Class,
            Property::Comment(_) => PropertyKind::Comment,
            Property::Description(_) => PropertyKind::Description,
            Property::Geo(_) => PropertyKind::Geo,
            Property::Location(_) => PropertyKind::Location,
            Property::PercentComplete(_) => PropertyKind::PercentComplete,
            Property::Priority(_) => PropertyKind::Priority,
            Property::Resources(_) => PropertyKind::Resources,
            Property::Status(_) => PropertyKind::Status,
            Property::Summary(_) => PropertyKind::Summary,
            Property::Completed(_) => PropertyKind::Completed,
            Property::DtEnd(_) => PropertyKind::DtEnd,
            Property::Due(_) => PropertyKind::Due,
            Property::DtStart(_) => PropertyKind::DtStart,
            Property::Duration(_) => PropertyKind::Duration,
            Property::FreeBusy(_) => PropertyKind::FreeBusy,
            Property::Transp(_) => PropertyKind::Transp,
            Property::TzId(_) => PropertyKind::TzId,
            Property::TzName(_) => PropertyKind::TzName,
            Property::TzOffsetFrom(_) => PropertyKind::TzOffsetFrom,
            Property::TzOffsetTo(_) => PropertyKind::TzOffsetTo,
            Property::TzUrl(_) => PropertyKind::TzUrl,
            Property::Attendee(_) => PropertyKind::Attendee,
            Property::Contact(_) => PropertyKind::Contact,
            Property::Organizer(_) => PropertyKind::Organizer,
            Property::RecurrenceId(_) => PropertyKind::RecurrenceId,
            Property::RelatedTo(_) => PropertyKind::RelatedTo,
            Property::Url(_) => PropertyKind::Url,
            Property::Uid(_) => PropertyKind::Uid,
            Property::ExDate(_) => PropertyKind::ExDate,
            Property::RDate(_) => PropertyKind::RDate,
            Property::Action(_) => PropertyKind::Action,
            Property::Repeat(_) => PropertyKind::Repeat,
            Property::Trigger(_) => PropertyKind::Trigger,
            Property::Created(_) => PropertyKind::Created,
            Property::DtStamp(_) => PropertyKind::DtStamp,
            Property::LastModified(_) => PropertyKind::LastModified,
            Property::Sequence(_) => PropertyKind::Sequence,
            Property::RequestStatus(_) => PropertyKind::RequestStatus,
            Property::XName(p) => p.kind.clone(),
            Property::Unrecognized(p) => p.kind.clone(),
        }
    }
}

} // verus!
