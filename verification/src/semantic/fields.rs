//! The typed values of collected properties, by the type they hold.

use vstd::prelude::*;

use crate::property::Property;
use crate::property::changemgmt::Sequence;
use crate::property::common::{TextOnly, UriProperty};
use crate::property::datetime::{DateTimeProperty, DateTimeUtc, Duration, FreeBusy, TimeTransparency};
use crate::property::descriptive::{Categories, Classification, PercentComplete, Priority, Resources, Status};
use crate::property::relationship::Organizer;
use crate::property::timezone::UtcOffsetProperty;
use crate::string_storage::SpannedSegments;
use crate::typed::ParsedProperty;

verus! {

/// The value of a collected property that holds a `TextOnly`.
pub open spec fn as_text_only<'src>(o: Option<Property<'src>>) -> Option<TextOnly<SpannedSegments<'src>>> {
    match o {
        Some(Property::Uid(x)) => Some(x),
        Some(Property::TzId(x)) => Some(x),
        _ => None,
    }
}

/// Take the value of a collected property that holds a `TextOnly`.
pub fn into_text_only<'src>(o: Option<Property<'src>>) -> (r: Option<TextOnly<SpannedSegments<'src>>>)
    ensures
        r == as_text_only(o),
{
    match o {
        Some(Property::Uid(x)) => Some(x),
        Some(Property::TzId(x)) => Some(x),
        _ => None,
    }
}

/// The value of a collected property that holds a `DateTimeProperty`.
pub open spec fn as_date_time_property<'src>(o: Option<Property<'src>>) -> Option<DateTimeProperty<SpannedSegments<'src>>> {
    match o {
        Some(Property::DtEnd(x)) => Some(x),
        Some(Property::Due(x)) => Some(x),
        Some(Property::DtStart(x)) => Some(x),
        Some(Property::RecurrenceId(x)) => Some(x),
        Some(Property::Created(x)) => Some(x),
        Some(Property::DtStamp(x)) => Some(x),
        Some(Property::LastModified(x)) => Some(x),
        _ => None,
    }
}

/// Take the value of a collected property that holds a `DateTimeProperty`.
pub fn into_date_time_property<'src>(o: Option<Property<'src>>) -> (r: Option<DateTimeProperty<SpannedSegments<'src>>>)
    ensures
        r == as_date_time_property(o),
{
    match o {
        Some(Property::DtEnd(x)) => Some(x),
        Some(Property::Due(x)) => Some(x),
        Some(Property::DtStart(x)) => Some(x),
        Some(Property::RecurrenceId(x)) => Some(x),
        Some(Property::Created(x)) => Some(x),
        Some(Property::DtStamp(x)) => Some(x),
        Some(Property::LastModified(x)) => Some(x),
        _ => None,
    }
}

/// The value of a collected property that holds a `DateTimeUtc`.
pub open spec fn as_date_time_utc<'src>(o: Option<Property<'src>>) -> Option<DateTimeUtc<SpannedSegments<'src>>> {
    match o {
        Some(Property::Completed(x)) => Some(x),
        _ => None,
    }
}

/// Take the value of a collected property that holds a `DateTimeUtc`.
pub fn into_date_time_utc<'src>(o: Option<Property<'src>>) -> (r: Option<DateTimeUtc<SpannedSegments<'src>>>)
    ensures
        r == as_date_time_utc(o),
{
    match o {
        Some(Property::Completed(x)) => Some(x),
        _ => None,
    }
}

/// The value of a collected property that holds a `Duration`.
pub open spec fn as_duration_property<'src>(o: Option<Property<'src>>) -> Option<Duration<SpannedSegments<'src>>> {
    match o {
        Some(Property::Duration(x)) => Some(x),
        _ => None,
    }
}

/// Take the value of a collected property that holds a `Duration`.
pub fn into_duration_property<'src>(o: Option<Property<'src>>) -> (r: Option<Duration<SpannedSegments<'src>>>)
    ensures
        r == as_duration_property(o),
{
    match o {
        Some(Property::Duration(x)) => Some(x),
        _ => None,
    }
}

/// The value of a collected property that holds a `UriProperty`.
pub open spec fn as_uri_property<'src>(o: Option<Property<'src>>) -> Option<UriProperty<SpannedSegments<'src>>> {
    match o {
        Some(Property::Url(x)) => Some(x),
        Some(Property::TzUrl(x)) => Some(x),
        _ => None,
    }
}

/// Take the value of a collected property that holds a `UriProperty`.
pub fn into_uri_property<'src>(o: Option<Property<'src>>) -> (r: Option<UriProperty<SpannedSegments<'src>>>)
    ensures
        r == as_uri_property(o),
{
    match o {
        Some(Property::Url(x)) => Some(x),
        Some(Property::TzUrl(x)) => Some(x),
        _ => None,
    }
}

/// The value of a collected property that holds a `Organizer`.
pub open spec fn as_organizer<'src>(o: Option<Property<'src>>) -> Option<Organizer<SpannedSegments<'src>>> {
    match o {
        Some(Property::Organizer(x)) => Some(x),
        _ => None,
    }
}

/// Take the value of a collected property that holds a `Organizer`.
pub fn into_organizer<'src>(o: Option<Property<'src>>) -> (r: Option<Organizer<SpannedSegments<'src>>>)
    ensures
        r == as_organizer(o),
{
    match o {
        Some(Property::Organizer(x)) => Some(x),
        _ => None,
    }
}

/// The value of a collected property that holds a `Status`.
pub open spec fn as_status<'src>(o: Option<Property<'src>>) -> Option<Status<SpannedSegments<'src>>> {
    match o {
        Some(Property::Status(x)) => Some(x),
        _ => None,
    }
}

/// Take the value of a collected property that holds a `Status`.
pub fn into_status<'src>(o: Option<Property<'src>>) -> (r: Option<Status<SpannedSegments<'src>>>)
    ensures
        r == as_status(o),
{
    match o {
        Some(Property::Status(x)) => Some(x),
        _ => None,
    }
}

/// The value of a collected property that holds a `TimeTransparency`.
pub open spec fn as_transparency<'src>(o: Option<Property<'src>>) -> Option<TimeTransparency<SpannedSegments<'src>>> {
    match o {
        Some(Property::Transp(x)) => Some(x),
        _ => None,
    }
}

/// Take the value of a collected property that holds a `TimeTransparency`.
pub fn into_transparency<'src>(o: Option<Property<'src>>) -> (r: Option<TimeTransparency<SpannedSegments<'src>>>)
    ensures
        r == as_transparency(o),
{
    match o {
        Some(Property::Transp(x)) => Some(x),
        _ => None,
    }
}

/// The value of a collected property that holds a `Sequence`.
pub open spec fn as_sequence<'src>(o: Option<Property<'src>>) -> Option<Sequence<SpannedSegments<'src>>> {
    match o {
        Some(Property::Sequence(x)) => Some(x),
        _ => None,
    }
}

/// Take the value of a collected property that holds a `Sequence`.
pub fn into_sequence<'src>(o: Option<Property<'src>>) -> (r: Option<Sequence<SpannedSegments<'src>>>)
    ensures
        r == as_sequence(o),
{
    match o {
        Some(Property::Sequence(x)) => Some(x),
        _ => None,
    }
}

/// The value of a collected property that holds a `Priority`.
pub open spec fn as_priority<'src>(o: Option<Property<'src>>) -> Option<Priority<SpannedSegments<'src>>> {
    match o {
        Some(Property::Priority(x)) => Some(x),
        _ => None,
    }
}

/// Take the value of a collected property that holds a `Priority`.
pub fn into_priority<'src>(o: Option<Property<'src>>) -> (r: Option<Priority<SpannedSegments<'src>>>)
    ensures
        r == as_priority(o),
{
    match o {
        Some(Property::Priority(x)) => Some(x),
        _ => None,
    }
}

/// The value of a collected property that holds a `PercentComplete`.
pub open spec fn as_percent_complete<'src>(o: Option<Property<'src>>) -> Option<PercentComplete<SpannedSegments<'src>>> {
    match o {
        Some(Property::PercentComplete(x)) => Some(x),
        _ => None,
    }
}

/// Take the value of a collected property that holds a `PercentComplete`.
pub fn into_percent_complete<'src>(o: Option<Property<'src>>) -> (r: Option<PercentComplete<SpannedSegments<'src>>>)
    ensures
        r == as_percent_complete(o),
{
    match o {
        Some(Property::PercentComplete(x)) => Some(x),
        _ => None,
    }
}

/// The value of a collected property that holds a `Classification`.
pub open spec fn as_classification<'src>(o: Option<Property<'src>>) -> Option<Classification<SpannedSegments<'src>>> {
    match o {
        Some(Property::Class(x)) => Some(x),
        _ => None,
    }
}

/// Take the value of a collected property that holds a `Classification`.
pub fn into_classification<'src>(o: Option<Property<'src>>) -> (r: Option<Classification<SpannedSegments<'src>>>)
    ensures
        r == as_classification(o),
{
    match o {
        Some(Property::Class(x)) => Some(x),
        _ => None,
    }
}

/// The value of a collected property that holds a `Resources`.
pub open spec fn as_resources<'src>(o: Option<Property<'src>>) -> Option<Resources<SpannedSegments<'src>>> {
    match o {
        Some(Property::Resources(x)) => Some(x),
        _ => None,
    }
}

/// Take the value of a collected property that holds a `Resources`.
pub fn into_resources<'src>(o: Option<Property<'src>>) -> (r: Option<Resources<SpannedSegments<'src>>>)
    ensures
        r == as_resources(o),
{
    match o {
        Some(Property::Resources(x)) => Some(x),
        _ => None,
    }
}

/// The value of a collected property that holds a `Categories`.
pub open spec fn as_categories<'src>(o: Option<Property<'src>>) -> Option<Categories<SpannedSegments<'src>>> {
    match o {
        Some(Property::Categories(x)) => Some(x),
        _ => None,
    }
}

/// Take the value of a collected property that holds a `Categories`.
pub fn into_categories<'src>(o: Option<Property<'src>>) -> (r: Option<Categories<SpannedSegments<'src>>>)
    ensures
        r == as_categories(o),
{
    match o {
        Some(Property::Categories(x)) => Some(x),
        _ => None,
    }
}

/// The value of a collected property that holds a `UtcOffsetProperty`.
pub open spec fn as_utc_offset_property<'src>(o: Option<Property<'src>>) -> Option<UtcOffsetProperty<SpannedSegments<'src>>> {
    match o {
        Some(Property::TzOffsetFrom(x)) => Some(x),
        Some(Property::TzOffsetTo(x)) => Some(x),
        _ => None,
    }
}

/// Take the value of a collected property that holds a `UtcOffsetProperty`.
pub fn into_utc_offset_property<'src>(o: Option<Property<'src>>) -> (r: Option<UtcOffsetProperty<SpannedSegments<'src>>>)
    ensures
        r == as_utc_offset_property(o),
{
    match o {
        Some(Property::TzOffsetFrom(x)) => Some(x),
        Some(Property::TzOffsetTo(x)) => Some(x),
        _ => None,
    }
}

/// The value of a collected property that holds a `FreeBusy`.
pub open spec fn as_free_busy<'src>(o: Option<Property<'src>>) -> Option<FreeBusy<SpannedSegments<'src>>> {
    match o {
        Some(Property::FreeBusy(x)) => Some(x),
        _ => None,
    }
}

/// Take the value of a collected property that holds a `FreeBusy`.
pub fn into_free_busy<'src>(o: Option<Property<'src>>) -> (r: Option<FreeBusy<SpannedSegments<'src>>>)
    ensures
        r == as_free_busy(o),
{
    match o {
        Some(Property::FreeBusy(x)) => Some(x),
        _ => None,
    }
}

/// The value of a collected property that holds a `ParsedProperty`.
pub open spec fn as_parsed<'src>(o: Option<Property<'src>>) -> Option<ParsedProperty<'src>> {
    match o {
        Some(Property::Geo(x)) => Some(x),
        _ => None,
    }
}

/// Take the value of a collected property that holds a `ParsedProperty`.
pub fn into_parsed<'src>(o: Option<Property<'src>>) -> (r: Option<ParsedProperty<'src>>)
    ensures
        r == as_parsed(o),
{
    match o {
        Some(Property::Geo(x)) => Some(x),
        _ => None,
    }
}

} // verus!
