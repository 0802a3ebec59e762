//! Timezone observance (STANDARD, DAYLIGHT) for iCalendar semantic components.

use vstd::prelude::*;

use crate::keyword::KW_VTIMEZONE;
use crate::property::ast::{TAG_DT_START, TAG_TZ_NAME, TAG_TZ_OFFSET_FROM, TAG_TZ_OFFSET_TO, TAG_X_NAME};
use crate::property::common::Text;
use crate::property::descriptive::Categories;
use crate::property::relationship::Attendee;
use crate::property::{Property, PropertyKind};
use crate::semantic::collect::{
    attendees_of, categories_of, collect_properties, duplicate_errors, first_with_tag, is_listed,
    lemma_first_with_tag, singles_wf, split_tag, take_attendees, take_categories, take_texts, take_tz_names, texts_of,
    tz_names_of, fb_periods, take_free_busy,
    unlisted, with_tag, without_tag,
};
use crate::semantic::fields::{as_date_time_property, as_utc_offset_property, into_date_time_property, into_utc_offset_property};
use crate::semantic::valarm::{as_text, into_text, missing_error, name_errors, next_prop_slot};
use crate::semantic::valarm::{VAlarm, alarm_errors, alarm_oks, alarm_results, alarms_of};
use crate::semantic::{SemanticError, invalid_status_error};
use crate::semantic::{EventStatus, event_status_value_of};
use crate::property::descriptive::status_value_keyword;
use crate::string_storage::SpannedSegments;
use crate::typed::{ParsedProperty, TypedComponent};
use crate::property::changemgmt::Sequence;
use crate::property::common::{TextOnly, TextWithLanguage, UriProperty};
use crate::property::timezone::UtcOffsetProperty;
use crate::property::datetime::{DateTimeProperty, DateTimeUtc, Duration, Period, TimeTransparency};
use crate::property::descriptive::{Classification, PercentComplete, Priority, Resources};
use crate::property::relationship::Organizer;

verus! {

/// The kinds that `STANDARD or DAYLIGHT` takes at most once, in the order of its fields.
pub open spec fn observance_singles() -> Seq<usize> {
    seq![TAG_DT_START, TAG_TZ_OFFSET_FROM, TAG_TZ_OFFSET_TO]
}

/// The kinds that a standard or daylight observance takes at most once: `DTSTART`,
/// `TZOFFSETFROM` and `TZOFFSETTO`.
pub open spec fn observance_once_tag(t: nat) -> bool {
    ||| t == TAG_DT_START as nat
    ||| t == TAG_TZ_OFFSET_FROM as nat
    ||| t == TAG_TZ_OFFSET_TO as nat
}

/// The duplicates a standard or daylight observance reports are exactly those of the kinds it takes
/// at most once: a kind is checked for repeats if and only if it is one of them.
pub proof fn lemma_observance_singles_are(t: nat)
    ensures
        is_listed(observance_singles(), t) <==> observance_once_tag(t),
{
    let s = observance_singles();
    if observance_once_tag(t) {
        if t == TAG_DT_START as nat {
            assert(s[0] == t);
        }
        if t == TAG_TZ_OFFSET_FROM as nat {
            assert(s[1] == t);
        }
        if t == TAG_TZ_OFFSET_TO as nat {
            assert(s[2] == t);
        }
    }
}

proof fn lemma_observance_singles()
    ensures
        singles_wf(observance_singles()),
        !is_listed(observance_singles(), TAG_TZ_NAME as nat),
        !is_listed(observance_singles(), TAG_X_NAME as nat),
{
}

/// Timezone observance (STANDARD or DAYLIGHT)
#[derive(Debug)]
pub struct TimeZoneObservance<'src> {
    /// Start of the observance
    pub dt_start: DateTimeProperty<SpannedSegments<'src>>,
    /// UTC offset in use before the observance
    pub tz_offset_from: UtcOffsetProperty<SpannedSegments<'src>>,
    /// UTC offset in use during the observance
    pub tz_offset_to: UtcOffsetProperty<SpannedSegments<'src>>,
    /// Names of the observance
    pub tz_names: Vec<TextWithLanguage<SpannedSegments<'src>>>,
    /// Custom X- properties (preserved for round-trip)
    pub x_properties: Vec<Property<'src>>,
    /// Unrecognized / Non-standard properties (preserved for round-trip)
    pub retained_properties: Vec<Property<'src>>,
}

/// The errors of `STANDARD or DAYLIGHT` that come before its `STATUS` check: the name and the duplicates.
pub open spec fn observance_errors_before<'src>(comp: TypedComponent<'src>) -> Seq<SemanticError<'src>> {
    duplicate_errors(comp.properties@, observance_singles(), None)
}

/// The errors for the required properties of `STANDARD or DAYLIGHT` that are absent.
pub open spec fn observance_missing<'src>(comp: TypedComponent<'src>) -> Seq<SemanticError<'src>> {
    let ps = comp.properties@;
    missing_error(first_with_tag(ps, TAG_DT_START as nat) is None, PropertyKind::DtStart, comp.span)
        + missing_error(first_with_tag(ps, TAG_TZ_OFFSET_FROM as nat) is None, PropertyKind::TzOffsetFrom, comp.span)
        + missing_error(first_with_tag(ps, TAG_TZ_OFFSET_TO as nat) is None, PropertyKind::TzOffsetTo, comp.span)
}

/// Whether `a` holds the properties of a `STANDARD or DAYLIGHT` component, collected.
pub open spec fn observance_fields<'src>(comp: TypedComponent<'src>, a: TimeZoneObservance<'src>) -> bool {
    let ps = comp.properties@;
    let r0 = unlisted(ps, observance_singles());
    let r1 = without_tag(r0, TAG_TZ_NAME as nat);
    &&& Some(a.dt_start) == as_date_time_property(first_with_tag(ps, TAG_DT_START as nat))
    &&& Some(a.tz_offset_from) == as_utc_offset_property(first_with_tag(ps, TAG_TZ_OFFSET_FROM as nat))
    &&& Some(a.tz_offset_to) == as_utc_offset_property(first_with_tag(ps, TAG_TZ_OFFSET_TO as nat))
    &&& a.tz_names@ == tz_names_of(r0)
    &&& a.x_properties@ == with_tag(r1, TAG_X_NAME as nat)
    &&& a.retained_properties@ == without_tag(r1, TAG_X_NAME as nat)
}

/// What converting a typed component to a `STANDARD or DAYLIGHT` gives, for given results of its alarms.
pub open spec fn observance_result_with<'src>(comp: TypedComponent<'src>, r: Result<TimeZoneObservance<'src>, Vec<SemanticError<'src>>>) -> bool {
    let pre = observance_errors_before(comp);
    let post = observance_missing(comp);
    if pre.len() == 0 && post.len() == 0 {
        r matches Ok(a) && observance_fields(comp, a)
    } else {
        r matches Err(es) && es@ == pre + post
    }
}

/// What converting a typed component to a `STANDARD or DAYLIGHT` gives: all errors of the checks, or the
/// component when there are none.
pub open spec fn observance_result<'src>(comp: TypedComponent<'src>, r: Result<TimeZoneObservance<'src>, Vec<SemanticError<'src>>>) -> bool {
    observance_result_with(comp, r)
}

impl<'src> TimeZoneObservance<'src> {
    /// Parse a timezone observance (STANDARD or DAYLIGHT) component. Every error is reported: each duplicate and each missing required property.
    #[verifier::rlimit(100)]
    pub fn try_from(comp: TypedComponent<'src>) -> (r: Result<Self, Vec<SemanticError<'src>>>)
        ensures
            observance_result(comp, r),
    {
        let ghost c0 = comp;
        let ghost ps = comp.properties@;
        let TypedComponent { name: _, properties, children: _, span } = comp;
        let mut errors: Vec<SemanticError<'src>> = Vec::new();
        proof {
            lemma_observance_singles();
        }
        let singles = vec![TAG_DT_START, TAG_TZ_OFFSET_FROM, TAG_TZ_OFFSET_TO];
        assert(singles@ =~= observance_singles());
        let mut collected = collect_properties(properties, &singles, None);
        let ghost e0 = errors@;
        errors.append(&mut collected.errors);
        assert(errors@ =~= observance_errors_before(c0));
        let ghost slots = collected.slots@;
        proof {
            lemma_first_with_tag(ps, TAG_DT_START as nat);
            lemma_first_with_tag(ps, TAG_TZ_OFFSET_FROM as nat);
            lemma_first_with_tag(ps, TAG_TZ_OFFSET_TO as nat);
        }
        assert(slots[0] == first_with_tag(ps, TAG_DT_START as nat));
        assert(slots[1] == first_with_tag(ps, TAG_TZ_OFFSET_FROM as nat));
        assert(slots[2] == first_with_tag(ps, TAG_TZ_OFFSET_TO as nat));
        let dt_start = into_date_time_property(next_prop_slot(&mut collected.slots));
        let tz_offset_from = into_utc_offset_property(next_prop_slot(&mut collected.slots));
        let tz_offset_to = into_utc_offset_property(next_prop_slot(&mut collected.slots));
        let ghost pre = errors@;
        let ghost mid = errors@;
        if dt_start.is_none() {
            errors.push(SemanticError::MissingProperty { property: PropertyKind::DtStart, span });
        }
        if tz_offset_from.is_none() {
            errors.push(SemanticError::MissingProperty { property: PropertyKind::TzOffsetFrom, span });
        }
        if tz_offset_to.is_none() {
            errors.push(SemanticError::MissingProperty { property: PropertyKind::TzOffsetTo, span });
        }
        assert(errors@ =~= mid + observance_missing(c0));
        let (tz_names, rest0) = take_tz_names(collected.others);
        let (x_properties, retained_properties) = split_tag(rest0, TAG_X_NAME);
        let ghost fin = errors@;
        let result = if errors.len() == 0 {
            match (dt_start, tz_offset_from, tz_offset_to) {
                (Some(dt_start), Some(tz_offset_from), Some(tz_offset_to)) => Ok(TimeZoneObservance { dt_start, tz_offset_from, tz_offset_to, tz_names, x_properties, retained_properties }),
                _ => Err(errors),
            }
        } else {
            Err(errors)
        };
        result
    }
}
} // verus!
