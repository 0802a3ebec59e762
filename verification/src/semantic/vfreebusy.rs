//! Free/busy component (VFREEBUSY) for iCalendar semantic components.

use vstd::prelude::*;

use crate::keyword::KW_VFREEBUSY;
use crate::property::ast::{TAG_CONTACT, TAG_DT_END, TAG_DT_STAMP, TAG_DT_START, TAG_DURATION, TAG_FREE_BUSY, TAG_ORGANIZER, TAG_UID, TAG_URL, TAG_X_NAME};
use crate::property::common::Text;
use crate::property::descriptive::Categories;
use crate::property::relationship::Attendee;
use crate::property::{Property, PropertyKind};
use crate::semantic::collect::{
    attendees_of, categories_of, collect_properties, duplicate_errors, first_with_tag, is_listed,
    lemma_first_with_tag, singles_wf, split_tag, take_attendees, take_categories, take_texts, take_tz_names, texts_of,
    tz_names_of, fb_periods, take_free_busy,
    unlisted, with_tag, without_tag,
};
use crate::semantic::fields::{as_date_time_property, as_duration_property, as_organizer, as_text_only, as_uri_property, into_date_time_property, into_duration_property, into_organizer, into_text_only, into_uri_property};
use crate::semantic::valarm::{as_text, into_text, missing_error, name_errors, next_prop_slot};
use crate::semantic::valarm::{VAlarm, alarm_errors, alarm_oks, alarm_results, alarms_of};
use crate::semantic::{SemanticError, invalid_status_error};
use crate::semantic::{EventStatus, event_status_value_of};
use crate::property::descriptive::status_value_keyword;
use crate::string_storage::SpannedSegments;
use crate::typed::{ParsedProperty, TypedComponent};
use crate::property::changemgmt::Sequence;
use crate::property::common::{TextOnly, TextWithLanguage, UriProperty};
use crate::property::timezone::UtcOffsetProperty;
use crate::property::datetime::{DateTimeProperty, DateTimeUtc, Duration, Period, TimeTransparency};
use crate::property::descriptive::{Classification, PercentComplete, Priority, Resources};
use crate::property::relationship::Organizer;

verus! {

/// The kinds that `VFREEBUSY` takes at most once, in the order of its fields.
pub open spec fn vfreebusy_singles() -> Seq<usize> {
    seq![TAG_UID, TAG_DT_STAMP, TAG_DT_START, TAG_DT_END, TAG_DURATION, TAG_ORGANIZER, TAG_CONTACT, TAG_URL]
}

/// The kinds that a free/busy component takes at most once: `UID`, `DTSTAMP`, `DTSTART`,
/// `DTEND`, `DURATION`, `ORGANIZER`, `CONTACT` and `URL`.
pub open spec fn vfreebusy_once_tag(t: nat) -> bool {
    ||| t == TAG_UID as nat
    ||| t == TAG_DT_STAMP as nat
    ||| t == TAG_DT_START as nat
    ||| t == TAG_DT_END as nat
    ||| t == TAG_DURATION as nat
    ||| t == TAG_ORGANIZER as nat
    ||| t == TAG_CONTACT as nat
    ||| t == TAG_URL as nat
}

/// The duplicates a free/busy component reports are exactly those of the kinds it takes
/// at most once: a kind is checked for repeats if and only if it is one of them.
pub proof fn lemma_vfreebusy_singles_are(t: nat)
    ensures
        is_listed(vfreebusy_singles(), t) <==> vfreebusy_once_tag(t),
{
    let s = vfreebusy_singles();
    if vfreebusy_once_tag(t) {
        if t == TAG_UID as nat {
            assert(s[0] == t);
        }
        if t == TAG_DT_STAMP as nat {
            assert(s[1] == t);
        }
        if t == TAG_DT_START as nat {
            assert(s[2] == t);
        }
        if t == TAG_DT_END as nat {
            assert(s[3] == t);
        }
        if t == TAG_DURATION as nat {
            assert(s[4] == t);
        }
        if t == TAG_ORGANIZER as nat {
            assert(s[5] == t);
        }
        if t == TAG_CONTACT as nat {
            assert(s[6] == t);
        }
        if t == TAG_URL as nat {
            assert(s[7] == t);
        }
    }
}

proof fn lemma_vfreebusy_singles()
    ensures
        singles_wf(vfreebusy_singles()),
        !is_listed(vfreebusy_singles(), TAG_FREE_BUSY as nat),
        !is_listed(vfreebusy_singles(), TAG_X_NAME as nat),
{
}

/// Free/busy time component (VFREEBUSY)
#[derive(Debug)]
pub struct VFreeBusy<'src> {
    /// Unique identifier
    pub uid: TextOnly<SpannedSegments<'src>>,
    /// Date/time stamp
    pub dt_stamp: DateTimeProperty<SpannedSegments<'src>>,
    /// Start of the free/busy time
    pub dt_start: DateTimeProperty<SpannedSegments<'src>>,
    /// End of the free/busy time
    pub dt_end: Option<DateTimeProperty<SpannedSegments<'src>>>,
    /// Duration of the free/busy time
    pub duration: Option<Duration<SpannedSegments<'src>>>,
    /// Organizer
    pub organizer: Organizer<SpannedSegments<'src>>,
    /// Contact information
    pub contact: Option<Text<SpannedSegments<'src>>>,
    /// URL
    pub url: Option<UriProperty<SpannedSegments<'src>>>,
    /// Busy periods (also those of experimental and unrecognized types)
    pub busy: Vec<Period<SpannedSegments<'src>>>,
    /// Free periods
    pub free: Vec<Period<SpannedSegments<'src>>>,
    /// Tentatively busy periods
    pub busy_tentative: Vec<Period<SpannedSegments<'src>>>,
    /// Busy and unavailable periods
    pub busy_unavailable: Vec<Period<SpannedSegments<'src>>>,
    /// Custom X- properties (preserved for round-trip)
    pub x_properties: Vec<Property<'src>>,
    /// Unrecognized / Non-standard properties (preserved for round-trip)
    pub retained_properties: Vec<Property<'src>>,
}

/// The errors of `VFREEBUSY` that come before its `STATUS` check: the name and the duplicates.
pub open spec fn vfreebusy_errors_before<'src>(comp: TypedComponent<'src>) -> Seq<SemanticError<'src>> {
    name_errors(comp.name, KW_VFREEBUSY, comp.span) + duplicate_errors(comp.properties@, vfreebusy_singles(), None)
}

/// The errors for the required properties of `VFREEBUSY` that are absent.
pub open spec fn vfreebusy_missing<'src>(comp: TypedComponent<'src>) -> Seq<SemanticError<'src>> {
    let ps = comp.properties@;
    missing_error(first_with_tag(ps, TAG_UID as nat) is None, PropertyKind::Uid, comp.span)
        + missing_error(first_with_tag(ps, TAG_DT_STAMP as nat) is None, PropertyKind::DtStamp, comp.span)
        + missing_error(first_with_tag(ps, TAG_DT_START as nat) is None, PropertyKind::DtStart, comp.span)
        + missing_error(first_with_tag(ps, TAG_ORGANIZER as nat) is None, PropertyKind::Organizer, comp.span)
}

/// Whether `a` holds the properties of a `VFREEBUSY` component, collected.
pub open spec fn vfreebusy_fields<'src>(comp: TypedComponent<'src>, a: VFreeBusy<'src>) -> bool {
    let ps = comp.properties@;
    let r0 = unlisted(ps, vfreebusy_singles());
    let r1 = without_tag(r0, TAG_FREE_BUSY as nat);
    &&& Some(a.uid) == as_text_only(first_with_tag(ps, TAG_UID as nat))
    &&& Some(a.dt_stamp) == as_date_time_property(first_with_tag(ps, TAG_DT_STAMP as nat))
    &&& Some(a.dt_start) == as_date_time_property(first_with_tag(ps, TAG_DT_START as nat))
    &&& a.dt_end == as_date_time_property(first_with_tag(ps, TAG_DT_END as nat))
    &&& a.duration == as_duration_property(first_with_tag(ps, TAG_DURATION as nat))
    &&& Some(a.organizer) == as_organizer(first_with_tag(ps, TAG_ORGANIZER as nat))
    &&& a.contact == as_text(first_with_tag(ps, TAG_CONTACT as nat))
    &&& a.url == as_uri_property(first_with_tag(ps, TAG_URL as nat))
    &&& a.busy@ == fb_periods(r0, 0)
    &&& a.free@ == fb_periods(r0, 1)
    &&& a.busy_tentative@ == fb_periods(r0, 2)
    &&& a.busy_unavailable@ == fb_periods(r0, 3)
    &&& a.x_properties@ == with_tag(r1, TAG_X_NAME as nat)
    &&& a.retained_properties@ == without_tag(r1, TAG_X_NAME as nat)
}

/// What converting a typed component to a `VFREEBUSY` gives, for given results of its alarms.
pub open spec fn vfreebusy_result_with<'src>(comp: TypedComponent<'src>, r: Result<VFreeBusy<'src>, Vec<SemanticError<'src>>>) -> bool {
    let pre = vfreebusy_errors_before(comp);
    let post = vfreebusy_missing(comp);
    if pre.len() == 0 && post.len() == 0 {
        r matches Ok(a) && vfreebusy_fields(comp, a)
    } else {
        r matches Err(es) && es@ == pre + post
    }
}

/// What converting a typed component to a `VFREEBUSY` gives: all errors of the checks, or the
/// component when there are none.
pub open spec fn vfreebusy_result<'src>(comp: TypedComponent<'src>, r: Result<VFreeBusy<'src>, Vec<SemanticError<'src>>>) -> bool {
    vfreebusy_result_with(comp, r)
}

impl<'src> VFreeBusy<'src> {
    /// Parse a `TypedComponent` into a `VFreeBusy`, filing the periods of its `FREEBUSY` properties by their type. Every error is reported: a wrong name, each duplicate, and each missing required property.
    #[verifier::rlimit(100)]
    pub fn try_from(comp: TypedComponent<'src>) -> (r: Result<Self, Vec<SemanticError<'src>>>)
        ensures
            vfreebusy_result(comp, r),
    {
        let ghost c0 = comp;
        let ghost ps = comp.properties@;
        let TypedComponent { name, properties, children: _, span } = comp;
        let mut errors: Vec<SemanticError<'src>> = Vec::new();
        if !name.eq_str_ignore_ascii_case(KW_VFREEBUSY) {
            errors.push(SemanticError::ExpectedComponent { expected: KW_VFREEBUSY, got: name, span });
        }
        assert(errors@ =~= name_errors(c0.name, KW_VFREEBUSY, span));
        proof {
            lemma_vfreebusy_singles();
        }
        let singles = vec![TAG_UID, TAG_DT_STAMP, TAG_DT_START, TAG_DT_END, TAG_DURATION, TAG_ORGANIZER, TAG_CONTACT, TAG_URL];
        assert(singles@ =~= vfreebusy_singles());
        let mut collected = collect_properties(properties, &singles, None);
        let ghost e0 = errors@;
        errors.append(&mut collected.errors);
        assert(errors@ =~= vfreebusy_errors_before(c0));
        let ghost slots = collected.slots@;
        proof {
            lemma_first_with_tag(ps, TAG_UID as nat);
            lemma_first_with_tag(ps, TAG_DT_STAMP as nat);
            lemma_first_with_tag(ps, TAG_DT_START as nat);
            lemma_first_with_tag(ps, TAG_DT_END as nat);
            lemma_first_with_tag(ps, TAG_DURATION as nat);
            lemma_first_with_tag(ps, TAG_ORGANIZER as nat);
            lemma_first_with_tag(ps, TAG_CONTACT as nat);
            lemma_first_with_tag(ps, TAG_URL as nat);
        }
        assert(slots[0] == first_with_tag(ps, TAG_UID as nat));
        assert(slots[1] == first_with_tag(ps, TAG_DT_STAMP as nat));
        assert(slots[2] == first_with_tag(ps, TAG_DT_START as nat));
        assert(slots[3] == first_with_tag(ps, TAG_DT_END as nat));
        assert(slots[4] == first_with_tag(ps, TAG_DURATION as nat));
        assert(slots[5] == first_with_tag(ps, TAG_ORGANIZER as nat));
        assert(slots[6] == first_with_tag(ps, TAG_CONTACT as nat));
        assert(slots[7] == first_with_tag(ps, TAG_URL as nat));
        let uid = into_text_only(next_prop_slot(&mut collected.slots));
        let dt_stamp = into_date_time_property(next_prop_slot(&mut collected.slots));
        let dt_start = into_date_time_property(next_prop_slot(&mut collected.slots));
        let dt_end = into_date_time_property(next_prop_slot(&mut collected.slots));
        let duration = into_duration_property(next_prop_slot(&mut collected.slots));
        let organizer = into_organizer(next_prop_slot(&mut collected.slots));
        let contact = into_text(next_prop_slot(&mut collected.slots));
        let url = into_uri_property(next_prop_slot(&mut collected.slots));
        let ghost pre = errors@;
        let ghost mid = errors@;
        if uid.is_none() {
            errors.push(SemanticError::MissingProperty { property: PropertyKind::Uid, span });
        }
        if dt_stamp.is_none() {
            errors.push(SemanticError::MissingProperty { property: PropertyKind::DtStamp, span });
        }
        if dt_start.is_none() {
            errors.push(SemanticError::MissingProperty { property: PropertyKind::DtStart, span });
        }
        if organizer.is_none() {
            errors.push(SemanticError::MissingProperty { property: PropertyKind::Organizer, span });
        }
        assert(errors@ =~= mid + vfreebusy_missing(c0));
        let fb = take_free_busy(collected.others);
        let rest0 = fb.others;
        let busy = fb.busy;
        let free = fb.free;
        let busy_tentative = fb.busy_tentative;
        let busy_unavailable = fb.busy_unavailable;
        let (x_properties, retained_properties) = split_tag(rest0, TAG_X_NAME);
        let ghost fin = errors@;
        let result = if errors.len() == 0 {
            match (uid, dt_stamp, dt_start, organizer) {
                (Some(uid), Some(dt_stamp), Some(dt_start), Some(organizer)) => Ok(VFreeBusy { uid, dt_stamp, dt_start, dt_end, duration, organizer, contact, url, busy, free, busy_tentative, busy_unavailable, x_properties, retained_properties }),
                _ => Err(errors),
            }
        } else {
            Err(errors)
        };
        result
    }
}
} // verus!
