//! Event component (VEVENT) for iCalendar semantic components.

use vstd::prelude::*;

use crate::keyword::KW_VEVENT;
use crate::property::ast::{TAG_ATTENDEE, TAG_CATEGORIES, TAG_CLASS, TAG_DESCRIPTION, TAG_DT_END, TAG_DT_STAMP, TAG_DT_START, TAG_DURATION, TAG_EX_DATE, TAG_GEO, TAG_LAST_MODIFIED, TAG_LOCATION, TAG_ORGANIZER, TAG_PRIORITY, TAG_RESOURCES, TAG_R_DATE, TAG_SEQUENCE, TAG_STATUS, TAG_SUMMARY, TAG_TRANSP, TAG_UID, TAG_URL, TAG_X_NAME};
use crate::property::common::Text;
use crate::property::descriptive::Categories;
use crate::property::relationship::Attendee;
use crate::property::{Property, PropertyKind};
use crate::semantic::collect::{
    attendees_of, categories_of, collect_properties, duplicate_errors, first_with_tag, is_listed,
    lemma_first_with_tag, singles_wf, split_tag, take_attendees, take_categories, take_texts, take_tz_names, texts_of,
    tz_names_of, fb_periods, take_free_busy,
    unlisted, with_tag, without_tag,
};
use crate::semantic::fields::{as_categories, as_classification, as_date_time_property, as_duration_property, as_organizer, as_parsed, as_priority, as_resources, as_sequence, as_status, as_text_only, as_transparency, as_uri_property, into_categories, into_classification, into_date_time_property, into_duration_property, into_organizer, into_parsed, into_priority, into_resources, into_sequence, into_status, into_text_only, into_transparency, into_uri_property};
use crate::semantic::valarm::{as_text, into_text, missing_error, name_errors, next_prop_slot};
use crate::semantic::valarm::{VAlarm, alarm_errors, alarm_oks, alarm_results, alarms_of, is_alarm, lemma_alarm_errors_empty, valarm_converts};
use crate::semantic::collect::{has_tag, lemma_first_with_tag_some, lemma_no_duplicates, lemma_unlisted_keeps, lemma_without_tag_keeps, repeats_listed};
use crate::property::ast::property_tag;
use crate::string_storage::eq_ignore_ascii_case;
use vstd::string::StringSliceAdditionalSpecFns;
use crate::semantic::{SemanticError, invalid_status_error};
use crate::semantic::{EventStatus, event_status_value_of};
use crate::property::descriptive::status_value_keyword;
use crate::string_storage::SpannedSegments;
use crate::typed::{ParsedProperty, TypedComponent};
use crate::property::changemgmt::Sequence;
use crate::property::common::{TextOnly, TextWithLanguage, UriProperty};
use crate::property::timezone::UtcOffsetProperty;
use crate::property::datetime::{DateTimeProperty, DateTimeUtc, Duration, Period, TimeTransparency};
use crate::property::descriptive::{Classification, PercentComplete, Priority, Resources};
use crate::property::relationship::Organizer;

verus! {

/// The kinds that `VEVENT` takes at most once, in the order of its fields.
pub open spec fn vevent_singles() -> Seq<usize> {
    seq![TAG_UID, TAG_DT_STAMP, TAG_DT_START, TAG_DT_END, TAG_DURATION, TAG_SUMMARY, TAG_DESCRIPTION, TAG_LOCATION, TAG_GEO, TAG_URL, TAG_ORGANIZER, TAG_LAST_MODIFIED, TAG_STATUS, TAG_TRANSP, TAG_SEQUENCE, TAG_PRIORITY, TAG_CLASS, TAG_RESOURCES, TAG_CATEGORIES]
}

proof fn lemma_vevent_singles()
    ensures
        singles_wf(vevent_singles()),
        !is_listed(vevent_singles(), TAG_ATTENDEE as nat),
        !is_listed(vevent_singles(), TAG_R_DATE as nat),
        !is_listed(vevent_singles(), TAG_EX_DATE as nat),
        !is_listed(vevent_singles(), TAG_X_NAME as nat),
{
}

/// Event component (VEVENT)
#[derive(Debug)]
pub struct VEvent<'src> {
    /// Unique identifier for the event
    pub uid: TextOnly<SpannedSegments<'src>>,
    /// Date/time the event was created
    pub dt_stamp: DateTimeProperty<SpannedSegments<'src>>,
    /// Date/time the event starts
    pub dt_start: DateTimeProperty<SpannedSegments<'src>>,
    /// Date/time the event ends
    pub dt_end: Option<DateTimeProperty<SpannedSegments<'src>>>,
    /// Duration of the event (alternative to `dt_end`)
    pub duration: Option<Duration<SpannedSegments<'src>>>,
    /// Summary/title of the event
    pub summary: Option<Text<SpannedSegments<'src>>>,
    /// Description of the event
    pub description: Option<Text<SpannedSegments<'src>>>,
    /// Location of the event
    pub location: Option<Text<SpannedSegments<'src>>>,
    /// Geographic position, as typed
    pub geo: Option<ParsedProperty<'src>>,
    /// URL associated with the event
    pub url: Option<UriProperty<SpannedSegments<'src>>>,
    /// Organizer of the event
    pub organizer: Option<Organizer<SpannedSegments<'src>>>,
    /// Last modification date/time
    pub last_modified: Option<DateTimeProperty<SpannedSegments<'src>>>,
    /// Status of the event
    pub status: Option<EventStatus<SpannedSegments<'src>>>,
    /// Time transparency
    pub transparency: Option<TimeTransparency<SpannedSegments<'src>>>,
    /// Sequence number for revisions
    pub sequence: Option<Sequence<SpannedSegments<'src>>>,
    /// Priority (1-9, 1 is highest)
    pub priority: Option<Priority<SpannedSegments<'src>>>,
    /// Classification
    pub classification: Option<Classification<SpannedSegments<'src>>>,
    /// Resources
    pub resources: Option<Resources<SpannedSegments<'src>>>,
    /// Categories
    pub categories: Option<Categories<SpannedSegments<'src>>>,
    /// Attendees of the event
    pub attendees: Vec<Attendee<SpannedSegments<'src>>>,
    /// Recurrence dates, as typed
    pub rdates: Vec<Property<'src>>,
    /// Exception dates, as typed
    pub ex_dates: Vec<Property<'src>>,
    /// Custom X- properties (preserved for round-trip)
    pub x_properties: Vec<Property<'src>>,
    /// Unrecognized / Non-standard properties (preserved for round-trip)
    pub retained_properties: Vec<Property<'src>>,
    /// Sub-components (alarms)
    pub alarms: Vec<VAlarm<'src>>,
}

/// The errors of `VEVENT` that come before its `STATUS` check: the name and the duplicates.
pub open spec fn vevent_errors_before<'src>(comp: TypedComponent<'src>) -> Seq<SemanticError<'src>> {
    name_errors(comp.name, KW_VEVENT, comp.span) + duplicate_errors(comp.properties@, vevent_singles(), None)
}

/// The errors for the required properties of `VEVENT` that are absent.
pub open spec fn vevent_missing<'src>(comp: TypedComponent<'src>) -> Seq<SemanticError<'src>> {
    let ps = comp.properties@;
    missing_error(first_with_tag(ps, TAG_UID as nat) is None, PropertyKind::Uid, comp.span)
        + missing_error(first_with_tag(ps, TAG_DT_STAMP as nat) is None, PropertyKind::DtStamp, comp.span)
        + missing_error(first_with_tag(ps, TAG_DT_START as nat) is None, PropertyKind::DtStart, comp.span)
}

/// Whether the `STATUS` of `VEVENT` has a value it does not allow.
pub open spec fn vevent_status_bad<'src>(ps: Seq<Property<'src>>) -> bool {
    as_status(first_with_tag(ps, TAG_STATUS as nat)) matches Some(s) && event_status_value_of(s.value) is None
}

/// Whether `e` is the error for the `STATUS` of `VEVENT`.
pub open spec fn vevent_status_error<'src>(ps: Seq<Property<'src>>, e: SemanticError<'src>) -> bool {
    as_status(first_with_tag(ps, TAG_STATUS as nat)) matches Some(s) && invalid_status_error(
        e,
        "Invalid event status value: "@ + status_value_keyword(s.value)@,
        s.span,
    )
}

/// Whether a converted status is that of the collected `STATUS`.
pub open spec fn vevent_status_of<'src>(ps: Seq<Property<'src>>, st: Option<EventStatus<SpannedSegments<'src>>>) -> bool {
    match as_status(first_with_tag(ps, TAG_STATUS as nat)) {
        None => st is None,
        Some(s) => st matches Some(x) && Some(x.value) == event_status_value_of(s.value) && x.x_parameters
            == s.x_parameters && x.retained_parameters == s.retained_parameters,
    }
}

/// Whether `a` holds the properties of a `VEVENT` component, collected.
pub open spec fn vevent_fields<'src>(comp: TypedComponent<'src>, rs: Seq<Result<VAlarm<'src>, Vec<SemanticError<'src>>>>, a: VEvent<'src>) -> bool {
    let ps = comp.properties@;
    let r0 = unlisted(ps, vevent_singles());
    let r1 = without_tag(r0, TAG_ATTENDEE as nat);
    let r2 = without_tag(r1, TAG_R_DATE as nat);
    let r3 = without_tag(r2, TAG_EX_DATE as nat);
    &&& Some(a.uid) == as_text_only(first_with_tag(ps, TAG_UID as nat))
    &&& Some(a.dt_stamp) == as_date_time_property(first_with_tag(ps, TAG_DT_STAMP as nat))
    &&& Some(a.dt_start) == as_date_time_property(first_with_tag(ps, TAG_DT_START as nat))
    &&& a.dt_end == as_date_time_property(first_with_tag(ps, TAG_DT_END as nat))
    &&& a.duration == as_duration_property(first_with_tag(ps, TAG_DURATION as nat))
    &&& a.summary == as_text(first_with_tag(ps, TAG_SUMMARY as nat))
    &&& a.description == as_text(first_with_tag(ps, TAG_DESCRIPTION as nat))
    &&& a.location == as_text(first_with_tag(ps, TAG_LOCATION as nat))
    &&& a.geo == as_parsed(first_with_tag(ps, TAG_GEO as nat))
    &&& a.url == as_uri_property(first_with_tag(ps, TAG_URL as nat))
    &&& a.organizer == as_organizer(first_with_tag(ps, TAG_ORGANIZER as nat))
    &&& a.last_modified == as_date_time_property(first_with_tag(ps, TAG_LAST_MODIFIED as nat))
    &&& vevent_status_of(ps, a.status)
    &&& a.transparency == as_transparency(first_with_tag(ps, TAG_TRANSP as nat))
    &&& a.sequence == as_sequence(first_with_tag(ps, TAG_SEQUENCE as nat))
    &&& a.priority == as_priority(first_with_tag(ps, TAG_PRIORITY as nat))
    &&& a.classification == as_classification(first_with_tag(ps, TAG_CLASS as nat))
    &&& a.resources == as_resources(first_with_tag(ps, TAG_RESOURCES as nat))
    &&& a.categories == as_categories(first_with_tag(ps, TAG_CATEGORIES as nat))
    &&& a.attendees@ == attendees_of(r0)
    &&& a.rdates@ == with_tag(r1, TAG_R_DATE as nat)
    &&& a.ex_dates@ == with_tag(r2, TAG_EX_DATE as nat)
    &&& a.x_properties@ == with_tag(r3, TAG_X_NAME as nat)
    &&& a.retained_properties@ == without_tag(r3, TAG_X_NAME as nat)
    &&& a.alarms@ == alarm_oks(comp.children@, rs)
}

/// What converting a typed component to a `VEVENT` gives, for given results of its alarms.
pub open spec fn vevent_result_with<'src>(comp: TypedComponent<'src>, rs: Seq<Result<VAlarm<'src>, Vec<SemanticError<'src>>>>, r: Result<VEvent<'src>, Vec<SemanticError<'src>>>) -> bool {
    let pre = vevent_errors_before(comp);
    let post = vevent_missing(comp) + alarm_errors(comp.children@, rs);
    if vevent_status_bad(comp.properties@) {
        r matches Err(es) && es@.len() == pre.len() + 1 + post.len() && es@.take(pre.len() as int) == pre
            && vevent_status_error(comp.properties@, es@[pre.len() as int]) && es@.skip(pre.len() as int + 1) == post
    } else if pre.len() == 0 && post.len() == 0 {
        r matches Ok(a) && vevent_fields(comp, rs, a)
    } else {
        r matches Err(es) && es@ == pre + post
    }
}

/// What converting a typed component to a `VEVENT` gives: all errors of the checks, or the
/// component when there are none.
pub open spec fn vevent_result<'src>(comp: TypedComponent<'src>, r: Result<VEvent<'src>, Vec<SemanticError<'src>>>) -> bool {
    exists|rs: Seq<Result<VAlarm<'src>, Vec<SemanticError<'src>>>>|
        #[trigger] alarm_results(comp.children@, rs) && vevent_result_with(comp, rs, r)
}

/// Converting a component to a `VEVENT` succeeds exactly when it is named
/// `VEVENT` (ASCII case ignored), no kind that an event takes once occurs
/// twice, `UID`, `DTSTAMP` and `DTSTART` are present, its `STATUS` (if any)
/// is one an event allows, and every `VALARM` child converts.
pub proof fn lemma_vevent_ok_law<'src>(comp: TypedComponent<'src>, r: Result<VEvent<'src>, Vec<SemanticError<'src>>>)
    requires
        vevent_result(comp, r),
    ensures
        (r is Ok) <==> {
            let ps = comp.properties@;
            &&& eq_ignore_ascii_case(comp.name.bytes(), KW_VEVENT.spec_bytes())
            &&& !repeats_listed(ps, vevent_singles())
            &&& has_tag(ps, TAG_UID as nat)
            &&& has_tag(ps, TAG_DT_STAMP as nat)
            &&& has_tag(ps, TAG_DT_START as nat)
            &&& !vevent_status_bad(ps)
            &&& forall|i: int| 0 <= i < comp.children@.len() && is_alarm(#[trigger] comp.children@[i]) ==> valarm_converts(
                comp.children@[i],
            )
        },
{
    let ps = comp.properties@;
    let rs = choose|rs: Seq<Result<VAlarm<'src>, Vec<SemanticError<'src>>>>|
        #[trigger] alarm_results(comp.children@, rs) && vevent_result_with(comp, rs, r);
    lemma_no_duplicates(ps, vevent_singles(), None);
    lemma_first_with_tag_some(ps, TAG_UID as nat);
    lemma_first_with_tag_some(ps, TAG_DT_STAMP as nat);
    lemma_first_with_tag_some(ps, TAG_DT_START as nat);
    lemma_alarm_errors_empty(comp.children@, rs);
}

/// The kinds that an event takes at most once, as RFC 5545 lists them:
/// `UID`, `DTSTAMP`, `DTSTART`, `DTEND`, `DURATION`, `SUMMARY`,
/// `DESCRIPTION`, `LOCATION`, `GEO`, `URL`, `ORGANIZER`, `LAST-MODIFIED`,
/// `STATUS`, `TRANSP`, `SEQUENCE`, `PRIORITY`, `CLASS`, `RESOURCES` and
/// `CATEGORIES`.
pub open spec fn vevent_once_tag(t: nat) -> bool {
    ||| t == TAG_UID as nat
    ||| t == TAG_DT_STAMP as nat
    ||| t == TAG_DT_START as nat
    ||| t == TAG_DT_END as nat
    ||| t == TAG_DURATION as nat
    ||| t == TAG_SUMMARY as nat
    ||| t == TAG_DESCRIPTION as nat
    ||| t == TAG_LOCATION as nat
    ||| t == TAG_GEO as nat
    ||| t == TAG_URL as nat
    ||| t == TAG_ORGANIZER as nat
    ||| t == TAG_LAST_MODIFIED as nat
    ||| t == TAG_STATUS as nat
    ||| t == TAG_TRANSP as nat
    ||| t == TAG_SEQUENCE as nat
    ||| t == TAG_PRIORITY as nat
    ||| t == TAG_CLASS as nat
    ||| t == TAG_RESOURCES as nat
    ||| t == TAG_CATEGORIES as nat
}

/// The duplicates an event reports are exactly those of the kinds it
/// takes at most once: a kind is checked for repeats if and only if it is
/// one of them.
pub proof fn lemma_vevent_singles_are(t: nat)
    ensures
        is_listed(vevent_singles(), t) <==> vevent_once_tag(t),
{
    let s = vevent_singles();
    if vevent_once_tag(t) {
        if t == TAG_UID as nat { assert(s[0] == t); }
        if t == TAG_DT_STAMP as nat { assert(s[1] == t); }
        if t == TAG_DT_START as nat { assert(s[2] == t); }
        if t == TAG_DT_END as nat { assert(s[3] == t); }
        if t == TAG_DURATION as nat { assert(s[4] == t); }
        if t == TAG_SUMMARY as nat { assert(s[5] == t); }
        if t == TAG_DESCRIPTION as nat { assert(s[6] == t); }
        if t == TAG_LOCATION as nat { assert(s[7] == t); }
        if t == TAG_GEO as nat { assert(s[8] == t); }
        if t == TAG_URL as nat { assert(s[9] == t); }
        if t == TAG_ORGANIZER as nat { assert(s[10] == t); }
        if t == TAG_LAST_MODIFIED as nat { assert(s[11] == t); }
        if t == TAG_STATUS as nat { assert(s[12] == t); }
        if t == TAG_TRANSP as nat { assert(s[13] == t); }
        if t == TAG_SEQUENCE as nat { assert(s[14] == t); }
        if t == TAG_PRIORITY as nat { assert(s[15] == t); }
        if t == TAG_CLASS as nat { assert(s[16] == t); }
        if t == TAG_RESOURCES as nat { assert(s[17] == t); }
        if t == TAG_CATEGORIES as nat { assert(s[18] == t); }
    }
}

/// An event converts when it is named `VEVENT`, only kinds that it may
/// repeat occur twice (so two `COMMENT`s are fine), `UID`, `DTSTAMP` and
/// `DTSTART` are present, its `STATUS` (if any) is one an event allows and
/// its alarms convert; and then every property that is not of a kind it
/// takes at most once, and is no `ATTENDEE`, `RDATE`, `EXDATE` or `X-`
/// property, is kept among its retained properties.
pub proof fn lemma_vevent_keeps_other_properties<'src>(
    comp: TypedComponent<'src>,
    r: Result<VEvent<'src>, Vec<SemanticError<'src>>>,
)
    requires
        vevent_result(comp, r),
        eq_ignore_ascii_case(comp.name.bytes(), KW_VEVENT.spec_bytes()),
        forall|i: int, j: int|
            0 <= i < j < comp.properties@.len() && property_tag(#[trigger] comp.properties@[i]) == property_tag(
                #[trigger] comp.properties@[j],
            ) ==> !vevent_once_tag(property_tag(comp.properties@[j])),
        has_tag(comp.properties@, TAG_UID as nat),
        has_tag(comp.properties@, TAG_DT_STAMP as nat),
        has_tag(comp.properties@, TAG_DT_START as nat),
        !vevent_status_bad(comp.properties@),
        forall|i: int|
            0 <= i < comp.children@.len() && is_alarm(#[trigger] comp.children@[i]) ==> valarm_converts(
                comp.children@[i],
            ),
    ensures
        r matches Ok(a) && forall|i: int|
            0 <= i < comp.properties@.len() && !vevent_once_tag(property_tag(#[trigger] comp.properties@[i]))
                && property_tag(comp.properties@[i]) != TAG_ATTENDEE as nat && property_tag(comp.properties@[i])
                != TAG_R_DATE as nat && property_tag(comp.properties@[i]) != TAG_EX_DATE as nat && property_tag(
                comp.properties@[i],
            ) != TAG_X_NAME as nat ==> a.retained_properties@.contains(comp.properties@[i]),
{
    let ps = comp.properties@;
    if repeats_listed(ps, vevent_singles()) {
        let (i, j) = choose|i: int, j: int|
            0 <= i < j < ps.len() && is_listed(vevent_singles(), property_tag(#[trigger] ps[j])) && property_tag(
                #[trigger] ps[i],
            ) == property_tag(ps[j]);
        lemma_vevent_singles_are(property_tag(ps[j]));
    }
    lemma_vevent_ok_law(comp, r);
    let rs = choose|rs: Seq<Result<VAlarm<'src>, Vec<SemanticError<'src>>>>|
        #[trigger] alarm_results(comp.children@, rs) && vevent_result_with(comp, rs, r);
    lemma_no_duplicates(ps, vevent_singles(), None);
    lemma_first_with_tag_some(ps, TAG_UID as nat);
    lemma_first_with_tag_some(ps, TAG_DT_STAMP as nat);
    lemma_first_with_tag_some(ps, TAG_DT_START as nat);
    lemma_alarm_errors_empty(comp.children@, rs);
    let a = r->Ok_0;
    assert(vevent_fields(comp, rs, a));
    assert forall|i: int|
        0 <= i < ps.len() && !vevent_once_tag(property_tag(#[trigger] ps[i])) && property_tag(ps[i])
            != TAG_ATTENDEE as nat && property_tag(ps[i]) != TAG_R_DATE as nat && property_tag(ps[i])
            != TAG_EX_DATE as nat && property_tag(ps[i]) != TAG_X_NAME as nat implies a.retained_properties@.contains(
        ps[i],
    ) by {
        let p = ps[i];
        lemma_vevent_singles_are(property_tag(p));
        lemma_unlisted_keeps(ps, vevent_singles(), i);
        let r0 = unlisted(ps, vevent_singles());
        let r1 = without_tag(r0, TAG_ATTENDEE as nat);
        let r2 = without_tag(r1, TAG_R_DATE as nat);
        let r3 = without_tag(r2, TAG_EX_DATE as nat);
        lemma_without_tag_keeps(r0, TAG_ATTENDEE as nat, p);
        lemma_without_tag_keeps(r1, TAG_R_DATE as nat, p);
        lemma_without_tag_keeps(r2, TAG_EX_DATE as nat, p);
        lemma_without_tag_keeps(r3, TAG_X_NAME as nat, p);
    }
}

impl<'src> VEvent<'src> {
    /// Parse a `TypedComponent` into a `VEvent`. Every error is reported: a wrong name, each duplicate, a `STATUS` an event does not allow, each missing required property, and the errors of its alarms.
    #[verifier::rlimit(100)]
    pub fn try_from(comp: TypedComponent<'src>) -> (r: Result<Self, Vec<SemanticError<'src>>>)
        ensures
            vevent_result(comp, r),
    {
        let ghost c0 = comp;
        let ghost ps = comp.properties@;
        let TypedComponent { name, properties, children, span } = comp;
        let mut errors: Vec<SemanticError<'src>> = Vec::new();
        if !name.eq_str_ignore_ascii_case(KW_VEVENT) {
            errors.push(SemanticError::ExpectedComponent { expected: KW_VEVENT, got: name, span });
        }
        assert(errors@ =~= name_errors(c0.name, KW_VEVENT, span));
        proof {
            lemma_vevent_singles();
        }
        let singles = vec![TAG_UID, TAG_DT_STAMP, TAG_DT_START, TAG_DT_END, TAG_DURATION, TAG_SUMMARY, TAG_DESCRIPTION, TAG_LOCATION, TAG_GEO, TAG_URL, TAG_ORGANIZER, TAG_LAST_MODIFIED, TAG_STATUS, TAG_TRANSP, TAG_SEQUENCE, TAG_PRIORITY, TAG_CLASS, TAG_RESOURCES, TAG_CATEGORIES];
        assert(singles@ =~= vevent_singles());
        let mut collected = collect_properties(properties, &singles, None);
        let ghost e0 = errors@;
        errors.append(&mut collected.errors);
        assert(errors@ =~= vevent_errors_before(c0));
        let ghost slots = collected.slots@;
        proof {
            lemma_first_with_tag(ps, TAG_UID as nat);
            lemma_first_with_tag(ps, TAG_DT_STAMP as nat);
            lemma_first_with_tag(ps, TAG_DT_START as nat);
            lemma_first_with_tag(ps, TAG_DT_END as nat);
            lemma_first_with_tag(ps, TAG_DURATION as nat);
            lemma_first_with_tag(ps, TAG_SUMMARY as nat);
            lemma_first_with_tag(ps, TAG_DESCRIPTION as nat);
            lemma_first_with_tag(ps, TAG_LOCATION as nat);
            lemma_first_with_tag(ps, TAG_GEO as nat);
            lemma_first_with_tag(ps, TAG_URL as nat);
            lemma_first_with_tag(ps, TAG_ORGANIZER as nat);
            lemma_first_with_tag(ps, TAG_LAST_MODIFIED as nat);
            lemma_first_with_tag(ps, TAG_STATUS as nat);
            lemma_first_with_tag(ps, TAG_TRANSP as nat);
            lemma_first_with_tag(ps, TAG_SEQUENCE as nat);
            lemma_first_with_tag(ps, TAG_PRIORITY as nat);
            lemma_first_with_tag(ps, TAG_CLASS as nat);
            lemma_first_with_tag(ps, TAG_RESOURCES as nat);
            lemma_first_with_tag(ps, TAG_CATEGORIES as nat);
        }
        assert(slots[0] == first_with_tag(ps, TAG_UID as nat));
        assert(slots[1] == first_with_tag(ps, TAG_DT_STAMP as nat));
        assert(slots[2] == first_with_tag(ps, TAG_DT_START as nat));
        assert(slots[3] == first_with_tag(ps, TAG_DT_END as nat));
        assert(slots[4] == first_with_tag(ps, TAG_DURATION as nat));
        assert(slots[5] == first_with_tag(ps, TAG_SUMMARY as nat));
        assert(slots[6] == first_with_tag(ps, TAG_DESCRIPTION as nat));
        assert(slots[7] == first_with_tag(ps, TAG_LOCATION as nat));
        assert(slots[8] == first_with_tag(ps, TAG_GEO as nat));
        assert(slots[9] == first_with_tag(ps, TAG_URL as nat));
        assert(slots[10] == first_with_tag(ps, TAG_ORGANIZER as nat));
        assert(slots[11] == first_with_tag(ps, TAG_LAST_MODIFIED as nat));
        assert(slots[12] == first_with_tag(ps, TAG_STATUS as nat));
        assert(slots[13] == first_with_tag(ps, TAG_TRANSP as nat));
        assert(slots[14] == first_with_tag(ps, TAG_SEQUENCE as nat));
        assert(slots[15] == first_with_tag(ps, TAG_PRIORITY as nat));
        assert(slots[16] == first_with_tag(ps, TAG_CLASS as nat));
        assert(slots[17] == first_with_tag(ps, TAG_RESOURCES as nat));
        assert(slots[18] == first_with_tag(ps, TAG_CATEGORIES as nat));
        let uid = into_text_only(next_prop_slot(&mut collected.slots));
        let dt_stamp = into_date_time_property(next_prop_slot(&mut collected.slots));
        let dt_start = into_date_time_property(next_prop_slot(&mut collected.slots));
        let dt_end = into_date_time_property(next_prop_slot(&mut collected.slots));
        let duration = into_duration_property(next_prop_slot(&mut collected.slots));
        let summary = into_text(next_prop_slot(&mut collected.slots));
        let description = into_text(next_prop_slot(&mut collected.slots));
        let location = into_text(next_prop_slot(&mut collected.slots));
        let geo = into_parsed(next_prop_slot(&mut collected.slots));
        let url = into_uri_property(next_prop_slot(&mut collected.slots));
        let organizer = into_organizer(next_prop_slot(&mut collected.slots));
        let last_modified = into_date_time_property(next_prop_slot(&mut collected.slots));
        let status_property = into_status(next_prop_slot(&mut collected.slots));
        let transparency = into_transparency(next_prop_slot(&mut collected.slots));
        let sequence = into_sequence(next_prop_slot(&mut collected.slots));
        let priority = into_priority(next_prop_slot(&mut collected.slots));
        let classification = into_classification(next_prop_slot(&mut collected.slots));
        let resources = into_resources(next_prop_slot(&mut collected.slots));
        let categories = into_categories(next_prop_slot(&mut collected.slots));
        let ghost pre = errors@;
        let status = match status_property {
            Some(s) => match EventStatus::try_from(s) {
                Ok(v) => Some(v),
                Err(e) => {
                    errors.push(e);
                    None
                },
            },
            None => None,
        };
        let ghost mid = errors@;
        if uid.is_none() {
            errors.push(SemanticError::MissingProperty { property: PropertyKind::Uid, span });
        }
        if dt_stamp.is_none() {
            errors.push(SemanticError::MissingProperty { property: PropertyKind::DtStamp, span });
        }
        if dt_start.is_none() {
            errors.push(SemanticError::MissingProperty { property: PropertyKind::DtStart, span });
        }
        assert(errors@ =~= mid + vevent_missing(c0));
        let (attendees, rest0) = take_attendees(collected.others);
        let (rdates, rest1) = split_tag(rest0, TAG_R_DATE);
        let (ex_dates, rest2) = split_tag(rest1, TAG_EX_DATE);
        let (x_properties, retained_properties) = split_tag(rest2, TAG_X_NAME);
        let ghost mid2 = errors@;
        let (alarms, mut alarm_errors_found) = alarms_of(children);
        let ghost rs = choose|rs: Seq<Result<VAlarm<'src>, Vec<SemanticError<'src>>>>|
            #[trigger] alarm_results(c0.children@, rs) && alarms@ == alarm_oks(c0.children@, rs) && alarm_errors_found@
                == alarm_errors(c0.children@, rs);
        errors.append(&mut alarm_errors_found);
        assert(errors@ =~= mid2 + alarm_errors(c0.children@, rs));
        let ghost fin = errors@;
        let result = if errors.len() == 0 {
            match (uid, dt_stamp, dt_start) {
                (Some(uid), Some(dt_stamp), Some(dt_start)) => Ok(VEvent { uid, dt_stamp, dt_start, dt_end, duration, summary, description, location, geo, url, organizer, last_modified, status, transparency, sequence, priority, classification, resources, categories, attendees, rdates, ex_dates, x_properties, retained_properties, alarms }),
                _ => Err(errors),
            }
        } else {
            Err(errors)
        };
        proof {
            if vevent_status_bad(ps) {
                assert(result matches Err(es) && es@.take(pre.len() as int) =~= pre);
                assert(result matches Err(es) && es@.skip(pre.len() as int + 1) =~= vevent_missing(c0) + alarm_errors(c0.children@, rs));
            } else {
                assert(mid == pre);
                assert(fin =~= pre + (vevent_missing(c0) + alarm_errors(c0.children@, rs)));
            }
        }
        assert(vevent_result_with(c0, rs, result));
        result
    }
}
} // verus!
