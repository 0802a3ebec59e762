//! Journal component (VJOURNAL) for iCalendar semantic components.

use vstd::prelude::*;

use crate::keyword::KW_VJOURNAL;
use crate::property::ast::{TAG_ATTENDEE, TAG_CATEGORIES, TAG_CLASS, TAG_DESCRIPTION, TAG_DT_STAMP, TAG_DT_START, TAG_EX_DATE, TAG_LAST_MODIFIED, TAG_ORGANIZER, TAG_R_DATE, TAG_STATUS, TAG_SUMMARY, TAG_UID, TAG_URL, TAG_X_NAME};
use crate::property::common::Text;
use crate::property::descriptive::Categories;
use crate::property::relationship::Attendee;
use crate::property::{Property, PropertyKind};
use crate::semantic::collect::{
    attendees_of, categories_of, collect_properties, duplicate_errors, first_with_tag, is_listed,
    lemma_first_with_tag, singles_wf, split_tag, take_attendees, take_categories, take_texts, take_tz_names, texts_of,
    tz_names_of, fb_periods, take_free_busy,
    unlisted, with_tag, without_tag,
};
use crate::semantic::fields::{as_classification, as_date_time_property, as_organizer, as_status, as_text_only, as_uri_property, into_classification, into_date_time_property, into_organizer, into_status, into_text_only, into_uri_property};
use crate::semantic::valarm::{as_text, into_text, missing_error, name_errors, next_prop_slot};
use crate::semantic::valarm::{VAlarm, alarm_errors, alarm_oks, alarm_results, alarms_of};
use crate::semantic::collect::{has_tag, lemma_first_with_tag_some, lemma_no_duplicates, lemma_unlisted_keeps, lemma_without_tag_keeps, repeats_listed};
use crate::property::ast::property_tag;
use crate::string_storage::eq_ignore_ascii_case;
use vstd::string::StringSliceAdditionalSpecFns;
use crate::semantic::{SemanticError, invalid_status_error};
use crate::semantic::{JournalStatus, journal_status_value_of};
use crate::property::descriptive::status_value_keyword;
use crate::string_storage::SpannedSegments;
use crate::typed::{ParsedProperty, TypedComponent};
use crate::property::changemgmt::Sequence;
use crate::property::common::{TextOnly, TextWithLanguage, UriProperty};
use crate::property::timezone::UtcOffsetProperty;
use crate::property::datetime::{DateTimeProperty, DateTimeUtc, Duration, Period, TimeTransparency};
use crate::property::descriptive::{Classification, PercentComplete, Priority, Resources};
use crate::property::relationship::Organizer;

verus! {

/// The kinds that `VJOURNAL` takes at most once, in the order of its fields.
pub open spec fn vjournal_singles() -> Seq<usize> {
    seq![TAG_UID, TAG_DT_STAMP, TAG_DT_START, TAG_SUMMARY, TAG_ORGANIZER, TAG_LAST_MODIFIED, TAG_STATUS, TAG_CLASS, TAG_URL]
}

/// The kinds that a journal entry takes at most once: `UID`, `DTSTAMP`, `DTSTART`, `SUMMARY`,
/// `ORGANIZER`, `LAST-MODIFIED`, `STATUS`, `CLASS` and `URL`.
pub open spec fn vjournal_once_tag(t: nat) -> bool {
    ||| t == TAG_UID as nat
    ||| t == TAG_DT_STAMP as nat
    ||| t == TAG_DT_START as nat
    ||| t == TAG_SUMMARY as nat
    ||| t == TAG_ORGANIZER as nat
    ||| t == TAG_LAST_MODIFIED as nat
    ||| t == TAG_STATUS as nat
    ||| t == TAG_CLASS as nat
    ||| t == TAG_URL as nat
}

/// The duplicates a journal entry reports are exactly those of the kinds it takes
/// at most once: a kind is checked for repeats if and only if it is one of them.
pub proof fn lemma_vjournal_singles_are(t: nat)
    ensures
        is_listed(vjournal_singles(), t) <==> vjournal_once_tag(t),
{
    let s = vjournal_singles();
    if vjournal_once_tag(t) {
        if t == TAG_UID as nat {
            assert(s[0] == t);
        }
        if t == TAG_DT_STAMP as nat {
            assert(s[1] == t);
        }
        if t == TAG_DT_START as nat {
            assert(s[2] == t);
        }
        if t == TAG_SUMMARY as nat {
            assert(s[3] == t);
        }
        if t == TAG_ORGANIZER as nat {
            assert(s[4] == t);
        }
        if t == TAG_LAST_MODIFIED as nat {
            assert(s[5] == t);
        }
        if t == TAG_STATUS as nat {
            assert(s[6] == t);
        }
        if t == TAG_CLASS as nat {
            assert(s[7] == t);
        }
        if t == TAG_URL as nat {
            assert(s[8] == t);
        }
    }
}

proof fn lemma_vjournal_singles()
    ensures
        singles_wf(vjournal_singles()),
        !is_listed(vjournal_singles(), TAG_DESCRIPTION as nat),
        !is_listed(vjournal_singles(), TAG_ATTENDEE as nat),
        !is_listed(vjournal_singles(), TAG_CATEGORIES as nat),
        !is_listed(vjournal_singles(), TAG_R_DATE as nat),
        !is_listed(vjournal_singles(), TAG_EX_DATE as nat),
        !is_listed(vjournal_singles(), TAG_X_NAME as nat),
{
}

/// Journal entry component (VJOURNAL)
#[derive(Debug)]
pub struct VJournal<'src> {
    /// Unique identifier for the journal entry
    pub uid: TextOnly<SpannedSegments<'src>>,
    /// Date/time the journal entry was created
    pub dt_stamp: DateTimeProperty<SpannedSegments<'src>>,
    /// Date/time of the journal entry
    pub dt_start: DateTimeProperty<SpannedSegments<'src>>,
    /// Summary/title of the journal entry
    pub summary: Option<Text<SpannedSegments<'src>>>,
    /// Organizer of the journal entry
    pub organizer: Option<Organizer<SpannedSegments<'src>>>,
    /// Last modification date/time
    pub last_modified: Option<DateTimeProperty<SpannedSegments<'src>>>,
    /// Status of the journal entry
    pub status: Option<JournalStatus<SpannedSegments<'src>>>,
    /// Classification
    pub classification: Option<Classification<SpannedSegments<'src>>>,
    /// URL associated with the journal entry
    pub url: Option<UriProperty<SpannedSegments<'src>>>,
    /// Descriptions of the journal entry
    pub descriptions: Vec<Text<SpannedSegments<'src>>>,
    /// Attendees of the journal entry
    pub attendees: Vec<Attendee<SpannedSegments<'src>>>,
    /// Categories
    pub categories: Vec<Categories<SpannedSegments<'src>>>,
    /// Recurrence dates, as typed
    pub rdate: Vec<Property<'src>>,
    /// Exception dates, as typed
    pub ex_date: Vec<Property<'src>>,
    /// Custom X- properties (preserved for round-trip)
    pub x_properties: Vec<Property<'src>>,
    /// Unrecognized / Non-standard properties (preserved for round-trip)
    pub unrecognized_properties: Vec<Property<'src>>,
}

/// The errors of `VJOURNAL` that come before its `STATUS` check: the name and the duplicates.
pub open spec fn vjournal_errors_before<'src>(comp: TypedComponent<'src>) -> Seq<SemanticError<'src>> {
    name_errors(comp.name, KW_VJOURNAL, comp.span) + duplicate_errors(comp.properties@, vjournal_singles(), Some(comp.span))
}

/// The errors for the required properties of `VJOURNAL` that are absent.
pub open spec fn vjournal_missing<'src>(comp: TypedComponent<'src>) -> Seq<SemanticError<'src>> {
    let ps = comp.properties@;
    missing_error(first_with_tag(ps, TAG_UID as nat) is None, PropertyKind::Uid, comp.span)
        + missing_error(first_with_tag(ps, TAG_DT_STAMP as nat) is None, PropertyKind::DtStamp, comp.span)
        + missing_error(first_with_tag(ps, TAG_DT_START as nat) is None, PropertyKind::DtStart, comp.span)
}

/// Whether the `STATUS` of `VJOURNAL` has a value it does not allow.
pub open spec fn vjournal_status_bad<'src>(ps: Seq<Property<'src>>) -> bool {
    as_status(first_with_tag(ps, TAG_STATUS as nat)) matches Some(s) && journal_status_value_of(s.value) is None
}

/// Whether `e` is the error for the `STATUS` of `VJOURNAL`.
pub open spec fn vjournal_status_error<'src>(ps: Seq<Property<'src>>, e: SemanticError<'src>) -> bool {
    as_status(first_with_tag(ps, TAG_STATUS as nat)) matches Some(s) && invalid_status_error(
        e,
        "Invalid journal status value: "@ + status_value_keyword(s.value)@,
        s.span,
    )
}

/// Whether a converted status is that of the collected `STATUS`.
pub open spec fn vjournal_status_of<'src>(ps: Seq<Property<'src>>, st: Option<JournalStatus<SpannedSegments<'src>>>) -> bool {
    match as_status(first_with_tag(ps, TAG_STATUS as nat)) {
        None => st is None,
        Some(s) => st matches Some(x) && Some(x.value) == journal_status_value_of(s.value) && x.x_parameters
            == s.x_parameters && x.retained_parameters == s.retained_parameters,
    }
}

/// Whether `a` holds the properties of a `VJOURNAL` component, collected.
pub open spec fn vjournal_fields<'src>(comp: TypedComponent<'src>, a: VJournal<'src>) -> bool {
    let ps = comp.properties@;
    let r0 = unlisted(ps, vjournal_singles());
    let r1 = without_tag(r0, TAG_DESCRIPTION as nat);
    let r2 = without_tag(r1, TAG_ATTENDEE as nat);
    let r3 = without_tag(r2, TAG_CATEGORIES as nat);
    let r4 = without_tag(r3, TAG_R_DATE as nat);
    let r5 = without_tag(r4, TAG_EX_DATE as nat);
    &&& Some(a.uid) == as_text_only(first_with_tag(ps, TAG_UID as nat))
    &&& Some(a.dt_stamp) == as_date_time_property(first_with_tag(ps, TAG_DT_STAMP as nat))
    &&& Some(a.dt_start) == as_date_time_property(first_with_tag(ps, TAG_DT_START as nat))
    &&& a.summary == as_text(first_with_tag(ps, TAG_SUMMARY as nat))
    &&& a.organizer == as_organizer(first_with_tag(ps, TAG_ORGANIZER as nat))
    &&& a.last_modified == as_date_time_property(first_with_tag(ps, TAG_LAST_MODIFIED as nat))
    &&& vjournal_status_of(ps, a.status)
    &&& a.classification == as_classification(first_with_tag(ps, TAG_CLASS as nat))
    &&& a.url == as_uri_property(first_with_tag(ps, TAG_URL as nat))
    &&& a.descriptions@ == texts_of(r0, TAG_DESCRIPTION as nat)
    &&& a.attendees@ == attendees_of(r1)
    &&& a.categories@ == categories_of(r2)
    &&& a.rdate@ == with_tag(r3, TAG_R_DATE as nat)
    &&& a.ex_date@ == with_tag(r4, TAG_EX_DATE as nat)
    &&& a.x_properties@ == with_tag(r5, TAG_X_NAME as nat)
    &&& a.unrecognized_properties@ == without_tag(r5, TAG_X_NAME as nat)
}

/// What converting a typed component to a `VJOURNAL` gives, for given results of its alarms.
pub open spec fn vjournal_result_with<'src>(comp: TypedComponent<'src>, r: Result<VJournal<'src>, Vec<SemanticError<'src>>>) -> bool {
    let pre = vjournal_errors_before(comp);
    let post = vjournal_missing(comp);
    if vjournal_status_bad(comp.properties@) {
        r matches Err(es) && es@.len() == pre.len() + 1 + post.len() && es@.take(pre.len() as int) == pre
            && vjournal_status_error(comp.properties@, es@[pre.len() as int]) && es@.skip(pre.len() as int + 1) == post
    } else if pre.len() == 0 && post.len() == 0 {
        r matches Ok(a) && vjournal_fields(comp, a)
    } else {
        r matches Err(es) && es@ == pre + post
    }
}

/// What converting a typed component to a `VJOURNAL` gives: all errors of the checks, or the
/// component when there are none.
pub open spec fn vjournal_result<'src>(comp: TypedComponent<'src>, r: Result<VJournal<'src>, Vec<SemanticError<'src>>>) -> bool {
    vjournal_result_with(comp, r)
}

/// A journal entry converts when it is named `VJOURNAL`, only kinds that
/// it may repeat occur twice, `UID`, `DTSTAMP` and `DTSTART` are present
/// and its `STATUS` (if any) is one a journal entry allows; and then every
/// property that is not of a kind it takes at most once, and is no
/// `DESCRIPTION`, `ATTENDEE`, `CATEGORIES`, `RDATE`, `EXDATE` or `X-`
/// property, is kept among its unrecognized properties.
pub proof fn lemma_vjournal_keeps_other_properties<'src>(
    comp: TypedComponent<'src>,
    r: Result<VJournal<'src>, Vec<SemanticError<'src>>>,
)
    requires
        vjournal_result(comp, r),
        eq_ignore_ascii_case(comp.name.bytes(), KW_VJOURNAL.spec_bytes()),
        forall|i: int, j: int|
            0 <= i < j < comp.properties@.len() && property_tag(#[trigger] comp.properties@[i]) == property_tag(
                #[trigger] comp.properties@[j],
            ) ==> !vjournal_once_tag(property_tag(comp.properties@[j])),
        has_tag(comp.properties@, TAG_UID as nat),
        has_tag(comp.properties@, TAG_DT_STAMP as nat),
        has_tag(comp.properties@, TAG_DT_START as nat),
        !vjournal_status_bad(comp.properties@),
    ensures
        r matches Ok(a) && forall|i: int|
            0 <= i < comp.properties@.len() && !vjournal_once_tag(property_tag(#[trigger] comp.properties@[i]))
                && property_tag(comp.properties@[i]) != TAG_DESCRIPTION as nat && property_tag(comp.properties@[i])
                != TAG_ATTENDEE as nat && property_tag(comp.properties@[i]) != TAG_CATEGORIES as nat
                && property_tag(comp.properties@[i]) != TAG_R_DATE as nat && property_tag(comp.properties@[i])
                != TAG_EX_DATE as nat && property_tag(comp.properties@[i]) != TAG_X_NAME as nat
                ==> a.unrecognized_properties@.contains(comp.properties@[i]),
{
    let ps = comp.properties@;
    if repeats_listed(ps, vjournal_singles()) {
        let (i, j) = choose|i: int, j: int|
            0 <= i < j < ps.len() && is_listed(vjournal_singles(), property_tag(#[trigger] ps[j])) && property_tag(
                #[trigger] ps[i],
            ) == property_tag(ps[j]);
        lemma_vjournal_singles_are(property_tag(ps[j]));
    }
    lemma_no_duplicates(ps, vjournal_singles(), Some(comp.span));
    lemma_first_with_tag_some(ps, TAG_UID as nat);
    lemma_first_with_tag_some(ps, TAG_DT_STAMP as nat);
    lemma_first_with_tag_some(ps, TAG_DT_START as nat);
    let a = r->Ok_0;
    assert(vjournal_fields(comp, a));
    assert forall|i: int|
        0 <= i < ps.len() && !vjournal_once_tag(property_tag(#[trigger] ps[i])) && property_tag(ps[i])
            != TAG_DESCRIPTION as nat && property_tag(ps[i]) != TAG_ATTENDEE as nat && property_tag(ps[i])
            != TAG_CATEGORIES as nat && property_tag(ps[i]) != TAG_R_DATE as nat && property_tag(ps[i])
            != TAG_EX_DATE as nat && property_tag(ps[i]) != TAG_X_NAME as nat implies a.unrecognized_properties@.contains(
        ps[i],
    ) by {
        let p = ps[i];
        lemma_vjournal_singles_are(property_tag(p));
        lemma_unlisted_keeps(ps, vjournal_singles(), i);
        let r0 = unlisted(ps, vjournal_singles());
        let r1 = without_tag(r0, TAG_DESCRIPTION as nat);
        let r2 = without_tag(r1, TAG_ATTENDEE as nat);
        let r3 = without_tag(r2, TAG_CATEGORIES as nat);
        let r4 = without_tag(r3, TAG_R_DATE as nat);
        let r5 = without_tag(r4, TAG_EX_DATE as nat);
        lemma_without_tag_keeps(r0, TAG_DESCRIPTION as nat, p);
        lemma_without_tag_keeps(r1, TAG_ATTENDEE as nat, p);
        lemma_without_tag_keeps(r2, TAG_CATEGORIES as nat, p);
        lemma_without_tag_keeps(r3, TAG_R_DATE as nat, p);
        lemma_without_tag_keeps(r4, TAG_EX_DATE as nat, p);
        lemma_without_tag_keeps(r5, TAG_X_NAME as nat, p);
    }
}

impl<'src> VJournal<'src> {
    /// Parse a `TypedComponent` into a `VJournal`. Every error is reported: a wrong name, each duplicate, a `STATUS` a journal entry does not allow, and each missing required property.
    #[verifier::rlimit(100)]
    pub fn try_from(comp: TypedComponent<'src>) -> (r: Result<Self, Vec<SemanticError<'src>>>)
        ensures
            vjournal_result(comp, r),
    {
        let ghost c0 = comp;
        let ghost ps = comp.properties@;
        let TypedComponent { name, properties, children: _, span } = comp;
        let mut errors: Vec<SemanticError<'src>> = Vec::new();
        if !name.eq_str_ignore_ascii_case(KW_VJOURNAL) {
            errors.push(SemanticError::ExpectedComponent { expected: KW_VJOURNAL, got: name, span });
        }
        assert(errors@ =~= name_errors(c0.name, KW_VJOURNAL, span));
        proof {
            lemma_vjournal_singles();
        }
        let singles = vec![TAG_UID, TAG_DT_STAMP, TAG_DT_START, TAG_SUMMARY, TAG_ORGANIZER, TAG_LAST_MODIFIED, TAG_STATUS, TAG_CLASS, TAG_URL];
        assert(singles@ =~= vjournal_singles());
        let mut collected = collect_properties(properties, &singles, Some(span));
        let ghost e0 = errors@;
        errors.append(&mut collected.errors);
        assert(errors@ =~= vjournal_errors_before(c0));
        let ghost slots = collected.slots@;
        proof {
            lemma_first_with_tag(ps, TAG_UID as nat);
            lemma_first_with_tag(ps, TAG_DT_STAMP as nat);
            lemma_first_with_tag(ps, TAG_DT_START as nat);
            lemma_first_with_tag(ps, TAG_SUMMARY as nat);
            lemma_first_with_tag(ps, TAG_ORGANIZER as nat);
            lemma_first_with_tag(ps, TAG_LAST_MODIFIED as nat);
            lemma_first_with_tag(ps, TAG_STATUS as nat);
            lemma_first_with_tag(ps, TAG_CLASS as nat);
            lemma_first_with_tag(ps, TAG_URL as nat);
        }
        assert(slots[0] == first_with_tag(ps, TAG_UID as nat));
        assert(slots[1] == first_with_tag(ps, TAG_DT_STAMP as nat));
        assert(slots[2] == first_with_tag(ps, TAG_DT_START as nat));
        assert(slots[3] == first_with_tag(ps, TAG_SUMMARY as nat));
        assert(slots[4] == first_with_tag(ps, TAG_ORGANIZER as nat));
        assert(slots[5] == first_with_tag(ps, TAG_LAST_MODIFIED as nat));
        assert(slots[6] == first_with_tag(ps, TAG_STATUS as nat));
        assert(slots[7] == first_with_tag(ps, TAG_CLASS as nat));
        assert(slots[8] == first_with_tag(ps, TAG_URL as nat));
        let uid = into_text_only(next_prop_slot(&mut collected.slots));
        let dt_stamp = into_date_time_property(next_prop_slot(&mut collected.slots));
        let dt_start = into_date_time_property(next_prop_slot(&mut collected.slots));
        let summary = into_text(next_prop_slot(&mut collected.slots));
        let organizer = into_organizer(next_prop_slot(&mut collected.slots));
        let last_modified = into_date_time_property(next_prop_slot(&mut collected.slots));
        let status_property = into_status(next_prop_slot(&mut collected.slots));
        let classification = into_classification(next_prop_slot(&mut collected.slots));
        let url = into_uri_property(next_prop_slot(&mut collected.slots));
        let ghost pre = errors@;
        let status = match status_property {
            Some(s) => match JournalStatus::try_from(s) {
                Ok(v) => Some(v),
                Err(e) => {
                    errors.push(e);
                    None
                },
            },
            None => None,
        };
        let ghost mid = errors@;
        if uid.is_none() {
            errors.push(SemanticError::MissingProperty { property: PropertyKind::Uid, span });
        }
        if dt_stamp.is_none() {
            errors.push(SemanticError::MissingProperty { property: PropertyKind::DtStamp, span });
        }
        if dt_start.is_none() {
            errors.push(SemanticError::MissingProperty { property: PropertyKind::DtStart, span });
        }
        assert(errors@ =~= mid + vjournal_missing(c0));
        let (descriptions, rest0) = take_texts(collected.others, TAG_DESCRIPTION);
        let (attendees, rest1) = take_attendees(rest0);
        let (categories, rest2) = take_categories(rest1);
        let (rdate, rest3) = split_tag(rest2, TAG_R_DATE);
        let (ex_date, rest4) = split_tag(rest3, TAG_EX_DATE);
        let (x_properties, unrecognized_properties) = split_tag(rest4, TAG_X_NAME);
        let ghost fin = errors@;
        let result = if errors.len() == 0 {
            match (uid, dt_stamp, dt_start) {
                (Some(uid), Some(dt_stamp), Some(dt_start)) => Ok(VJournal { uid, dt_stamp, dt_start, summary, organizer, last_modified, status, classification, url, descriptions, attendees, categories, rdate, ex_date, x_properties, unrecognized_properties }),
                _ => Err(errors),
            }
        } else {
            Err(errors)
        };
        proof {
            if vjournal_status_bad(ps) {
                assert(result matches Err(es) && es@.take(pre.len() as int) =~= pre);
                assert(result matches Err(es) && es@.skip(pre.len() as int + 1) =~= vjournal_missing(c0));
            } else {
                assert(mid == pre);
                assert(fin =~= pre + (vjournal_missing(c0)));
            }
        }
        result
    }
}
} // verus!
