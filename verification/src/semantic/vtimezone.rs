//! Timezone component (VTIMEZONE) for iCalendar semantic components.

use vstd::prelude::*;
use vstd::string::StringSliceAdditionalSpecFns;

use crate::keyword::{KW_DAYLIGHT, KW_STANDARD, KW_VTIMEZONE};
use crate::property::ast::{TAG_LAST_MODIFIED, TAG_TZ_ID, TAG_TZ_URL, TAG_X_NAME};
use crate::property::common::{TextOnly, UriProperty};
use crate::property::datetime::DateTimeProperty;
use crate::property::{Property, PropertyKind};
use crate::semantic::SemanticError;
use crate::semantic::collect::{
    collect_properties, duplicate_errors, first_with_tag, is_listed, lemma_first_with_tag, singles_wf, split_tag,
    unlisted, with_tag, without_tag,
};
use crate::semantic::fields::{
    as_date_time_property, as_text_only, as_uri_property, into_date_time_property, into_text_only, into_uri_property,
};
use crate::semantic::observance::{TimeZoneObservance, observance_result};
use crate::semantic::valarm::{missing_error, name_errors, next_prop_slot};
use crate::string_storage::{SpannedSegments, eq_ignore_ascii_case};
use crate::typed::TypedComponent;

verus! {

/// Whether a child component is named `kw` (ASCII case ignored).
pub open spec fn is_named<'src>(c: TypedComponent<'src>, kw: &'static str) -> bool {
    eq_ignore_ascii_case(c.name.bytes(), kw.spec_bytes())
}

/// Whether `rs` hold what converting each child to an observance gives.
pub open spec fn observance_results<'src>(
    cs: Seq<TypedComponent<'src>>,
    rs: Seq<Result<TimeZoneObservance<'src>, Vec<SemanticError<'src>>>>,
) -> bool {
    rs.len() == cs.len() && forall|i: int| 0 <= i < cs.len() ==> observance_result(cs[i], #[trigger] rs[i])
}

/// The observances of the given sort that converted, in order.
pub open spec fn observances_named<'src>(
    cs: Seq<TypedComponent<'src>>,
    rs: Seq<Result<TimeZoneObservance<'src>, Vec<SemanticError<'src>>>>,
    standard: bool,
) -> Seq<TimeZoneObservance<'src>>
    decreases cs.len(),
{
    if cs.len() == 0 || rs.len() != cs.len() {
        Seq::empty()
    } else {
        let prev = observances_named(cs.drop_last(), rs.drop_last(), standard);
        match rs.last() {
            Ok(o) => if is_observance(cs.last(), standard) {
                prev.push(o)
            } else {
                prev
            },
            Err(_) => prev,
        }
    }
}

/// The error for a child that is not an observance.
pub open spec fn unknown_child_error<'src>(e: SemanticError<'src>, c: TypedComponent<'src>) -> bool {
    e matches SemanticError::UnknownComponent { component, span } && component@ == c.name@ && span == c.span
}

/// The errors of a child: its own conversion errors, after the error that
/// it is not an observance where its name is neither `STANDARD` nor
/// `DAYLIGHT`.
pub open spec fn child_errors_match<'src>(
    c: TypedComponent<'src>,
    r: Result<TimeZoneObservance<'src>, Vec<SemanticError<'src>>>,
    es: Seq<SemanticError<'src>>,
) -> bool {
    let own = match r {
        Err(e) => e@,
        Ok(_) => Seq::empty(),
    };
    if is_named(c, KW_STANDARD) || is_named(c, KW_DAYLIGHT) {
        es == own
    } else {
        es.len() == own.len() + 1 && unknown_child_error(es[0], c) && es.skip(1) == own
    }
}

/// The number of errors of a child.
pub open spec fn child_errors_len<'src>(
    c: TypedComponent<'src>,
    r: Result<TimeZoneObservance<'src>, Vec<SemanticError<'src>>>,
) -> nat {
    let own = match r {
        Err(e) => e@.len(),
        Ok(_) => 0,
    };
    if is_named(c, KW_STANDARD) || is_named(c, KW_DAYLIGHT) {
        own
    } else {
        own + 1
    }
}

/// The number of errors of the children.
pub open spec fn children_errors_len<'src>(
    cs: Seq<TypedComponent<'src>>,
    rs: Seq<Result<TimeZoneObservance<'src>, Vec<SemanticError<'src>>>>,
) -> nat
    decreases cs.len(),
{
    if cs.len() == 0 || rs.len() != cs.len() {
        0
    } else {
        children_errors_len(cs.drop_last(), rs.drop_last()) + child_errors_len(cs.last(), rs.last())
    }
}

/// Whether `es` are the errors of the children, in order.
pub open spec fn children_errors_match<'src>(
    cs: Seq<TypedComponent<'src>>,
    rs: Seq<Result<TimeZoneObservance<'src>, Vec<SemanticError<'src>>>>,
    es: Seq<SemanticError<'src>>,
) -> bool
    decreases cs.len(),
{
    if cs.len() == 0 || rs.len() != cs.len() {
        es.len() == 0
    } else {
        let k = children_errors_len(cs.drop_last(), rs.drop_last());
        &&& es.len() == k + child_errors_len(cs.last(), rs.last())
        &&& children_errors_match(cs.drop_last(), rs.drop_last(), es.take(k as int))
        &&& child_errors_match(cs.last(), rs.last(), es.skip(k as int))
    }
}

/// Whether a child converts to an observance of the given sort: `STANDARD`,
/// or else `DAYLIGHT`.
pub open spec fn is_observance<'src>(c: TypedComponent<'src>, standard: bool) -> bool {
    if standard {
        is_named(c, KW_STANDARD)
    } else {
        !is_named(c, KW_STANDARD) && is_named(c, KW_DAYLIGHT)
    }
}

/// The children of a time zone, converted: its `STANDARD` and `DAYLIGHT`
/// observances, and the errors of all children, in order.
pub struct Observances<'src> {
    /// The standard observances
    pub standard: Vec<TimeZoneObservance<'src>>,
    /// The daylight observances
    pub daylight: Vec<TimeZoneObservance<'src>>,
    /// The errors of the children
    pub errors: Vec<SemanticError<'src>>,
}

/// Convert the children of a time zone. A child that is neither `STANDARD`
/// nor `DAYLIGHT` is an error, and is still converted to report its own
/// errors.
pub fn observances_of<'src>(children: Vec<TypedComponent<'src>>) -> (r: Observances<'src>)
    ensures
        exists|rs: Seq<Result<TimeZoneObservance<'src>, Vec<SemanticError<'src>>>>|
            #[trigger] observance_results(children@, rs) && r.standard@ == observances_named(
                children@,
                rs,
                true,
            ) && r.daylight@ == observances_named(children@, rs, false) && children_errors_match(
                children@,
                rs,
                r.errors@,
            ),
{
    let ghost cs = children@;
    let total = children.len();
    let mut rest = children;
    let mut standard: Vec<TimeZoneObservance<'src>> = Vec::new();
    let mut daylight: Vec<TimeZoneObservance<'src>> = Vec::new();
    let mut errors: Vec<SemanticError<'src>> = Vec::new();
    let ghost mut rs: Seq<Result<TimeZoneObservance<'src>, Vec<SemanticError<'src>>>> = Seq::empty();
    let mut i: usize = 0;
    assert(cs.take(0) =~= Seq::<TypedComponent<'src>>::empty());
    while rest.len() > 0
        invariant
            0 <= i <= cs.len(),
            cs.len() == total,
            rest@ == cs.skip(i as int),
            observance_results(cs.take(i as int), rs),
            standard@ == observances_named(cs.take(i as int), rs, true),
            daylight@ == observances_named(cs.take(i as int), rs, false),
            children_errors_match(cs.take(i as int), rs, errors@),
        decreases rest@.len(),
    {
        let child = rest.remove(0);
        assert(child == cs[i as int]);
        let ghost pre = cs.take(i as int);
        let ghost old_rs = rs;
        let ghost old_errors = errors@;
        assert(cs.take(i + 1).drop_last() =~= pre);
        let is_standard = child.name.eq_str_ignore_ascii_case(KW_STANDARD);
        let is_daylight = child.name.eq_str_ignore_ascii_case(KW_DAYLIGHT);
        if !is_standard && !is_daylight {
            let component = child.name.to_owned();
            errors.push(SemanticError::UnknownComponent { component, span: child.span });
        }
        let ghost mid = errors@;
        let res = TimeZoneObservance::try_from(child);
        let ghost res_g = res;
        let ghost own = match res_g {
            Err(e) => e@,
            Ok(_) => Seq::<SemanticError<'src>>::empty(),
        };
        proof {
            rs = rs.push(res);
        }
        match res {
            Ok(o) => {
                if is_standard {
                    standard.push(o);
                } else if is_daylight {
                    daylight.push(o);
                }
            },
            Err(mut es) => {
                errors.append(&mut es);
            },
        }
        assert(errors@ =~= mid + own);
        assert(rs.drop_last() =~= old_rs);
        assert forall|j: int| 0 <= j < i + 1 implies observance_result(cs.take(i + 1)[j], #[trigger] rs[j]) by {
            if j < i {
                assert(cs.take(i + 1)[j] == pre[j]);
                assert(rs[j] == old_rs[j]);
            }
        }
        let ghost k = old_errors.len() as int;
        assert(errors@.take(k) =~= old_errors);
        assert(child_errors_match(cs[i as int], res_g, errors@.skip(k))) by {
            if !is_standard && !is_daylight {
                assert(errors@.skip(k) =~= seq![mid[k]] + own);
                assert(errors@.skip(k).skip(1) =~= own);
            } else {
                assert(mid =~= old_errors);
                assert(errors@.skip(k) =~= own);
            }
        }
        assert(rs.last() == res_g);
        assert(cs.take(i + 1).last() == cs[i as int]);
        assert(children_errors_match(cs.take(i + 1).drop_last(), rs.drop_last(), errors@.take(k)));
        assert(children_errors_len(cs.take(i + 1).drop_last(), rs.drop_last()) == k);
        assert(children_errors_match(cs.take(i + 1), rs, errors@));
        assert(rest@ =~= cs.skip(i as int + 1));
        i = i + 1;
    }
    assert(cs.take(i as int) =~= cs);
    Observances { standard, daylight, errors }
}

/// The kinds that `VTIMEZONE` takes at most once, in the order of its fields.
pub open spec fn vtimezone_singles() -> Seq<usize> {
    seq![TAG_TZ_ID, TAG_LAST_MODIFIED, TAG_TZ_URL]
}

/// The kinds that a time zone component takes at most once: `TZID`, `LAST-MODIFIED` and
/// `TZURL`.
pub open spec fn vtimezone_once_tag(t: nat) -> bool {
    ||| t == TAG_TZ_ID as nat
    ||| t == TAG_LAST_MODIFIED as nat
    ||| t == TAG_TZ_URL as nat
}

/// The duplicates a time zone component reports are exactly those of the kinds it takes
/// at most once: a kind is checked for repeats if and only if it is one of them.
pub proof fn lemma_vtimezone_singles_are(t: nat)
    ensures
        is_listed(vtimezone_singles(), t) <==> vtimezone_once_tag(t),
{
    let s = vtimezone_singles();
    if vtimezone_once_tag(t) {
        if t == TAG_TZ_ID as nat {
            assert(s[0] == t);
        }
        if t == TAG_LAST_MODIFIED as nat {
            assert(s[1] == t);
        }
        if t == TAG_TZ_URL as nat {
            assert(s[2] == t);
        }
    }
}

proof fn lemma_vtimezone_singles()
    ensures
        singles_wf(vtimezone_singles()),
        !is_listed(vtimezone_singles(), TAG_X_NAME as nat),
{
}

/// Timezone component (VTIMEZONE)
#[derive(Debug)]
pub struct VTimeZone<'src> {
    /// Time zone identifier
    pub tz_id: TextOnly<SpannedSegments<'src>>,
    /// Last modification date/time
    pub last_modified: Option<DateTimeProperty<SpannedSegments<'src>>>,
    /// Time zone URL
    pub tz_url: Option<UriProperty<SpannedSegments<'src>>>,
    /// Standard time observances
    pub standard: Vec<TimeZoneObservance<'src>>,
    /// Daylight saving time observances
    pub daylight: Vec<TimeZoneObservance<'src>>,
    /// Custom X- properties (preserved for round-trip)
    pub x_properties: Vec<Property<'src>>,
    /// Unrecognized / Non-standard properties (preserved for round-trip)
    pub retained_properties: Vec<Property<'src>>,
}

/// The errors of `VTIMEZONE` before those of its children: the name, the
/// duplicates and the missing `TZID`.
pub open spec fn vtimezone_errors_before<'src>(comp: TypedComponent<'src>) -> Seq<SemanticError<'src>> {
    let ps = comp.properties@;
    name_errors(comp.name, KW_VTIMEZONE, comp.span) + duplicate_errors(ps, vtimezone_singles(), None)
        + missing_error(first_with_tag(ps, TAG_TZ_ID as nat) is None, PropertyKind::TzId, comp.span)
}

/// What converting a typed component to a `VTIMEZONE` gives, for given
/// results of its children.
pub open spec fn vtimezone_result_with<'src>(
    comp: TypedComponent<'src>,
    rs: Seq<Result<TimeZoneObservance<'src>, Vec<SemanticError<'src>>>>,
    r: Result<VTimeZone<'src>, Vec<SemanticError<'src>>>,
) -> bool {
    let ps = comp.properties@;
    let cs = comp.children@;
    let pre = vtimezone_errors_before(comp);
    let rest = unlisted(ps, vtimezone_singles());
    match r {
        Ok(a) => pre.len() == 0 && children_errors_match(cs, rs, Seq::empty()) && Some(a.tz_id)
            == as_text_only(first_with_tag(ps, TAG_TZ_ID as nat)) && a.last_modified == as_date_time_property(
            first_with_tag(ps, TAG_LAST_MODIFIED as nat),
        ) && a.tz_url == as_uri_property(first_with_tag(ps, TAG_TZ_URL as nat)) && a.standard@
            == observances_named(cs, rs, true) && a.daylight@ == observances_named(cs, rs, false)
            && a.x_properties@ == with_tag(rest, TAG_X_NAME as nat) && a.retained_properties@ == without_tag(
            rest,
            TAG_X_NAME as nat,
        ),
        Err(es) => es@.len() > 0 && es@.take(pre.len() as int) == pre && children_errors_match(
            cs,
            rs,
            es@.skip(pre.len() as int),
        ),
    }
}

/// What converting a typed component to a `VTIMEZONE` gives: all errors of
/// the checks and of its children, or the time zone when there are none.
pub open spec fn vtimezone_result<'src>(comp: TypedComponent<'src>, r: Result<VTimeZone<'src>, Vec<SemanticError<'src>>>) -> bool {
    exists|rs: Seq<Result<TimeZoneObservance<'src>, Vec<SemanticError<'src>>>>|
        #[trigger] observance_results(comp.children@, rs) && vtimezone_result_with(comp, rs, r)
}

impl<'src> VTimeZone<'src> {
    /// Parse a `TypedComponent` into a `VTimeZone`. Every error is
    /// reported: a wrong name, each duplicate, a missing `TZID`, a child that
    /// is not an observance, and the errors of the observances.
    #[verifier::rlimit(60)]
    pub fn try_from(comp: TypedComponent<'src>) -> (r: Result<Self, Vec<SemanticError<'src>>>)
        ensures
            vtimezone_result(comp, r),
    {
        let ghost c0 = comp;
        let ghost ps = comp.properties@;
        let TypedComponent { name, properties, children, span } = comp;
        let mut errors: Vec<SemanticError<'src>> = Vec::new();
        if !name.eq_str_ignore_ascii_case(KW_VTIMEZONE) {
            errors.push(SemanticError::ExpectedComponent { expected: KW_VTIMEZONE, got: name, span });
        }
        assert(errors@ =~= name_errors(c0.name, KW_VTIMEZONE, span));
        proof {
            lemma_vtimezone_singles();
            lemma_first_with_tag(ps, TAG_TZ_ID as nat);
        }
        let singles = vec![TAG_TZ_ID, TAG_LAST_MODIFIED, TAG_TZ_URL];
        assert(singles@ =~= vtimezone_singles());
        let mut collected = collect_properties(properties, &singles, None);
        errors.append(&mut collected.errors);
        let ghost slots = collected.slots@;
        assert(slots[0] == first_with_tag(ps, TAG_TZ_ID as nat));
        assert(slots[1] == first_with_tag(ps, TAG_LAST_MODIFIED as nat));
        assert(slots[2] == first_with_tag(ps, TAG_TZ_URL as nat));
        let tz_id = into_text_only(next_prop_slot(&mut collected.slots));
        let last_modified = into_date_time_property(next_prop_slot(&mut collected.slots));
        let tz_url = into_uri_property(next_prop_slot(&mut collected.slots));
        if tz_id.is_none() {
            errors.push(SemanticError::MissingProperty { property: PropertyKind::TzId, span });
        }
        let ghost pre = errors@;
        assert(pre =~= vtimezone_errors_before(c0));
        let (x_properties, retained_properties) = split_tag(collected.others, TAG_X_NAME);
        let mut obs = observances_of(children);
        let ghost rs = choose|rs: Seq<Result<TimeZoneObservance<'src>, Vec<SemanticError<'src>>>>|
            #[trigger] observance_results(c0.children@, rs) && obs.standard@ == observances_named(
                c0.children@,
                rs,
                true,
            ) && obs.daylight@ == observances_named(c0.children@, rs, false) && children_errors_match(
                c0.children@,
                rs,
                obs.errors@,
            );
        let ghost child_errors = obs.errors@;
        errors.append(&mut obs.errors);
        assert(errors@.take(pre.len() as int) =~= pre);
        assert(errors@.skip(pre.len() as int) =~= child_errors);
        let result = if errors.len() == 0 {
            match tz_id {
                Some(tz_id) => Ok(VTimeZone {
                    tz_id,
                    last_modified,
                    tz_url,
                    standard: obs.standard,
                    daylight: obs.daylight,
                    x_properties,
                    retained_properties,
                }),
                None => Err(errors),
            }
        } else {
            Err(errors)
        };
        proof {
            if result is Ok {
                assert(pre.len() == 0);
                assert(child_errors =~= Seq::<SemanticError<'src>>::empty());
            }
        }
        assert(vtimezone_result_with(c0, rs, result));
        result
    }
}

} // verus!
