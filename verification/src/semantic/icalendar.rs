//! The calendar object (VCALENDAR) and the components it holds.

use vstd::prelude::*;
use vstd::string::StringSliceAdditionalSpecFns;
use vstd::string::StringExecFns;

use crate::keyword::{KW_VALARM, KW_VCALENDAR, KW_VEVENT, KW_VFREEBUSY, KW_VJOURNAL, KW_VTIMEZONE, KW_VTODO};
use crate::parameter::has_x_prefix;
use crate::property::ast::{TAG_CAL_SCALE, TAG_METHOD, TAG_PROD_ID, TAG_VERSION, TAG_X_NAME};
use crate::property::calendar::{CalendarScale, Method, ProductId, Version};
use crate::property::{Property, PropertyKind};
use crate::semantic::SemanticError;
use crate::semantic::collect::{
    collect_properties, duplicate_errors, first_with_tag, is_listed, lemma_first_with_tag, singles_wf, split_tag,
    unlisted, with_tag, without_tag,
};
use crate::semantic::valarm::{VAlarm, missing_error, name_errors, next_prop_slot, valarm_result};
use crate::semantic::vevent::{VEvent, vevent_result};
use crate::semantic::vfreebusy::{VFreeBusy, vfreebusy_result};
use crate::semantic::vjournal::{VJournal, vjournal_result};
use crate::semantic::vtimezone::{VTimeZone, is_named, vtimezone_result};
use crate::semantic::vtodo::{VTodo, vtodo_result};
use crate::string_storage::{Span, SpannedSegments};
use crate::typed::TypedComponent;

verus! {

/// Calendar components that can appear in an iCalendar object
#[derive(Debug)]
pub enum CalendarComponent<'src> {
    /// Event component
    Event(VEvent<'src>),
    /// To-do component
    Todo(VTodo<'src>),
    /// Journal entry component
    VJournal(VJournal<'src>),
    /// Free/busy time component
    VFreeBusy(VFreeBusy<'src>),
    /// Timezone definition component
    VTimeZone(VTimeZone<'src>),
    /// Alarm component
    VAlarm(VAlarm<'src>),
    /// X-component (custom experimental component starting with "X-")
    XComponent(XComponent<'src>),
    /// Unrecognized component (IANA-registered or other non-X- component)
    Unrecognized(UnrecognizedComponent<'src>),
}

/// X-component (custom experimental component)
#[derive(Debug)]
pub struct XComponent<'src> {
    /// Component name, starting with "X-" (ASCII case ignored)
    pub name: String,
    /// Properties in this component
    pub properties: Vec<Property<'src>>,
    /// Nested child components (can be any component type)
    pub children: Vec<CalendarComponent<'src>>,
    /// Span of the entire component
    pub span: Span,
}

/// Unrecognized component (iana-comp)
#[derive(Debug)]
pub struct UnrecognizedComponent<'src> {
    /// Component name
    pub name: String,
    /// Properties in this component
    pub properties: Vec<Property<'src>>,
    /// Nested child components (can be any component type)
    pub children: Vec<CalendarComponent<'src>>,
    /// Span of the entire component
    pub span: Span,
}

/// What converting a child component gives, by its name (ASCII case
/// ignored): the component of that name, an experimental component for an
/// `X-` name, else an unrecognized one. Of the last two, the name,
/// properties and span are stated; their own children are converted
/// likewise.
pub open spec fn component_result<'src>(
    c: TypedComponent<'src>,
    r: Result<CalendarComponent<'src>, Vec<SemanticError<'src>>>,
) -> bool {
    if is_named(c, KW_VEVENT) {
        match r {
            Ok(CalendarComponent::Event(x)) => vevent_result(c, Ok(x)),
            Ok(_) => false,
            Err(es) => vevent_result(c, Err(es)),
        }
    } else if is_named(c, KW_VTODO) {
        match r {
            Ok(CalendarComponent::Todo(x)) => vtodo_result(c, Ok(x)),
            Ok(_) => false,
            Err(es) => vtodo_result(c, Err(es)),
        }
    } else if is_named(c, KW_VJOURNAL) {
        match r {
            Ok(CalendarComponent::VJournal(x)) => vjournal_result(c, Ok(x)),
            Ok(_) => false,
            Err(es) => vjournal_result(c, Err(es)),
        }
    } else if is_named(c, KW_VFREEBUSY) {
        match r {
            Ok(CalendarComponent::VFreeBusy(x)) => vfreebusy_result(c, Ok(x)),
            Ok(_) => false,
            Err(es) => vfreebusy_result(c, Err(es)),
        }
    } else if is_named(c, KW_VTIMEZONE) {
        match r {
            Ok(CalendarComponent::VTimeZone(x)) => vtimezone_result(c, Ok(x)),
            Ok(_) => false,
            Err(es) => vtimezone_result(c, Err(es)),
        }
    } else if is_named(c, KW_VALARM) {
        match r {
            Ok(CalendarComponent::VAlarm(x)) => valarm_result(c, Ok(x)),
            Ok(_) => false,
            Err(es) => valarm_result(c, Err(es)),
        }
    } else if has_x_prefix(c.name.bytes()) {
        match r {
            Ok(CalendarComponent::XComponent(x)) => x.name@ == c.name@ && x.properties == c.properties && x.span
                == c.span,
            Ok(_) => false,
            Err(es) => es@.len() > 0,
        }
    } else {
        match r {
            Ok(CalendarComponent::Unrecognized(x)) => x.name@ == c.name@ && x.properties == c.properties && x.span
                == c.span,
            Ok(_) => false,
            Err(es) => es@.len() > 0,
        }
    }
}

/// Whether `rs` hold what converting each child gives.
pub open spec fn component_results<'src>(
    cs: Seq<TypedComponent<'src>>,
    rs: Seq<Result<CalendarComponent<'src>, Vec<SemanticError<'src>>>>,
) -> bool {
    rs.len() == cs.len() && forall|i: int| 0 <= i < cs.len() ==> component_result(cs[i], #[trigger] rs[i])
}

/// The components that converted, in order.
pub open spec fn ok_components<'src>(rs: Seq<Result<CalendarComponent<'src>, Vec<SemanticError<'src>>>>) -> Seq<
    CalendarComponent<'src>,
>
    decreases rs.len(),
{
    if rs.len() == 0 {
        Seq::empty()
    } else {
        match rs.last() {
            Ok(c) => ok_components(rs.drop_last()).push(c),
            Err(_) => ok_components(rs.drop_last()),
        }
    }
}

/// The errors of the components that did not convert, in order.
pub open spec fn component_errors<'src>(rs: Seq<Result<CalendarComponent<'src>, Vec<SemanticError<'src>>>>) -> Seq<
    SemanticError<'src>,
>
    decreases rs.len(),
{
    if rs.len() == 0 {
        Seq::empty()
    } else {
        match rs.last() {
            Ok(_) => component_errors(rs.drop_last()),
            Err(es) => component_errors(rs.drop_last()) + es@,
        }
    }
}

/// What converting a list of children gives: the errors of those that fail
/// when none converts and some fail, else the components that convert.
pub open spec fn children_result<'src>(
    rs: Seq<Result<CalendarComponent<'src>, Vec<SemanticError<'src>>>>,
    r: Result<Vec<CalendarComponent<'src>>, Vec<SemanticError<'src>>>,
) -> bool {
    if ok_components(rs).len() == 0 && component_errors(rs).len() > 0 {
        r matches Err(es) && es@ == component_errors(rs)
    } else {
        r matches Ok(v) && v@ == ok_components(rs)
    }
}

/// A child that fails to convert reports at least one error.
pub proof fn lemma_failed_child_reports<'src>(
    c: TypedComponent<'src>,
    r: Result<CalendarComponent<'src>, Vec<SemanticError<'src>>>,
)
    requires
        component_result(c, r),
        r is Err,
    ensures
        r->Err_0@.len() > 0,
{
}

/// Converted children give errors exactly when some child fails.
proof fn lemma_errors_iff_some_fail<'src>(
    cs: Seq<TypedComponent<'src>>,
    rs: Seq<Result<CalendarComponent<'src>, Vec<SemanticError<'src>>>>,
)
    requires
        component_results(cs, rs),
    ensures
        (component_errors(rs).len() > 0) <==> (exists|i: int| 0 <= i < rs.len() && #[trigger] rs[i] is Err),
    decreases rs.len(),
{
    if rs.len() > 0 {
        let n = rs.len() - 1;
        assert(component_results(cs.drop_last(), rs.drop_last())) by {
            assert forall|i: int| 0 <= i < cs.drop_last().len() implies component_result(
                cs.drop_last()[i],
                #[trigger] rs.drop_last()[i],
            ) by {
                assert(component_result(cs[i], rs[i]));
            }
        }
        lemma_errors_iff_some_fail(cs.drop_last(), rs.drop_last());
        assert(component_result(cs[n], rs[n]));
        if rs[n] is Err {
            lemma_failed_child_reports(cs[n], rs[n]);
        }
        if exists|i: int| 0 <= i < rs.len() && #[trigger] rs[i] is Err {
            let i = choose|i: int| 0 <= i < rs.len() && #[trigger] rs[i] is Err;
            if i < n {
                assert(rs.drop_last()[i] is Err);
            }
        }
        if exists|i: int| 0 <= i < rs.drop_last().len() && #[trigger] rs.drop_last()[i] is Err {
            let i = choose|i: int| 0 <= i < rs.drop_last().len() && #[trigger] rs.drop_last()[i] is Err;
            assert(rs[i] is Err);
        }
    }
}

/// Converting children fails exactly when none converts and some child
/// fails; the errors are then those of all children, in order. Otherwise it
/// gives the children that convert, in order, and drops the errors of the
/// others.
pub proof fn lemma_children_law<'src>(
    cs: Seq<TypedComponent<'src>>,
    rs: Seq<Result<CalendarComponent<'src>, Vec<SemanticError<'src>>>>,
    r: Result<Vec<CalendarComponent<'src>>, Vec<SemanticError<'src>>>,
)
    requires
        component_results(cs, rs),
        children_result(rs, r),
    ensures
        (r is Err) <==> (ok_components(rs).len() == 0 && exists|i: int| 0 <= i < rs.len() && #[trigger] rs[i] is Err),
        r matches Err(es) ==> es@ == component_errors(rs),
        r matches Ok(v) ==> v@ == ok_components(rs),
{
    lemma_errors_iff_some_fail(cs, rs);
}

/// Convert a child component by its name.
pub fn convert_component<'src>(c: TypedComponent<'src>) -> (r: Result<CalendarComponent<'src>, Vec<SemanticError<'src>>>)
    ensures
        component_result(c, r),
    decreases c, 2int,
{
    let ghost c0 = c;
    if c.name.eq_str_ignore_ascii_case(KW_VEVENT) {
        match VEvent::try_from(c) {
            Ok(x) => Ok(CalendarComponent::Event(x)),
            Err(e) => Err(e),
        }
    } else if c.name.eq_str_ignore_ascii_case(KW_VTODO) {
        match VTodo::try_from(c) {
            Ok(x) => Ok(CalendarComponent::Todo(x)),
            Err(e) => Err(e),
        }
    } else if c.name.eq_str_ignore_ascii_case(KW_VJOURNAL) {
        match VJournal::try_from(c) {
            Ok(x) => Ok(CalendarComponent::VJournal(x)),
            Err(e) => Err(e),
        }
    } else if c.name.eq_str_ignore_ascii_case(KW_VFREEBUSY) {
        match VFreeBusy::try_from(c) {
            Ok(x) => Ok(CalendarComponent::VFreeBusy(x)),
            Err(e) => Err(e),
        }
    } else if c.name.eq_str_ignore_ascii_case(KW_VTIMEZONE) {
        match VTimeZone::try_from(c) {
            Ok(x) => Ok(CalendarComponent::VTimeZone(x)),
            Err(e) => Err(e),
        }
    } else if c.name.eq_str_ignore_ascii_case(KW_VALARM) {
        match VAlarm::try_from(c) {
            Ok(x) => Ok(CalendarComponent::VAlarm(x)),
            Err(e) => Err(e),
        }
    } else if c.name.starts_with_str_ignore_ascii_case("X-") {
        match XComponent::try_from(c) {
            Ok(x) => Ok(CalendarComponent::XComponent(x)),
            Err(e) => Err(e),
        }
    } else {
        match UnrecognizedComponent::try_from(c) {
            Ok(x) => Ok(CalendarComponent::Unrecognized(x)),
            Err(e) => Err(e),
        }
    }
}

/// Parse component children into `CalendarComponent`s, in order. It fails,
/// with the errors of the children that fail, only when none converts and
/// some fail; otherwise it gives the components that convert.
pub fn parse_component_children<'src>(children: Vec<TypedComponent<'src>>) -> (r: Result<
    Vec<CalendarComponent<'src>>,
    Vec<SemanticError<'src>>,
>)
    ensures
        exists|rs: Seq<Result<CalendarComponent<'src>, Vec<SemanticError<'src>>>>|
            #[trigger] component_results(children@, rs) && children_result(rs, r),
    decreases children@, 0int,
{
    let ghost cs = children@;
    let total = children.len();
    let mut rest = children;
    let mut components: Vec<CalendarComponent<'src>> = Vec::new();
    let mut errors: Vec<SemanticError<'src>> = Vec::new();
    let ghost mut rs: Seq<Result<CalendarComponent<'src>, Vec<SemanticError<'src>>>> = Seq::empty();
    let mut i: usize = 0;
    assert(cs.take(0) =~= Seq::<TypedComponent<'src>>::empty());
    while rest.len() > 0
        invariant
            0 <= i <= cs.len(),
            cs.len() == total,
            cs == children@,
            rest@ == cs.skip(i as int),
            component_results(cs.take(i as int), rs),
            components@ == ok_components(rs),
            errors@ == component_errors(rs),
        decreases rest@.len(),
    {
        let child = rest.remove(0);
        assert(child == cs[i as int]);
        assert(decreases_to!(children@ => child));
        let ghost pre = cs.take(i as int);
        let ghost old_rs = rs;
        assert(cs.take(i + 1).drop_last() =~= pre);
        let res = convert_component(child);
        proof {
            rs = rs.push(res);
        }
        match res {
            Ok(c) => components.push(c),
            Err(mut es) => errors.append(&mut es),
        }
        assert(rs.drop_last() =~= old_rs);
        assert forall|j: int| 0 <= j < i + 1 implies component_result(cs.take(i + 1)[j], #[trigger] rs[j]) by {
            if j < i {
                assert(cs.take(i + 1)[j] == pre[j]);
                assert(rs[j] == old_rs[j]);
            }
        }
        assert(rest@ =~= cs.skip(i as int + 1));
        i = i + 1;
    }
    assert(cs.take(i as int) =~= cs);
    if components.len() == 0 && errors.len() > 0 {
        Err(errors)
    } else {
        Ok(components)
    }
}

impl<'src> XComponent<'src> {
    /// Parse an X-component with all its children: it fails with its
    /// children's errors where they fail.
    pub fn try_from(comp: TypedComponent<'src>) -> (r: Result<Self, Vec<SemanticError<'src>>>)
        ensures
            r matches Ok(x) ==> x.name@ == comp.name@ && x.properties == comp.properties && x.span == comp.span,
            r matches Err(es) ==> es@.len() > 0,
            exists|rs: Seq<Result<CalendarComponent<'src>, Vec<SemanticError<'src>>>>|
                #[trigger] component_results(comp.children@, rs) && match r {
                    Ok(x) => children_result(rs, Ok(x.children)),
                    Err(es) => children_result(rs, Err(es)),
                },
        decreases comp, 1int,
    {
        let ghost c0 = comp;
        assert(decreases_to!(comp => comp.children@)) by {
            assert(decreases_to!(comp => comp.children));
            assert(decreases_to!(comp.children => comp.children@));
        }
        let TypedComponent { name, properties, children, span } = comp;
        let name = name.to_owned();
        match parse_component_children(children) {
            Ok(children) => Ok(XComponent { name, properties, children, span }),
            Err(e) => Err(e),
        }
    }
}

impl<'src> UnrecognizedComponent<'src> {
    /// Parse an unrecognized component with all its children: it fails with
    /// its children's errors where they fail.
    pub fn try_from(comp: TypedComponent<'src>) -> (r: Result<Self, Vec<SemanticError<'src>>>)
        ensures
            r matches Ok(x) ==> x.name@ == comp.name@ && x.properties == comp.properties && x.span == comp.span,
            r matches Err(es) ==> es@.len() > 0,
            exists|rs: Seq<Result<CalendarComponent<'src>, Vec<SemanticError<'src>>>>|
                #[trigger] component_results(comp.children@, rs) && match r {
                    Ok(x) => children_result(rs, Ok(x.children)),
                    Err(es) => children_result(rs, Err(es)),
                },
        decreases comp, 1int,
    {
        assert(decreases_to!(comp => comp.children@)) by {
            assert(decreases_to!(comp => comp.children));
            assert(decreases_to!(comp.children => comp.children@));
        }
        let TypedComponent { name, properties, children, span } = comp;
        let name = name.to_owned();
        match parse_component_children(children) {
            Ok(children) => Ok(UnrecognizedComponent { name, properties, children, span }),
            Err(e) => Err(e),
        }
    }
}


/// The `ProductId` of a collected property.
pub open spec fn as_product_id<'src>(o: Option<Property<'src>>) -> Option<ProductId<SpannedSegments<'src>>> {
    match o {
        Some(Property::ProdId(x)) => Some(x),
        _ => None,
    }
}

fn into_product_id<'src>(o: Option<Property<'src>>) -> (r: Option<ProductId<SpannedSegments<'src>>>)
    ensures
        r == as_product_id(o),
{
    match o {
        Some(Property::ProdId(x)) => Some(x),
        _ => None,
    }
}

/// The `Version` of a collected property.
pub open spec fn as_version<'src>(o: Option<Property<'src>>) -> Option<Version<SpannedSegments<'src>>> {
    match o {
        Some(Property::Version(x)) => Some(x),
        _ => None,
    }
}

fn into_version<'src>(o: Option<Property<'src>>) -> (r: Option<Version<SpannedSegments<'src>>>)
    ensures
        r == as_version(o),
{
    match o {
        Some(Property::Version(x)) => Some(x),
        _ => None,
    }
}

/// The `CalendarScale` of a collected property.
pub open spec fn as_calendar_scale<'src>(o: Option<Property<'src>>) -> Option<CalendarScale<SpannedSegments<'src>>> {
    match o {
        Some(Property::CalScale(x)) => Some(x),
        _ => None,
    }
}

fn into_calendar_scale<'src>(o: Option<Property<'src>>) -> (r: Option<CalendarScale<SpannedSegments<'src>>>)
    ensures
        r == as_calendar_scale(o),
{
    match o {
        Some(Property::CalScale(x)) => Some(x),
        _ => None,
    }
}

/// The `Method` of a collected property.
pub open spec fn as_method<'src>(o: Option<Property<'src>>) -> Option<Method<SpannedSegments<'src>>> {
    match o {
        Some(Property::Method(x)) => Some(x),
        _ => None,
    }
}

fn into_method<'src>(o: Option<Property<'src>>) -> (r: Option<Method<SpannedSegments<'src>>>)
    ensures
        r == as_method(o),
{
    match o {
        Some(Property::Method(x)) => Some(x),
        _ => None,
    }
}

/// The kinds that `VCALENDAR` takes at most once, in the order of its fields.
pub open spec fn icalendar_singles() -> Seq<usize> {
    seq![TAG_PROD_ID, TAG_VERSION, TAG_CAL_SCALE, TAG_METHOD]
}

/// The kinds that a calendar takes at most once: `PRODID`, `VERSION`, `CALSCALE` and `METHOD`.
pub open spec fn icalendar_once_tag(t: nat) -> bool {
    ||| t == TAG_PROD_ID as nat
    ||| t == TAG_VERSION as nat
    ||| t == TAG_CAL_SCALE as nat
    ||| t == TAG_METHOD as nat
}

/// The duplicates a calendar reports are exactly those of the kinds it takes
/// at most once: a kind is checked for repeats if and only if it is one of them.
pub proof fn lemma_icalendar_singles_are(t: nat)
    ensures
        is_listed(icalendar_singles(), t) <==> icalendar_once_tag(t),
{
    let s = icalendar_singles();
    if icalendar_once_tag(t) {
        if t == TAG_PROD_ID as nat {
            assert(s[0] == t);
        }
        if t == TAG_VERSION as nat {
            assert(s[1] == t);
        }
        if t == TAG_CAL_SCALE as nat {
            assert(s[2] == t);
        }
        if t == TAG_METHOD as nat {
            assert(s[3] == t);
        }
    }
}

proof fn lemma_icalendar_singles()
    ensures
        singles_wf(icalendar_singles()),
        !is_listed(icalendar_singles(), TAG_X_NAME as nat),
{
}

/// Main iCalendar object that contains components and properties
#[derive(Debug)]
pub struct ICalendar<'src> {
    /// Product identifier that generated the iCalendar data
    pub prod_id: ProductId<SpannedSegments<'src>>,
    /// Version of iCalendar specification
    pub version: Version<SpannedSegments<'src>>,
    /// Calendar scale (usually GREGORIAN)
    pub calscale: Option<CalendarScale<SpannedSegments<'src>>>,
    /// Method for the iCalendar object (e.g., PUBLISH, REQUEST)
    pub method: Option<Method<SpannedSegments<'src>>>,
    /// All calendar components (events, todos, journals, etc.)
    pub components: Vec<CalendarComponent<'src>>,
    /// Custom X- properties (preserved for round-trip)
    pub x_properties: Vec<Property<'src>>,
    /// Unrecognized / Non-standard properties (preserved for round-trip)
    pub retained_properties: Vec<Property<'src>>,
}

/// The errors of `VCALENDAR` before those of its children: the name, the
/// duplicates and the missing `PRODID` and `VERSION`.
pub open spec fn icalendar_errors_before<'src>(comp: TypedComponent<'src>) -> Seq<SemanticError<'src>> {
    let ps = comp.properties@;
    name_errors(comp.name, KW_VCALENDAR, comp.span) + duplicate_errors(ps, icalendar_singles(), None)
        + missing_error(first_with_tag(ps, TAG_PROD_ID as nat) is None, PropertyKind::ProdId, comp.span)
        + missing_error(first_with_tag(ps, TAG_VERSION as nat) is None, PropertyKind::Version, comp.span)
}

/// The errors that the children of a calendar give it: theirs where none
/// converts and some fail.
pub open spec fn children_errors<'src>(rs: Seq<Result<CalendarComponent<'src>, Vec<SemanticError<'src>>>>) -> Seq<
    SemanticError<'src>,
> {
    if ok_components(rs).len() == 0 && component_errors(rs).len() > 0 {
        component_errors(rs)
    } else {
        Seq::empty()
    }
}

/// What converting a typed component to a `VCALENDAR` gives, for given
/// results of its children.
pub open spec fn icalendar_result_with<'src>(
    comp: TypedComponent<'src>,
    rs: Seq<Result<CalendarComponent<'src>, Vec<SemanticError<'src>>>>,
    r: Result<ICalendar<'src>, Vec<SemanticError<'src>>>,
) -> bool {
    let ps = comp.properties@;
    let pre = icalendar_errors_before(comp);
    let rest = unlisted(ps, icalendar_singles());
    if pre.len() == 0 && children_errors(rs).len() == 0 {
        r matches Ok(a) && Some(a.prod_id) == as_product_id(first_with_tag(ps, TAG_PROD_ID as nat)) && Some(
            a.version,
        ) == as_version(first_with_tag(ps, TAG_VERSION as nat)) && a.calscale == as_calendar_scale(
            first_with_tag(ps, TAG_CAL_SCALE as nat),
        ) && a.method == as_method(first_with_tag(ps, TAG_METHOD as nat)) && a.components@ == ok_components(rs)
            && a.x_properties@ == with_tag(rest, TAG_X_NAME as nat) && a.retained_properties@ == without_tag(
            rest,
            TAG_X_NAME as nat,
        )
    } else {
        r matches Err(es) && es@ == pre + children_errors(rs)
    }
}

/// What converting a typed component to a `VCALENDAR` gives: all errors of
/// its checks and of its children, or the calendar when there are none.
pub open spec fn icalendar_result<'src>(comp: TypedComponent<'src>, r: Result<ICalendar<'src>, Vec<SemanticError<'src>>>) -> bool {
    exists|rs: Seq<Result<CalendarComponent<'src>, Vec<SemanticError<'src>>>>|
        #[trigger] component_results(comp.children@, rs) && icalendar_result_with(comp, rs, r)
}

impl<'src> ICalendar<'src> {
    /// Parse a `TypedComponent` into an `ICalendar`: its first `PRODID`,
    /// `VERSION`, `CALSCALE` and `METHOD`, its components, and the other
    /// properties kept. Every error is reported: a wrong name, each
    /// duplicate, a missing `PRODID` or `VERSION`, and the errors of the
    /// children when none of them converts.
    #[verifier::rlimit(60)]
    pub fn try_from(comp: TypedComponent<'src>) -> (r: Result<Self, Vec<SemanticError<'src>>>)
        ensures
            icalendar_result(comp, r),
    {
        let ghost c0 = comp;
        let ghost ps = comp.properties@;
        let TypedComponent { name, properties, children, span } = comp;
        let mut errors: Vec<SemanticError<'src>> = Vec::new();
        if !name.eq_str_ignore_ascii_case(KW_VCALENDAR) {
            errors.push(SemanticError::ExpectedComponent { expected: KW_VCALENDAR, got: name, span });
        }
        assert(errors@ =~= name_errors(c0.name, KW_VCALENDAR, span));
        proof {
            lemma_icalendar_singles();
            lemma_first_with_tag(ps, TAG_PROD_ID as nat);
            lemma_first_with_tag(ps, TAG_VERSION as nat);
            lemma_first_with_tag(ps, TAG_CAL_SCALE as nat);
            lemma_first_with_tag(ps, TAG_METHOD as nat);
        }
        let singles = vec![TAG_PROD_ID, TAG_VERSION, TAG_CAL_SCALE, TAG_METHOD];
        assert(singles@ =~= icalendar_singles());
        let mut collected = collect_properties(properties, &singles, None);
        errors.append(&mut collected.errors);
        let ghost slots = collected.slots@;
        assert(slots[0] == first_with_tag(ps, TAG_PROD_ID as nat));
        assert(slots[1] == first_with_tag(ps, TAG_VERSION as nat));
        assert(slots[2] == first_with_tag(ps, TAG_CAL_SCALE as nat));
        assert(slots[3] == first_with_tag(ps, TAG_METHOD as nat));
        let prod_id = into_product_id(next_prop_slot(&mut collected.slots));
        let version = into_version(next_prop_slot(&mut collected.slots));
        let calscale = into_calendar_scale(next_prop_slot(&mut collected.slots));
        let method = into_method(next_prop_slot(&mut collected.slots));
        if prod_id.is_none() {
            errors.push(SemanticError::MissingProperty { property: PropertyKind::ProdId, span });
        }
        if version.is_none() {
            errors.push(SemanticError::MissingProperty { property: PropertyKind::Version, span });
        }
        let ghost pre = errors@;
        assert(pre =~= icalendar_errors_before(c0));
        let (x_properties, retained_properties) = split_tag(collected.others, TAG_X_NAME);
        let parsed = parse_component_children(children);
        let ghost rs = choose|rs: Seq<Result<CalendarComponent<'src>, Vec<SemanticError<'src>>>>|
            #[trigger] component_results(c0.children@, rs) && children_result(rs, parsed);
        let components = match parsed {
            Ok(v) => v,
            Err(mut e) => {
                errors.append(&mut e);
                Vec::new()
            },
        };
        assert(errors@ =~= pre + children_errors(rs));
        let result = if errors.len() == 0 {
            match (prod_id, version) {
                (Some(prod_id), Some(version)) => Ok(ICalendar {
                    prod_id,
                    version,
                    calscale,
                    method,
                    components,
                    x_properties,
                    retained_properties,
                }),
                _ => Err(errors),
            }
        } else {
            Err(errors)
        };
        assert(icalendar_result_with(c0, rs, result));
        result
    }
}

/// What semantic analysis gives for given results of the calendars.
pub open spec fn semantic_result_with<'src>(
    cs: Seq<TypedComponent<'src>>,
    rs: Seq<Result<ICalendar<'src>, Vec<SemanticError<'src>>>>,
    r: Result<Vec<ICalendar<'src>>, Vec<SemanticError<'src>>>,
) -> bool {
    if calendar_errors(rs).len() == 0 {
        r matches Ok(v) && v@ == ok_calendars(rs)
    } else {
        r matches Err(es) && es@ == calendar_errors(rs)
    }
}

/// A calendar that fails to convert reports at least one error.
pub proof fn lemma_failed_calendar_reports<'src>(c: TypedComponent<'src>, r: Result<ICalendar<'src>, Vec<SemanticError<'src>>>)
    requires
        icalendar_result(c, r),
        r is Err,
    ensures
        r->Err_0@.len() > 0,
{
}

/// Semantic analysis of several components fails exactly when some of them
/// fails to convert to a calendar; the errors are then those of all that
/// fail, in order. Otherwise it gives all the calendars, in order.
pub proof fn lemma_semantic_law<'src>(
    cs: Seq<TypedComponent<'src>>,
    rs: Seq<Result<ICalendar<'src>, Vec<SemanticError<'src>>>>,
    r: Result<Vec<ICalendar<'src>>, Vec<SemanticError<'src>>>,
)
    requires
        rs.len() == cs.len(),
        forall|i: int| 0 <= i < rs.len() ==> icalendar_result(cs[i], #[trigger] rs[i]),
        semantic_result_with(cs, rs, r),
    ensures
        (r is Err) <==> (exists|i: int| 0 <= i < rs.len() && #[trigger] rs[i] is Err),
        r matches Err(es) ==> es@ == calendar_errors(rs),
        r matches Ok(v) ==> v@ == ok_calendars(rs),
{
    lemma_calendar_errors_iff(cs, rs);
}

/// Calendars give errors exactly when some fails.
proof fn lemma_calendar_errors_iff<'src>(cs: Seq<TypedComponent<'src>>, rs: Seq<Result<ICalendar<'src>, Vec<SemanticError<'src>>>>)
    requires
        rs.len() == cs.len(),
        forall|i: int| 0 <= i < rs.len() ==> icalendar_result(cs[i], #[trigger] rs[i]),
    ensures
        (calendar_errors(rs).len() > 0) <==> (exists|i: int| 0 <= i < rs.len() && #[trigger] rs[i] is Err),
    decreases rs.len(),
{
    if rs.len() > 0 {
        let n = rs.len() - 1;
        assert forall|i: int| 0 <= i < rs.drop_last().len() implies icalendar_result(
            cs.drop_last()[i],
            #[trigger] rs.drop_last()[i],
        ) by {
            assert(icalendar_result(cs[i], rs[i]));
        }
        lemma_calendar_errors_iff(cs.drop_last(), rs.drop_last());
        assert(icalendar_result(cs[n], rs[n]));
        if rs[n] is Err {
            lemma_failed_calendar_reports(cs[n], rs[n]);
        }
        if exists|i: int| 0 <= i < rs.len() && #[trigger] rs[i] is Err {
            let i = choose|i: int| 0 <= i < rs.len() && #[trigger] rs[i] is Err;
            if i < n {
                assert(rs.drop_last()[i] is Err);
            }
        }
        if exists|i: int| 0 <= i < rs.drop_last().len() && #[trigger] rs.drop_last()[i] is Err {
            let i = choose|i: int| 0 <= i < rs.drop_last().len() && #[trigger] rs.drop_last()[i] is Err;
            assert(rs[i] is Err);
        }
    }
}

/// The calendars that converted, in order.
pub open spec fn ok_calendars<'src>(rs: Seq<Result<ICalendar<'src>, Vec<SemanticError<'src>>>>) -> Seq<ICalendar<'src>>
    decreases rs.len(),
{
    if rs.len() == 0 {
        Seq::empty()
    } else {
        match rs.last() {
            Ok(c) => ok_calendars(rs.drop_last()).push(c),
            Err(_) => ok_calendars(rs.drop_last()),
        }
    }
}

/// The errors of the calendars that did not convert, in order.
pub open spec fn calendar_errors<'src>(rs: Seq<Result<ICalendar<'src>, Vec<SemanticError<'src>>>>) -> Seq<
    SemanticError<'src>,
>
    decreases rs.len(),
{
    if rs.len() == 0 {
        Seq::empty()
    } else {
        match rs.last() {
            Ok(_) => calendar_errors(rs.drop_last()),
            Err(es) => calendar_errors(rs.drop_last()) + es@,
        }
    }
}

/// The error for analysis without any calendar.
pub open spec fn no_calendar_error<'src>(e: SemanticError<'src>) -> bool {
    e matches SemanticError::ConstraintViolation { message, span } && message@ == "No VCALENDAR components found"@
        && span == (Span { start: 0, end: 0 })
}

/// Perform semantic analysis on typed components: each is converted to a
/// calendar; the errors of all that fail are reported. Without any
/// component, the error is that there is no calendar.
pub fn semantic_analysis<'src>(typed_components: Vec<TypedComponent<'src>>) -> (r: Result<
    Vec<ICalendar<'src>>,
    Vec<SemanticError<'src>>,
>)
    ensures
        typed_components@.len() == 0 ==> (r matches Err(es) && es@.len() == 1 && no_calendar_error(es@[0])),
        typed_components@.len() > 0 ==> exists|rs: Seq<Result<ICalendar<'src>, Vec<SemanticError<'src>>>>|
            rs.len() == typed_components@.len() && (forall|i: int|
                0 <= i < rs.len() ==> icalendar_result(typed_components@[i], #[trigger] rs[i]))
                && #[trigger] semantic_result_with(typed_components@, rs, r),
{
    if typed_components.len() == 0 {
        let mut message = "No ".to_owned();
        message.append(KW_VCALENDAR);
        message.append(" components found");
        proof {
            reveal_strlit("No ");
            reveal_strlit(" components found");
            reveal_strlit("No VCALENDAR components found");
            reveal_strlit("VCALENDAR");
        }
        assert(message@ =~= "No VCALENDAR components found"@);
        return Err(vec![SemanticError::ConstraintViolation { message, span: Span { start: 0, end: 0 } }]);
    }
    let ghost cs = typed_components@;
    let total = typed_components.len();
    let mut rest = typed_components;
    let mut calendars: Vec<ICalendar<'src>> = Vec::new();
    let mut errors: Vec<SemanticError<'src>> = Vec::new();
    let ghost mut rs: Seq<Result<ICalendar<'src>, Vec<SemanticError<'src>>>> = Seq::empty();
    let mut i: usize = 0;
    while rest.len() > 0
        invariant
            0 <= i <= cs.len(),
            cs.len() == total,
            rest@ == cs.skip(i as int),
            rs.len() == i,
            forall|j: int| 0 <= j < i ==> icalendar_result(cs[j], #[trigger] rs[j]),
            calendars@ == ok_calendars(rs),
            errors@ == calendar_errors(rs),
        decreases rest@.len(),
    {
        let comp = rest.remove(0);
        assert(comp == cs[i as int]);
        let ghost old_rs = rs;
        let res = ICalendar::try_from(comp);
        proof {
            rs = rs.push(res);
        }
        match res {
            Ok(c) => calendars.push(c),
            Err(mut es) => errors.append(&mut es),
        }
        assert(rs.drop_last() =~= old_rs);
        assert forall|j: int| 0 <= j < i + 1 implies icalendar_result(cs[j], #[trigger] rs[j]) by {
            if j < i {
                assert(rs[j] == old_rs[j]);
            }
        }
        assert(rest@ =~= cs.skip(i as int + 1));
        i = i + 1;
    }
    let result = if errors.len() == 0 {
        Ok(calendars)
    } else {
        Err(errors)
    };
    assert(semantic_result_with(cs, rs, result));
    result
}

} // verus!
