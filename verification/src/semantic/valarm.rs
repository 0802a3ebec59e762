//! Alarm component (VALARM) for iCalendar semantic components.

use vstd::prelude::*;
use vstd::string::StringSliceAdditionalSpecFns;
use vstd::string::StringExecFns;

use crate::keyword::KW_VALARM;
use crate::property::alarm::{Action, ActionValue, Repeat, Trigger};
use crate::property::ast::{
    TAG_ACTION, TAG_ATTACH, TAG_ATTENDEE, TAG_DESCRIPTION, TAG_DURATION, TAG_REPEAT, TAG_SUMMARY,
    TAG_TRIGGER, TAG_X_NAME,
};
use crate::property::common::Text;
use crate::property::descriptive::Attachment;
use crate::property::relationship::Attendee;
use crate::property::{Property, PropertyKind};
use crate::semantic::SemanticError;
use crate::semantic::collect::{
    attendees_of, collect_properties, is_listed, lemma_attendees_unlisted, lemma_first_with_tag, duplicate_errors, first_with_tag, singles_wf, split_tag, take_attendees,
    unlisted, with_tag, without_tag,
};
use crate::string_storage::{Span, SpannedSegments, eq_ignore_ascii_case};
use crate::typed::TypedComponent;
use crate::value::ValueDuration;

verus! {

/// The action of a collected property.
pub open spec fn as_action<'src>(o: Option<Property<'src>>) -> Option<Action<SpannedSegments<'src>>> {
    match o {
        Some(Property::Action(a)) => Some(a),
        _ => None,
    }
}

/// The trigger of a collected property.
pub open spec fn as_trigger<'src>(o: Option<Property<'src>>) -> Option<Trigger<SpannedSegments<'src>>> {
    match o {
        Some(Property::Trigger(a)) => Some(a),
        _ => None,
    }
}

/// The duration value of a collected `DURATION` property.
pub open spec fn as_duration_value<'src>(o: Option<Property<'src>>) -> Option<ValueDuration> {
    match o {
        Some(Property::Duration(d)) => Some(d.value),
        _ => None,
    }
}

/// The repeat count of a collected property.
pub open spec fn as_repeat<'src>(o: Option<Property<'src>>) -> Option<Repeat<SpannedSegments<'src>>> {
    match o {
        Some(Property::Repeat(a)) => Some(a),
        _ => None,
    }
}

/// The text of a collected text property.
pub open spec fn as_text<'src>(o: Option<Property<'src>>) -> Option<Text<SpannedSegments<'src>>> {
    match o {
        Some(Property::Comment(t)) => Some(t),
        Some(Property::Description(t)) => Some(t),
        Some(Property::Location(t)) => Some(t),
        Some(Property::Summary(t)) => Some(t),
        Some(Property::Contact(t)) => Some(t),
        _ => None,
    }
}

/// The attachment of a collected property.
pub open spec fn as_attachment<'src>(o: Option<Property<'src>>) -> Option<Attachment<SpannedSegments<'src>>> {
    match o {
        Some(Property::Attach(a)) => Some(a),
        _ => None,
    }
}

pub(crate) fn next_prop_slot<'src>(slots: &mut Vec<Option<Property<'src>>>) -> (r: Option<Property<'src>>)
    requires
        old(slots)@.len() > 0,
    ensures
        r == old(slots)@[0],
        final(slots)@ == old(slots)@.drop_first(),
{
    let r = slots.remove(0);
    assert(slots@ =~= old(slots)@.drop_first());
    r
}

fn into_action<'src>(o: Option<Property<'src>>) -> (r: Option<Action<SpannedSegments<'src>>>)
    ensures
        r == as_action(o),
{
    match o {
        Some(Property::Action(a)) => Some(a),
        _ => None,
    }
}

fn into_trigger<'src>(o: Option<Property<'src>>) -> (r: Option<Trigger<SpannedSegments<'src>>>)
    ensures
        r == as_trigger(o),
{
    match o {
        Some(Property::Trigger(a)) => Some(a),
        _ => None,
    }
}

fn into_duration_value<'src>(o: Option<Property<'src>>) -> (r: Option<ValueDuration>)
    ensures
        r == as_duration_value(o),
{
    match o {
        Some(Property::Duration(d)) => Some(d.value),
        _ => None,
    }
}

fn into_repeat<'src>(o: Option<Property<'src>>) -> (r: Option<Repeat<SpannedSegments<'src>>>)
    ensures
        r == as_repeat(o),
{
    match o {
        Some(Property::Repeat(a)) => Some(a),
        _ => None,
    }
}

pub(crate) fn into_text<'src>(o: Option<Property<'src>>) -> (r: Option<Text<SpannedSegments<'src>>>)
    ensures
        r == as_text(o),
{
    match o {
        Some(Property::Comment(t)) => Some(t),
        Some(Property::Description(t)) => Some(t),
        Some(Property::Location(t)) => Some(t),
        Some(Property::Summary(t)) => Some(t),
        Some(Property::Contact(t)) => Some(t),
        _ => None,
    }
}

pub(crate) fn into_attachment<'src>(o: Option<Property<'src>>) -> (r: Option<Attachment<SpannedSegments<'src>>>)
    ensures
        r == as_attachment(o),
{
    match o {
        Some(Property::Attach(a)) => Some(a),
        _ => None,
    }
}

/// The kinds that `VALARM` takes at most once, in the order of its fields.
pub open spec fn valarm_singles() -> Seq<usize> {
    seq![TAG_ACTION, TAG_TRIGGER, TAG_DURATION, TAG_REPEAT, TAG_DESCRIPTION, TAG_SUMMARY, TAG_ATTACH]
}

/// The kinds that an alarm takes at most once: `ACTION`, `TRIGGER`, `DURATION`, `REPEAT`,
/// `DESCRIPTION`, `SUMMARY` and `ATTACH`.
pub open spec fn valarm_once_tag(t: nat) -> bool {
    ||| t == TAG_ACTION as nat
    ||| t == TAG_TRIGGER as nat
    ||| t == TAG_DURATION as nat
    ||| t == TAG_REPEAT as nat
    ||| t == TAG_DESCRIPTION as nat
    ||| t == TAG_SUMMARY as nat
    ||| t == TAG_ATTACH as nat
}

/// The duplicates an alarm reports are exactly those of the kinds it takes
/// at most once: a kind is checked for repeats if and only if it is one of them.
pub proof fn lemma_valarm_singles_are(t: nat)
    ensures
        is_listed(valarm_singles(), t) <==> valarm_once_tag(t),
{
    let s = valarm_singles();
    if valarm_once_tag(t) {
        if t == TAG_ACTION as nat {
            assert(s[0] == t);
        }
        if t == TAG_TRIGGER as nat {
            assert(s[1] == t);
        }
        if t == TAG_DURATION as nat {
            assert(s[2] == t);
        }
        if t == TAG_REPEAT as nat {
            assert(s[3] == t);
        }
        if t == TAG_DESCRIPTION as nat {
            assert(s[4] == t);
        }
        if t == TAG_SUMMARY as nat {
            assert(s[5] == t);
        }
        if t == TAG_ATTACH as nat {
            assert(s[6] == t);
        }
    }
}

proof fn lemma_valarm_singles()
    ensures
        singles_wf(valarm_singles()),
        !is_listed(valarm_singles(), TAG_ATTENDEE as nat),
{
}

/// The error for a component whose name is not the expected one.
pub open spec fn name_errors<'src>(name: SpannedSegments<'src>, expected: &'static str, span: Span) -> Seq<
    SemanticError<'src>,
> {
    if eq_ignore_ascii_case(name.bytes(), expected.spec_bytes()) {
        Seq::empty()
    } else {
        seq![SemanticError::ExpectedComponent { expected, got: name, span }]
    }
}

/// The error for a required property that is absent.
pub open spec fn missing_error<'src>(absent: bool, kind: PropertyKind<SpannedSegments<'src>>, span: Span) -> Seq<
    SemanticError<'src>,
> {
    if absent {
        seq![SemanticError::MissingProperty { property: kind, span }]
    } else {
        Seq::empty()
    }
}

/// The action that the alarm checks go by: its own, or `AUDIO` without one.
pub open spec fn valarm_action<'src>(ps: Seq<Property<'src>>) -> ActionValue {
    match as_action(first_with_tag(ps, TAG_ACTION as nat)) {
        Some(a) => a.value,
        None => ActionValue::Audio,
    }
}

/// The errors of the checks that come before the `DURATION` and `REPEAT`
/// check: the name, the duplicates, and the required `ACTION` and `TRIGGER`.
pub open spec fn valarm_errors_before<'src>(comp: TypedComponent<'src>) -> Seq<SemanticError<'src>> {
    let ps = comp.properties@;
    name_errors(comp.name, KW_VALARM, comp.span) + duplicate_errors(ps, valarm_singles(), Some(comp.span))
        + missing_error(first_with_tag(ps, TAG_ACTION as nat) is None, PropertyKind::Action, comp.span)
        + missing_error(first_with_tag(ps, TAG_TRIGGER as nat) is None, PropertyKind::Trigger, comp.span)
}

/// The errors of the checks that the action asks for: `DESCRIPTION` for a
/// display or email alarm, `SUMMARY` and at least one `ATTENDEE` for an email
/// alarm.
pub open spec fn valarm_errors_after<'src>(comp: TypedComponent<'src>) -> Seq<SemanticError<'src>> {
    let ps = comp.properties@;
    let action = valarm_action(ps);
    missing_error(
        first_with_tag(ps, TAG_DESCRIPTION as nat) is None && (action == ActionValue::Display || action
            == ActionValue::Email),
        PropertyKind::Description,
        comp.span,
    ) + missing_error(first_with_tag(ps, TAG_SUMMARY as nat) is None && action == ActionValue::Email, PropertyKind::Summary, comp.span)
        + missing_error(action == ActionValue::Email && attendees_of(ps).len() == 0, PropertyKind::Attendee, comp.span)
}

/// Whether `DURATION` and `REPEAT` do not appear together.
pub open spec fn valarm_unpaired<'src>(ps: Seq<Property<'src>>) -> bool {
    (first_with_tag(ps, TAG_DURATION as nat) is Some) != (first_with_tag(ps, TAG_REPEAT as nat) is Some)
}

/// The error for `DURATION` without `REPEAT` or `REPEAT` without `DURATION`.
pub open spec fn unpaired_error<'src>(e: SemanticError<'src>, span: Span) -> bool {
    e matches SemanticError::ConstraintViolation { message, span: s } && message@
        == "DURATION and REPEAT must appear together or not at all"@ && s == span
}

/// What converting a typed component to a `VALARM` gives: all errors of the
/// checks in order, or the alarm when there are none.
pub open spec fn valarm_result<'src>(comp: TypedComponent<'src>, r: Result<VAlarm<'src>, Vec<SemanticError<'src>>>) -> bool {
    let ps = comp.properties@;
    let before = valarm_errors_before(comp);
    let after = valarm_errors_after(comp);
    let rest = without_tag(unlisted(ps, valarm_singles()), TAG_ATTENDEE as nat);
    if before.len() == 0 && !valarm_unpaired(ps) && after.len() == 0 {
        r matches Ok(a) && Some(a.action) == as_action(first_with_tag(ps, TAG_ACTION as nat)) && Some(a.trigger)
            == as_trigger(first_with_tag(ps, TAG_TRIGGER as nat)) && a.repeat == as_repeat(
            first_with_tag(ps, TAG_REPEAT as nat),
        ) && a.duration == as_duration_value(first_with_tag(ps, TAG_DURATION as nat)) && a.description
            == as_text(first_with_tag(ps, TAG_DESCRIPTION as nat)) && a.summary == as_text(
            first_with_tag(ps, TAG_SUMMARY as nat),
        ) && a.attendees@ == attendees_of(ps) && a.attach == as_attachment(first_with_tag(ps, TAG_ATTACH as nat))
            && a.x_properties@ == with_tag(rest, TAG_X_NAME as nat) && a.unrecognized_properties@ == without_tag(
            rest,
            TAG_X_NAME as nat,
        )
    } else if valarm_unpaired(ps) {
        r matches Err(es) && es@.len() == before.len() + 1 + after.len() && es@.take(before.len() as int)
            == before && unpaired_error(es@[before.len() as int], comp.span) && es@.skip(before.len() as int + 1) == after
    } else {
        r matches Err(es) && es@ == before + after
    }
}

/// Alarm component (VALARM)
#[derive(Debug)]
pub struct VAlarm<'src> {
    /// Action to perform when alarm triggers
    pub action: Action<SpannedSegments<'src>>,
    /// When to trigger the alarm
    pub trigger: Trigger<SpannedSegments<'src>>,
    /// Repeat count for the alarm
    pub repeat: Option<Repeat<SpannedSegments<'src>>>,
    /// Duration between repeats
    pub duration: Option<ValueDuration>,
    /// Description for display alarm
    pub description: Option<Text<SpannedSegments<'src>>>,
    /// Summary for email alarm
    pub summary: Option<Text<SpannedSegments<'src>>>,
    /// Attendees for email alarm
    pub attendees: Vec<Attendee<SpannedSegments<'src>>>,
    /// Attachment for audio/procedure alarm
    pub attach: Option<Attachment<SpannedSegments<'src>>>,
    /// Custom X- properties (preserved for round-trip)
    pub x_properties: Vec<Property<'src>>,
    /// Unknown IANA properties (preserved for round-trip)
    pub unrecognized_properties: Vec<Property<'src>>,
}

impl<'src> VAlarm<'src> {
    /// Parse a `TypedComponent` into a `VAlarm`: the first `ACTION`,
    /// `TRIGGER`, `DURATION`, `REPEAT`, `DESCRIPTION`, `SUMMARY` and `ATTACH`,
    /// all `ATTENDEE`s, and the other properties kept. Every error is
    /// reported: a wrong name, each duplicate, each missing required
    /// property, and `DURATION` and `REPEAT` apart.
    #[verifier::rlimit(60)]
    pub fn try_from(comp: TypedComponent<'src>) -> (r: Result<Self, Vec<SemanticError<'src>>>)
        ensures
            valarm_result(comp, r),
    {
        let ghost c0 = comp;
        let ghost ps = comp.properties@;
        let TypedComponent { name, properties, children: _, span } = comp;
        let mut errors: Vec<SemanticError<'src>> = Vec::new();
        if !name.eq_str_ignore_ascii_case(KW_VALARM) {
            errors.push(SemanticError::ExpectedComponent { expected: KW_VALARM, got: name, span });
        }
        assert(errors@ =~= name_errors(c0.name, KW_VALARM, span));
        proof {
            lemma_valarm_singles();
        }
        let singles = vec![TAG_ACTION, TAG_TRIGGER, TAG_DURATION, TAG_REPEAT, TAG_DESCRIPTION, TAG_SUMMARY, TAG_ATTACH];
        assert(singles@ =~= valarm_singles());
        let mut collected = collect_properties(properties, &singles, Some(span));
        let ghost e0 = errors@;
        errors.append(&mut collected.errors);
        assert(errors@ == e0 + duplicate_errors(ps, valarm_singles(), Some(span)));
        proof {
            lemma_first_with_tag(ps, TAG_ACTION as nat);
            lemma_first_with_tag(ps, TAG_TRIGGER as nat);
            lemma_first_with_tag(ps, TAG_DURATION as nat);
            lemma_first_with_tag(ps, TAG_REPEAT as nat);
            lemma_first_with_tag(ps, TAG_DESCRIPTION as nat);
            lemma_first_with_tag(ps, TAG_SUMMARY as nat);
            lemma_first_with_tag(ps, TAG_ATTACH as nat);
        }
        let ghost slots = collected.slots@;
        assert(slots[0] == first_with_tag(ps, TAG_ACTION as nat));
        assert(slots[1] == first_with_tag(ps, TAG_TRIGGER as nat));
        assert(slots[2] == first_with_tag(ps, TAG_DURATION as nat));
        assert(slots[3] == first_with_tag(ps, TAG_REPEAT as nat));
        assert(slots[4] == first_with_tag(ps, TAG_DESCRIPTION as nat));
        assert(slots[5] == first_with_tag(ps, TAG_SUMMARY as nat));
        assert(slots[6] == first_with_tag(ps, TAG_ATTACH as nat));
        let action = into_action(next_prop_slot(&mut collected.slots));
        let trigger = into_trigger(next_prop_slot(&mut collected.slots));
        let duration = into_duration_value(next_prop_slot(&mut collected.slots));
        let repeat = into_repeat(next_prop_slot(&mut collected.slots));
        let description = into_text(next_prop_slot(&mut collected.slots));
        let summary = into_text(next_prop_slot(&mut collected.slots));
        let attach = into_attachment(next_prop_slot(&mut collected.slots));
        proof {
            lemma_valarm_singles();
            lemma_attendees_unlisted(ps, valarm_singles());
        }
        let (attendees, rest) = take_attendees(collected.others);
        let (x_properties, unrecognized_properties) = split_tag(rest, TAG_X_NAME);
        let ghost e1 = errors@;
        if action.is_none() {
            errors.push(SemanticError::MissingProperty { property: PropertyKind::Action, span });
        }
        if trigger.is_none() {
            errors.push(SemanticError::MissingProperty { property: PropertyKind::Trigger, span });
        }
        let ghost before = errors@;
        assert(before =~= valarm_errors_before(c0));
        if duration.is_some() != repeat.is_some() {
            errors.push(
                SemanticError::ConstraintViolation {
                    message: "DURATION and REPEAT must appear together or not at all".to_owned(),
                    span,
                },
            );
        }
        let ghost mid = errors@;
        let action_value = match &action {
            Some(a) => a.value,
            None => ActionValue::Audio,
        };
        let is_email = matches!(action_value, ActionValue::Email);
        let is_display = matches!(action_value, ActionValue::Display);
        if description.is_none() && (is_display || is_email) {
            errors.push(SemanticError::MissingProperty { property: PropertyKind::Description, span });
        }
        if summary.is_none() && is_email {
            errors.push(SemanticError::MissingProperty { property: PropertyKind::Summary, span });
        }
        if is_email && attendees.len() == 0 {
            errors.push(SemanticError::MissingProperty { property: PropertyKind::Attendee, span });
        }
        assert(errors@ =~= mid + valarm_errors_after(c0));
        if errors.len() == 0 {
            match (action, trigger) {
                (Some(action), Some(trigger)) => Ok(VAlarm {
                    action,
                    trigger,
                    repeat,
                    duration,
                    description,
                    summary,
                    attendees,
                    attach,
                    x_properties,
                    unrecognized_properties,
                }),
                _ => Err(errors),
            }
        } else {
            proof {
                if valarm_unpaired(ps) {
                    assert(errors@.take(before.len() as int) =~= before);
                    assert(errors@.skip(before.len() as int + 1) =~= valarm_errors_after(c0));
                } else {
                    assert(mid == before);
                }
            }
            Err(errors)
        }
    }
}


/// Whether a child component is an alarm, by its name (ASCII case ignored).
pub open spec fn is_alarm<'src>(c: TypedComponent<'src>) -> bool {
    eq_ignore_ascii_case(c.name.bytes(), KW_VALARM.spec_bytes())
}

/// Whether `rs` hold, for each child that is an alarm, what converting it
/// gives.
pub open spec fn alarm_results<'src>(
    cs: Seq<TypedComponent<'src>>,
    rs: Seq<Result<VAlarm<'src>, Vec<SemanticError<'src>>>>,
) -> bool {
    rs.len() == cs.len() && forall|i: int| 0 <= i < cs.len() && is_alarm(cs[i]) ==> valarm_result(cs[i], #[trigger] rs[i])
}

/// The alarms that converted, in order.
pub open spec fn alarm_oks<'src>(
    cs: Seq<TypedComponent<'src>>,
    rs: Seq<Result<VAlarm<'src>, Vec<SemanticError<'src>>>>,
) -> Seq<VAlarm<'src>>
    decreases cs.len(),
{
    if cs.len() == 0 || rs.len() != cs.len() {
        Seq::empty()
    } else {
        let prev = alarm_oks(cs.drop_last(), rs.drop_last());
        match rs.last() {
            Ok(a) => if is_alarm(cs.last()) {
                prev.push(a)
            } else {
                prev
            },
            Err(_) => prev,
        }
    }
}

/// The errors of the alarms that did not convert, in order.
pub open spec fn alarm_errors<'src>(
    cs: Seq<TypedComponent<'src>>,
    rs: Seq<Result<VAlarm<'src>, Vec<SemanticError<'src>>>>,
) -> Seq<SemanticError<'src>>
    decreases cs.len(),
{
    if cs.len() == 0 || rs.len() != cs.len() {
        Seq::empty()
    } else {
        let prev = alarm_errors(cs.drop_last(), rs.drop_last());
        match rs.last() {
            Err(es) => if is_alarm(cs.last()) {
                prev + es@
            } else {
                prev
            },
            Ok(_) => prev,
        }
    }
}

/// Whether an alarm converts: no error before or after its checks, and its
/// `DURATION` and `REPEAT` come together or not at all.
pub open spec fn valarm_converts<'src>(comp: TypedComponent<'src>) -> bool {
    valarm_errors_before(comp).len() == 0 && !valarm_unpaired(comp.properties@) && valarm_errors_after(comp).len() == 0
}

/// The alarms of a component report no error exactly when every alarm child
/// converts.
pub proof fn lemma_alarm_errors_empty<'src>(
    cs: Seq<TypedComponent<'src>>,
    rs: Seq<Result<VAlarm<'src>, Vec<SemanticError<'src>>>>,
)
    requires
        alarm_results(cs, rs),
    ensures
        (alarm_errors(cs, rs).len() == 0) <==> (forall|i: int|
            0 <= i < cs.len() && is_alarm(#[trigger] cs[i]) ==> valarm_converts(cs[i])),
    decreases cs.len(),
{
    if cs.len() > 0 {
        let n = cs.len() - 1;
        assert(alarm_results(cs.drop_last(), rs.drop_last())) by {
            assert forall|i: int| 0 <= i < cs.drop_last().len() && is_alarm(cs.drop_last()[i]) implies valarm_result(
                cs.drop_last()[i],
                #[trigger] rs.drop_last()[i],
            ) by {
                assert(cs.drop_last()[i] == cs[i] && rs.drop_last()[i] == rs[i]);
            }
        }
        lemma_alarm_errors_empty(cs.drop_last(), rs.drop_last());
        if is_alarm(cs[n]) {
            assert(valarm_result(cs[n], rs[n]));
        }
        assert(cs.last() == cs[n] && rs.last() == rs[n]);
        if forall|i: int| 0 <= i < cs.drop_last().len() && is_alarm(#[trigger] cs.drop_last()[i]) ==> valarm_converts(
            cs.drop_last()[i],
        ) {
            if is_alarm(cs[n]) ==> valarm_converts(cs[n]) {
                assert forall|i: int| 0 <= i < cs.len() && is_alarm(#[trigger] cs[i]) implies valarm_converts(cs[i]) by {
                    if i < n {
                        assert(cs.drop_last()[i] == cs[i]);
                    }
                }
            }
        } else {
            let i = choose|i: int|
                !(0 <= i < cs.drop_last().len() && is_alarm(#[trigger] cs.drop_last()[i]) ==> valarm_converts(
                    cs.drop_last()[i],
                ));
            assert(cs.drop_last()[i] == cs[i]);
        }
    }
}

/// Convert the alarm children of a component, in order: the alarms that
/// convert, and the errors of those that do not. Other children are left
/// out.
pub fn alarms_of<'src>(children: Vec<TypedComponent<'src>>) -> (r: (Vec<VAlarm<'src>>, Vec<SemanticError<'src>>))
    ensures
        exists|rs: Seq<Result<VAlarm<'src>, Vec<SemanticError<'src>>>>|
            #[trigger] alarm_results(children@, rs) && r.0@ == alarm_oks(children@, rs) && r.1@ == alarm_errors(
                children@,
                rs,
            ),
{
    let ghost cs = children@;
    let total = children.len();
    let mut rest = children;
    let mut alarms: Vec<VAlarm<'src>> = Vec::new();
    let mut errors: Vec<SemanticError<'src>> = Vec::new();
    let ghost mut rs: Seq<Result<VAlarm<'src>, Vec<SemanticError<'src>>>> = Seq::empty();
    let mut i: usize = 0;
    assert(cs.take(0) =~= Seq::<TypedComponent<'src>>::empty());
    while rest.len() > 0
        invariant
            0 <= i <= cs.len(),
            cs.len() == total,
            rest@ == cs.skip(i as int),
            alarm_results(cs.take(i as int), rs),
            alarms@ == alarm_oks(cs.take(i as int), rs),
            errors@ == alarm_errors(cs.take(i as int), rs),
        decreases rest@.len(),
    {
        let child = rest.remove(0);
        assert(child == cs[i as int]);
        let ghost pre = cs.take(i as int);
        let ghost old_rs = rs;
        assert(cs.take(i + 1).drop_last() =~= pre);
        if child.name.eq_str_ignore_ascii_case(KW_VALARM) {
            let res = VAlarm::try_from(child);
            proof {
                rs = rs.push(res);
            }
            match res {
                Ok(a) => alarms.push(a),
                Err(mut es) => {
                    errors.append(&mut es);
                },
            }
        } else {
            proof {
                let d: Result<VAlarm<'src>, Vec<SemanticError<'src>>> = arbitrary();
                rs = rs.push(d);
            }
        }
        assert(rs.drop_last() =~= old_rs);
        assert forall|j: int| 0 <= j < i + 1 && is_alarm(cs.take(i + 1)[j]) implies valarm_result(
            cs.take(i + 1)[j],
            #[trigger] rs[j],
        ) by {
            if j < i {
                assert(cs.take(i + 1)[j] == pre[j]);
                assert(rs[j] == old_rs[j]);
            }
        }
        assert(rest@ =~= cs.skip(i as int + 1));
        i = i + 1;
    }
    assert(cs.take(i as int) =~= cs);
    (alarms, errors)
}

} // verus!
