//! Alarm Component Properties (RFC 5545 Section 3.8.6)
//!
//! - 3.8.6.1: `Action` - Alarm action type (AUDIO, DISPLAY, EMAIL)
//! - 3.8.6.2: `Repeat` - Alarm repeat count
//! - 3.8.6.3: `Trigger` - When an alarm triggers

use vstd::prelude::*;
use vstd::string::StringSliceAdditionalSpecFns;
use vstd::string::StringExecFns;

use crate::keyword::{KW_ACTION_AUDIO, KW_ACTION_DISPLAY, KW_ACTION_EMAIL, KW_ACTION_PROCEDURE};
use crate::parameter::{Parameter, ParameterKind};
use crate::property::common::expect_one;
use crate::property::common::{
    no_claims, params_agree, params_to_owned, raw_params_agree, raw_params_to_owned,
    retained_params, single_text, single_value_errors, sort_parameters, take_single_text, x_params,
};
use crate::property::relationship::unexpected_kind;
use crate::property::{PropertyKind, PropertyKindRef, PropertyValueKind};
use crate::string_storage::{Span, SpannedSegments, StringStorage, ascii_lower, eq_ignore_ascii_case, lemma_ascii_str_bytes};
use crate::syntax::RawParameter;
use crate::typed::{ParsedProperty, TypedError, append_i32, int_decimal};
use crate::value::{Value, ValueDuration, value_kind, value_len, value_span};
use crate::parameter::AlarmTriggerRelationship;
use crate::property::common::{dup_errors, first_param, invalid_count_error, next_slot, take_single_value};
use crate::property::datetime::{DateTime, Time, time_of};

verus! {

/// Alarm action value (RFC 5545 Section 3.8.6.1)
#[derive(Debug, Clone, Copy, PartialEq, Eq)]
pub enum ActionValue {
    /// Audio alarm
    Audio,
    /// Display alarm
    Display,
    /// Email alarm
    Email,
}

/// The keyword of an action value.
pub open spec fn action_keyword(v: ActionValue) -> &'static str {
    match v {
        ActionValue::Audio => KW_ACTION_AUDIO,
        ActionValue::Display => KW_ACTION_DISPLAY,
        ActionValue::Email => KW_ACTION_EMAIL,
    }
}

/// The action value that the text spells, ASCII case ignored.
pub open spec fn action_value_of(b: Seq<u8>) -> Option<ActionValue> {
    if eq_ignore_ascii_case(b, KW_ACTION_AUDIO.spec_bytes()) {
        Some(ActionValue::Audio)
    } else if eq_ignore_ascii_case(b, KW_ACTION_DISPLAY.spec_bytes()) {
        Some(ActionValue::Display)
    } else if eq_ignore_ascii_case(b, KW_ACTION_EMAIL.spec_bytes()) {
        Some(ActionValue::Email)
    } else {
        None
    }
}

/// Reading the keyword of a action gives it back: `from_text` undoes
/// `as_str` on every `ActionValue`.
pub proof fn lemma_action_value_round_trip(v: ActionValue)
    ensures
        action_value_of(action_keyword(v).spec_bytes()) == Some(v),
{
    reveal(eq_ignore_ascii_case);
    let b = action_keyword(v).spec_bytes();
    assert(eq_ignore_ascii_case(b, b));
    match v {
        ActionValue::Audio => {
            reveal_strlit("AUDIO");
            lemma_ascii_str_bytes(KW_ACTION_AUDIO);
            assert(action_value_of(b) == Some(ActionValue::Audio));
        }
        ActionValue::Display => {
            reveal_strlit("AUDIO");
            reveal_strlit("DISPLAY");
            lemma_ascii_str_bytes(KW_ACTION_DISPLAY);
            lemma_ascii_str_bytes(KW_ACTION_AUDIO);
            assert(b.len() != KW_ACTION_AUDIO.spec_bytes().len());
            assert(action_value_of(b) == Some(ActionValue::Display));
        }
        ActionValue::Email => {
            reveal_strlit("AUDIO");
            reveal_strlit("DISPLAY");
            reveal_strlit("EMAIL");
            lemma_ascii_str_bytes(KW_ACTION_EMAIL);
            lemma_ascii_str_bytes(KW_ACTION_AUDIO);
            assert(ascii_lower(b[0]) != ascii_lower(KW_ACTION_AUDIO.spec_bytes()[0]));
            lemma_ascii_str_bytes(KW_ACTION_DISPLAY);
            assert(b.len() != KW_ACTION_DISPLAY.spec_bytes().len());
            assert(action_value_of(b) == Some(ActionValue::Email));
        }
    }
}



impl ActionValue {
    /// Get the keyword string for this action value
    pub fn as_str(&self) -> (r: &'static str)
        ensures
            r == action_keyword(*self),
    {
        match self {
            ActionValue::Audio => KW_ACTION_AUDIO,
            ActionValue::Display => KW_ACTION_DISPLAY,
            ActionValue::Email => KW_ACTION_EMAIL,
        }
    }

    /// The action value that a text spells, ASCII case ignored.
    pub fn from_text(text: &SpannedSegments<'_>) -> (r: Option<ActionValue>)
        ensures
            r == action_value_of(text.bytes()),
    {
        if text.eq_str_ignore_ascii_case(KW_ACTION_AUDIO) {
            Some(ActionValue::Audio)
        } else if text.eq_str_ignore_ascii_case(KW_ACTION_DISPLAY) {
            Some(ActionValue::Display)
        } else if text.eq_str_ignore_ascii_case(KW_ACTION_EMAIL) {
            Some(ActionValue::Email)
        } else {
            None
        }
    }
}

/// The message for an action that is not one of RFC 5545.
pub open spec fn action_error_message(text: SpannedSegments) -> Seq<char> {
    if eq_ignore_ascii_case(text.bytes(), KW_ACTION_PROCEDURE.spec_bytes()) {
        "PROCEDURE action has been deprecated"@
    } else {
        "Invalid alarm action: "@ + text@
    }
}

/// The error for an invalid value of a property of kind `kind`.
pub open spec fn invalid_value_error<'src>(
    e: TypedError<'src>,
    kind: PropertyKindRef<'src>,
    message: Seq<char>,
    span: Span,
) -> bool {
    e matches TypedError::PropertyInvalidValue { property, value, span: s } && property@ == kind@
        && value@ == message && s == span
}

/// Alarm action (RFC 5545 Section 3.8.6.1)
#[derive(Debug)]
pub struct Action<S: StringStorage> {
    /// Action value
    pub value: ActionValue,
    /// X-name parameters (custom experimental parameters)
    pub x_parameters: Vec<RawParameter<S>>,
    /// Unrecognized / Non-standard parameters (preserved for round-trip)
    pub retained_parameters: Vec<Parameter<S>>,
    /// Span of the property in the source
    pub span: S::Span,
}

/// What converting a property to `Action` gives.
pub open spec fn action_result<'src>(
    prop: ParsedProperty<'src>,
    r: Result<Action<SpannedSegments<'src>>, Vec<TypedError<'src>>>,
) -> bool {
    &&& !(prop.kind is Action) ==> (r matches Err(es) && es@ == seq![
        unexpected_kind(PropertyKind::Action, prop.kind, prop.span),
    ])
    &&& prop.kind is Action ==> (r is Ok) == (single_text(prop.value) matches Some(t)
        && !eq_ignore_ascii_case(t.value.bytes(), KW_ACTION_PROCEDURE.spec_bytes())
        && action_value_of(t.value.bytes()) is Some)
    &&& prop.kind is Action ==> (r matches Ok(a) ==> single_text(prop.value) matches Some(t)
        && action_value_of(t.value.bytes()) == Some(a.value) && a.x_parameters@ == x_params(
        prop.parameters@,
    ) && a.retained_parameters@ == retained_params(prop.parameters@, no_claims()) && a.span
        == prop.span)
    &&& prop.kind is Action ==> (r matches Err(es) ==> match single_text(prop.value) {
        None => single_value_errors(es@, prop.kind, prop.value, PropertyValueKind::Text),
        Some(t) => es@.len() == 1 && invalid_value_error(
            es@[0],
            prop.kind,
            action_error_message(t.value),
            value_span(prop.value),
        ),
    })
}

impl<'src> Action<SpannedSegments<'src>> {
    /// Convert an `ACTION` property: a single text naming `AUDIO`,
    /// `DISPLAY` or `EMAIL` (ASCII case ignored). The deprecated
    /// `PROCEDURE` and any other text are invalid values.
    pub fn try_from(prop: ParsedProperty<'src>) -> (r: Result<Self, Vec<TypedError<'src>>>)
        ensures
            action_result(prop, r),
    {
        if !matches!(prop.kind, PropertyKind::Action) {
            let span = prop.span;
            let es = vec![TypedError::PropertyUnexpectedKind { expected: PropertyKind::Action, found: prop.kind, span }];
            assert(es@ =~= seq![unexpected_kind(PropertyKind::Action, prop.kind, prop.span)]);
            return Err(es);
        }
        let claimed: Vec<ParameterKind> = Vec::new();
        assert(claimed@ =~= no_claims());
        let sorted = sort_parameters(prop.parameters, &claimed);
        let value_span = prop.value.span();
        let text = take_single_text(&PropertyKind::Action, prop.value)?;
        if text.eq_str_ignore_ascii_case(KW_ACTION_PROCEDURE) {
            let message = "PROCEDURE action has been deprecated".to_owned();
            return Err(
                vec![TypedError::PropertyInvalidValue { property: PropertyKind::Action, value: message, span: value_span }],
            );
        }
        match ActionValue::from_text(&text.value) {
            Some(value) => Ok(Action {
                value,
                x_parameters: sorted.x_parameters,
                retained_parameters: sorted.retained,
                span: prop.span,
            }),
            None => {
                let mut message = "Invalid alarm action: ".to_owned();
                let resolved = text.value.to_owned();
                message.append(resolved.as_str());
                Err(
                    vec![TypedError::PropertyInvalidValue { property: PropertyKind::Action, value: message, span: value_span }],
                )
            },
        }
    }

    /// Convert borrowed Action to owned Action
    pub fn to_owned(&self) -> (r: Action<String>)
        ensures
            r.value == self.value,
            raw_params_agree(r.x_parameters@, self.x_parameters@),
            params_agree(r.retained_parameters@, self.retained_parameters@),
    {
        Action {
            value: self.value,
            x_parameters: raw_params_to_owned(&self.x_parameters),
            retained_parameters: params_to_owned(&self.retained_parameters),
            span: (),
        }
    }
}

/// Repeat Count (RFC 5545 Section 3.8.6.2)
///
/// This property defines the number of times the alarm should repeat.
#[derive(Debug)]
pub struct Repeat<S: StringStorage> {
    /// Number of repetitions
    pub value: u32,
    /// X-name parameters (custom experimental parameters)
    pub x_parameters: Vec<RawParameter<S>>,
    /// Unrecognized / Non-standard parameters (preserved for round-trip)
    pub retained_parameters: Vec<Parameter<S>>,
    /// Span of the property in the source
    pub span: S::Span,
}

/// The errors for a `REPEAT` value that is not one non-negative integer.
pub open spec fn repeat_errors<'src>(
    es: Seq<TypedError<'src>>,
    kind: PropertyKindRef<'src>,
    value: Value<SpannedSegments<'src>>,
    prop_span: Span,
) -> bool {
    &&& es.len() == 1
    &&& match value {
        Value::Integer { values, span } => if values@.len() == 0 {
            es[0] matches TypedError::PropertyMissingValue { property, span: s } && property@ == kind@
                && s == prop_span
        } else if values@.len() == 1 {
            invalid_value_error(
                es[0],
                kind,
                "Repeat count must be non-negative: "@ + int_decimal(values@[0] as int),
                span,
            )
        } else {
            es[0] matches TypedError::PropertyInvalidValueCount { property, expected, found, span: s }
                && property@ == kind@ && expected == 1 && found == values@.len() && s == span
        },
        _ => es[0] matches TypedError::PropertyUnexpectedValue { property, expected, found, span: s }
            && property@ == kind@ && expected@ == seq![PropertyValueKind::Integer] && found == value_kind(value)
            && s == value_span(value),
    }
}

/// What converting a property to `Repeat` gives.
pub open spec fn repeat_result<'src>(
    prop: ParsedProperty<'src>,
    r: Result<Repeat<SpannedSegments<'src>>, Vec<TypedError<'src>>>,
) -> bool {
    &&& !(prop.kind is Repeat) ==> (r matches Err(es) && es@ == seq![
        unexpected_kind(PropertyKind::Repeat, prop.kind, prop.span),
    ])
    &&& prop.kind is Repeat ==> (r is Ok) == (prop.value matches Value::Integer { values, .. }
        && values@.len() == 1 && values@[0] >= 0)
    &&& prop.kind is Repeat ==> (r matches Ok(a) ==> prop.value matches Value::Integer { values, .. }
        && a.value == values@[0] && a.x_parameters@ == x_params(prop.parameters@)
        && a.retained_parameters@ == retained_params(prop.parameters@, no_claims()) && a.span
        == prop.span)
    &&& prop.kind is Repeat ==> (r matches Err(es) ==> repeat_errors(es@, prop.kind, prop.value, prop.span))
}

impl<'src> Repeat<SpannedSegments<'src>> {
    /// The property kind of `REPEAT`.
    pub fn kind() -> (r: PropertyKindRef<'src>)
        ensures
            r is Repeat,
    {
        PropertyKind::Repeat
    }

    /// Convert a `REPEAT` property: a single non-negative integer.
    pub fn try_from(prop: ParsedProperty<'src>) -> (r: Result<Self, Vec<TypedError<'src>>>)
        ensures
            repeat_result(prop, r),
    {
        if !matches!(prop.kind, PropertyKind::Repeat) {
            let span = prop.span;
            let es = vec![TypedError::PropertyUnexpectedKind { expected: PropertyKind::Repeat, found: prop.kind, span }];
            assert(es@ =~= seq![unexpected_kind(PropertyKind::Repeat, prop.kind, prop.span)]);
            return Err(es);
        }
        let claimed: Vec<ParameterKind> = Vec::new();
        assert(claimed@ =~= no_claims());
        let sorted = sort_parameters(prop.parameters, &claimed);
        let value_span = prop.value.span();
        match prop.value {
            Value::Integer { mut values, .. } => {
                if values.len() == 0 {
                    Err(vec![TypedError::PropertyMissingValue { property: prop.kind, span: prop.span }])
                } else if values.len() == 1 {
                    let i = values.pop().unwrap();
                    if i >= 0 {
                        Ok(Repeat {
                            value: i as u32,
                            x_parameters: sorted.x_parameters,
                            retained_parameters: sorted.retained,
                            span: prop.span,
                        })
                    } else {
                        let mut message = "Repeat count must be non-negative: ".to_owned();
                        append_i32(&mut message, i);
                        Err(vec![TypedError::PropertyInvalidValue { property: prop.kind, value: message, span: value_span }])
                    }
                } else {
                    Err(
                        vec![TypedError::PropertyInvalidValueCount { property: PropertyKind::Repeat, expected: 1, found: values.len(), span: value_span }],
                    )
                }
            },
            v => {
                let span = v.span();
                Err(
                    vec![TypedError::PropertyUnexpectedValue { property: prop.kind, expected: expect_one(PropertyValueKind::Integer), found: v.kind(), span }],
                )
            },
        }
    }

    /// Convert borrowed Repeat to owned Repeat
    pub fn to_owned(&self) -> (r: Repeat<String>)
        ensures
            r.value == self.value,
            raw_params_agree(r.x_parameters@, self.x_parameters@),
            params_agree(r.retained_parameters@, self.retained_parameters@),
    {
        Repeat {
            value: self.value,
            x_parameters: raw_params_to_owned(&self.x_parameters),
            retained_parameters: params_to_owned(&self.retained_parameters),
            span: (),
        }
    }
}


/// Trigger value (relative duration or absolute date/time)
#[derive(Debug, Clone, Copy, PartialEq, Eq)]
pub enum TriggerValue {
    /// Relative duration before/after the event
    Duration(ValueDuration),
    /// Absolute date/time
    DateTime(DateTime),
}

/// The parameter kinds that `TRIGGER` takes for itself.
pub open spec fn trigger_claims() -> Seq<ParameterKind> {
    seq![ParameterKind::AlarmTriggerRelationship]
}

/// The relationship of the first `RELATED` parameter, if any.
pub open spec fn related_value<'src>(p: Option<Parameter<SpannedSegments<'src>>>) -> Option<
    AlarmTriggerRelationship,
> {
    match p {
        Some(Parameter::AlarmTriggerRelationship { value, .. }) => Some(value),
        _ => None,
    }
}

/// The experimental parameters of a list, each kept as a parameter.
pub open spec fn x_params_as_params<'src>(
    xs: Seq<Parameter<SpannedSegments<'src>>>,
    ps: Seq<Parameter<SpannedSegments<'src>>>,
) -> bool {
    xs.len() == x_params(ps).len() && forall|i: int|
        0 <= i < xs.len() ==> #[trigger] xs[i] == Parameter::XName(x_params(ps)[i])
}

/// The trigger that a single value gives: a duration, relative to the start
/// unless `RELATED` says otherwise, or a date-time, taken as floating.
pub open spec fn trigger_of<'src>(
    value: Value<SpannedSegments<'src>>,
    related: Option<AlarmTriggerRelationship>,
) -> Option<(TriggerValue, Option<AlarmTriggerRelationship>)> {
    match value {
        Value::Duration { values, .. } => if values@.len() == 1 {
            Some(
                (
                    TriggerValue::Duration(values@[0]),
                    Some(
                        match related {
                            Some(r) => r,
                            None => AlarmTriggerRelationship::Start,
                        },
                    ),
                ),
            )
        } else {
            None
        },
        Value::DateTime { values, .. } => if values@.len() == 1 {
            Some(
                (
                    TriggerValue::DateTime(
                        DateTime::Floating { date: values@[0].date, time: time_of(values@[0].time) },
                    ),
                    None,
                ),
            )
        } else {
            None
        },
        _ => None,
    }
}

/// What converting a `TRIGGER` property gives.
pub open spec fn trigger_result<'src>(
    prop: ParsedProperty<'src>,
    r: Result<Trigger<SpannedSegments<'src>>, Vec<TypedError<'src>>>,
) -> bool {
    let ps = prop.parameters@;
    if !(prop.kind is Trigger) {
        r matches Err(es) && es@ == seq![unexpected_kind(PropertyKind::Trigger, prop.kind, prop.span)]
    } else if value_len(prop.value) != 1 {
        r matches Err(es) && es@.len() == 1 && invalid_count_error(
            es@[0],
            prop.kind,
            value_len(prop.value),
            value_span(prop.value),
        )
    } else if dup_errors(ps, trigger_claims()).len() > 0 {
        r matches Err(es) && es@ == dup_errors(ps, trigger_claims())
    } else {
        match trigger_of(prop.value, related_value(first_param(ps, ParameterKind::AlarmTriggerRelationship))) {
            Some((v, rel)) => r matches Ok(t) && t.value == v && t.related == rel && x_params_as_params(
                t.x_parameters@,
                ps,
            ) && t.unrecognized_parameters@ == retained_params(ps, trigger_claims()) && t.span
                == prop.span,
            None => r matches Err(es) && es@.len() == 1 && invalid_value_error(
                es@[0],
                PropertyKind::Trigger,
                "Expected duration or date-time value"@,
                value_span(prop.value),
            ),
        }
    }
}

/// Trigger for alarms (RFC 5545 Section 3.8.6.3)
#[derive(Debug)]
pub struct Trigger<S: StringStorage> {
    /// When to trigger (relative or absolute)
    pub value: TriggerValue,
    /// Related parameter for relative triggers
    pub related: Option<AlarmTriggerRelationship>,
    /// X-name parameters (custom experimental parameters)
    pub x_parameters: Vec<Parameter<S>>,
    /// Unrecognized parameters (IANA tokens not recognized by this implementation)
    pub unrecognized_parameters: Vec<Parameter<S>>,
    /// Span of the property in the source
    pub span: S::Span,
}

pub(crate) fn raw_as_params<'src>(raws: Vec<RawParameter<SpannedSegments<'src>>>) -> (r: Vec<Parameter<SpannedSegments<'src>>>)
    ensures
        r@.len() == raws@.len(),
        forall|i: int| 0 <= i < r@.len() ==> #[trigger] r@[i] == Parameter::XName(raws@[i]),
{
    let ghost rs = raws@;
    let total = raws.len();
    let mut rest = raws;
    let mut out: Vec<Parameter<SpannedSegments<'src>>> = Vec::new();
    let mut i: usize = 0;
    while rest.len() > 0
        invariant
            0 <= i <= rs.len(),
            rs.len() == total,
            rest@ == rs.skip(i as int),
            out@.len() == i,
            forall|j: int| 0 <= j < i ==> #[trigger] out@[j] == Parameter::XName(rs[j]),
        decreases rest@.len(),
    {
        let raw = rest.remove(0);
        out.push(Parameter::XName(raw));
        assert(rest@ =~= rs.skip(i as int + 1));
        i = i + 1;
    }
    out
}

impl<'src> Trigger<SpannedSegments<'src>> {
    /// Convert a `TRIGGER` property: a single duration or date-time, with an
    /// optional `RELATED` for a duration.
    pub fn try_from(prop: ParsedProperty<'src>) -> (r: Result<Self, Vec<TypedError<'src>>>)
        ensures
            trigger_result(prop, r),
    {
        if !matches!(prop.kind, PropertyKind::Trigger) {
            let span = prop.span;
            let es = vec![TypedError::PropertyUnexpectedKind { expected: PropertyKind::Trigger, found: prop.kind, span }];
            assert(es@ =~= seq![unexpected_kind(PropertyKind::Trigger, prop.kind, prop.span)]);
            return Err(es);
        }
        let ghost ps = prop.parameters@;
        let claimed: Vec<ParameterKind> = vec![ParameterKind::AlarmTriggerRelationship];
        assert(claimed@ =~= trigger_claims());
        let mut sorted = sort_parameters(prop.parameters, &claimed);
        let value = take_single_value(&PropertyKind::Trigger, prop.value)?;
        if sorted.errors.len() > 0 {
            return Err(sorted.errors);
        }
        let related = match next_slot(&mut sorted.slots) {
            Some(Parameter::AlarmTriggerRelationship { value, .. }) => Some(value),
            _ => None,
        };
        let value_span = value.span();
        let x_parameters = raw_as_params(sorted.x_parameters);
        match value {
            Value::Duration { mut values, .. } => {
                let d = values.pop().unwrap();
                let rel = match related {
                    Some(r) => r,
                    None => AlarmTriggerRelationship::Start,
                };
                Ok(Trigger {
                    value: TriggerValue::Duration(d),
                    related: Some(rel),
                    x_parameters,
                    unrecognized_parameters: sorted.retained,
                    span: prop.span,
                })
            },
            Value::DateTime { mut values, .. } => {
                let dt = values.pop().unwrap();
                Ok(Trigger {
                    value: TriggerValue::DateTime(DateTime::Floating { date: dt.date, time: Time::from_value(dt.time) }),
                    related: None,
                    x_parameters,
                    unrecognized_parameters: sorted.retained,
                    span: prop.span,
                })
            },
            _ => Err(
                vec![TypedError::PropertyInvalidValue { property: PropertyKind::Trigger, value: "Expected duration or date-time value".to_owned(), span: value_span }],
            ),
        }
    }

    /// Convert borrowed Trigger to owned Trigger
    pub fn to_owned(&self) -> (r: Trigger<String>)
        ensures
            r.value == self.value,
            r.related == self.related,
            params_agree(r.x_parameters@, self.x_parameters@),
            params_agree(r.unrecognized_parameters@, self.unrecognized_parameters@),
    {
        Trigger {
            value: self.value,
            related: self.related,
            x_parameters: params_to_owned(&self.x_parameters),
            unrecognized_parameters: params_to_owned(&self.unrecognized_parameters),
            span: (),
        }
    }

    /// Get the span of this property
    pub fn span(&self) -> (r: Span)
        ensures
            r == self.span,
    {
        self.span
    }
}

} // verus!
