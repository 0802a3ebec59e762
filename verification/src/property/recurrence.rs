//! Recurrence Component Properties (RFC 5545 Section 3.8.5)
//!
//! - 3.8.5.1: `ExDate` - Exception date-times
//! - 3.8.5.2: `RDate` - Recurrence date-times

use vstd::prelude::*;
use vstd::string::StringExecFns;

use crate::parameter::{Parameter, ParameterKind};
use crate::property::alarm::{invalid_value_error, x_params_as_params};
use crate::property::common::{
    dup_errors, expect_one, params_agree, params_to_owned, retained_params, sort_parameters, take_text, next_slot,
    lemma_first_param_kind, opt_agrees, opt_to_owned,
};
use crate::property::datetime::{DateTime, Period, Time, period_agrees, time_of, tzid_claims, tzid_of};
use crate::property::relationship::unexpected_kind;
use crate::property::{PropertyKind, PropertyKindRef, PropertyValueKind};
use crate::string_storage::{SpannedSegments, StringStorage};
use crate::syntax::RawParameter;
use crate::typed::{ParsedProperty, TypedError};
use crate::value::{Value, ValueDate, ValueDateTime, value_kind, value_span};

verus! {

/// An exception date: a date or a date-time
#[derive(Debug, Clone, Copy, PartialEq, Eq)]
pub enum ExDateValue {
    /// A date
    Date(ValueDate),
    /// A date with a time (floating)
    DateTime(DateTime),
}

/// A recurrence date: a date, a date-time or a period
#[derive(Debug)]
pub enum RDateValue<S: StringStorage> {
    /// A date
    Date(ValueDate),
    /// A date with a time (floating)
    DateTime(DateTime),
    /// A period
    Period(Period<S>),
}

/// Two recurrence dates agree, in either storage.
pub open spec fn r_date_value_agrees<A: StringStorage, B: StringStorage>(a: RDateValue<A>, b: RDateValue<B>) -> bool {
    match (a, b) {
        (RDateValue::Date(x), RDateValue::Date(y)) => x == y,
        (RDateValue::DateTime(x), RDateValue::DateTime(y)) => x == y,
        (RDateValue::Period(x), RDateValue::Period(y)) => period_agrees(x, y),
        _ => false,
    }
}

/// Two sequences of recurrence dates agree one by one.
pub open spec fn r_date_values_agree<A: StringStorage, B: StringStorage>(
    a: Seq<RDateValue<A>>,
    b: Seq<RDateValue<B>>,
) -> bool {
    a.len() == b.len() && forall|i: int| 0 <= i < a.len() ==> #[trigger] r_date_value_agrees(a[i], b[i])
}

impl<'src> RDateValue<SpannedSegments<'src>> {
    /// Convert a borrowed recurrence date to an owned one
    pub fn to_owned(&self) -> (r: RDateValue<String>)
        ensures
            r_date_value_agrees(r, *self),
    {
        match self {
            RDateValue::Date(d) => RDateValue::Date(*d),
            RDateValue::DateTime(dt) => RDateValue::DateTime(*dt),
            RDateValue::Period(p) => RDateValue::Period(p.to_owned()),
        }
    }
}

/// The floating date-time of a parsed date-time.
pub open spec fn floating_of(dt: ValueDateTime) -> DateTime {
    DateTime::Floating { date: dt.date, time: time_of(dt.time) }
}

/// The exception dates that a `DATE` or `DATE-TIME` value gives.
pub open spec fn ex_dates_of<'src>(v: Value<SpannedSegments<'src>>) -> Option<Seq<ExDateValue>> {
    match v {
        Value::Date { values, .. } => Some(values@.map_values(|d: ValueDate| ExDateValue::Date(d))),
        Value::DateTime { values, .. } => Some(
            values@.map_values(|dt: ValueDateTime| ExDateValue::DateTime(floating_of(dt))),
        ),
        _ => None,
    }
}

/// The recurrence dates that a `DATE` or `DATE-TIME` value gives.
pub open spec fn r_dates_of<'src>(v: Value<SpannedSegments<'src>>) -> Option<Seq<RDateValue<SpannedSegments<'src>>>> {
    match v {
        Value::Date { values, .. } => Some(values@.map_values(|d: ValueDate| RDateValue::Date(d))),
        Value::DateTime { values, .. } => Some(
            values@.map_values(|dt: ValueDateTime| RDateValue::DateTime(floating_of(dt))),
        ),
        _ => None,
    }
}

fn floating(dt: ValueDateTime) -> (r: DateTime)
    ensures
        r == floating_of(dt),
{
    DateTime::Floating { date: dt.date, time: Time::from_value(dt.time) }
}

fn ex_dates_from<'src>(v: Value<SpannedSegments<'src>>) -> (r: Option<Vec<ExDateValue>>)
    ensures
        match ex_dates_of(v) {
            Some(s) => r matches Some(x) && x@ == s,
            None => r is None,
        },
{
    match v {
        Value::Date { values, .. } => {
            let mut out: Vec<ExDateValue> = Vec::new();
            let mut i: usize = 0;
            while i < values.len()
                invariant
                    0 <= i <= values@.len(),
                    out@ == values@.take(i as int).map_values(|d: ValueDate| ExDateValue::Date(d)),
                decreases values@.len() - i,
            {
                out.push(ExDateValue::Date(values[i]));
                assert(values@.take(i + 1).map_values(|d: ValueDate| ExDateValue::Date(d)) =~= values@.take(
                    i as int,
                ).map_values(|d: ValueDate| ExDateValue::Date(d)).push(ExDateValue::Date(values@[i as int])));
                i = i + 1;
            }
            assert(values@.take(i as int) =~= values@);
            Some(out)
        },
        Value::DateTime { values, .. } => {
            let mut out: Vec<ExDateValue> = Vec::new();
            let mut i: usize = 0;
            while i < values.len()
                invariant
                    0 <= i <= values@.len(),
                    out@ == values@.take(i as int).map_values(
                        |dt: ValueDateTime| ExDateValue::DateTime(floating_of(dt)),
                    ),
                decreases values@.len() - i,
            {
                out.push(ExDateValue::DateTime(floating(values[i])));
                assert(values@.take(i + 1).map_values(|dt: ValueDateTime| ExDateValue::DateTime(floating_of(dt)))
                    =~= values@.take(i as int).map_values(
                    |dt: ValueDateTime| ExDateValue::DateTime(floating_of(dt)),
                ).push(ExDateValue::DateTime(floating_of(values@[i as int]))));
                i = i + 1;
            }
            assert(values@.take(i as int) =~= values@);
            Some(out)
        },
        _ => None,
    }
}

fn r_dates_from<'src>(v: Value<SpannedSegments<'src>>) -> (r: Option<Vec<RDateValue<SpannedSegments<'src>>>>)
    ensures
        match r_dates_of(v) {
            Some(s) => r matches Some(x) && x@ == s,
            None => r is None,
        },
{
    match v {
        Value::Date { values, .. } => {
            let mut out: Vec<RDateValue<SpannedSegments<'src>>> = Vec::new();
            let mut i: usize = 0;
            while i < values.len()
                invariant
                    0 <= i <= values@.len(),
                    out@ == values@.take(i as int).map_values(|d: ValueDate| RDateValue::<SpannedSegments<'src>>::Date(d)),
                decreases values@.len() - i,
            {
                out.push(RDateValue::Date(values[i]));
                assert(values@.take(i + 1).map_values(|d: ValueDate| RDateValue::<SpannedSegments<'src>>::Date(d))
                    =~= values@.take(i as int).map_values(
                    |d: ValueDate| RDateValue::<SpannedSegments<'src>>::Date(d),
                ).push(RDateValue::Date(values@[i as int])));
                i = i + 1;
            }
            assert(values@.take(i as int) =~= values@);
            Some(out)
        },
        Value::DateTime { values, .. } => {
            let mut out: Vec<RDateValue<SpannedSegments<'src>>> = Vec::new();
            let mut i: usize = 0;
            while i < values.len()
                invariant
                    0 <= i <= values@.len(),
                    out@ == values@.take(i as int).map_values(
                        |dt: ValueDateTime| RDateValue::<SpannedSegments<'src>>::DateTime(floating_of(dt)),
                    ),
                decreases values@.len() - i,
            {
                out.push(RDateValue::DateTime(floating(values[i])));
                assert(values@.take(i + 1).map_values(
                    |dt: ValueDateTime| RDateValue::<SpannedSegments<'src>>::DateTime(floating_of(dt)),
                ) =~= values@.take(i as int).map_values(
                    |dt: ValueDateTime| RDateValue::<SpannedSegments<'src>>::DateTime(floating_of(dt)),
                ).push(RDateValue::DateTime(floating_of(values@[i as int]))));
                i = i + 1;
            }
            assert(values@.take(i as int) =~= values@);
            Some(out)
        },
        _ => None,
    }
}

/// The error for a value of another type than the one expected.
pub open spec fn recurrence_type_error<'src>(
    e: TypedError<'src>,
    kind: PropertyKindRef<'src>,
    expected: PropertyValueKind,
    value: Value<SpannedSegments<'src>>,
) -> bool {
    e matches TypedError::PropertyUnexpectedValue { property, expected: x, found, span } && property@ == kind@
        && x@ == seq![expected] && found == value_kind(value) && span == value_span(value)
}

/// Exception date-times (RFC 5545 Section 3.8.5.1)
#[derive(Debug)]
pub struct ExDate<S: StringStorage> {
    /// The exception dates
    pub dates: Vec<ExDateValue>,
    /// Timezone ID
    pub tz_id: Option<S>,
    /// X-name parameters (custom experimental parameters)
    pub x_parameters: Vec<Parameter<S>>,
    /// Unrecognized parameters (IANA tokens not recognized by this implementation)
    pub unrecognized_parameters: Vec<Parameter<S>>,
    /// Span of the property in the source
    pub span: S::Span,
}

/// What converting a property to `ExDate` gives.
pub open spec fn ex_date_result<'src>(
    prop: ParsedProperty<'src>,
    r: Result<ExDate<SpannedSegments<'src>>, Vec<TypedError<'src>>>,
) -> bool {
    let ps = prop.parameters@;
    if !(prop.kind is ExDate) {
        r matches Err(es) && es@ == seq![unexpected_kind(PropertyKind::ExDate, prop.kind, prop.span)]
    } else if dup_errors(ps, tzid_claims()).len() > 0 {
        r matches Err(es) && es@ == seq![dup_errors(ps, tzid_claims())[0]]
    } else {
        match ex_dates_of(prop.value) {
            Some(ds) => r matches Ok(x) && x.dates@ == ds && x.tz_id == tzid_of(ps) && x_params_as_params(
                x.x_parameters@,
                ps,
            ) && x.unrecognized_parameters@ == retained_params(ps, tzid_claims()) && x.span == prop.span,
            None => r matches Err(es) && es@.len() == 1 && recurrence_type_error(
                es@[0],
                prop.kind,
                PropertyValueKind::Date,
                prop.value,
            ),
        }
    }
}

impl<'src> ExDate<SpannedSegments<'src>> {
    /// Convert an `EXDATE` property: its dates or date-times (taken as
    /// floating), with the first `TZID`. A duplicated `TZID` is an error,
    /// the first one only.
    pub fn try_from(prop: ParsedProperty<'src>) -> (r: Result<Self, Vec<TypedError<'src>>>)
        ensures
            ex_date_result(prop, r),
    {
        if !matches!(prop.kind, PropertyKind::ExDate) {
            let span = prop.span;
            let es = vec![TypedError::PropertyUnexpectedKind { expected: PropertyKind::ExDate, found: prop.kind, span }];
            assert(es@ =~= seq![unexpected_kind(PropertyKind::ExDate, prop.kind, prop.span)]);
            return Err(es);
        }
        let ghost ps = prop.parameters@;
        let prop_span = prop.span;
        let claimed: Vec<ParameterKind> = vec![ParameterKind::TimeZoneIdentifier];
        assert(claimed@ =~= tzid_claims());
        let mut sorted = sort_parameters(prop.parameters, &claimed);
        if sorted.errors.len() > 0 {
            let ghost dups = sorted.errors@;
            let first = sorted.errors.remove(0);
            let es = vec![first];
            assert(es@ =~= seq![dups[0]]);
            return Err(es);
        }
        let tz_id = take_text(next_slot(&mut sorted.slots));
        proof {
            lemma_first_param_kind(ps, ParameterKind::TimeZoneIdentifier);
        }
        let x_parameters = crate::property::alarm::raw_as_params(sorted.x_parameters);
        let ghost v = prop.value;
        let span = prop.value.span();
        let found = prop.value.kind();
        match ex_dates_from(prop.value) {
            Some(dates) => Ok(ExDate { dates, tz_id, x_parameters, unrecognized_parameters: sorted.retained, span: prop_span }),
            None => Err(
                vec![TypedError::PropertyUnexpectedValue { property: prop.kind, expected: expect_one(PropertyValueKind::Date), found, span }],
            ),
        }
    }

    /// Convert borrowed `ExDate` to owned `ExDate`
    pub fn to_owned(&self) -> (r: ExDate<String>)
        ensures
            r.dates@ == self.dates@,
            opt_agrees(r.tz_id, self.tz_id),
            params_agree(r.x_parameters@, self.x_parameters@),
            params_agree(r.unrecognized_parameters@, self.unrecognized_parameters@),
    {
        ExDate {
            dates: self.dates.clone(),
            tz_id: opt_to_owned(&self.tz_id),
            x_parameters: params_to_owned(&self.x_parameters),
            unrecognized_parameters: params_to_owned(&self.unrecognized_parameters),
            span: (),
        }
    }
}

/// Recurrence date-times (RFC 5545 Section 3.8.5.2)
#[derive(Debug)]
pub struct RDate<S: StringStorage> {
    /// The recurrence dates
    pub dates: Vec<RDateValue<S>>,
    /// Timezone ID
    pub tz_id: Option<S>,
    /// X-name parameters (custom experimental parameters)
    pub x_parameters: Vec<Parameter<S>>,
    /// Unrecognized parameters (IANA tokens not recognized by this implementation)
    pub unrecognized_parameters: Vec<Parameter<S>>,
    /// Span of the property in the source
    pub span: S::Span,
}

/// What converting a property to `RDate` gives.
pub open spec fn r_date_result<'src>(
    prop: ParsedProperty<'src>,
    r: Result<RDate<SpannedSegments<'src>>, Vec<TypedError<'src>>>,
) -> bool {
    let ps = prop.parameters@;
    if !(prop.kind is RDate) {
        r matches Err(es) && es@ == seq![unexpected_kind(PropertyKind::RDate, prop.kind, prop.span)]
    } else if dup_errors(ps, tzid_claims()).len() > 0 {
        r matches Err(es) && es@ == seq![dup_errors(ps, tzid_claims())[0]]
    } else if prop.value is Period {
        r matches Err(es) && es@.len() == 1 && invalid_value_error(
            es@[0],
            prop.kind,
            "Period values must be processed at semantic level"@,
            value_span(prop.value),
        )
    } else {
        match r_dates_of(prop.value) {
            Some(ds) => r matches Ok(x) && x.dates@ == ds && x.tz_id == tzid_of(ps) && x_params_as_params(
                x.x_parameters@,
                ps,
            ) && x.unrecognized_parameters@ == retained_params(ps, tzid_claims()) && x.span == prop.span,
            None => r matches Err(es) && es@.len() == 1 && recurrence_type_error(
                es@[0],
                prop.kind,
                PropertyValueKind::Period,
                prop.value,
            ),
        }
    }
}

impl<'src> RDate<SpannedSegments<'src>> {
    /// Convert an `RDATE` property: its dates or date-times (taken as
    /// floating), with the first `TZID`. A duplicated `TZID` is an error,
    /// the first one only; periods are left to semantic analysis and are an
    /// error here.
    pub fn try_from(prop: ParsedProperty<'src>) -> (r: Result<Self, Vec<TypedError<'src>>>)
        ensures
            r_date_result(prop, r),
    {
        if !matches!(prop.kind, PropertyKind::RDate) {
            let span = prop.span;
            let es = vec![TypedError::PropertyUnexpectedKind { expected: PropertyKind::RDate, found: prop.kind, span }];
            assert(es@ =~= seq![unexpected_kind(PropertyKind::RDate, prop.kind, prop.span)]);
            return Err(es);
        }
        let ghost ps = prop.parameters@;
        let prop_span = prop.span;
        let claimed: Vec<ParameterKind> = vec![ParameterKind::TimeZoneIdentifier];
        assert(claimed@ =~= tzid_claims());
        let mut sorted = sort_parameters(prop.parameters, &claimed);
        if sorted.errors.len() > 0 {
            let ghost dups = sorted.errors@;
            let first = sorted.errors.remove(0);
            let es = vec![first];
            assert(es@ =~= seq![dups[0]]);
            return Err(es);
        }
        let tz_id = take_text(next_slot(&mut sorted.slots));
        proof {
            lemma_first_param_kind(ps, ParameterKind::TimeZoneIdentifier);
        }
        let x_parameters = crate::property::alarm::raw_as_params(sorted.x_parameters);
        let span = prop.value.span();
        let found = prop.value.kind();
        if matches!(prop.value, Value::Period { .. }) {
            return Err(
                vec![TypedError::PropertyInvalidValue { property: prop.kind, value: "Period values must be processed at semantic level".to_owned(), span }],
            );
        }
        match r_dates_from(prop.value) {
            Some(dates) => Ok(RDate { dates, tz_id, x_parameters, unrecognized_parameters: sorted.retained, span: prop_span }),
            None => Err(
                vec![TypedError::PropertyUnexpectedValue { property: prop.kind, expected: expect_one(PropertyValueKind::Period), found, span }],
            ),
        }
    }

    /// Convert borrowed `RDate` to owned `RDate`
    pub fn to_owned(&self) -> (r: RDate<String>)
        ensures
            r_date_values_agree(r.dates@, self.dates@),
            opt_agrees(r.tz_id, self.tz_id),
            params_agree(r.x_parameters@, self.x_parameters@),
            params_agree(r.unrecognized_parameters@, self.unrecognized_parameters@),
    {
        let mut dates: Vec<RDateValue<String>> = Vec::new();
        let mut i: usize = 0;
        while i < self.dates.len()
            invariant
                0 <= i <= self.dates@.len(),
                dates@.len() == i,
                forall|j: int| 0 <= j < i ==> #[trigger] r_date_value_agrees(dates@[j], self.dates@[j]),
            decreases self.dates@.len() - i,
        {
            dates.push(self.dates[i].to_owned());
            i = i + 1;
        }
        RDate {
            dates,
            tz_id: opt_to_owned(&self.tz_id),
            x_parameters: params_to_owned(&self.x_parameters),
            unrecognized_parameters: params_to_owned(&self.unrecognized_parameters),
            span: (),
        }
    }
}

} // verus!
