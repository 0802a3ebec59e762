//! Typed properties: a property with its kind, typed parameters and typed
//! value, and the errors of typing and converting properties.

use vstd::prelude::*;
use vstd::string::StringExecFns;

use crate::parameter::{Parameter, ParameterKind, param_kind, param_read};
use crate::property::common::{first_param, lemma_first_param_kind};
use crate::property::kind::{kind_from_name, kind_value_types};
use crate::property::{Property, PropertyKind, PropertyKindRef, PropertyValueKind, property_result};
use crate::property_value::{
    all_parse, boolean_spec, byte_views, date_parser, datetime_parser, duration_parser, float_parser, integer_parser, parse_floats,
    parse_boolean, parse_dates, parse_datetimes, parse_durations, parse_integers, parse_times,
    parse_utc_offset, split_bytes_at_commas, split_commas, time_parser, utc_offset_spec,
};
use crate::semantic::property_util::find_parameter;
use crate::string_storage::{Span, SpannedSegments, full_span, split_comma_segs};
use crate::syntax::{RawComponent, RawParameter, RawProperty};
use crate::value::{Value, ValueText};

verus! {

/// A typed iCalendar property with validated parameters and values.
#[derive(Debug)]
pub struct ParsedProperty<'src> {
    /// Property kind
    pub kind: PropertyKindRef<'src>,
    /// Property parameters
    pub parameters: Vec<Parameter<SpannedSegments<'src>>>,
    /// Property value
    pub value: Value<SpannedSegments<'src>>,
    /// The span of the property name (for error reporting)
    pub span: Span,
    /// Property name (preserved for unknown properties)
    pub name: SpannedSegments<'src>,
}

/// Errors that can occur during typed analysis of iCalendar components.
#[derive(Debug)]
pub enum TypedError<'src> {
    /// Parameter occurs multiple times when only one is allowed.
    ParameterDuplicated {
        /// The parameter name
        parameter: ParameterKind,
        /// The span of the error
        span: Span,
    },
    /// Parameter does not allow multiple values.
    ParameterMultipleValuesDisallowed {
        /// The parameter name
        parameter: ParameterKind,
        /// The span of the error
        span: Span,
    },
    /// Invalid parameter value.
    ParameterValueInvalid {
        /// The parameter name
        parameter: ParameterKind,
        /// The parameter value
        value: SpannedSegments<'src>,
        /// The span of the error
        span: Span,
    },
    /// Value type is not allowed for this property.
    ValueTypeDisallowed {
        /// The property name
        property: PropertyKindRef<'src>,
        /// The value type that was provided
        value_type: PropertyValueKind,
        /// The span of the error
        span: Span,
    },
    /// Syntax error in property value.
    ValueSyntax {
        /// The value
        value: SpannedSegments<'src>,
        /// The span of the error
        span: Span,
    },
    /// Property kind does not match the expected type.
    PropertyUnexpectedKind {
        /// Expected property kind
        expected: PropertyKindRef<'src>,
        /// Actual property kind found
        found: PropertyKindRef<'src>,
        /// The span of the error
        span: Span,
    },
    /// Property has no values when at least one is required.
    PropertyMissingValue {
        /// The property that is missing values
        property: PropertyKindRef<'src>,
        /// The span of the error
        span: Span,
    },
    /// Property has an invalid value count.
    PropertyInvalidValueCount {
        /// The property kind
        property: PropertyKindRef<'src>,
        /// Expected number of values
        expected: usize,
        /// Actual number of values found
        found: usize,
        /// The span of the error
        span: Span,
    },
    /// Property value is invalid or out of allowed range.
    PropertyInvalidValue {
        /// The property that has the invalid value
        property: PropertyKindRef<'src>,
        /// Description of why the value is invalid
        value: String,
        /// The span of the error
        span: Span,
    },
    /// Property value has unexpected type.
    PropertyUnexpectedValue {
        /// The property that has the wrong type
        property: PropertyKindRef<'src>,
        /// Expected value types
        expected: Vec<PropertyValueKind>,
        /// Actual value type found
        found: PropertyValueKind,
        /// The span of the error
        span: Span,
    },
}

/// The span of a typing error.
pub open spec fn typed_error_span<'src>(e: TypedError<'src>) -> Span {
    match e {
        TypedError::ParameterDuplicated { span, .. } => span,
        TypedError::ParameterMultipleValuesDisallowed { span, .. } => span,
        TypedError::ParameterValueInvalid { span, .. } => span,
        TypedError::ValueTypeDisallowed { span, .. } => span,
        TypedError::ValueSyntax { span, .. } => span,
        TypedError::PropertyUnexpectedKind { span, .. } => span,
        TypedError::PropertyMissingValue { span, .. } => span,
        TypedError::PropertyInvalidValueCount { span, .. } => span,
        TypedError::PropertyInvalidValue { span, .. } => span,
        TypedError::PropertyUnexpectedValue { span, .. } => span,
    }
}

impl<'src> TypedError<'src> {
    /// Get the span of this error.
    pub fn span(&self) -> (r: Span)
        ensures
            r == typed_error_span(*self),
    {
        match self {
            TypedError::ParameterDuplicated { span, .. } => *span,
            TypedError::ParameterMultipleValuesDisallowed { span, .. } => *span,
            TypedError::ParameterValueInvalid { span, .. } => *span,
            TypedError::ValueTypeDisallowed { span, .. } => *span,
            TypedError::ValueSyntax { span, .. } => *span,
            TypedError::PropertyUnexpectedKind { span, .. } => *span,
            TypedError::PropertyMissingValue { span, .. } => *span,
            TypedError::PropertyInvalidValueCount { span, .. } => *span,
            TypedError::PropertyInvalidValue { span, .. } => *span,
            TypedError::PropertyUnexpectedValue { span, .. } => *span,
        }
    }
}

// ---------------------------------------------------------------------------
// Numbers in messages
// ---------------------------------------------------------------------------

/// The character of a decimal digit.
pub open spec fn digit_char(d: int) -> char {
    if d == 0 {
        '0'
    } else if d == 1 {
        '1'
    } else if d == 2 {
        '2'
    } else if d == 3 {
        '3'
    } else if d == 4 {
        '4'
    } else if d == 5 {
        '5'
    } else if d == 6 {
        '6'
    } else if d == 7 {
        '7'
    } else if d == 8 {
        '8'
    } else {
        '9'
    }
}

/// The decimal digits of a natural number, without leading zeros.
pub open spec fn decimal(n: nat) -> Seq<char>
    decreases n,
{
    if n < 10 {
        seq![digit_char(n as int)]
    } else {
        decimal(n / 10).push(digit_char((n % 10) as int))
    }
}

/// The decimal form of an integer, with a leading `-` when negative.
pub open spec fn int_decimal(i: int) -> Seq<char> {
    if i < 0 {
        seq!['-'] + decimal((-i) as nat)
    } else {
        decimal(i as nat)
    }
}

fn digit_str(d: u32) -> (r: &'static str)
    requires
        d < 10,
    ensures
        r@ == seq![digit_char(d as int)],
{
    proof {
        reveal_strlit("0");
        reveal_strlit("1");
        reveal_strlit("2");
        reveal_strlit("3");
        reveal_strlit("4");
        reveal_strlit("5");
        reveal_strlit("6");
        reveal_strlit("7");
        reveal_strlit("8");
        reveal_strlit("9");
    }
    if d == 0 {
        "0"
    } else if d == 1 {
        "1"
    } else if d == 2 {
        "2"
    } else if d == 3 {
        "3"
    } else if d == 4 {
        "4"
    } else if d == 5 {
        "5"
    } else if d == 6 {
        "6"
    } else if d == 7 {
        "7"
    } else if d == 8 {
        "8"
    } else {
        "9"
    }
}

/// Append the decimal digits of `n`.
fn push_decimal(s: &mut String, n: u32)
    ensures
        final(s)@ == old(s)@ + decimal(n as nat),
    decreases n,
{
    if n >= 10 {
        push_decimal(s, n / 10);
    }
    s.append(digit_str(n % 10));
    proof {
        if n < 10 {
            assert(old(s)@ + decimal(n as nat) =~= old(s)@ + seq![digit_char(n as int)]);
        } else {
            assert(decimal(n as nat) == decimal((n / 10) as nat).push(digit_char((n % 10) as int)));
            assert(old(s)@ + decimal(n as nat) =~= old(s)@ + decimal((n / 10) as nat) + seq![
                digit_char((n % 10) as int),
            ]);
        }
    }
}

/// Append the decimal form of `i` to `s`.
pub fn append_i32(s: &mut String, i: i32)
    ensures
        final(s)@ == old(s)@ + int_decimal(i as int),
{
    if i < 0 {
        proof {
            reveal_strlit("-");
        }
        s.append("-");
        let m: i64 = i as i64;
        let n: u32 = (-m) as u32;
        push_decimal(s, n);
        assert(old(s)@ + int_decimal(i as int) =~= old(s)@ + seq!['-'] + decimal(n as nat));
    } else {
        push_decimal(s, i as u32);
    }
}

// ---------------------------------------------------------------------------
// Value types and values
// ---------------------------------------------------------------------------

/// The value types that a property kind allows; `TEXT` for experimental and
/// unrecognized properties (RFC 5545 Section 3.8.8.2).
pub open spec fn allowed_types<S>(k: PropertyKind<S>) -> Seq<PropertyValueKind> {
    match kind_value_types(k) {
        Some(ts) => ts,
        None => seq![PropertyValueKind::Text],
    }
}

/// The types, `BINARY` left out.
pub open spec fn without_binary(ts: Seq<PropertyValueKind>) -> Seq<PropertyValueKind>
    decreases ts.len(),
{
    if ts.len() == 0 {
        Seq::empty()
    } else if ts.last() == PropertyValueKind::Binary {
        without_binary(ts.drop_last())
    } else {
        without_binary(ts.drop_last()).push(ts.last())
    }
}

/// The error for a `VALUE` parameter naming a type the property does not
/// allow.
pub open spec fn disallowed_type_error<'src>(
    e: TypedError<'src>,
    kind: PropertyKindRef<'src>,
    t: PropertyValueKind,
    span: Span,
) -> bool {
    e matches TypedError::ValueTypeDisallowed { property, value_type, span: s } && property@ == kind@
        && value_type == t && s == span
}

/// The value types to try for a property: the one a `VALUE` parameter
/// names, when the property allows it; else all it allows but `BINARY`,
/// which must be named explicitly (RFC 5545 Section 3.3.1).
pub fn value_types<'src>(
    prop_kind: &PropertyKindRef<'src>,
    params: &Vec<Parameter<SpannedSegments<'src>>>,
) -> (r: Result<Vec<PropertyValueKind>, Vec<TypedError<'src>>>)
    ensures
        match first_param(params@, ParameterKind::ValueType) {
            Some(Parameter::ValueType { value: t, span }) => if allowed_types(*prop_kind).contains(t) {
                r matches Ok(ts) && ts@ == seq![t]
            } else {
                r matches Err(es) && es@.len() == 1 && disallowed_type_error(es@[0], *prop_kind, t, span)
            },
            _ => r matches Ok(ts) && ts@ == without_binary(allowed_types(*prop_kind)),
        },
{
    proof {
        lemma_first_param_kind(params@, ParameterKind::ValueType);
    }
    let allowed: Vec<PropertyValueKind> = match prop_kind.value_types() {
        Some(v) => v,
        None => vec![PropertyValueKind::Text],
    };
    assert(allowed@ == allowed_types(*prop_kind));
    match find_parameter(params.as_slice(), ParameterKind::ValueType) {
        Some(Parameter::ValueType { value, span }) => {
            let t = *value;
            let mut i: usize = 0;
            let mut found = false;
            while i < allowed.len() && !found
                invariant
                    0 <= i <= allowed@.len(),
                    found ==> allowed@.contains(t),
                    !found ==> forall|j: int| 0 <= j < i ==> allowed@[j] != t,
                decreases allowed@.len() - i,
            {
                if allowed[i] == t {
                    assert(allowed@[i as int] == t);
                    found = true;
                }
                i = i + 1;
            }
            if found {
                Ok(vec![t])
            } else {
                Err(vec![TypedError::ValueTypeDisallowed { property: prop_kind.clone(), value_type: t, span: *span }])
            }
        },
        _ => {
            let mut out: Vec<PropertyValueKind> = Vec::new();
            let mut i: usize = 0;
            assert(allowed@.take(0) =~= Seq::<PropertyValueKind>::empty());
            while i < allowed.len()
                invariant
                    0 <= i <= allowed@.len(),
                    out@ == without_binary(allowed@.take(i as int)),
                decreases allowed@.len() - i,
            {
                assert(allowed@.take(i + 1).drop_last() =~= allowed@.take(i as int));
                if allowed[i] != PropertyValueKind::Binary {
                    out.push(allowed[i]);
                }
                i = i + 1;
            }
            assert(allowed@.take(i as int) =~= allowed@);
            Ok(out)
        },
    }
}

/// Whether a property value reads as a value of type `t`.
pub open spec fn parses_as<'src>(t: PropertyValueKind, raw: SpannedSegments<'src>) -> bool {
    match t {
        PropertyValueKind::Binary => true,
        PropertyValueKind::CalendarUserAddress => true,
        PropertyValueKind::Text => true,
        PropertyValueKind::Uri => true,
        PropertyValueKind::Boolean => boolean_spec(raw.bytes()) is Some,
        PropertyValueKind::Date => all_parse(split_commas(raw.bytes()), date_parser()) is Some,
        PropertyValueKind::DateTime => all_parse(split_commas(raw.bytes()), datetime_parser()) is Some,
        PropertyValueKind::Duration => all_parse(split_commas(raw.bytes()), duration_parser()) is Some,
        PropertyValueKind::Integer => all_parse(split_commas(raw.bytes()), integer_parser()) is Some,
        PropertyValueKind::Float => all_parse(split_commas(raw.bytes()), float_parser()) is Some,
        PropertyValueKind::Time => all_parse(split_commas(raw.bytes()), time_parser()) is Some,
        PropertyValueKind::UtcOffset => utc_offset_spec(raw.bytes()) is Some,
        _ => false,
    }
}

/// The value that a property value gives as type `t`, when it reads as one.
/// Lists of values are separated by commas; the span is the whole value's.
pub open spec fn value_as<'src>(
    t: PropertyValueKind,
    raw: SpannedSegments<'src>,
    v: Value<SpannedSegments<'src>>,
) -> bool {
    let span = full_span(raw.segs());
    let parts = split_commas(raw.bytes());
    match t {
        PropertyValueKind::Binary => v == Value::Binary { value: raw, span },
        PropertyValueKind::CalendarUserAddress => v == Value::CalAddress { value: raw, span },
        PropertyValueKind::Uri => v == Value::Uri { value: raw, span },
        PropertyValueKind::Text => v matches Value::Text { values, span: s } && s == span
            && values@.len() == split_comma_segs(raw.segs()).len() && forall|i: int|
            0 <= i < values@.len() ==> #[trigger] values@[i].value.segs() == split_comma_segs(
                raw.segs(),
            )[i],
        PropertyValueKind::Boolean => boolean_spec(raw.bytes()) matches Some(x) && v
            == Value::Boolean::<SpannedSegments<'src>> { value: x, span },
        PropertyValueKind::Date => all_parse(parts, date_parser()) matches Some(xs) && v matches Value::Date {
            values,
            span: s,
        } && values@ == xs && s == span,
        PropertyValueKind::DateTime => all_parse(parts, datetime_parser()) matches Some(xs)
            && v matches Value::DateTime { values, span: s } && values@ == xs && s == span,
        PropertyValueKind::Duration => all_parse(parts, duration_parser()) matches Some(xs)
            && v matches Value::Duration { values, span: s } && values@ == xs && s == span,
        PropertyValueKind::Integer => all_parse(parts, integer_parser()) matches Some(xs)
            && v matches Value::Integer { values, span: s } && values@ == xs && s == span,
        PropertyValueKind::Float => all_parse(parts, float_parser()) matches Some(xs)
            && v matches Value::Float { values, span: s } && byte_views(values@) == xs && s == span,
        PropertyValueKind::Time => all_parse(parts, time_parser()) matches Some(xs) && v matches Value::Time {
            values,
            span: s,
        } && values@ == xs && s == span,
        PropertyValueKind::UtcOffset => utc_offset_spec(raw.bytes()) matches Some(x) && v
            == Value::UtcOffset::<SpannedSegments<'src>> { value: x, span },
        _ => false,
    }
}

/// The position of the first type that the value reads as.
pub open spec fn first_parsing<'src>(ts: Seq<PropertyValueKind>, raw: SpannedSegments<'src>) -> Option<int>
    decreases ts.len(),
{
    if ts.len() == 0 {
        None
    } else {
        match first_parsing(ts.drop_last(), raw) {
            Some(i) => Some(i),
            None => if parses_as(ts.last(), raw) {
                Some(ts.len() - 1)
            } else {
                None
            },
        }
    }
}

/// The error for a value that reads as none of the types tried.
pub open spec fn value_syntax_error<'src>(raw: SpannedSegments<'src>) -> TypedError<'src> {
    TypedError::ValueSyntax { value: raw, span: full_span(raw.segs()) }
}

fn texts_of<'src>(parts: Vec<SpannedSegments<'src>>) -> (r: Vec<ValueText<SpannedSegments<'src>>>)
    ensures
        r@.len() == parts@.len(),
        forall|i: int| 0 <= i < r@.len() ==> #[trigger] r@[i].value == parts@[i],
{
    let ghost ps = parts@;
    let total = parts.len();
    let mut rest = parts;
    let mut out: Vec<ValueText<SpannedSegments<'src>>> = Vec::new();
    let mut i: usize = 0;
    while rest.len() > 0
        invariant
            0 <= i <= ps.len(),
            ps.len() == total,
            rest@ == ps.skip(i as int),
            out@.len() == i,
            forall|j: int| 0 <= j < i ==> #[trigger] out@[j].value == ps[j],
        decreases rest@.len(),
    {
        let v = rest.remove(0);
        assert(v == ps[i as int]);
        out.push(ValueText { value: v });
        assert(rest@ =~= ps.skip(i as int + 1));
        i = i + 1;
    }
    out
}

/// Read a property value as the first of the types that it reads as.
pub fn parse_values<'src>(types: &Vec<PropertyValueKind>, raw: SpannedSegments<'src>) -> (r: Result<
    Value<SpannedSegments<'src>>,
    Vec<TypedError<'src>>,
>)
    ensures
        match first_parsing(types@, raw) {
            Some(i) => r matches Ok(v) && value_as(types@[i], raw, v),
            None => r matches Err(es) && es@ == seq![value_syntax_error(raw)],
        },
{
    let bytes = raw.to_bytes();
    let span = raw.span();
    let mut i: usize = 0;
    assert(types@.take(0) =~= Seq::<PropertyValueKind>::empty());
    while i < types.len()
        invariant
            0 <= i <= types@.len(),
            bytes@ == raw.bytes(),
            span == full_span(raw.segs()),
            first_parsing(types@.take(i as int), raw) is None,
        decreases types@.len() - i,
    {
        let t = types[i];
        let ghost pre = types@.take(i as int);
        assert(types@.take(i + 1).drop_last() =~= pre);
        assert(types@.take(i + 1).last() == t);
        proof {
            lemma_first_parsing_prefix(types@, raw, i + 1);
        }
        match t {
            PropertyValueKind::Binary => {
                return Ok(Value::Binary { value: raw, span });
            },
            PropertyValueKind::CalendarUserAddress => {
                return Ok(Value::CalAddress { value: raw, span });
            },
            PropertyValueKind::Uri => {
                return Ok(Value::Uri { value: raw, span });
            },
            PropertyValueKind::Text => {
                let parts = raw.split_at_commas();
                let values = texts_of(parts);
                return Ok(Value::Text { values, span });
            },
            PropertyValueKind::Boolean => {
                if let Some(x) = parse_boolean(bytes.as_slice()) {
                    return Ok(Value::Boolean { value: x, span });
                }
            },
            PropertyValueKind::UtcOffset => {
                if let Some(x) = parse_utc_offset(bytes.as_slice()) {
                    return Ok(Value::UtcOffset { value: x, span });
                }
            },
            PropertyValueKind::Date => {
                let parts = split_bytes_at_commas(bytes.as_slice());
                if let Some(values) = parse_dates(&parts) {
                    return Ok(Value::Date { values, span });
                }
            },
            PropertyValueKind::DateTime => {
                let parts = split_bytes_at_commas(bytes.as_slice());
                if let Some(values) = parse_datetimes(&parts) {
                    return Ok(Value::DateTime { values, span });
                }
            },
            PropertyValueKind::Duration => {
                let parts = split_bytes_at_commas(bytes.as_slice());
                if let Some(values) = parse_durations(&parts) {
                    return Ok(Value::Duration { values, span });
                }
            },
            PropertyValueKind::Integer => {
                let parts = split_bytes_at_commas(bytes.as_slice());
                if let Some(values) = parse_integers(&parts) {
                    return Ok(Value::Integer { values, span });
                }
            },
            PropertyValueKind::Float => {
                let parts = split_bytes_at_commas(bytes.as_slice());
                if let Some(values) = parse_floats(&parts) {
                    return Ok(Value::Float { values, span });
                }
            },
            PropertyValueKind::Time => {
                let parts = split_bytes_at_commas(bytes.as_slice());
                if let Some(values) = parse_times(&parts) {
                    return Ok(Value::Time { values, span });
                }
            },
            _ => {},
        }
        i = i + 1;
    }
    assert(types@.take(i as int) =~= types@);
    Err(vec![TypedError::ValueSyntax { value: raw, span }])
}

/// Once the first type that reads lies in a prefix, it is the first overall;
/// and a value that reads in no type of a prefix extended by one type reads
/// first as that type, if at all.
proof fn lemma_first_parsing_prefix<'src>(ts: Seq<PropertyValueKind>, raw: SpannedSegments<'src>, n: int)
    requires
        0 <= n <= ts.len(),
    ensures
        first_parsing(ts.take(n), raw) matches Some(i) ==> first_parsing(ts, raw) == Some(i),
    decreases ts.len() - n,
{
    if n < ts.len() {
        assert(ts.take(n + 1).drop_last() =~= ts.take(n));
        lemma_first_parsing_prefix(ts, raw, n + 1);
    } else {
        assert(ts.take(n) =~= ts);
    }
}

// ---------------------------------------------------------------------------
// Typing properties and components
// ---------------------------------------------------------------------------

/// Whether `rs` are the results of typing each raw parameter.
pub open spec fn params_results<'src>(
    raws: Seq<RawParameter<SpannedSegments<'src>>>,
    rs: Seq<Result<Parameter<SpannedSegments<'src>>, Vec<TypedError<'src>>>>,
) -> bool {
    rs.len() == raws.len() && forall|i: int| 0 <= i < rs.len() ==> #[trigger] param_read(raws[i], rs[i])
}

/// The parameters of the results that succeeded, in order.
pub open spec fn ok_params<'src>(rs: Seq<Result<Parameter<SpannedSegments<'src>>, Vec<TypedError<'src>>>>) -> Seq<
    Parameter<SpannedSegments<'src>>,
>
    decreases rs.len(),
{
    if rs.len() == 0 {
        Seq::empty()
    } else {
        match rs.last() {
            Ok(p) => ok_params(rs.drop_last()).push(p),
            Err(_) => ok_params(rs.drop_last()),
        }
    }
}

/// The errors of the results that failed, in order.
pub open spec fn result_errors<'src, T>(rs: Seq<Result<T, Vec<TypedError<'src>>>>) -> Seq<TypedError<'src>>
    decreases rs.len(),
{
    if rs.len() == 0 {
        Seq::empty()
    } else {
        match rs.last() {
            Ok(_) => result_errors(rs.drop_last()),
            Err(es) => result_errors(rs.drop_last()) + es@,
        }
    }
}

/// Type each raw parameter; all their errors together when any fails.
pub fn parameters<'src>(params: Vec<RawParameter<SpannedSegments<'src>>>) -> (r: Result<
    Vec<Parameter<SpannedSegments<'src>>>,
    Vec<TypedError<'src>>,
>)
    ensures
        exists|rs: Seq<Result<Parameter<SpannedSegments<'src>>, Vec<TypedError<'src>>>>|
            #[trigger] params_results(params@, rs) && match r {
                Ok(ps) => result_errors(rs).len() == 0 && ps@ == ok_params(rs),
                Err(es) => result_errors(rs).len() > 0 && es@ == result_errors(rs),
            },
{
    let ghost raws = params@;
    let total = params.len();
    let mut rest = params;
    let mut parsed: Vec<Parameter<SpannedSegments<'src>>> = Vec::new();
    let mut errors: Vec<TypedError<'src>> = Vec::new();
    let ghost mut rs: Seq<Result<Parameter<SpannedSegments<'src>>, Vec<TypedError<'src>>>> = Seq::empty();
    let mut i: usize = 0;
    while rest.len() > 0
        invariant
            0 <= i <= raws.len(),
            raws.len() == total,
            rest@ == raws.skip(i as int),
            params_results(raws.take(i as int), rs),
            parsed@ == ok_params(rs),
            errors@ == result_errors(rs),
        decreases rest@.len(),
    {
        let raw = rest.remove(0);
        assert(raw == raws[i as int]);
        let res = Parameter::try_from(raw);
        let ghost g = res;
        let ghost old_rs = rs;
        proof {
            rs = rs.push(g);
        }
        assert(rs.drop_last() =~= old_rs);
        match res {
            Ok(p) => {
                parsed.push(p);
            },
            Err(mut es) => {
                errors.append(&mut es);
            },
        }
        assert(raws.take(i as int + 1) =~= raws.take(i as int).push(raws[i as int]));
        assert forall|j: int| 0 <= j < rs.len() implies #[trigger] param_read(raws.take(i as int + 1)[j], rs[j]) by {
            if j < i {
                assert(raws.take(i as int + 1)[j] == raws.take(i as int)[j]);
                assert(rs[j] == old_rs[j]);
            }
        }
        assert(rest@ =~= raws.skip(i as int + 1));
        i = i + 1;
    }
    assert(raws.take(i as int) =~= raws);
    if errors.len() == 0 {
        Ok(parsed)
    } else {
        Err(errors)
    }
}

/// The value types to try for a property, or `None` when its `VALUE`
/// parameter names a type the property does not allow.
pub open spec fn value_types_spec<'src>(
    kind: PropertyKindRef<'src>,
    params: Seq<Parameter<SpannedSegments<'src>>>,
) -> Option<Seq<PropertyValueKind>> {
    match first_param(params, ParameterKind::ValueType) {
        Some(Parameter::ValueType { value: t, .. }) => if allowed_types(kind).contains(t) {
            Some(seq![t])
        } else {
            None
        },
        _ => Some(without_binary(allowed_types(kind))),
    }
}

/// The error for a `VALUE` parameter that names a type the property does
/// not allow.
pub open spec fn disallowed_errors<'src>(
    es: Seq<TypedError<'src>>,
    kind: PropertyKindRef<'src>,
    params: Seq<Parameter<SpannedSegments<'src>>>,
) -> bool {
    match first_param(params, ParameterKind::ValueType) {
        Some(Parameter::ValueType { value: t, span }) => es.len() == 1 && disallowed_type_error(
            es[0],
            kind,
            t,
            span,
        ),
        _ => false,
    }
}

/// What typing a raw property gives: its kind from its name, its typed
/// parameters, and its value read as the first of the types to try.
pub open spec fn property_typed<'src>(
    prop: RawProperty<'src>,
    r: Result<ParsedProperty<'src>, Vec<TypedError<'src>>>,
) -> bool {
    exists|rs: Seq<Result<Parameter<SpannedSegments<'src>>, Vec<TypedError<'src>>>>|
        #[trigger] params_results(prop.parameters@, rs) && if result_errors(rs).len() > 0 {
            r matches Err(es) && es@ == result_errors(rs)
        } else {
            match value_types_spec(kind_from_name(prop.name), ok_params(rs)) {
                None => r matches Err(es) && disallowed_errors(
                    es@,
                    kind_from_name(prop.name),
                    ok_params(rs),
                ),
                Some(ts) => match first_parsing(ts, prop.value) {
                    None => r matches Err(es) && es@ == seq![value_syntax_error(prop.value)],
                    Some(i) => r matches Ok(p) && p.kind@ == kind_from_name(prop.name)@ && p.name
                        == prop.name && p.span == full_span(prop.name.segs()) && p.parameters@
                        == ok_params(rs) && value_as(ts[i], prop.value, p.value),
                },
            }
        }
}

/// Type a raw property.
pub fn parsed_property<'src>(prop: RawProperty<'src>) -> (r: Result<ParsedProperty<'src>, Vec<TypedError<'src>>>)
    ensures
        property_typed(prop, r),
{
    let ghost orig = prop;
    let name_copy = prop.name.clone();
    let kind = PropertyKind::from_name(name_copy);
    assert(kind@ == kind_from_name(prop.name)@);
    let parameters = match parameters(prop.parameters) {
        Ok(ps) => ps,
        Err(es) => {
            return Err(es);
        },
    };
    let types = match value_types(&kind, &parameters) {
        Ok(ts) => ts,
        Err(es) => {
            assert(allowed_types(kind) == allowed_types(kind_from_name(orig.name)));
            return Err(es);
        },
    };
    assert(allowed_types(kind) == allowed_types(kind_from_name(orig.name)));
    let value = parse_values(&types, prop.value)?;
    let span = prop.name.span();
    Ok(ParsedProperty { kind, parameters, value, span, name: prop.name })
}

/// A typed iCalendar component with validated properties and nested child components.
#[derive(Debug)]
pub struct TypedComponent<'src> {
    /// Component name (e.g., "VCALENDAR", "VEVENT", "VTIMEZONE", "VALARM")
    pub name: SpannedSegments<'src>,
    /// Properties in original order
    pub properties: Vec<Property<'src>>,
    /// Nested child components
    pub children: Vec<TypedComponent<'src>>,
    /// The span of the component in the source
    pub span: Span,
}

/// Whether a raw property types without error.
pub open spec fn property_ok<'src>(prop: RawProperty<'src>) -> bool {
    exists|rs: Seq<Result<Parameter<SpannedSegments<'src>>, Vec<TypedError<'src>>>>|
        #[trigger] params_results(prop.parameters@, rs) && result_errors(rs).len() == 0 && (
        value_types_spec(kind_from_name(prop.name), ok_params(rs)) matches Some(ts) && first_parsing(
            ts,
            prop.value,
        ) is Some)
}

/// A typed property succeeds exactly when the property types without error,
/// and a failed one reports at least one error.
proof fn lemma_property_typed_ok<'src>(
    prop: RawProperty<'src>,
    r: Result<ParsedProperty<'src>, Vec<TypedError<'src>>>,
)
    requires
        property_typed(prop, r),
    ensures
        (r is Ok) == property_ok(prop),
        r matches Err(es) ==> es@.len() > 0,
{
    let rs = choose|rs: Seq<Result<Parameter<SpannedSegments<'src>>, Vec<TypedError<'src>>>>|
        #[trigger] params_results(prop.parameters@, rs) && if result_errors(rs).len() > 0 {
            r matches Err(es) && es@ == result_errors(rs)
        } else {
            match value_types_spec(kind_from_name(prop.name), ok_params(rs)) {
                None => r matches Err(es) && disallowed_errors(es@, kind_from_name(prop.name), ok_params(rs)),
                Some(ts) => match first_parsing(ts, prop.value) {
                    None => r matches Err(es) && es@ == seq![value_syntax_error(prop.value)],
                    Some(i) => r matches Ok(p) && p.kind@ == kind_from_name(prop.name)@ && p.name
                        == prop.name && p.span == full_span(prop.name.segs()) && p.parameters@
                        == ok_params(rs) && value_as(ts[i], prop.value, p.value),
                },
            }
        };
    if property_ok(prop) {
        let rs2 = choose|rs2: Seq<Result<Parameter<SpannedSegments<'src>>, Vec<TypedError<'src>>>>|
            #[trigger] params_results(prop.parameters@, rs2) && result_errors(rs2).len() == 0 && (
            value_types_spec(kind_from_name(prop.name), ok_params(rs2)) matches Some(ts) && first_parsing(
                ts,
                prop.value,
            ) is Some);
        lemma_results_agree(prop.parameters@, rs, rs2);
    }
}

/// Two result sequences for the same raw parameters fail alike, and the
/// parameters that succeed agree in every respect that typing a property
/// reads.
proof fn lemma_results_agree<'src>(
    raws: Seq<RawParameter<SpannedSegments<'src>>>,
    a: Seq<Result<Parameter<SpannedSegments<'src>>, Vec<TypedError<'src>>>>,
    b: Seq<Result<Parameter<SpannedSegments<'src>>, Vec<TypedError<'src>>>>,
)
    requires
        params_results(raws, a),
        params_results(raws, b),
    ensures
        (result_errors(a).len() == 0) == (result_errors(b).len() == 0),
        first_param(ok_params(a), ParameterKind::ValueType) == first_param(ok_params(b), ParameterKind::ValueType),
    decreases raws.len(),
{
    if raws.len() > 0 {
        let n = raws.len() - 1;
        assert(params_results(raws.drop_last(), a.drop_last()));
        assert(params_results(raws.drop_last(), b.drop_last()));
        lemma_results_agree(raws.drop_last(), a.drop_last(), b.drop_last());
        assert(param_read(raws[n], a[n]));
        assert(param_read(raws[n], b[n]));
        lemma_param_read_det(raws[n], a[n], b[n]);
        assert(a.last() == a[n] && b.last() == b[n]);
        match (a[n], b[n]) {
            (Ok(p), Ok(q)) => {
                let oa = ok_params(a.drop_last());
                let ob = ok_params(b.drop_last());
                assert(ok_params(a) == oa.push(p));
                assert(ok_params(b) == ob.push(q));
                assert(oa.push(p).drop_last() =~= oa);
                assert(ob.push(q).drop_last() =~= ob);
            },
            _ => {},
        }
    }
}

/// Typing a raw parameter fails alike whatever its result, and what
/// succeeds has the same kind, and is the same parameter for `VALUE`.
proof fn lemma_param_read_det<'src>(
    raw: RawParameter<SpannedSegments<'src>>,
    x: Result<Parameter<SpannedSegments<'src>>, Vec<TypedError<'src>>>,
    y: Result<Parameter<SpannedSegments<'src>>, Vec<TypedError<'src>>>,
)
    requires
        param_read(raw, x),
        param_read(raw, y),
    ensures
        (x is Ok) == (y is Ok),
        x matches Err(e1) ==> (y matches Err(e2) && e1@ == e2@),
        x matches Ok(p) ==> (y matches Ok(q) && param_kind(p) == param_kind(q) && (param_kind(p)
            == ParameterKind::ValueType ==> p == q)),
{
}

/// Whether each raw property types without error.
pub open spec fn props_ok<'src>(ps: Seq<RawProperty<'src>>) -> bool
    decreases ps.len(),
{
    ps.len() == 0 || (props_ok(ps.drop_last()) && property_ok(ps.last()))
}

/// Whether `q` is what a raw property converts to: its typed form,
/// converted to the property of its kind.
pub open spec fn property_converts<'src>(prop: RawProperty<'src>, q: Property<'src>) -> bool {
    exists|p: ParsedProperty<'src>| #[trigger] property_typed(prop, Ok(p)) && property_result(p, Ok(q))
}

/// Whether converting a raw property fails: typing it fails, or the
/// conversion of its kind refuses its typed form.
pub open spec fn property_fails<'src>(prop: RawProperty<'src>) -> bool {
    !property_ok(prop) || exists|p: ParsedProperty<'src>, es: Vec<TypedError<'src>>|
        #![trigger property_typed(prop, Ok(p)), property_result(p, Err(es))]
        property_typed(prop, Ok(p)) && property_result(p, Err(es))
}

/// Whether `qs` are the converted properties of `ps`, one by one.
pub open spec fn props_match<'src>(ps: Seq<RawProperty<'src>>, qs: Seq<Property<'src>>) -> bool
    decreases ps.len(),
{
    ps.len() == qs.len() && (ps.len() == 0 || (props_match(ps.drop_last(), qs.drop_last())
        && property_converts(ps.last(), qs.last())))
}

/// Whether converting some raw property fails.
pub open spec fn props_fail<'src>(ps: Seq<RawProperty<'src>>) -> bool
    decreases ps.len(),
{
    ps.len() > 0 && (props_fail(ps.drop_last()) || property_fails(ps.last()))
}

/// Whether a raw component, its properties and all its descendants type
/// without error.
pub open spec fn component_ok<'src>(comp: RawComponent<'src>) -> bool
    decreases comp.children@, 1int,
{
    props_ok(comp.properties@) && children_ok(comp.children@)
}

/// Whether each raw component types without error.
pub open spec fn children_ok<'src>(cs: Seq<RawComponent<'src>>) -> bool
    decreases cs, 0int,
{
    cs.len() == 0 || (children_ok(cs.drop_last()) && component_ok(cs.last()))
}

/// Whether converting a property of a component or of a descendant fails.
pub open spec fn component_fails<'src>(comp: RawComponent<'src>) -> bool
    decreases comp.children@, 1int,
{
    props_fail(comp.properties@) || children_fail(comp.children@)
}

/// Whether converting some component of a list fails.
pub open spec fn children_fail<'src>(cs: Seq<RawComponent<'src>>) -> bool
    decreases cs, 0int,
{
    cs.len() > 0 && (children_fail(cs.drop_last()) || component_fails(cs.last()))
}

/// Whether `tc` is the typed form of `comp`: the same name, its properties
/// converted one by one and its children likewise, recursively.
pub open spec fn component_result<'src>(comp: RawComponent<'src>, tc: TypedComponent<'src>) -> bool
    decreases comp.children@, 1int,
{
    tc.name == comp.name && tc.span == comp.span && props_match(comp.properties@, tc.properties@)
        && children_match(comp.children@, tc.children@)
}

/// Whether `ts` are the typed forms of `cs`, one by one.
pub open spec fn children_match<'src>(cs: Seq<RawComponent<'src>>, ts: Seq<TypedComponent<'src>>) -> bool
    decreases cs, 0int,
{
    ts.len() == cs.len() && (cs.len() == 0 || (children_match(cs.drop_last(), ts.drop_last())
        && component_result(cs.last(), ts.last())))
}

/// The errors of typing one raw property: those of typing it, or those of
/// converting its typed form; none when it converts.
pub open spec fn prop_errors<'src>(prop: RawProperty<'src>, es: Seq<TypedError<'src>>) -> bool {
    ||| exists|e: Vec<TypedError<'src>>| #[trigger] property_typed(prop, Err(e)) && e@ == es
    ||| exists|p: ParsedProperty<'src>, e: Vec<TypedError<'src>>|
        #![trigger property_typed(prop, Ok(p)), property_result(p, Err(e))]
        property_typed(prop, Ok(p)) && property_result(p, Err(e)) && e@ == es
    ||| es.len() == 0 && exists|q: Property<'src>| #[trigger] property_converts(prop, q)
}

/// The lists joined in order.
pub open spec fn concat_all<'src>(parts: Seq<Seq<TypedError<'src>>>) -> Seq<TypedError<'src>>
    decreases parts.len(),
{
    if parts.len() == 0 {
        Seq::empty()
    } else {
        concat_all(parts.drop_last()) + parts.last()
    }
}

/// Whether `es` are the errors of the properties: those of each property,
/// in order.
pub open spec fn errors_of<'src>(ps: Seq<RawProperty<'src>>, es: Seq<TypedError<'src>>) -> bool {
    exists|parts: Seq<Seq<TypedError<'src>>>|
        #[trigger] concat_all(parts) == es && parts.len() == ps.len() && forall|i: int|
            0 <= i < ps.len() ==> #[trigger] prop_errors(ps[i], parts[i])
}

/// The properties of a component and of all its descendants: its own,
/// then those of each child in turn.
pub open spec fn subtree_props<'src>(comp: RawComponent<'src>) -> Seq<RawProperty<'src>>
    decreases comp.children@, 1int,
{
    comp.properties@ + forest_props(comp.children@)
}

/// The properties of components and of their descendants, component by
/// component.
pub open spec fn forest_props<'src>(cs: Seq<RawComponent<'src>>) -> Seq<RawProperty<'src>>
    decreases cs, 0int,
{
    if cs.len() == 0 {
        Seq::empty()
    } else {
        forest_props(cs.drop_last()) + subtree_props(cs.last())
    }
}

/// Joining two runs of lists joins what they give.
proof fn lemma_concat_all_add<'src>(a: Seq<Seq<TypedError<'src>>>, b: Seq<Seq<TypedError<'src>>>)
    ensures
        concat_all(a + b) == concat_all(a) + concat_all(b),
    decreases b.len(),
{
    if b.len() == 0 {
        assert(a + b =~= a);
        assert(concat_all(a) + concat_all(b) =~= concat_all(a));
    } else {
        assert((a + b).drop_last() =~= a + b.drop_last());
        lemma_concat_all_add(a, b.drop_last());
        assert(concat_all(a) + concat_all(b.drop_last()) + b.last() =~= concat_all(a) + (concat_all(b.drop_last())
            + b.last()));
    }
}

/// No properties give no errors.
proof fn lemma_errors_of_empty<'src>(ps: Seq<RawProperty<'src>>)
    requires
        ps.len() == 0,
    ensures
        errors_of(ps, Seq::empty()),
{
    let parts = Seq::<Seq<TypedError<'src>>>::empty();
    assert(concat_all(parts) == Seq::<TypedError<'src>>::empty());
}

/// One property gives its own errors.
proof fn lemma_errors_of_one<'src>(prop: RawProperty<'src>, part: Seq<TypedError<'src>>)
    requires
        prop_errors(prop, part),
    ensures
        errors_of(seq![prop], part),
{
    let parts = seq![part];
    assert(parts.drop_last() =~= Seq::<Seq<TypedError<'src>>>::empty());
    assert(concat_all(parts.drop_last()) == Seq::<TypedError<'src>>::empty());
    assert(parts.last() == part);
    assert(Seq::<TypedError<'src>>::empty() + part =~= part);
    assert(concat_all(parts) == part);
    assert(seq![prop][0] == prop);
}

/// The errors of two runs of properties, joined.
proof fn lemma_errors_of_add<'src>(
    a: Seq<RawProperty<'src>>,
    x: Seq<TypedError<'src>>,
    b: Seq<RawProperty<'src>>,
    y: Seq<TypedError<'src>>,
)
    requires
        errors_of(a, x),
        errors_of(b, y),
    ensures
        errors_of(a + b, x + y),
{
    let pa = choose|parts: Seq<Seq<TypedError<'src>>>|
        #[trigger] concat_all(parts) == x && parts.len() == a.len() && forall|i: int|
            0 <= i < a.len() ==> #[trigger] prop_errors(a[i], parts[i]);
    let pb = choose|parts: Seq<Seq<TypedError<'src>>>|
        #[trigger] concat_all(parts) == y && parts.len() == b.len() && forall|i: int|
            0 <= i < b.len() ==> #[trigger] prop_errors(b[i], parts[i]);
    lemma_concat_all_add(pa, pb);
    let parts = pa + pb;
    assert forall|i: int| 0 <= i < (a + b).len() implies #[trigger] prop_errors((a + b)[i], parts[i]) by {
        if i < a.len() {
            assert((a + b)[i] == a[i] && parts[i] == pa[i]);
        } else {
            assert((a + b)[i] == b[i - a.len()] && parts[i] == pb[i - a.len()]);
        }
    }
    assert(concat_all(parts) == x + y);
}

/// Type a raw component: each property typed and converted to the property
/// of its kind, and, recursively, its children. It succeeds when all of them
/// do; otherwise it gives the errors of every property of the component and
/// of its descendants, in order (its own properties, then each child's), and
/// some property of the component or of a descendant fails.
pub fn typed_component<'src>(comp: RawComponent<'src>) -> (r: Result<TypedComponent<'src>, Vec<TypedError<'src>>>)
    ensures
        !component_ok(comp) ==> r is Err,
        r matches Ok(tc) ==> component_ok(comp) && component_result(comp, tc) && errors_of(
            subtree_props(comp),
            Seq::empty(),
        ),
        r is Err ==> component_fails(comp),
        r matches Err(es) ==> errors_of(subtree_props(comp), es@),
    decreases comp,
{
    let ghost orig = comp;
    let RawComponent { name, properties, children, span } = comp;
    let ghost props = properties@;
    let ghost kids = children@;
    let mut errors: Vec<TypedError<'src>> = Vec::new();
    let mut failed = false;
    let mut typed_props: Vec<Property<'src>> = Vec::new();
    let total = properties.len();
    let mut rest = properties;
    let mut i: usize = 0;
    assert(props.take(0) =~= Seq::<RawProperty<'src>>::empty());
    proof {
        lemma_errors_of_empty(props.take(0));
    }
    while rest.len() > 0
        invariant
            0 <= i <= props.len(),
            props.len() == total,
            rest@ == props.skip(i as int),
            !failed ==> props_ok(props.take(i as int)) && props_match(props.take(i as int), typed_props@),
            failed ==> props_fail(props.take(i as int)),
            !props_ok(props.take(i as int)) ==> failed,
            errors_of(props.take(i as int), errors@),
            !failed ==> errors@.len() == 0,
        decreases rest@.len(),
    {
        let ghost old_errors = errors@;
        let prop = rest.remove(0);
        assert(prop == props[i as int]);
        let ghost pre = props.take(i as int);
        assert(props.take(i + 1).drop_last() =~= pre);
        assert(props.take(i + 1).last() == prop);
        let res = parsed_property(prop);
        proof {
            lemma_property_typed_ok(prop, res);
        }
        let ghost old_typed = typed_props@;
        match res {
            Ok(p) => {
                let ghost pp = p;
                assert(property_typed(prop, Ok(pp)));
                match Property::try_from(p) {
                    Ok(q) => {
                        assert(property_converts(prop, q));
                        typed_props.push(q);
                        assert(typed_props@.drop_last() =~= old_typed);
                        assert(prop_errors(prop, errors@.skip(old_errors.len() as int))) by {
                            reveal(prop_errors);
                        }
                    },
                    Err(mut es) => {
                        let ghost e0 = es;
                        assert(property_typed(prop, Ok(pp)) && property_result(pp, Err(e0)));
                        assert(property_fails(prop));
                        errors.append(&mut es);
                        failed = true;
                        assert(errors@.skip(old_errors.len() as int) =~= e0@);
                        assert(prop_errors(prop, errors@.skip(old_errors.len() as int))) by {
                            reveal(prop_errors);
                        }
                    },
                }
            },
            Err(mut es) => {
                let ghost e0 = es;
                errors.append(&mut es);
                failed = true;
                assert(errors@.skip(old_errors.len() as int) =~= e0@);
                assert(prop_errors(prop, errors@.skip(old_errors.len() as int))) by {
                    reveal(prop_errors);
                }
            },
        }
        proof {
            let part = errors@.skip(old_errors.len() as int);
            assert(errors@ =~= old_errors + part);
            assert(props.take(i + 1) =~= pre + seq![prop]);
            lemma_errors_of_one(prop, part);
            lemma_errors_of_add(pre, old_errors, seq![prop], part);
        }
        assert(rest@ =~= props.skip(i as int + 1));
        i = i + 1;
    }
    assert(props.take(i as int) =~= props);
    let ghost k0 = errors@.len() as int;
    assert(props + forest_props(kids.take(0)) =~= props);
    let mut typed_children: Vec<TypedComponent<'src>> = Vec::new();
    let total_children = children.len();
    let mut rest_children = children;
    let mut k: usize = 0;
    let ghost props_failed = failed;
    assert(kids.take(0) =~= Seq::<RawComponent<'src>>::empty());
    while rest_children.len() > 0
        invariant
            0 <= k <= kids.len(),
            kids == orig.children@,
            orig == comp,
            kids.len() == total_children,
            rest_children@ == kids.skip(k as int),
            !failed ==> props_ok(props) && props_match(props, typed_props@) && children_ok(kids.take(k as int))
                && children_match(kids.take(k as int), typed_children@),
            failed ==> props_fail(props) || children_fail(kids.take(k as int)),
            !(props_ok(props) && children_ok(kids.take(k as int))) ==> failed,
            0 <= k0 <= errors@.len(),
            props == orig.properties@,
            errors_of(props + forest_props(kids.take(k as int)), errors@),
            !failed ==> errors@.len() == 0,
        decreases rest_children@.len(),
    {
        let ghost old_errors = errors@;
        let child = rest_children.remove(0);
        assert(child == kids[k as int]);
        assert(decreases_to!(comp => child)) by {
            assert(decreases_to!(comp => comp.children));
            assert(decreases_to!(comp.children => comp.children@));
            assert(decreases_to!(comp.children@ => comp.children@[k as int]));
        }
        let ghost pre = kids.take(k as int);
        assert(kids.take(k + 1).drop_last() =~= pre);
        assert(kids.take(k + 1).last() == child);
        let res = typed_component(child);
        let ghost old_typed = typed_children@;
        match res {
            Ok(c) => {
                typed_children.push(c);
                assert(typed_children@.drop_last() =~= old_typed);
                assert(errors@.skip(old_errors.len() as int) =~= Seq::<TypedError<'src>>::empty());
            },
            Err(mut es) => {
                let ghost e0 = es;
                errors.append(&mut es);
                failed = true;
                assert(errors@.skip(old_errors.len() as int) =~= e0@);
            },
        }
        proof {
            let part = errors@.skip(old_errors.len() as int);
            assert(errors@ =~= old_errors + part);
            assert(kids.take(k + 1).drop_last() =~= pre);
            assert(props + forest_props(kids.take(k + 1)) =~= (props + forest_props(pre)) + subtree_props(child));
            lemma_errors_of_add(props + forest_props(pre), old_errors, subtree_props(child), part);
        }
        assert(rest_children@ =~= kids.skip(k as int + 1));
        k = k + 1;
    }
    assert(kids.take(k as int) =~= kids);
    assert(props + forest_props(kids) == subtree_props(orig));
    if !failed {
        assert(errors@ =~= Seq::<TypedError<'src>>::empty());
        Ok(TypedComponent { name, span, properties: typed_props, children: typed_children })
    } else {
        Err(errors)
    }
}

/// Perform typed analysis on raw components, returning typed components or errors.
///
/// ## Errors
/// If there are typing errors, the errors of every property of every
/// component, in order, are returned.
pub fn typed_analysis<'src>(components: Vec<RawComponent<'src>>) -> (r: Result<
    Vec<TypedComponent<'src>>,
    Vec<TypedError<'src>>,
>)
    ensures
        !children_ok(components@) ==> r is Err,
        r matches Ok(tcs) ==> children_ok(components@) && children_match(components@, tcs@),
        r is Err ==> children_fail(components@),
        r matches Err(es) ==> errors_of(forest_props(components@), es@),
{
    let ghost comps = components@;
    let total = components.len();
    let mut rest = components;
    let mut typed: Vec<TypedComponent<'src>> = Vec::new();
    let mut errors: Vec<TypedError<'src>> = Vec::new();
    let mut failed = false;
    let mut i: usize = 0;
    assert(comps.take(0) =~= Seq::<RawComponent<'src>>::empty());
    proof {
        lemma_errors_of_empty(forest_props(comps.take(0)));
    }
    while rest.len() > 0
        invariant
            0 <= i <= comps.len(),
            comps.len() == total,
            rest@ == comps.skip(i as int),
            !failed ==> children_ok(comps.take(i as int)) && children_match(comps.take(i as int), typed@),
            failed ==> children_fail(comps.take(i as int)),
            !children_ok(comps.take(i as int)) ==> failed,
            errors_of(forest_props(comps.take(i as int)), errors@),
        decreases rest@.len(),
    {
        let ghost old_errors = errors@;
        let comp = rest.remove(0);
        assert(comp == comps[i as int]);
        let ghost pre = comps.take(i as int);
        assert(comps.take(i + 1).drop_last() =~= pre);
        assert(comps.take(i + 1).last() == comp);
        let res = typed_component(comp);
        let ghost old_typed = typed@;
        match res {
            Ok(c) => {
                typed.push(c);
                assert(typed@.drop_last() =~= old_typed);
                assert(errors@.skip(old_errors.len() as int) =~= Seq::<TypedError<'src>>::empty());
            },
            Err(mut es) => {
                let ghost e0 = es;
                errors.append(&mut es);
                failed = true;
                assert(errors@.skip(old_errors.len() as int) =~= e0@);
            },
        }
        proof {
            let part = errors@.skip(old_errors.len() as int);
            assert(errors@ =~= old_errors + part);
            assert(comps.take(i + 1).drop_last() =~= pre);
            lemma_errors_of_add(forest_props(pre), old_errors, subtree_props(comp), part);
        }
        assert(rest@ =~= comps.skip(i as int + 1));
        i = i + 1;
    }
    assert(comps.take(i as int) =~= comps);
    if !failed {
        Ok(typed)
    } else {
        Err(errors)
    }
}

} // verus!
