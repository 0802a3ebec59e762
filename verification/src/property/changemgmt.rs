//! Change Management Component Properties (RFC 5545 Section 3.8.7)
//!
//! - 3.8.7.4: `Sequence` - Revision sequence number

use vstd::prelude::*;
use vstd::string::StringExecFns;

use crate::parameter::{Parameter, ParameterKind};
use crate::property::alarm::invalid_value_error;
use crate::property::common::expect_one;
use crate::property::common::{
    invalid_count_error, no_claims, params_agree, params_to_owned, raw_params_agree,
    raw_params_to_owned, retained_params, sort_parameters, take_single_value, x_params,
};
use crate::property::relationship::unexpected_kind;
use crate::property::{PropertyKind, PropertyKindRef, PropertyValueKind};
use crate::string_storage::{Span, SpannedSegments, StringStorage};
use crate::syntax::RawParameter;
use crate::typed::{ParsedProperty, TypedError, append_i32, int_decimal};
use crate::value::{Value, value_kind, value_len, value_span};

verus! {

/// Sequence Number (RFC 5545 Section 3.8.7.4)
///
/// This property defines the revision sequence number for the calendar component.
#[derive(Debug)]
pub struct Sequence<S: StringStorage> {
    /// Sequence number
    pub value: u32,
    /// X-name parameters (custom experimental parameters)
    pub x_parameters: Vec<RawParameter<S>>,
    /// Unrecognized / Non-standard parameters (preserved for round-trip)
    pub retained_parameters: Vec<Parameter<S>>,
    /// Span of the property in the source
    pub span: S::Span,
}

/// The errors for a `SEQUENCE` value that is not one non-negative integer.
pub open spec fn sequence_errors<'src>(
    es: Seq<TypedError<'src>>,
    kind: PropertyKindRef<'src>,
    value: Value<SpannedSegments<'src>>,
    prop_span: Span,
) -> bool {
    &&& es.len() == 1
    &&& if value_len(value) != 1 {
        invalid_count_error(es[0], kind, value_len(value), value_span(value))
    } else {
        match value {
            Value::Integer { values, .. } => invalid_value_error(
                es[0],
                kind,
                "Sequence must be non-negative: "@ + int_decimal(values@[0] as int),
                prop_span,
            ),
            _ => es[0] matches TypedError::PropertyUnexpectedValue { property, expected, found, span }
                && property@ == kind@ && expected@ == seq![PropertyValueKind::Integer] && found == value_kind(
                value,
            ) && span == value_span(value),
        }
    }
}

/// What converting a property to `Sequence` gives.
pub open spec fn sequence_result<'src>(
    prop: ParsedProperty<'src>,
    r: Result<Sequence<SpannedSegments<'src>>, Vec<TypedError<'src>>>,
) -> bool {
    &&& !(prop.kind is Sequence) ==> (r matches Err(es) && es@ == seq![
        unexpected_kind(PropertyKind::Sequence, prop.kind, prop.span),
    ])
    &&& prop.kind is Sequence ==> (r is Ok) == (prop.value matches Value::Integer { values, .. }
        && values@.len() == 1 && values@[0] >= 0)
    &&& prop.kind is Sequence ==> (r matches Ok(s) ==> prop.value matches Value::Integer {
        values,
        ..
    } && s.value == values@[0] && s.x_parameters@ == x_params(prop.parameters@)
        && s.retained_parameters@ == retained_params(prop.parameters@, no_claims()))
    &&& prop.kind is Sequence ==> (r matches Err(es) ==> sequence_errors(
        es@,
        prop.kind,
        prop.value,
        prop.span,
    ))
    &&& (r matches Ok(x) ==> x.span == prop.span)
}

impl<'src> Sequence<SpannedSegments<'src>> {
    /// The property kind of `SEQUENCE`.
    pub fn kind() -> (r: PropertyKindRef<'src>)
        ensures
            r is Sequence,
    {
        PropertyKind::Sequence
    }

    /// Convert a `SEQUENCE` property: a single non-negative integer.
    pub fn try_from(prop: ParsedProperty<'src>) -> (r: Result<Self, Vec<TypedError<'src>>>)
        ensures
            sequence_result(prop, r),
    {
        if !matches!(prop.kind, PropertyKind::Sequence) {
            let span = prop.span;
            let es = vec![TypedError::PropertyUnexpectedKind { expected: PropertyKind::Sequence, found: prop.kind, span }];
            assert(es@ =~= seq![unexpected_kind(PropertyKind::Sequence, prop.kind, prop.span)]);
            return Err(es);
        }
        let claimed: Vec<ParameterKind> = Vec::new();
        assert(claimed@ =~= no_claims());
        let sorted = sort_parameters(prop.parameters, &claimed);
        match take_single_value(&PropertyKind::Sequence, prop.value) {
            Ok(Value::Integer { mut values, .. }) => {
                let value = values.pop().unwrap();
                if value < 0 {
                    let mut message = "Sequence must be non-negative: ".to_owned();
                    append_i32(&mut message, value);
                    return Err(
                        vec![TypedError::PropertyInvalidValue { property: PropertyKind::Sequence, value: message, span: prop.span }],
                    );
                }
                Ok(Sequence {
                    value: value as u32,
                    x_parameters: sorted.x_parameters,
                    retained_parameters: sorted.retained,
                    span: prop.span,
                })
            },
            Ok(v) => {
                let span = v.span();
                Err(
                    vec![TypedError::PropertyUnexpectedValue { property: prop.kind, expected: expect_one(PropertyValueKind::Integer), found: v.kind(), span }],
                )
            },
            Err(e) => Err(e),
        }
    }

    /// Convert borrowed `Sequence` to owned `Sequence`
    pub fn to_owned(&self) -> (r: Sequence<String>)
        ensures
            r.value == self.value,
            raw_params_agree(r.x_parameters@, self.x_parameters@),
            params_agree(r.retained_parameters@, self.retained_parameters@),
    {
        Sequence {
            value: self.value,
            x_parameters: raw_params_to_owned(&self.x_parameters),
            retained_parameters: params_to_owned(&self.retained_parameters),
            span: (),
        }
    }
}

} // verus!
