//! Time Zone Component Properties (RFC 5545 Section 3.8.3)
//!
//! - 3.8.3.3: `TzOffsetFrom` - Time zone offset from
//! - 3.8.3.4: `TzOffsetTo` - Time zone offset to

use vstd::prelude::*;

use crate::parameter::{Parameter, ParameterKind};
use crate::property::common::expect_one;
use crate::property::common::{
    no_claims, params_agree, params_to_owned, raw_params_agree, raw_params_to_owned,
    retained_params, sort_parameters, take_single_value, x_params,
};
use crate::property::datetime::single_of_type_errors;
use crate::property::PropertyValueKind;
use crate::string_storage::{SpannedSegments, StringStorage};
use crate::syntax::RawParameter;
use crate::typed::{ParsedProperty, TypedError};
use crate::value::{Value, ValueUtcOffset};

verus! {

/// UTC offset property with parameters (RFC 5545 Section 3.8.3.3 & 3.8.3.4)
#[derive(Debug)]
pub struct UtcOffsetProperty<S: StringStorage> {
    /// UTC offset value
    pub value: ValueUtcOffset,
    /// X-name parameters (custom experimental parameters)
    pub x_parameters: Vec<RawParameter<S>>,
    /// Unrecognized / Non-standard parameters (preserved for round-trip)
    pub retained_parameters: Vec<Parameter<S>>,
    /// Span of the property in the source
    pub span: S::Span,
}

/// What converting a property to `UtcOffsetProperty` gives.
pub open spec fn utc_offset_property_result<'src>(
    prop: ParsedProperty<'src>,
    r: Result<UtcOffsetProperty<SpannedSegments<'src>>, Vec<TypedError<'src>>>,
) -> bool {
    &&& (r is Ok) == (prop.value is UtcOffset)
    &&& r matches Ok(u) ==> prop.value matches Value::UtcOffset { value, .. } && u.value == value
        && u.x_parameters@ == x_params(prop.parameters@) && u.retained_parameters@
        == retained_params(prop.parameters@, no_claims())
    &&& r matches Err(es) ==> single_of_type_errors(
        es@,
        prop.kind,
        prop.value,
        PropertyValueKind::UtcOffset,
    )
    &&& (r matches Ok(x) ==> x.span == prop.span)
}

impl<'src> UtcOffsetProperty<SpannedSegments<'src>> {
    /// Convert a property with a single UTC offset value, of whichever kind.
    pub fn try_from(prop: ParsedProperty<'src>) -> (r: Result<Self, Vec<TypedError<'src>>>)
        ensures
            utc_offset_property_result(prop, r),
    {
        let claimed: Vec<ParameterKind> = Vec::new();
        assert(claimed@ =~= no_claims());
        let sorted = sort_parameters(prop.parameters, &claimed);
        let kind = prop.kind.clone();
        match take_single_value(&kind, prop.value) {
            Ok(Value::UtcOffset { value, .. }) => Ok(UtcOffsetProperty {
                value,
                x_parameters: sorted.x_parameters,
                retained_parameters: sorted.retained,
                span: prop.span,
            }),
            Ok(v) => {
                let span = v.span();
                Err(
                    vec![TypedError::PropertyUnexpectedValue { property: kind, expected: expect_one(PropertyValueKind::UtcOffset), found: v.kind(), span }],
                )
            },
            Err(e) => Err(e),
        }
    }

    /// Convert borrowed `UtcOffsetProperty` to owned `UtcOffsetProperty`
    pub fn to_owned(&self) -> (r: UtcOffsetProperty<String>)
        ensures
            r.value == self.value,
            raw_params_agree(r.x_parameters@, self.x_parameters@),
            params_agree(r.retained_parameters@, self.retained_parameters@),
    {
        UtcOffsetProperty {
            value: self.value,
            x_parameters: raw_params_to_owned(&self.x_parameters),
            retained_parameters: params_to_owned(&self.retained_parameters),
            span: (),
        }
    }
}

} // verus!
