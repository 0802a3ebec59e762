//! Calendar Properties (RFC 5545 Section 3.7)
//!
//! - 3.7.1: `CalendarScale` - Calendar scale (GREGORIAN)
//! - 3.7.2: `Method` - iTIP method (PUBLISH, REQUEST, etc.)
//! - 3.7.3: `ProductId` - Product identifier (vendor/product info)
//! - 3.7.4: `Version` - iCalendar version (2.0)

use vstd::prelude::*;
use vstd::string::StringSliceAdditionalSpecFns;
use vstd::string::StringExecFns;

use vstd::string::StrSliceExecFns;

use crate::keyword::{
    KW_CALSCALE_GREGORIAN, KW_METHOD_ADD, KW_METHOD_CANCEL, KW_METHOD_COUNTER, KW_METHOD_DECLINECOUNTER,
    KW_METHOD_PUBLISH, KW_METHOD_REFRESH, KW_METHOD_REPLY, KW_METHOD_REQUEST, KW_VERSION_2_0,
};
use crate::parameter::{Parameter, ParameterKind};
use crate::property::alarm::invalid_value_error;
use crate::property::common::{
    no_claims, params_agree, params_to_owned, raw_params_agree, raw_params_to_owned,
    retained_params, single_text, single_value_errors, sort_parameters, take_single_text, x_params,
};
use crate::property::relationship::unexpected_kind;
use crate::property::{PropertyKind, PropertyValueKind};
use crate::string_storage::{Span, SpannedSegments, StringStorage, ascii_lower, eq_ignore_ascii_case, lemma_ascii_str_bytes};
use crate::syntax::RawParameter;
use crate::typed::{ParsedProperty, TypedError};
use crate::value::value_span;

verus! {

/// Calendar scale value (RFC 5545 Section 3.7.1)
#[derive(Debug, Clone, Copy, PartialEq, Eq)]
pub enum CalendarScaleValue {
    /// Gregorian calendar
    Gregorian,
}

/// The `CalendarScaleValue` that a text spells, ASCII case ignored.
pub open spec fn calendar_scale_value_of(b: Seq<u8>) -> Option<CalendarScaleValue> {
    if eq_ignore_ascii_case(b, KW_CALSCALE_GREGORIAN.spec_bytes()) {
        Some(CalendarScaleValue::Gregorian)
    } else {
        None
    }
}

/// Reading the keyword of a calendar scale gives it back: `from_text` undoes
/// `as_str` on every `CalendarScaleValue`.
pub proof fn lemma_calendar_scale_value_round_trip(v: CalendarScaleValue)
    ensures
        calendar_scale_value_of(calendar_scale_value_keyword(v).spec_bytes()) == Some(v),
{
    reveal(eq_ignore_ascii_case);
    let b = calendar_scale_value_keyword(v).spec_bytes();
    assert(eq_ignore_ascii_case(b, b));
    match v {
        CalendarScaleValue::Gregorian => {
            reveal_strlit("GREGORIAN");
            lemma_ascii_str_bytes(KW_CALSCALE_GREGORIAN);
            assert(calendar_scale_value_of(b) == Some(CalendarScaleValue::Gregorian));
        }
    }
}



/// The keyword of a `CalendarScaleValue`.
pub open spec fn calendar_scale_value_keyword(v: CalendarScaleValue) -> &'static str {
    match v {
        CalendarScaleValue::Gregorian => KW_CALSCALE_GREGORIAN,
    }
}

impl CalendarScaleValue {
    /// The value that a text spells, ASCII case ignored.
    pub fn from_text(text: &SpannedSegments<'_>) -> (r: Option<CalendarScaleValue>)
        ensures
            r == calendar_scale_value_of(text.bytes()),
    {
        if text.eq_str_ignore_ascii_case(KW_CALSCALE_GREGORIAN) {
            Some(CalendarScaleValue::Gregorian)
        } else {
            None
        }
    }

    /// The keyword of this value.
    pub fn as_str(&self) -> (r: &'static str)
        ensures
            r == calendar_scale_value_keyword(*self),
    {
        match self {
            CalendarScaleValue::Gregorian => KW_CALSCALE_GREGORIAN,
        }
    }
}

/// Calendar scale specification (RFC 5545 Section 3.7.1)
#[derive(Debug)]
pub struct CalendarScale<S: StringStorage> {
    /// The value
    pub value: CalendarScaleValue,
    /// X-name parameters (custom experimental parameters)
    pub x_parameters: Vec<RawParameter<S>>,
    /// Unrecognized / Non-standard parameters (preserved for round-trip)
    pub retained_parameters: Vec<Parameter<S>>,
    /// Span of the property in the source
    pub span: S::Span,
}

/// What converting a property to `CalendarScale` gives.
pub open spec fn calendar_scale_result<'src>(
    prop: ParsedProperty<'src>,
    r: Result<CalendarScale<SpannedSegments<'src>>, Vec<TypedError<'src>>>,
) -> bool {
    &&& !(prop.kind is CalScale) ==> (r matches Err(es) && es@ == seq![
        unexpected_kind(PropertyKind::CalScale, prop.kind, prop.span),
    ])
    &&& prop.kind is CalScale ==> (r is Ok) == (single_text(prop.value) matches Some(t)
        && calendar_scale_value_of(t.value.bytes()) is Some)
    &&& prop.kind is CalScale ==> (r matches Ok(a) ==> single_text(prop.value) matches Some(t)
        && calendar_scale_value_of(t.value.bytes()) == Some(a.value) && a.x_parameters@ == x_params(
        prop.parameters@,
    ) && a.retained_parameters@ == retained_params(prop.parameters@, no_claims()) && a.span
        == prop.span)
    &&& prop.kind is CalScale ==> (r matches Err(es) ==> match single_text(prop.value) {
        None => single_value_errors(es@, prop.kind, prop.value, PropertyValueKind::Text),
        Some(t) => es@.len() == 1 && invalid_value_error(
            es@[0],
            prop.kind,
            "Unsupported calendar scale: "@ + t.value@,
            value_span(prop.value),
        ),
    })
}

impl<'src> CalendarScale<SpannedSegments<'src>> {
    /// Convert a `CALSCALE` property: a single text naming one of the values
    /// (ASCII case ignored); any other text is an invalid value.
    pub fn try_from(prop: ParsedProperty<'src>) -> (r: Result<Self, Vec<TypedError<'src>>>)
        ensures
            calendar_scale_result(prop, r),
    {
        if !matches!(prop.kind, PropertyKind::CalScale) {
            let span = prop.span;
            let es = vec![TypedError::PropertyUnexpectedKind { expected: PropertyKind::CalScale, found: prop.kind, span }];
            assert(es@ =~= seq![unexpected_kind(PropertyKind::CalScale, prop.kind, prop.span)]);
            return Err(es);
        }
        let claimed: Vec<ParameterKind> = Vec::new();
        assert(claimed@ =~= no_claims());
        let sorted = sort_parameters(prop.parameters, &claimed);
        let value_span = prop.value.span();
        let text = take_single_text(&PropertyKind::CalScale, prop.value)?;
        match CalendarScaleValue::from_text(&text.value) {
            Some(value) => Ok(CalendarScale {
                value,
                x_parameters: sorted.x_parameters,
                retained_parameters: sorted.retained,
                span: prop.span,
            }),
            None => {
                let mut message = "Unsupported calendar scale: ".to_owned();
                let resolved = text.value.to_owned();
                message.append(resolved.as_str());
                Err(
                    vec![TypedError::PropertyInvalidValue { property: PropertyKind::CalScale, value: message, span: value_span }],
                )
            },
        }
    }

    /// Convert borrowed type to owned type
    pub fn to_owned(&self) -> (r: CalendarScale<String>)
        ensures
            r.value == self.value,
            raw_params_agree(r.x_parameters@, self.x_parameters@),
            params_agree(r.retained_parameters@, self.retained_parameters@),
    {
        CalendarScale {
            value: self.value,
            x_parameters: raw_params_to_owned(&self.x_parameters),
            retained_parameters: params_to_owned(&self.retained_parameters),
            span: (),
        }
    }

    /// Get the span of this property
    pub fn span(&self) -> (r: Span)
        ensures
            r == self.span,
    {
        self.span
    }
}

/// Method value for iCalendar objects (RFC 5545 Section 3.7.2)
#[derive(Debug, Clone, Copy, PartialEq, Eq)]
pub enum MethodValue {
    /// Publish an event (most common)
    Publish,
    /// Request an event
    Request,
    /// Reply to an event
    Reply,
    /// Add an event
    Add,
    /// Cancel an event
    Cancel,
    /// Refresh an event
    Refresh,
    /// Counter an event
    Counter,
    /// Decline counter
    DeclineCounter,
}

/// The `MethodValue` that a text spells, ASCII case ignored.
pub open spec fn method_value_of(b: Seq<u8>) -> Option<MethodValue> {
    if eq_ignore_ascii_case(b, KW_METHOD_PUBLISH.spec_bytes()) {
        Some(MethodValue::Publish)
    } else if eq_ignore_ascii_case(b, KW_METHOD_REQUEST.spec_bytes()) {
        Some(MethodValue::Request)
    } else if eq_ignore_ascii_case(b, KW_METHOD_REPLY.spec_bytes()) {
        Some(MethodValue::Reply)
    } else if eq_ignore_ascii_case(b, KW_METHOD_ADD.spec_bytes()) {
        Some(MethodValue::Add)
    } else if eq_ignore_ascii_case(b, KW_METHOD_CANCEL.spec_bytes()) {
        Some(MethodValue::Cancel)
    } else if eq_ignore_ascii_case(b, KW_METHOD_REFRESH.spec_bytes()) {
        Some(MethodValue::Refresh)
    } else if eq_ignore_ascii_case(b, KW_METHOD_COUNTER.spec_bytes()) {
        Some(MethodValue::Counter)
    } else if eq_ignore_ascii_case(b, KW_METHOD_DECLINECOUNTER.spec_bytes()) {
        Some(MethodValue::DeclineCounter)
    } else {
        None
    }
}

/// The keyword of a `MethodValue`.
pub open spec fn method_value_keyword(v: MethodValue) -> &'static str {
    match v {
        MethodValue::Publish => KW_METHOD_PUBLISH,
        MethodValue::Request => KW_METHOD_REQUEST,
        MethodValue::Reply => KW_METHOD_REPLY,
        MethodValue::Add => KW_METHOD_ADD,
        MethodValue::Cancel => KW_METHOD_CANCEL,
        MethodValue::Refresh => KW_METHOD_REFRESH,
        MethodValue::Counter => KW_METHOD_COUNTER,
        MethodValue::DeclineCounter => KW_METHOD_DECLINECOUNTER,
    }
}

/// Reading the keyword of a method gives the method back: `from_text`
/// undoes `as_str` on every `MethodValue`.
pub proof fn lemma_method_value_round_trip(v: MethodValue)
    ensures
        method_value_of(method_value_keyword(v).spec_bytes()) == Some(v),
{
    reveal(eq_ignore_ascii_case);
    let b = method_value_keyword(v).spec_bytes();
    assert(eq_ignore_ascii_case(b, b));
    match v {
        MethodValue::Publish => {
            reveal_strlit("PUBLISH");
            lemma_ascii_str_bytes(KW_METHOD_PUBLISH);
            assert(method_value_of(b) == Some(MethodValue::Publish));
        }
        MethodValue::Request => {
            reveal_strlit("PUBLISH");
            reveal_strlit("REQUEST");
            lemma_ascii_str_bytes(KW_METHOD_REQUEST);
            lemma_ascii_str_bytes(KW_METHOD_PUBLISH);
            assert(ascii_lower(b[0]) != ascii_lower(KW_METHOD_PUBLISH.spec_bytes()[0]));
            assert(method_value_of(b) == Some(MethodValue::Request));
        }
        MethodValue::Reply => {
            reveal_strlit("PUBLISH");
            reveal_strlit("REQUEST");
            reveal_strlit("REPLY");
            lemma_ascii_str_bytes(KW_METHOD_REPLY);
            lemma_ascii_str_bytes(KW_METHOD_PUBLISH);
            assert(b.len() != KW_METHOD_PUBLISH.spec_bytes().len());
            lemma_ascii_str_bytes(KW_METHOD_REQUEST);
            assert(b.len() != KW_METHOD_REQUEST.spec_bytes().len());
            assert(method_value_of(b) == Some(MethodValue::Reply));
        }
        MethodValue::Add => {
            reveal_strlit("PUBLISH");
            reveal_strlit("REQUEST");
            reveal_strlit("REPLY");
            reveal_strlit("ADD");
            lemma_ascii_str_bytes(KW_METHOD_ADD);
            lemma_ascii_str_bytes(KW_METHOD_PUBLISH);
            assert(b.len() != KW_METHOD_PUBLISH.spec_bytes().len());
            lemma_ascii_str_bytes(KW_METHOD_REQUEST);
            assert(b.len() != KW_METHOD_REQUEST.spec_bytes().len());
            lemma_ascii_str_bytes(KW_METHOD_REPLY);
            assert(b.len() != KW_METHOD_REPLY.spec_bytes().len());
            assert(method_value_of(b) == Some(MethodValue::Add));
        }
        MethodValue::Cancel => {
            reveal_strlit("PUBLISH");
            reveal_strlit("REQUEST");
            reveal_strlit("REPLY");
            reveal_strlit("ADD");
            reveal_strlit("CANCEL");
            lemma_ascii_str_bytes(KW_METHOD_CANCEL);
            lemma_ascii_str_bytes(KW_METHOD_PUBLISH);
            assert(b.len() != KW_METHOD_PUBLISH.spec_bytes().len());
            lemma_ascii_str_bytes(KW_METHOD_REQUEST);
            assert(b.len() != KW_METHOD_REQUEST.spec_bytes().len());
            lemma_ascii_str_bytes(KW_METHOD_REPLY);
            assert(b.len() != KW_METHOD_REPLY.spec_bytes().len());
            lemma_ascii_str_bytes(KW_METHOD_ADD);
            assert(b.len() != KW_METHOD_ADD.spec_bytes().len());
            assert(method_value_of(b) == Some(MethodValue::Cancel));
        }
        MethodValue::Refresh => {
            reveal_strlit("PUBLISH");
            reveal_strlit("REQUEST");
            reveal_strlit("REPLY");
            reveal_strlit("ADD");
            reveal_strlit("CANCEL");
            reveal_strlit("REFRESH");
            lemma_ascii_str_bytes(KW_METHOD_REFRESH);
            lemma_ascii_str_bytes(KW_METHOD_PUBLISH);
            assert(ascii_lower(b[0]) != ascii_lower(KW_METHOD_PUBLISH.spec_bytes()[0]));
            lemma_ascii_str_bytes(KW_METHOD_REQUEST);
            assert(ascii_lower(b[2]) != ascii_lower(KW_METHOD_REQUEST.spec_bytes()[2]));
            lemma_ascii_str_bytes(KW_METHOD_REPLY);
            assert(b.len() != KW_METHOD_REPLY.spec_bytes().len());
            lemma_ascii_str_bytes(KW_METHOD_ADD);
            assert(b.len() != KW_METHOD_ADD.spec_bytes().len());
            lemma_ascii_str_bytes(KW_METHOD_CANCEL);
            assert(b.len() != KW_METHOD_CANCEL.spec_bytes().len());
            assert(method_value_of(b) == Some(MethodValue::Refresh));
        }
        MethodValue::Counter => {
            reveal_strlit("PUBLISH");
            reveal_strlit("REQUEST");
            reveal_strlit("REPLY");
            reveal_strlit("ADD");
            reveal_strlit("CANCEL");
            reveal_strlit("REFRESH");
            reveal_strlit("COUNTER");
            lemma_ascii_str_bytes(KW_METHOD_COUNTER);
            lemma_ascii_str_bytes(KW_METHOD_PUBLISH);
            assert(ascii_lower(b[0]) != ascii_lower(KW_METHOD_PUBLISH.spec_bytes()[0]));
            lemma_ascii_str_bytes(KW_METHOD_REQUEST);
            assert(ascii_lower(b[0]) != ascii_lower(KW_METHOD_REQUEST.spec_bytes()[0]));
            lemma_ascii_str_bytes(KW_METHOD_REPLY);
            assert(b.len() != KW_METHOD_REPLY.spec_bytes().len());
            lemma_ascii_str_bytes(KW_METHOD_ADD);
            assert(b.len() != KW_METHOD_ADD.spec_bytes().len());
            lemma_ascii_str_bytes(KW_METHOD_CANCEL);
            assert(b.len() != KW_METHOD_CANCEL.spec_bytes().len());
            lemma_ascii_str_bytes(KW_METHOD_REFRESH);
            assert(ascii_lower(b[0]) != ascii_lower(KW_METHOD_REFRESH.spec_bytes()[0]));
            assert(method_value_of(b) == Some(MethodValue::Counter));
        }
        MethodValue::DeclineCounter => {
            reveal_strlit("PUBLISH");
            reveal_strlit("REQUEST");
            reveal_strlit("REPLY");
            reveal_strlit("ADD");
            reveal_strlit("CANCEL");
            reveal_strlit("REFRESH");
            reveal_strlit("COUNTER");
            reveal_strlit("DECLINECOUNTER");
            lemma_ascii_str_bytes(KW_METHOD_DECLINECOUNTER);
            lemma_ascii_str_bytes(KW_METHOD_PUBLISH);
            assert(b.len() != KW_METHOD_PUBLISH.spec_bytes().len());
            lemma_ascii_str_bytes(KW_METHOD_REQUEST);
            assert(b.len() != KW_METHOD_REQUEST.spec_bytes().len());
            lemma_ascii_str_bytes(KW_METHOD_REPLY);
            assert(b.len() != KW_METHOD_REPLY.spec_bytes().len());
            lemma_ascii_str_bytes(KW_METHOD_ADD);
            assert(b.len() != KW_METHOD_ADD.spec_bytes().len());
            lemma_ascii_str_bytes(KW_METHOD_CANCEL);
            assert(b.len() != KW_METHOD_CANCEL.spec_bytes().len());
            lemma_ascii_str_bytes(KW_METHOD_REFRESH);
            assert(b.len() != KW_METHOD_REFRESH.spec_bytes().len());
            lemma_ascii_str_bytes(KW_METHOD_COUNTER);
            assert(b.len() != KW_METHOD_COUNTER.spec_bytes().len());
            assert(method_value_of(b) == Some(MethodValue::DeclineCounter));
        }
    }
}

impl MethodValue {
    /// The value that a text spells, ASCII case ignored.
    pub fn from_text(text: &SpannedSegments<'_>) -> (r: Option<MethodValue>)
        ensures
            r == method_value_of(text.bytes()),
    {
        if text.eq_str_ignore_ascii_case(KW_METHOD_PUBLISH) {
            Some(MethodValue::Publish)
        } else if text.eq_str_ignore_ascii_case(KW_METHOD_REQUEST) {
            Some(MethodValue::Request)
        } else if text.eq_str_ignore_ascii_case(KW_METHOD_REPLY) {
            Some(MethodValue::Reply)
        } else if text.eq_str_ignore_ascii_case(KW_METHOD_ADD) {
            Some(MethodValue::Add)
        } else if text.eq_str_ignore_ascii_case(KW_METHOD_CANCEL) {
            Some(MethodValue::Cancel)
        } else if text.eq_str_ignore_ascii_case(KW_METHOD_REFRESH) {
            Some(MethodValue::Refresh)
        } else if text.eq_str_ignore_ascii_case(KW_METHOD_COUNTER) {
            Some(MethodValue::Counter)
        } else if text.eq_str_ignore_ascii_case(KW_METHOD_DECLINECOUNTER) {
            Some(MethodValue::DeclineCounter)
        } else {
            None
        }
    }

    /// The keyword of this value.
    pub fn as_str(&self) -> (r: &'static str)
        ensures
            r == method_value_keyword(*self),
    {
        match self {
            MethodValue::Publish => KW_METHOD_PUBLISH,
            MethodValue::Request => KW_METHOD_REQUEST,
            MethodValue::Reply => KW_METHOD_REPLY,
            MethodValue::Add => KW_METHOD_ADD,
            MethodValue::Cancel => KW_METHOD_CANCEL,
            MethodValue::Refresh => KW_METHOD_REFRESH,
            MethodValue::Counter => KW_METHOD_COUNTER,
            MethodValue::DeclineCounter => KW_METHOD_DECLINECOUNTER,
        }
    }
}

/// Method type for iCalendar objects (RFC 5545 Section 3.7.2)
#[derive(Debug)]
pub struct Method<S: StringStorage> {
    /// The value
    pub value: MethodValue,
    /// X-name parameters (custom experimental parameters)
    pub x_parameters: Vec<RawParameter<S>>,
    /// Unrecognized / Non-standard parameters (preserved for round-trip)
    pub retained_parameters: Vec<Parameter<S>>,
    /// Span of the property in the source
    pub span: S::Span,
}

/// What converting a property to `Method` gives.
pub open spec fn method_result<'src>(
    prop: ParsedProperty<'src>,
    r: Result<Method<SpannedSegments<'src>>, Vec<TypedError<'src>>>,
) -> bool {
    &&& !(prop.kind is Method) ==> (r matches Err(es) && es@ == seq![
        unexpected_kind(PropertyKind::Method, prop.kind, prop.span),
    ])
    &&& prop.kind is Method ==> (r is Ok) == (single_text(prop.value) matches Some(t)
        && method_value_of(t.value.bytes()) is Some)
    &&& prop.kind is Method ==> (r matches Ok(a) ==> single_text(prop.value) matches Some(t)
        && method_value_of(t.value.bytes()) == Some(a.value) && a.x_parameters@ == x_params(
        prop.parameters@,
    ) && a.retained_parameters@ == retained_params(prop.parameters@, no_claims()) && a.span
        == prop.span)
    &&& prop.kind is Method ==> (r matches Err(es) ==> match single_text(prop.value) {
        None => single_value_errors(es@, prop.kind, prop.value, PropertyValueKind::Text),
        Some(t) => es@.len() == 1 && invalid_value_error(
            es@[0],
            prop.kind,
            "Unsupported method type: "@ + t.value@,
            value_span(prop.value),
        ),
    })
}

impl<'src> Method<SpannedSegments<'src>> {
    /// Convert a `METHOD` property: a single text naming one of the values
    /// (ASCII case ignored); any other text is an invalid value.
    pub fn try_from(prop: ParsedProperty<'src>) -> (r: Result<Self, Vec<TypedError<'src>>>)
        ensures
            method_result(prop, r),
    {
        if !matches!(prop.kind, PropertyKind::Method) {
            let span = prop.span;
            let es = vec![TypedError::PropertyUnexpectedKind { expected: PropertyKind::Method, found: prop.kind, span }];
            assert(es@ =~= seq![unexpected_kind(PropertyKind::Method, prop.kind, prop.span)]);
            return Err(es);
        }
        let claimed: Vec<ParameterKind> = Vec::new();
        assert(claimed@ =~= no_claims());
        let sorted = sort_parameters(prop.parameters, &claimed);
        let value_span = prop.value.span();
        let text = take_single_text(&PropertyKind::Method, prop.value)?;
        match MethodValue::from_text(&text.value) {
            Some(value) => Ok(Method {
                value,
                x_parameters: sorted.x_parameters,
                retained_parameters: sorted.retained,
                span: prop.span,
            }),
            None => {
                let mut message = "Unsupported method type: ".to_owned();
                let resolved = text.value.to_owned();
                message.append(resolved.as_str());
                Err(
                    vec![TypedError::PropertyInvalidValue { property: PropertyKind::Method, value: message, span: value_span }],
                )
            },
        }
    }

    /// Convert borrowed type to owned type
    pub fn to_owned(&self) -> (r: Method<String>)
        ensures
            r.value == self.value,
            raw_params_agree(r.x_parameters@, self.x_parameters@),
            params_agree(r.retained_parameters@, self.retained_parameters@),
    {
        Method {
            value: self.value,
            x_parameters: raw_params_to_owned(&self.x_parameters),
            retained_parameters: params_to_owned(&self.retained_parameters),
            span: (),
        }
    }

    /// Get the span of this property
    pub fn span(&self) -> (r: Span)
        ensures
            r == self.span,
    {
        self.span
    }
}

/// iCalendar version value (RFC 5545 Section 3.7.4)
#[derive(Debug, Clone, Copy, PartialEq, Eq)]
pub enum VersionValue {
    /// Version 2.0
    V2_0,
}

/// The `VersionValue` that a text spells, ASCII case ignored.
pub open spec fn version_value_of(b: Seq<u8>) -> Option<VersionValue> {
    if eq_ignore_ascii_case(b, KW_VERSION_2_0.spec_bytes()) {
        Some(VersionValue::V2_0)
    } else {
        None
    }
}

/// Reading the keyword of a version gives it back: `from_text` undoes
/// `as_str` on every `VersionValue`.
pub proof fn lemma_version_value_round_trip(v: VersionValue)
    ensures
        version_value_of(version_value_keyword(v).spec_bytes()) == Some(v),
{
    reveal(eq_ignore_ascii_case);
    let b = version_value_keyword(v).spec_bytes();
    assert(eq_ignore_ascii_case(b, b));
    match v {
        VersionValue::V2_0 => {
            reveal_strlit("2.0");
            lemma_ascii_str_bytes(KW_VERSION_2_0);
            assert(version_value_of(b) == Some(VersionValue::V2_0));
        }
    }
}





/// The keyword of a `VersionValue`.
pub open spec fn version_value_keyword(v: VersionValue) -> &'static str {
    match v {
        VersionValue::V2_0 => KW_VERSION_2_0,
    }
}

impl VersionValue {
    /// The value that a text spells, ASCII case ignored.
    pub fn from_text(text: &SpannedSegments<'_>) -> (r: Option<VersionValue>)
        ensures
            r == version_value_of(text.bytes()),
    {
        if text.eq_str_ignore_ascii_case(KW_VERSION_2_0) {
            Some(VersionValue::V2_0)
        } else {
            None
        }
    }

    /// The keyword of this value.
    pub fn as_str(&self) -> (r: &'static str)
        ensures
            r == version_value_keyword(*self),
    {
        match self {
            VersionValue::V2_0 => KW_VERSION_2_0,
        }
    }
}

/// iCalendar version specification (RFC 5545 Section 3.7.4)
#[derive(Debug)]
pub struct Version<S: StringStorage> {
    /// The value
    pub value: VersionValue,
    /// X-name parameters (custom experimental parameters)
    pub x_parameters: Vec<RawParameter<S>>,
    /// Unrecognized / Non-standard parameters (preserved for round-trip)
    pub retained_parameters: Vec<Parameter<S>>,
    /// Span of the property in the source
    pub span: S::Span,
}

/// What converting a property to `Version` gives.
pub open spec fn version_result<'src>(
    prop: ParsedProperty<'src>,
    r: Result<Version<SpannedSegments<'src>>, Vec<TypedError<'src>>>,
) -> bool {
    &&& !(prop.kind is Version) ==> (r matches Err(es) && es@ == seq![
        unexpected_kind(PropertyKind::Version, prop.kind, prop.span),
    ])
    &&& prop.kind is Version ==> (r is Ok) == (single_text(prop.value) matches Some(t)
        && version_value_of(t.value.bytes()) is Some)
    &&& prop.kind is Version ==> (r matches Ok(a) ==> single_text(prop.value) matches Some(t)
        && version_value_of(t.value.bytes()) == Some(a.value) && a.x_parameters@ == x_params(
        prop.parameters@,
    ) && a.retained_parameters@ == retained_params(prop.parameters@, no_claims()) && a.span
        == prop.span)
    &&& prop.kind is Version ==> (r matches Err(es) ==> match single_text(prop.value) {
        None => single_value_errors(es@, prop.kind, prop.value, PropertyValueKind::Text),
        Some(t) => es@.len() == 1 && invalid_value_error(
            es@[0],
            prop.kind,
            "Unsupported iCalendar version: "@ + t.value@,
            value_span(prop.value),
        ),
    })
}

impl<'src> Version<SpannedSegments<'src>> {
    /// Convert a `VERSION` property: a single text naming one of the values
    /// (ASCII case ignored); any other text is an invalid value.
    pub fn try_from(prop: ParsedProperty<'src>) -> (r: Result<Self, Vec<TypedError<'src>>>)
        ensures
            version_result(prop, r),
    {
        if !matches!(prop.kind, PropertyKind::Version) {
            let span = prop.span;
            let es = vec![TypedError::PropertyUnexpectedKind { expected: PropertyKind::Version, found: prop.kind, span }];
            assert(es@ =~= seq![unexpected_kind(PropertyKind::Version, prop.kind, prop.span)]);
            return Err(es);
        }
        let claimed: Vec<ParameterKind> = Vec::new();
        assert(claimed@ =~= no_claims());
        let sorted = sort_parameters(prop.parameters, &claimed);
        let value_span = prop.value.span();
        let text = take_single_text(&PropertyKind::Version, prop.value)?;
        match VersionValue::from_text(&text.value) {
            Some(value) => Ok(Version {
                value,
                x_parameters: sorted.x_parameters,
                retained_parameters: sorted.retained,
                span: prop.span,
            }),
            None => {
                let mut message = "Unsupported iCalendar version: ".to_owned();
                let resolved = text.value.to_owned();
                message.append(resolved.as_str());
                Err(
                    vec![TypedError::PropertyInvalidValue { property: PropertyKind::Version, value: message, span: value_span }],
                )
            },
        }
    }

    /// Convert borrowed type to owned type
    pub fn to_owned(&self) -> (r: Version<String>)
        ensures
            r.value == self.value,
            raw_params_agree(r.x_parameters@, self.x_parameters@),
            params_agree(r.retained_parameters@, self.retained_parameters@),
    {
        Version {
            value: self.value,
            x_parameters: raw_params_to_owned(&self.x_parameters),
            retained_parameters: params_to_owned(&self.retained_parameters),
            span: (),
        }
    }

    /// Get the span of this property
    pub fn span(&self) -> (r: Span)
        ensures
            r == self.span,
    {
        self.span
    }
}

/// The parts of `s` from `start` on, cut at each `//` found from `i` on,
/// left to right and without overlap (as `str::split("//")`).
pub open spec fn split_from(s: Seq<char>, start: int, i: int) -> Seq<Seq<char>>
    decreases s.len() - i,
{
    if i + 1 >= s.len() {
        seq![s.subrange(start, s.len() as int)]
    } else if s[i] == '/' && s[i + 1] == '/' {
        seq![s.subrange(start, i)] + split_from(s, i + 2, i + 2)
    } else {
        split_from(s, start, i + 1)
    }
}

/// The parts of `s` between occurrences of `//`.
pub open spec fn split_double_slash(s: Seq<char>) -> Seq<Seq<char>> {
    split_from(s, 0, 0)
}

/// The characters of each string.
pub open spec fn strings_view(v: Seq<String>) -> Seq<Seq<char>> {
    v.map_values(|x: String| x@)
}

/// Split a text at each `//`.
fn split_slashes(text: &str) -> (r: Vec<String>)
    ensures
        strings_view(r@) == split_double_slash(text@),
{
    let n = text.unicode_len();
    let ghost s = text@;
    let mut parts: Vec<String> = Vec::new();
    let mut start: usize = 0;
    let mut i: usize = 0;
    while i < n && i + 1 < n
        invariant
            n == s.len(),
            s == text@,
            0 <= start <= i <= n,
            strings_view(parts@) + split_from(s, start as int, i as int) == split_double_slash(s),
        decreases n - i,
    {
        if text.get_char(i) == '/' && text.get_char(i + 1) == '/' {
            let part = text.substring_char(start, i).to_owned();
            let ghost old_parts = parts@;
            parts.push(part);
            assert(strings_view(parts@) =~= strings_view(old_parts).push(s.subrange(start as int, i as int)));
            assert(strings_view(parts@) + split_from(s, i + 2, i + 2) =~= strings_view(old_parts)
                + split_from(s, start as int, i as int));
            i = i + 2;
            start = i;
        } else {
            i = i + 1;
        }
    }
    let last = text.substring_char(start, n).to_owned();
    let ghost old_parts = parts@;
    parts.push(last);
    assert(strings_view(parts@) =~= strings_view(old_parts) + split_from(s, start as int, i as int));
    parts
}

/// The company, product and language of a product identifier text: the
/// first three parts between `//` when there are two or more, else the whole
/// text as the product.
pub open spec fn product_id_parts(text: Seq<char>) -> (Seq<char>, Seq<char>, Option<Seq<char>>) {
    let parts = split_double_slash(text);
    if parts.len() >= 2 {
        (parts[0], parts[1], if parts.len() >= 3 {
            Some(parts[2])
        } else {
            None
        })
    } else {
        (Seq::empty(), text, None)
    }
}

/// Product identifier that identifies the software that created the iCalendar data (RFC 5545 Section 3.7.3)
#[derive(Debug)]
pub struct ProductId<S: StringStorage> {
    /// Company identifier
    pub company: String,
    /// Product identifier
    pub product: String,
    /// Language of the text (optional)
    pub language: Option<String>,
    /// X-name parameters (custom experimental parameters)
    pub x_parameters: Vec<RawParameter<S>>,
    /// Unrecognized / Non-standard parameters (preserved for round-trip)
    pub retained_parameters: Vec<Parameter<S>>,
    /// Span of the property in the source
    pub span: S::Span,
}

/// What converting a property to `ProductId` gives.
pub open spec fn product_id_result<'src>(
    prop: ParsedProperty<'src>,
    r: Result<ProductId<SpannedSegments<'src>>, Vec<TypedError<'src>>>,
) -> bool {
    &&& !(prop.kind is ProdId) ==> (r matches Err(es) && es@ == seq![
        unexpected_kind(PropertyKind::ProdId, prop.kind, prop.span),
    ])
    &&& prop.kind is ProdId ==> (r is Ok) == (single_text(prop.value) is Some)
    &&& prop.kind is ProdId ==> (r matches Ok(p) ==> single_text(prop.value) matches Some(t) && (
    p.company@,
    p.product@,
    match p.language {
        Some(l) => Some(l@),
        None => None,
    },
    ) == product_id_parts(t.value@) && p.x_parameters@ == x_params(prop.parameters@)
        && p.retained_parameters@ == retained_params(prop.parameters@, no_claims()))
    &&& prop.kind is ProdId ==> (r matches Err(es) ==> single_value_errors(
        es@,
        prop.kind,
        prop.value,
        PropertyValueKind::Text,
    ))
    &&& (r matches Ok(x) ==> x.span == prop.span)
}

impl<'src> ProductId<SpannedSegments<'src>> {
    /// Convert a `PRODID` property, splitting its text as
    /// `company//product//language` (for example
    /// `-//Mozilla.org/NONSGML Mozilla Calendar V1.0//EN`).
    pub fn try_from(prop: ParsedProperty<'src>) -> (r: Result<Self, Vec<TypedError<'src>>>)
        ensures
            product_id_result(prop, r),
    {
        if !matches!(prop.kind, PropertyKind::ProdId) {
            let span = prop.span;
            let es = vec![TypedError::PropertyUnexpectedKind { expected: PropertyKind::ProdId, found: prop.kind, span }];
            assert(es@ =~= seq![unexpected_kind(PropertyKind::ProdId, prop.kind, prop.span)]);
            return Err(es);
        }
        let claimed: Vec<ParameterKind> = Vec::new();
        assert(claimed@ =~= no_claims());
        let sorted = sort_parameters(prop.parameters, &claimed);
        let content = take_single_text(&PropertyKind::ProdId, prop.value)?;
        let text = content.value.to_owned();
        let parts = split_slashes(text.as_str());
        let ghost pv = strings_view(parts@);
        assert(pv.len() == parts@.len());
        let (company, product, language) = if parts.len() >= 2 {
            assert(pv[0] == parts@[0]@ && pv[1] == parts@[1]@);
            let language = if parts.len() >= 3 {
                assert(pv[2] == parts@[2]@);
                Some(parts[2].clone())
            } else {
                None
            };
            (parts[0].clone(), parts[1].clone(), language)
        } else {
            (String::new(), text, None)
        };
        Ok(ProductId {
            company,
            product,
            language,
            x_parameters: sorted.x_parameters,
            retained_parameters: sorted.retained,
            span: prop.span,
        })
    }

    /// Convert borrowed `ProductId` to owned `ProductId`
    pub fn to_owned(&self) -> (r: ProductId<String>)
        ensures
            r.company@ == self.company@,
            r.product@ == self.product@,
            match (r.language, self.language) {
                (Some(a), Some(b)) => a@ == b@,
                (None, None) => true,
                _ => false,
            },
            raw_params_agree(r.x_parameters@, self.x_parameters@),
            params_agree(r.retained_parameters@, self.retained_parameters@),
    {
        ProductId {
            company: self.company.clone(),
            product: self.product.clone(),
            language: match &self.language {
                Some(l) => Some(l.clone()),
                None => None,
            },
            x_parameters: raw_params_to_owned(&self.x_parameters),
            retained_parameters: params_to_owned(&self.retained_parameters),
            span: (),
        }
    }
}

} // verus!
