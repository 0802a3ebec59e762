//! Descriptive Component Properties (RFC 5545 Section 3.8.1)
//!
//! - 3.8.1.1: `Attachment` - Attached document or URI
//! - 3.8.1.2: `Categories` - Categories of a component
//! - 3.8.1.3: `Classification` - Access classification
//! - 3.8.1.8: `PercentComplete` - Percent of a to-do completed
//! - 3.8.1.9: `Priority` - Relative priority
//! - 3.8.1.10: `Resources` - Resources for an activity
//! - 3.8.1.11: `Status` - Status of a calendar component

use vstd::prelude::*;
use vstd::string::StringSliceAdditionalSpecFns;
use vstd::string::StringExecFns;

use crate::keyword::{KW_CLASS_CONFIDENTIAL, KW_CLASS_PRIVATE, KW_CLASS_PUBLIC};
use crate::keyword::{
    KW_STATUS_CANCELLED, KW_STATUS_COMPLETED, KW_STATUS_CONFIRMED, KW_STATUS_DRAFT, KW_STATUS_FINAL,
    KW_STATUS_IN_PROCESS, KW_STATUS_NEEDS_ACTION, KW_STATUS_TENTATIVE,
};
use crate::parameter::{Encoding, Parameter, ParameterKind};
use crate::property::alarm::invalid_value_error;
use crate::property::common::{
    no_claims, params_agree, params_to_owned, raw_params_agree, raw_params_to_owned,
    retained_params, single_text, single_value_errors, sort_parameters, take_single_text, x_params,
};
use crate::property::relationship::unexpected_kind;
use crate::property::{PropertyKind, PropertyValueKind};
use crate::string_storage::{Span, SpannedSegments, StringStorage, ascii_lower, eq_ignore_ascii_case, lemma_ascii_str_bytes};
use crate::syntax::RawParameter;
use crate::typed::{ParsedProperty, TypedError};
use crate::value::{Value, value_kind, value_len, value_span};
use crate::property::PropertyKindRef;
use crate::property::common::{expect_one, invalid_count_error, take_single_value};
use crate::property::common::{
    dup_errors, first_param, language_claims, next_slot, opt_agrees, opt_to_owned, take_text, text_claims,
    text_value, value_texts_agree, value_texts_to_owned,
};
use crate::value::ValueText;

verus! {

/// Status value (RFC 5545 Section 3.8.1.11)
///
/// This enum represents the status of calendar components such as events,
/// to-dos, and journal entries.
#[derive(Debug, Clone, Copy, PartialEq, Eq)]
pub enum StatusValue {
    /// Event is tentative
    Tentative,
    /// Event is confirmed
    Confirmed,
    /// To-do needs action
    NeedsAction,
    /// To-do is completed
    Completed,
    /// To-do is in process
    InProcess,
    /// Journal entry is draft
    Draft,
    /// Journal entry is final
    Final,
    /// Event/To-do/Journal is cancelled
    Cancelled,
}

/// The `StatusValue` that a text spells, ASCII case ignored.
pub open spec fn status_value_of(b: Seq<u8>) -> Option<StatusValue> {
    if eq_ignore_ascii_case(b, KW_STATUS_TENTATIVE.spec_bytes()) {
        Some(StatusValue::Tentative)
    } else if eq_ignore_ascii_case(b, KW_STATUS_CONFIRMED.spec_bytes()) {
        Some(StatusValue::Confirmed)
    } else if eq_ignore_ascii_case(b, KW_STATUS_NEEDS_ACTION.spec_bytes()) {
        Some(StatusValue::NeedsAction)
    } else if eq_ignore_ascii_case(b, KW_STATUS_COMPLETED.spec_bytes()) {
        Some(StatusValue::Completed)
    } else if eq_ignore_ascii_case(b, KW_STATUS_IN_PROCESS.spec_bytes()) {
        Some(StatusValue::InProcess)
    } else if eq_ignore_ascii_case(b, KW_STATUS_DRAFT.spec_bytes()) {
        Some(StatusValue::Draft)
    } else if eq_ignore_ascii_case(b, KW_STATUS_FINAL.spec_bytes()) {
        Some(StatusValue::Final)
    } else if eq_ignore_ascii_case(b, KW_STATUS_CANCELLED.spec_bytes()) {
        Some(StatusValue::Cancelled)
    } else {
        None
    }
}

/// Reading the keyword of a status gives it back: `from_text` undoes
/// `as_str` on every `StatusValue`.
pub proof fn lemma_status_value_round_trip(v: StatusValue)
    ensures
        status_value_of(status_value_keyword(v).spec_bytes()) == Some(v),
{
    reveal(eq_ignore_ascii_case);
    let b = status_value_keyword(v).spec_bytes();
    assert(eq_ignore_ascii_case(b, b));
    match v {
        StatusValue::Tentative => {
            reveal_strlit("TENTATIVE");
            lemma_ascii_str_bytes(KW_STATUS_TENTATIVE);
            assert(status_value_of(b) == Some(StatusValue::Tentative));
        }
        StatusValue::Confirmed => {
            reveal_strlit("TENTATIVE");
            reveal_strlit("CONFIRMED");
            lemma_ascii_str_bytes(KW_STATUS_CONFIRMED);
            lemma_ascii_str_bytes(KW_STATUS_TENTATIVE);
            assert(ascii_lower(b[0]) != ascii_lower(KW_STATUS_TENTATIVE.spec_bytes()[0]));
            assert(status_value_of(b) == Some(StatusValue::Confirmed));
        }
        StatusValue::NeedsAction => {
            reveal_strlit("TENTATIVE");
            reveal_strlit("CONFIRMED");
            reveal_strlit("NEEDS-ACTION");
            lemma_ascii_str_bytes(KW_STATUS_NEEDS_ACTION);
            lemma_ascii_str_bytes(KW_STATUS_TENTATIVE);
            assert(b.len() != KW_STATUS_TENTATIVE.spec_bytes().len());
            lemma_ascii_str_bytes(KW_STATUS_CONFIRMED);
            assert(b.len() != KW_STATUS_CONFIRMED.spec_bytes().len());
            assert(status_value_of(b) == Some(StatusValue::NeedsAction));
        }
        StatusValue::Completed => {
            reveal_strlit("TENTATIVE");
            reveal_strlit("CONFIRMED");
            reveal_strlit("NEEDS-ACTION");
            reveal_strlit("COMPLETED");
            lemma_ascii_str_bytes(KW_STATUS_COMPLETED);
            lemma_ascii_str_bytes(KW_STATUS_TENTATIVE);
            assert(ascii_lower(b[0]) != ascii_lower(KW_STATUS_TENTATIVE.spec_bytes()[0]));
            lemma_ascii_str_bytes(KW_STATUS_CONFIRMED);
            assert(ascii_lower(b[2]) != ascii_lower(KW_STATUS_CONFIRMED.spec_bytes()[2]));
            lemma_ascii_str_bytes(KW_STATUS_NEEDS_ACTION);
            assert(b.len() != KW_STATUS_NEEDS_ACTION.spec_bytes().len());
            assert(status_value_of(b) == Some(StatusValue::Completed));
        }
        StatusValue::InProcess => {
            reveal_strlit("TENTATIVE");
            reveal_strlit("CONFIRMED");
            reveal_strlit("NEEDS-ACTION");
            reveal_strlit("COMPLETED");
            reveal_strlit("IN-PROCESS");
            lemma_ascii_str_bytes(KW_STATUS_IN_PROCESS);
            lemma_ascii_str_bytes(KW_STATUS_TENTATIVE);
            assert(b.len() != KW_STATUS_TENTATIVE.spec_bytes().len());
            lemma_ascii_str_bytes(KW_STATUS_CONFIRMED);
            assert(b.len() != KW_STATUS_CONFIRMED.spec_bytes().len());
            lemma_ascii_str_bytes(KW_STATUS_NEEDS_ACTION);
            assert(b.len() != KW_STATUS_NEEDS_ACTION.spec_bytes().len());
            lemma_ascii_str_bytes(KW_STATUS_COMPLETED);
            assert(b.len() != KW_STATUS_COMPLETED.spec_bytes().len());
            assert(status_value_of(b) == Some(StatusValue::InProcess));
        }
        StatusValue::Draft => {
            reveal_strlit("TENTATIVE");
            reveal_strlit("CONFIRMED");
            reveal_strlit("NEEDS-ACTION");
            reveal_strlit("COMPLETED");
            reveal_strlit("IN-PROCESS");
            reveal_strlit("DRAFT");
            lemma_ascii_str_bytes(KW_STATUS_DRAFT);
            lemma_ascii_str_bytes(KW_STATUS_TENTATIVE);
            assert(b.len() != KW_STATUS_TENTATIVE.spec_bytes().len());
            lemma_ascii_str_bytes(KW_STATUS_CONFIRMED);
            assert(b.len() != KW_STATUS_CONFIRMED.spec_bytes().len());
            lemma_ascii_str_bytes(KW_STATUS_NEEDS_ACTION);
            assert(b.len() != KW_STATUS_NEEDS_ACTION.spec_bytes().len());
            lemma_ascii_str_bytes(KW_STATUS_COMPLETED);
            assert(b.len() != KW_STATUS_COMPLETED.spec_bytes().len());
            lemma_ascii_str_bytes(KW_STATUS_IN_PROCESS);
            assert(b.len() != KW_STATUS_IN_PROCESS.spec_bytes().len());
            assert(status_value_of(b) == Some(StatusValue::Draft));
        }
        StatusValue::Final => {
            reveal_strlit("TENTATIVE");
            reveal_strlit("CONFIRMED");
            reveal_strlit("NEEDS-ACTION");
            reveal_strlit("COMPLETED");
            reveal_strlit("IN-PROCESS");
            reveal_strlit("DRAFT");
            reveal_strlit("FINAL");
            lemma_ascii_str_bytes(KW_STATUS_FINAL);
            lemma_ascii_str_bytes(KW_STATUS_TENTATIVE);
            assert(b.len() != KW_STATUS_TENTATIVE.spec_bytes().len());
            lemma_ascii_str_bytes(KW_STATUS_CONFIRMED);
            assert(b.len() != KW_STATUS_CONFIRMED.spec_bytes().len());
            lemma_ascii_str_bytes(KW_STATUS_NEEDS_ACTION);
            assert(b.len() != KW_STATUS_NEEDS_ACTION.spec_bytes().len());
            lemma_ascii_str_bytes(KW_STATUS_COMPLETED);
            assert(b.len() != KW_STATUS_COMPLETED.spec_bytes().len());
            lemma_ascii_str_bytes(KW_STATUS_IN_PROCESS);
            assert(b.len() != KW_STATUS_IN_PROCESS.spec_bytes().len());
            lemma_ascii_str_bytes(KW_STATUS_DRAFT);
            assert(ascii_lower(b[0]) != ascii_lower(KW_STATUS_DRAFT.spec_bytes()[0]));
            assert(status_value_of(b) == Some(StatusValue::Final));
        }
        StatusValue::Cancelled => {
            reveal_strlit("TENTATIVE");
            reveal_strlit("CONFIRMED");
            reveal_strlit("NEEDS-ACTION");
            reveal_strlit("COMPLETED");
            reveal_strlit("IN-PROCESS");
            reveal_strlit("DRAFT");
            reveal_strlit("FINAL");
            reveal_strlit("CANCELLED");
            lemma_ascii_str_bytes(KW_STATUS_CANCELLED);
            lemma_ascii_str_bytes(KW_STATUS_TENTATIVE);
            assert(ascii_lower(b[0]) != ascii_lower(KW_STATUS_TENTATIVE.spec_bytes()[0]));
            lemma_ascii_str_bytes(KW_STATUS_CONFIRMED);
            assert(ascii_lower(b[1]) != ascii_lower(KW_STATUS_CONFIRMED.spec_bytes()[1]));
            lemma_ascii_str_bytes(KW_STATUS_NEEDS_ACTION);
            assert(b.len() != KW_STATUS_NEEDS_ACTION.spec_bytes().len());
            lemma_ascii_str_bytes(KW_STATUS_COMPLETED);
            assert(ascii_lower(b[1]) != ascii_lower(KW_STATUS_COMPLETED.spec_bytes()[1]));
            lemma_ascii_str_bytes(KW_STATUS_IN_PROCESS);
            assert(b.len() != KW_STATUS_IN_PROCESS.spec_bytes().len());
            lemma_ascii_str_bytes(KW_STATUS_DRAFT);
            assert(b.len() != KW_STATUS_DRAFT.spec_bytes().len());
            lemma_ascii_str_bytes(KW_STATUS_FINAL);
            assert(b.len() != KW_STATUS_FINAL.spec_bytes().len());
            assert(status_value_of(b) == Some(StatusValue::Cancelled));
        }
    }
}



/// The keyword of a `StatusValue`.
pub open spec fn status_value_keyword(v: StatusValue) -> &'static str {
    match v {
        StatusValue::Tentative => KW_STATUS_TENTATIVE,
        StatusValue::Confirmed => KW_STATUS_CONFIRMED,
        StatusValue::NeedsAction => KW_STATUS_NEEDS_ACTION,
        StatusValue::Completed => KW_STATUS_COMPLETED,
        StatusValue::InProcess => KW_STATUS_IN_PROCESS,
        StatusValue::Draft => KW_STATUS_DRAFT,
        StatusValue::Final => KW_STATUS_FINAL,
        StatusValue::Cancelled => KW_STATUS_CANCELLED,
    }
}

impl StatusValue {
    /// The value that a text spells, ASCII case ignored.
    pub fn from_text(text: &SpannedSegments<'_>) -> (r: Option<StatusValue>)
        ensures
            r == status_value_of(text.bytes()),
    {
        if text.eq_str_ignore_ascii_case(KW_STATUS_TENTATIVE) {
            Some(StatusValue::Tentative)
        } else if text.eq_str_ignore_ascii_case(KW_STATUS_CONFIRMED) {
            Some(StatusValue::Confirmed)
        } else if text.eq_str_ignore_ascii_case(KW_STATUS_NEEDS_ACTION) {
            Some(StatusValue::NeedsAction)
        } else if text.eq_str_ignore_ascii_case(KW_STATUS_COMPLETED) {
            Some(StatusValue::Completed)
        } else if text.eq_str_ignore_ascii_case(KW_STATUS_IN_PROCESS) {
            Some(StatusValue::InProcess)
        } else if text.eq_str_ignore_ascii_case(KW_STATUS_DRAFT) {
            Some(StatusValue::Draft)
        } else if text.eq_str_ignore_ascii_case(KW_STATUS_FINAL) {
            Some(StatusValue::Final)
        } else if text.eq_str_ignore_ascii_case(KW_STATUS_CANCELLED) {
            Some(StatusValue::Cancelled)
        } else {
            None
        }
    }

    /// The keyword of this value.
    pub fn as_str(&self) -> (r: &'static str)
        ensures
            r == status_value_keyword(*self),
    {
        match self {
            StatusValue::Tentative => KW_STATUS_TENTATIVE,
            StatusValue::Confirmed => KW_STATUS_CONFIRMED,
            StatusValue::NeedsAction => KW_STATUS_NEEDS_ACTION,
            StatusValue::Completed => KW_STATUS_COMPLETED,
            StatusValue::InProcess => KW_STATUS_IN_PROCESS,
            StatusValue::Draft => KW_STATUS_DRAFT,
            StatusValue::Final => KW_STATUS_FINAL,
            StatusValue::Cancelled => KW_STATUS_CANCELLED,
        }
    }
}

/// Event/To-do/Journal status (RFC 5545 Section 3.8.1.11)
#[derive(Debug)]
pub struct Status<S: StringStorage> {
    /// The value
    pub value: StatusValue,
    /// X-name parameters (custom experimental parameters)
    pub x_parameters: Vec<RawParameter<S>>,
    /// Unrecognized / Non-standard parameters (preserved for round-trip)
    pub retained_parameters: Vec<Parameter<S>>,
    /// Span of the property in the source
    pub span: S::Span,
}

/// What converting a property to `Status` gives.
pub open spec fn status_result<'src>(
    prop: ParsedProperty<'src>,
    r: Result<Status<SpannedSegments<'src>>, Vec<TypedError<'src>>>,
) -> bool {
    &&& !(prop.kind is Status) ==> (r matches Err(es) && es@ == seq![
        unexpected_kind(PropertyKind::Status, prop.kind, prop.span),
    ])
    &&& prop.kind is Status ==> (r is Ok) == (single_text(prop.value) matches Some(t)
        && status_value_of(t.value.bytes()) is Some)
    &&& prop.kind is Status ==> (r matches Ok(a) ==> single_text(prop.value) matches Some(t)
        && status_value_of(t.value.bytes()) == Some(a.value) && a.x_parameters@ == x_params(
        prop.parameters@,
    ) && a.retained_parameters@ == retained_params(prop.parameters@, no_claims()) && a.span
        == prop.span)
    &&& prop.kind is Status ==> (r matches Err(es) ==> match single_text(prop.value) {
        None => single_value_errors(es@, prop.kind, prop.value, PropertyValueKind::Text),
        Some(t) => es@.len() == 1 && invalid_value_error(
            es@[0],
            prop.kind,
            "Invalid status: "@ + t.value@,
            value_span(prop.value),
        ),
    })
}

impl<'src> Status<SpannedSegments<'src>> {
    /// Convert a `STATUS` property: a single text naming one of the values
    /// (ASCII case ignored); any other text is an invalid value.
    pub fn try_from(prop: ParsedProperty<'src>) -> (r: Result<Self, Vec<TypedError<'src>>>)
        ensures
            status_result(prop, r),
    {
        if !matches!(prop.kind, PropertyKind::Status) {
            let span = prop.span;
            let es = vec![TypedError::PropertyUnexpectedKind { expected: PropertyKind::Status, found: prop.kind, span }];
            assert(es@ =~= seq![unexpected_kind(PropertyKind::Status, prop.kind, prop.span)]);
            return Err(es);
        }
        let claimed: Vec<ParameterKind> = Vec::new();
        assert(claimed@ =~= no_claims());
        let sorted = sort_parameters(prop.parameters, &claimed);
        let value_span = prop.value.span();
        let text = take_single_text(&PropertyKind::Status, prop.value)?;
        match StatusValue::from_text(&text.value) {
            Some(value) => Ok(Status {
                value,
                x_parameters: sorted.x_parameters,
                retained_parameters: sorted.retained,
                span: prop.span,
            }),
            None => {
                let mut message = "Invalid status: ".to_owned();
                let resolved = text.value.to_owned();
                message.append(resolved.as_str());
                Err(
                    vec![TypedError::PropertyInvalidValue { property: PropertyKind::Status, value: message, span: value_span }],
                )
            },
        }
    }

    /// Convert borrowed type to owned type
    pub fn to_owned(&self) -> (r: Status<String>)
        ensures
            r.value == self.value,
            raw_params_agree(r.x_parameters@, self.x_parameters@),
            params_agree(r.retained_parameters@, self.retained_parameters@),
    {
        Status {
            value: self.value,
            x_parameters: raw_params_to_owned(&self.x_parameters),
            retained_parameters: params_to_owned(&self.retained_parameters),
            span: (),
        }
    }

    /// Get the span of this property
    pub fn span(&self) -> (r: Span)
        ensures
            r == self.span,
    {
        self.span
    }
}

impl Status<String> {
    /// Create a new `Status<String>` from a status value, with no
    /// parameters.
    pub fn new(value: StatusValue) -> (r: Self)
        ensures
            r.value == value,
            r.x_parameters@.len() == 0,
            r.retained_parameters@.len() == 0,
    {
        Status { value, x_parameters: Vec::new(), retained_parameters: Vec::new(), span: () }
    }
}


/// Classification value (RFC 5545 Section 3.8.1.3)
#[derive(Debug, Clone, Copy, PartialEq, Eq)]
pub enum ClassificationValue {
    /// Public classification
    Public,
    /// Private classification
    Private,
    /// Confidential classification
    Confidential,
}

/// The `ClassificationValue` that a text spells, ASCII case ignored.
pub open spec fn classification_value_of(b: Seq<u8>) -> Option<ClassificationValue> {
    if eq_ignore_ascii_case(b, KW_CLASS_PUBLIC.spec_bytes()) {
        Some(ClassificationValue::Public)
    } else if eq_ignore_ascii_case(b, KW_CLASS_PRIVATE.spec_bytes()) {
        Some(ClassificationValue::Private)
    } else if eq_ignore_ascii_case(b, KW_CLASS_CONFIDENTIAL.spec_bytes()) {
        Some(ClassificationValue::Confidential)
    } else {
        None
    }
}

/// Reading the keyword of a classification gives it back: `from_text` undoes
/// `as_str` on every `ClassificationValue`.
pub proof fn lemma_classification_value_round_trip(v: ClassificationValue)
    ensures
        classification_value_of(classification_value_keyword(v).spec_bytes()) == Some(v),
{
    reveal(eq_ignore_ascii_case);
    let b = classification_value_keyword(v).spec_bytes();
    assert(eq_ignore_ascii_case(b, b));
    match v {
        ClassificationValue::Public => {
            reveal_strlit("PUBLIC");
            lemma_ascii_str_bytes(KW_CLASS_PUBLIC);
            assert(classification_value_of(b) == Some(ClassificationValue::Public));
        }
        ClassificationValue::Private => {
            reveal_strlit("PUBLIC");
            reveal_strlit("PRIVATE");
            lemma_ascii_str_bytes(KW_CLASS_PRIVATE);
            lemma_ascii_str_bytes(KW_CLASS_PUBLIC);
            assert(b.len() != KW_CLASS_PUBLIC.spec_bytes().len());
            assert(classification_value_of(b) == Some(ClassificationValue::Private));
        }
        ClassificationValue::Confidential => {
            reveal_strlit("PUBLIC");
            reveal_strlit("PRIVATE");
            reveal_strlit("CONFIDENTIAL");
            lemma_ascii_str_bytes(KW_CLASS_CONFIDENTIAL);
            lemma_ascii_str_bytes(KW_CLASS_PUBLIC);
            assert(b.len() != KW_CLASS_PUBLIC.spec_bytes().len());
            lemma_ascii_str_bytes(KW_CLASS_PRIVATE);
            assert(b.len() != KW_CLASS_PRIVATE.spec_bytes().len());
            assert(classification_value_of(b) == Some(ClassificationValue::Confidential));
        }
    }
}



/// The keyword of a `ClassificationValue`.
pub open spec fn classification_value_keyword(v: ClassificationValue) -> &'static str {
    match v {
        ClassificationValue::Public => KW_CLASS_PUBLIC,
        ClassificationValue::Private => KW_CLASS_PRIVATE,
        ClassificationValue::Confidential => KW_CLASS_CONFIDENTIAL,
    }
}

impl ClassificationValue {
    /// The value that a text spells, ASCII case ignored.
    pub fn from_text(text: &SpannedSegments<'_>) -> (r: Option<ClassificationValue>)
        ensures
            r == classification_value_of(text.bytes()),
    {
        if text.eq_str_ignore_ascii_case(KW_CLASS_PUBLIC) {
            Some(ClassificationValue::Public)
        } else if text.eq_str_ignore_ascii_case(KW_CLASS_PRIVATE) {
            Some(ClassificationValue::Private)
        } else if text.eq_str_ignore_ascii_case(KW_CLASS_CONFIDENTIAL) {
            Some(ClassificationValue::Confidential)
        } else {
            None
        }
    }

    /// The keyword of this value.
    pub fn as_str(&self) -> (r: &'static str)
        ensures
            r == classification_value_keyword(*self),
    {
        match self {
            ClassificationValue::Public => KW_CLASS_PUBLIC,
            ClassificationValue::Private => KW_CLASS_PRIVATE,
            ClassificationValue::Confidential => KW_CLASS_CONFIDENTIAL,
        }
    }
}

/// Classification of calendar data (RFC 5545 Section 3.8.1.3)
#[derive(Debug)]
pub struct Classification<S: StringStorage> {
    /// The value
    pub value: ClassificationValue,
    /// X-name parameters (custom experimental parameters)
    pub x_parameters: Vec<RawParameter<S>>,
    /// Unrecognized / Non-standard parameters (preserved for round-trip)
    pub retained_parameters: Vec<Parameter<S>>,
    /// Span of the property in the source
    pub span: S::Span,
}

/// What converting a property to `Classification` gives.
pub open spec fn classification_result<'src>(
    prop: ParsedProperty<'src>,
    r: Result<Classification<SpannedSegments<'src>>, Vec<TypedError<'src>>>,
) -> bool {
    &&& !(prop.kind is Class) ==> (r matches Err(es) && es@ == seq![
        unexpected_kind(PropertyKind::Class, prop.kind, prop.span),
    ])
    &&& prop.kind is Class ==> (r is Ok) == (single_text(prop.value) matches Some(t)
        && classification_value_of(t.value.bytes()) is Some)
    &&& prop.kind is Class ==> (r matches Ok(a) ==> single_text(prop.value) matches Some(t)
        && classification_value_of(t.value.bytes()) == Some(a.value) && a.x_parameters@ == x_params(
        prop.parameters@,
    ) && a.retained_parameters@ == retained_params(prop.parameters@, no_claims()) && a.span
        == prop.span)
    &&& prop.kind is Class ==> (r matches Err(es) ==> match single_text(prop.value) {
        None => single_value_errors(es@, prop.kind, prop.value, PropertyValueKind::Text),
        Some(t) => es@.len() == 1 && invalid_value_error(
            es@[0],
            prop.kind,
            "Invalid classification: "@ + t.value@,
            value_span(prop.value),
        ),
    })
}

impl<'src> Classification<SpannedSegments<'src>> {
    /// Convert a `CLASS` property: a single text naming one of the values
    /// (ASCII case ignored); any other text is an invalid value.
    pub fn try_from(prop: ParsedProperty<'src>) -> (r: Result<Self, Vec<TypedError<'src>>>)
        ensures
            classification_result(prop, r),
    {
        if !matches!(prop.kind, PropertyKind::Class) {
            let span = prop.span;
            let es = vec![TypedError::PropertyUnexpectedKind { expected: PropertyKind::Class, found: prop.kind, span }];
            assert(es@ =~= seq![unexpected_kind(PropertyKind::Class, prop.kind, prop.span)]);
            return Err(es);
        }
        let claimed: Vec<ParameterKind> = Vec::new();
        assert(claimed@ =~= no_claims());
        let sorted = sort_parameters(prop.parameters, &claimed);
        let value_span = prop.value.span();
        let text = take_single_text(&PropertyKind::Class, prop.value)?;
        match ClassificationValue::from_text(&text.value) {
            Some(value) => Ok(Classification {
                value,
                x_parameters: sorted.x_parameters,
                retained_parameters: sorted.retained,
                span: prop.span,
            }),
            None => {
                let mut message = "Invalid classification: ".to_owned();
                let resolved = text.value.to_owned();
                message.append(resolved.as_str());
                Err(
                    vec![TypedError::PropertyInvalidValue { property: PropertyKind::Class, value: message, span: value_span }],
                )
            },
        }
    }

    /// Convert borrowed type to owned type
    pub fn to_owned(&self) -> (r: Classification<String>)
        ensures
            r.value == self.value,
            raw_params_agree(r.x_parameters@, self.x_parameters@),
            params_agree(r.retained_parameters@, self.retained_parameters@),
    {
        Classification {
            value: self.value,
            x_parameters: raw_params_to_owned(&self.x_parameters),
            retained_parameters: params_to_owned(&self.retained_parameters),
            span: (),
        }
    }

    /// Get the span of this property
    pub fn span(&self) -> (r: Span)
        ensures
            r == self.span,
    {
        self.span
    }
}

/// The errors for a `PERCENT-COMPLETE` value that is not one integer of 0 to 100.
pub open spec fn percent_complete_errors<'src>(
    es: Seq<TypedError<'src>>,
    kind: PropertyKindRef<'src>,
    value: Value<SpannedSegments<'src>>,
) -> bool {
    &&& es.len() == 1
    &&& if value_len(value) != 1 {
        invalid_count_error(es[0], kind, value_len(value), value_span(value))
    } else {
        match value {
            Value::Integer { .. } => invalid_value_error(es[0], kind, "Percent complete must be 0-100"@, value_span(value)),
            _ => es[0] matches TypedError::PropertyUnexpectedValue { property, expected, found, span }
                && property@ == kind@ && expected@ == seq![PropertyValueKind::Integer] && found == value_kind(
                value,
            ) && span == value_span(value),
        }
    }
}

/// Percent Complete (RFC 5545 Section 3.8.1.8)
///
/// This property defines the percent complete for a todo.
/// Value must be between 0 and 100.
#[derive(Debug)]
pub struct PercentComplete<S: StringStorage> {
    /// The value (0-100)
    pub value: u8,
    /// X-name parameters (custom experimental parameters)
    pub x_parameters: Vec<RawParameter<S>>,
    /// Unrecognized / Non-standard parameters (preserved for round-trip)
    pub retained_parameters: Vec<Parameter<S>>,
    /// Span of the property in the source
    pub span: S::Span,
}

/// What converting a property to `PercentComplete` gives.
pub open spec fn percent_complete_result<'src>(
    prop: ParsedProperty<'src>,
    r: Result<PercentComplete<SpannedSegments<'src>>, Vec<TypedError<'src>>>,
) -> bool {
    &&& !(prop.kind is PercentComplete) ==> (r matches Err(es) && es@ == seq![
        unexpected_kind(PropertyKind::PercentComplete, prop.kind, prop.span),
    ])
    &&& prop.kind is PercentComplete ==> (r is Ok) == (prop.value matches Value::Integer { values, .. }
        && values@.len() == 1 && 0 <= values@[0] <= 100)
    &&& prop.kind is PercentComplete ==> (r matches Ok(p) ==> prop.value matches Value::Integer {
        values,
        ..
    } && p.value == values@[0] && p.x_parameters@ == x_params(prop.parameters@)
        && p.retained_parameters@ == retained_params(prop.parameters@, no_claims()) && p.span
        == prop.span)
    &&& prop.kind is PercentComplete ==> (r matches Err(es) ==> percent_complete_errors(es@, prop.kind, prop.value))
}

impl<'src> PercentComplete<SpannedSegments<'src>> {
    /// The property kind of `PERCENT-COMPLETE`.
    pub fn kind() -> (r: PropertyKindRef<'src>)
        ensures
            r is PercentComplete,
    {
        PropertyKind::PercentComplete
    }

    /// Convert a `PERCENT-COMPLETE` property: a single integer of 0 to 100.
    pub fn try_from(prop: ParsedProperty<'src>) -> (r: Result<Self, Vec<TypedError<'src>>>)
        ensures
            percent_complete_result(prop, r),
    {
        if !matches!(prop.kind, PropertyKind::PercentComplete) {
            let span = prop.span;
            let es = vec![TypedError::PropertyUnexpectedKind { expected: PropertyKind::PercentComplete, found: prop.kind, span }];
            assert(es@ =~= seq![unexpected_kind(PropertyKind::PercentComplete, prop.kind, prop.span)]);
            return Err(es);
        }
        let claimed: Vec<ParameterKind> = Vec::new();
        assert(claimed@ =~= no_claims());
        let sorted = sort_parameters(prop.parameters, &claimed);
        let value_span = prop.value.span();
        match take_single_value(&PropertyKind::PercentComplete, prop.value) {
            Ok(Value::Integer { mut values, .. }) => {
                let value = values.pop().unwrap();
                if 0 <= value && value <= 100 {
                    Ok(PercentComplete {
                        value: value as u8,
                        x_parameters: sorted.x_parameters,
                        retained_parameters: sorted.retained,
                        span: prop.span,
                    })
                } else {
                    Err(
                        vec![TypedError::PropertyInvalidValue { property: PropertyKind::PercentComplete, value: "Percent complete must be 0-100".to_owned(), span: value_span }],
                    )
                }
            },
            Ok(v) => {
                let span = v.span();
                Err(
                    vec![TypedError::PropertyUnexpectedValue { property: prop.kind, expected: expect_one(PropertyValueKind::Integer), found: v.kind(), span }],
                )
            },
            Err(e) => Err(e),
        }
    }

    /// Convert borrowed type to owned type
    pub fn to_owned(&self) -> (r: PercentComplete<String>)
        ensures
            r.value == self.value,
            raw_params_agree(r.x_parameters@, self.x_parameters@),
            params_agree(r.retained_parameters@, self.retained_parameters@),
    {
        PercentComplete {
            value: self.value,
            x_parameters: raw_params_to_owned(&self.x_parameters),
            retained_parameters: params_to_owned(&self.retained_parameters),
            span: (),
        }
    }

    /// Get the span of this property
    pub fn span(&self) -> (r: Span)
        ensures
            r == self.span,
    {
        self.span
    }
}

impl PercentComplete<String> {
    /// Create a new `PercentComplete<String>` from a value, with no parameters.
    pub fn new(value: u8) -> (r: Self)
        ensures
            r.value == value,
            r.x_parameters@.len() == 0,
            r.retained_parameters@.len() == 0,
    {
        PercentComplete { value, x_parameters: Vec::new(), retained_parameters: Vec::new(), span: () }
    }
}

/// The errors for a `PRIORITY` value that is not one integer of 0 to 9.
pub open spec fn priority_errors<'src>(
    es: Seq<TypedError<'src>>,
    kind: PropertyKindRef<'src>,
    value: Value<SpannedSegments<'src>>,
) -> bool {
    &&& es.len() == 1
    &&& if value_len(value) != 1 {
        invalid_count_error(es[0], kind, value_len(value), value_span(value))
    } else {
        match value {
            Value::Integer { .. } => invalid_value_error(es[0], kind, "Priority must be 0-9"@, value_span(value)),
            _ => es[0] matches TypedError::PropertyUnexpectedValue { property, expected, found, span }
                && property@ == kind@ && expected@ == seq![PropertyValueKind::Integer] && found == value_kind(
                value,
            ) && span == value_span(value),
        }
    }
}

/// Priority (RFC 5545 Section 3.8.1.9)
///
/// This property defines the priority for a calendar component.
/// Value must be between 0 and 9, where 0 defines an undefined priority.
#[derive(Debug)]
pub struct Priority<S: StringStorage> {
    /// The value (0-9)
    pub value: u8,
    /// X-name parameters (custom experimental parameters)
    pub x_parameters: Vec<RawParameter<S>>,
    /// Unrecognized / Non-standard parameters (preserved for round-trip)
    pub retained_parameters: Vec<Parameter<S>>,
    /// Span of the property in the source
    pub span: S::Span,
}

/// What converting a property to `Priority` gives.
pub open spec fn priority_result<'src>(
    prop: ParsedProperty<'src>,
    r: Result<Priority<SpannedSegments<'src>>, Vec<TypedError<'src>>>,
) -> bool {
    &&& !(prop.kind is Priority) ==> (r matches Err(es) && es@ == seq![
        unexpected_kind(PropertyKind::Priority, prop.kind, prop.span),
    ])
    &&& prop.kind is Priority ==> (r is Ok) == (prop.value matches Value::Integer { values, .. }
        && values@.len() == 1 && 0 <= values@[0] <= 9)
    &&& prop.kind is Priority ==> (r matches Ok(p) ==> prop.value matches Value::Integer {
        values,
        ..
    } && p.value == values@[0] && p.x_parameters@ == x_params(prop.parameters@)
        && p.retained_parameters@ == retained_params(prop.parameters@, no_claims()) && p.span
        == prop.span)
    &&& prop.kind is Priority ==> (r matches Err(es) ==> priority_errors(es@, prop.kind, prop.value))
}

impl<'src> Priority<SpannedSegments<'src>> {
    /// The property kind of `PRIORITY`.
    pub fn kind() -> (r: PropertyKindRef<'src>)
        ensures
            r is Priority,
    {
        PropertyKind::Priority
    }

    /// Convert a `PRIORITY` property: a single integer of 0 to 9.
    pub fn try_from(prop: ParsedProperty<'src>) -> (r: Result<Self, Vec<TypedError<'src>>>)
        ensures
            priority_result(prop, r),
    {
        if !matches!(prop.kind, PropertyKind::Priority) {
            let span = prop.span;
            let es = vec![TypedError::PropertyUnexpectedKind { expected: PropertyKind::Priority, found: prop.kind, span }];
            assert(es@ =~= seq![unexpected_kind(PropertyKind::Priority, prop.kind, prop.span)]);
            return Err(es);
        }
        let claimed: Vec<ParameterKind> = Vec::new();
        assert(claimed@ =~= no_claims());
        let sorted = sort_parameters(prop.parameters, &claimed);
        let value_span = prop.value.span();
        match take_single_value(&PropertyKind::Priority, prop.value) {
            Ok(Value::Integer { mut values, .. }) => {
                let value = values.pop().unwrap();
                if 0 <= value && value <= 9 {
                    Ok(Priority {
                        value: value as u8,
                        x_parameters: sorted.x_parameters,
                        retained_parameters: sorted.retained,
                        span: prop.span,
                    })
                } else {
                    Err(
                        vec![TypedError::PropertyInvalidValue { property: PropertyKind::Priority, value: "Priority must be 0-9".to_owned(), span: value_span }],
                    )
                }
            },
            Ok(v) => {
                let span = v.span();
                Err(
                    vec![TypedError::PropertyUnexpectedValue { property: prop.kind, expected: expect_one(PropertyValueKind::Integer), found: v.kind(), span }],
                )
            },
            Err(e) => Err(e),
        }
    }

    /// Convert borrowed type to owned type
    pub fn to_owned(&self) -> (r: Priority<String>)
        ensures
            r.value == self.value,
            raw_params_agree(r.x_parameters@, self.x_parameters@),
            params_agree(r.retained_parameters@, self.retained_parameters@),
    {
        Priority {
            value: self.value,
            x_parameters: raw_params_to_owned(&self.x_parameters),
            retained_parameters: params_to_owned(&self.retained_parameters),
            span: (),
        }
    }

    /// Get the span of this property
    pub fn span(&self) -> (r: Span)
        ensures
            r == self.span,
    {
        self.span
    }
}

impl Priority<String> {
    /// Create a new `Priority<String>` from a value, with no parameters.
    pub fn new(value: u8) -> (r: Self)
        ensures
            r.value == value,
            r.x_parameters@.len() == 0,
            r.retained_parameters@.len() == 0,
    {
        Priority { value, x_parameters: Vec::new(), retained_parameters: Vec::new(), span: () }
    }
}


/// The error for a list value that is not text.
pub open spec fn not_text_error<'src>(
    e: TypedError<'src>,
    kind: PropertyKindRef<'src>,
    value: Value<SpannedSegments<'src>>,
) -> bool {
    e matches TypedError::PropertyUnexpectedValue { property, expected, found, span }
        && property@ == kind@ && expected@ == seq![PropertyValueKind::Text] && found == value_kind(value)
        && span == value_span(value)
}

/// Categories property (RFC 5545 Section 3.8.1.2)
///
/// This property defines the categories for a calendar component.
///
/// Per RFC 5545, CATEGORIES supports the LANGUAGE parameter but NOT ALTREP.
#[derive(Debug)]
pub struct Categories<S: StringStorage> {
    /// List of category text values
    pub values: Vec<ValueText<S>>,
    /// Language code (optional, applied to all values)
    pub language: Option<S>,
    /// X-name parameters (custom experimental parameters)
    pub x_parameters: Vec<RawParameter<S>>,
    /// Unrecognized / Non-standard parameters (preserved for round-trip)
    pub retained_parameters: Vec<Parameter<S>>,
    /// Span of the property in the source
    pub span: S::Span,
}

/// What converting a property to `Categories` gives.
pub open spec fn categories_result<'src>(
    prop: ParsedProperty<'src>,
    r: Result<Categories<SpannedSegments<'src>>, Vec<TypedError<'src>>>,
) -> bool {
    &&& !(prop.kind is Categories) ==> (r matches Err(es) && es@ == seq![
        unexpected_kind(PropertyKind::Categories, prop.kind, prop.span),
    ])
    &&& prop.kind is Categories ==> (r is Ok) == (dup_errors(prop.parameters@, language_claims()).len()
        == 0 && prop.value is Text)
    &&& prop.kind is Categories ==> (r matches Ok(c) ==> prop.value matches Value::Text { values, .. }
        && c.values == values && c.language == text_value(
        first_param(prop.parameters@, ParameterKind::Language),
    ) && c.x_parameters@ == x_params(prop.parameters@) && c.retained_parameters@
        == retained_params(prop.parameters@, language_claims()) && c.span == prop.span)
    &&& prop.kind is Categories ==> (r matches Err(es) ==> if dup_errors(
        prop.parameters@,
        language_claims(),
    ).len() > 0 {
        es@ == seq![dup_errors(prop.parameters@, language_claims())[0]]
    } else {
        es@.len() == 1 && not_text_error(es@[0], prop.kind, prop.value)
    })
}

impl<'src> Categories<SpannedSegments<'src>> {
    /// Convert a `CATEGORIES` property: a list of texts with an optional
    /// `LANGUAGE`. The first duplicated `LANGUAGE` is the one error reported.
    pub fn try_from(prop: ParsedProperty<'src>) -> (r: Result<Self, Vec<TypedError<'src>>>)
        ensures
            categories_result(prop, r),
    {
        if !matches!(prop.kind, PropertyKind::Categories) {
            let span = prop.span;
            let es = vec![TypedError::PropertyUnexpectedKind { expected: PropertyKind::Categories, found: prop.kind, span }];
            assert(es@ =~= seq![unexpected_kind(PropertyKind::Categories, prop.kind, prop.span)]);
            return Err(es);
        }
        let claimed: Vec<ParameterKind> = vec![ParameterKind::Language];
        assert(claimed@ =~= language_claims());
        let mut sorted = sort_parameters(prop.parameters, &claimed);
        if sorted.errors.len() > 0 {
            let ghost dups = sorted.errors@;
            let first = sorted.errors.remove(0);
            let es = vec![first];
            assert(es@ =~= seq![dups[0]]);
            return Err(es);
        }
        let language = take_text(next_slot(&mut sorted.slots));
        match prop.value {
            Value::Text { values, .. } => Ok(Categories {
                values,
                language,
                x_parameters: sorted.x_parameters,
                retained_parameters: sorted.retained,
                span: prop.span,
            }),
            v => {
                let span = v.span();
                Err(
                    vec![TypedError::PropertyUnexpectedValue { property: prop.kind, expected: expect_one(PropertyValueKind::Text), found: v.kind(), span }],
                )
            },
        }
    }

    /// Convert borrowed `Categories` to owned `Categories`
    pub fn to_owned(&self) -> (r: Categories<String>)
        ensures
            value_texts_agree(r.values@, self.values@),
            opt_agrees(r.language, self.language),
            raw_params_agree(r.x_parameters@, self.x_parameters@),
            params_agree(r.retained_parameters@, self.retained_parameters@),
    {
        Categories {
            values: value_texts_to_owned(&self.values),
            language: opt_to_owned(&self.language),
            x_parameters: raw_params_to_owned(&self.x_parameters),
            retained_parameters: params_to_owned(&self.retained_parameters),
            span: (),
        }
    }

    /// Get the span of this property
    pub fn span(&self) -> (r: Span)
        ensures
            r == self.span,
    {
        self.span
    }
}

/// Resources property (RFC 5545 Section 3.8.1.10)
///
/// This property defines the equipment or resources anticipated for an activity.
///
/// Per RFC 5545, RESOURCES supports both LANGUAGE and ALTREP parameters.
#[derive(Debug)]
pub struct Resources<S: StringStorage> {
    /// List of resource text values
    pub values: Vec<ValueText<S>>,
    /// Language code (optional, applied to all values)
    pub language: Option<S>,
    /// Alternate text representation URI (optional)
    pub altrep: Option<S>,
    /// X-name parameters (custom experimental parameters)
    pub x_parameters: Vec<RawParameter<S>>,
    /// Unrecognized / Non-standard parameters (preserved for round-trip)
    pub retained_parameters: Vec<Parameter<S>>,
    /// Span of the property in the source
    pub span: S::Span,
}

/// What converting a property to `Resources` gives.
pub open spec fn resources_result<'src>(
    prop: ParsedProperty<'src>,
    r: Result<Resources<SpannedSegments<'src>>, Vec<TypedError<'src>>>,
) -> bool {
    &&& !(prop.kind is Resources) ==> (r matches Err(es) && es@ == seq![
        unexpected_kind(PropertyKind::Resources, prop.kind, prop.span),
    ])
    &&& prop.kind is Resources ==> (r is Ok) == (dup_errors(prop.parameters@, text_claims()).len() == 0
        && prop.value is Text)
    &&& prop.kind is Resources ==> (r matches Ok(c) ==> prop.value matches Value::Text { values, .. }
        && c.values == values && c.language == text_value(
        first_param(prop.parameters@, ParameterKind::Language),
    ) && c.altrep == text_value(first_param(prop.parameters@, ParameterKind::AlternateText))
        && c.x_parameters@ == x_params(prop.parameters@) && c.retained_parameters@
        == retained_params(prop.parameters@, text_claims()) && c.span == prop.span)
    &&& prop.kind is Resources ==> (r matches Err(es) ==> if dup_errors(
        prop.parameters@,
        text_claims(),
    ).len() > 0 {
        es@ == dup_errors(prop.parameters@, text_claims())
    } else {
        es@.len() == 1 && not_text_error(es@[0], prop.kind, prop.value)
    })
}

impl<'src> Resources<SpannedSegments<'src>> {
    /// Convert a `RESOURCES` property: a list of texts with an optional
    /// `LANGUAGE` and `ALTREP`; every duplicated one is reported.
    pub fn try_from(prop: ParsedProperty<'src>) -> (r: Result<Self, Vec<TypedError<'src>>>)
        ensures
            resources_result(prop, r),
    {
        if !matches!(prop.kind, PropertyKind::Resources) {
            let span = prop.span;
            let es = vec![TypedError::PropertyUnexpectedKind { expected: PropertyKind::Resources, found: prop.kind, span }];
            assert(es@ =~= seq![unexpected_kind(PropertyKind::Resources, prop.kind, prop.span)]);
            return Err(es);
        }
        let claimed: Vec<ParameterKind> = vec![ParameterKind::Language, ParameterKind::AlternateText];
        assert(claimed@ =~= text_claims());
        let mut sorted = sort_parameters(prop.parameters, &claimed);
        if sorted.errors.len() > 0 {
            return Err(sorted.errors);
        }
        let language = take_text(next_slot(&mut sorted.slots));
        let altrep = take_text(next_slot(&mut sorted.slots));
        match prop.value {
            Value::Text { values, .. } => Ok(Resources {
                values,
                language,
                altrep,
                x_parameters: sorted.x_parameters,
                retained_parameters: sorted.retained,
                span: prop.span,
            }),
            v => {
                let span = v.span();
                Err(
                    vec![TypedError::PropertyUnexpectedValue { property: prop.kind, expected: expect_one(PropertyValueKind::Text), found: v.kind(), span }],
                )
            },
        }
    }

    /// Convert borrowed `Resources` to owned `Resources`
    pub fn to_owned(&self) -> (r: Resources<String>)
        ensures
            value_texts_agree(r.values@, self.values@),
            opt_agrees(r.language, self.language),
            opt_agrees(r.altrep, self.altrep),
            raw_params_agree(r.x_parameters@, self.x_parameters@),
            params_agree(r.retained_parameters@, self.retained_parameters@),
    {
        Resources {
            values: value_texts_to_owned(&self.values),
            language: opt_to_owned(&self.language),
            altrep: opt_to_owned(&self.altrep),
            x_parameters: raw_params_to_owned(&self.x_parameters),
            retained_parameters: params_to_owned(&self.retained_parameters),
            span: (),
        }
    }

    /// Get the span of this property
    pub fn span(&self) -> (r: Span)
        ensures
            r == self.span,
    {
        self.span
    }
}


/// Attachment value (URI or binary)
#[derive(Debug)]
pub enum AttachmentValue<S: StringStorage> {
    /// URI reference
    Uri(S),
    /// Binary data
    Binary(S),
}

/// Two attachment values agree: the same variant with the same text.
pub open spec fn attachment_value_agrees<A: StringStorage, B: StringStorage>(
    a: AttachmentValue<A>,
    b: AttachmentValue<B>,
) -> bool {
    match (a, b) {
        (AttachmentValue::Uri(x), AttachmentValue::Uri(y)) => x.text() == y.text(),
        (AttachmentValue::Binary(x), AttachmentValue::Binary(y)) => x.text() == y.text(),
        _ => false,
    }
}

impl<'src> AttachmentValue<SpannedSegments<'src>> {
    /// Convert borrowed `AttachmentValue` to owned `AttachmentValue`
    pub fn to_owned(&self) -> (r: AttachmentValue<String>)
        ensures
            attachment_value_agrees(r, *self),
    {
        match self {
            AttachmentValue::Uri(v) => AttachmentValue::Uri(v.to_owned()),
            AttachmentValue::Binary(v) => AttachmentValue::Binary(v.to_owned()),
        }
    }
}

/// The parameter kinds that `ATTACH` takes for itself.
pub open spec fn attach_claims() -> Seq<ParameterKind> {
    seq![ParameterKind::FormatType, ParameterKind::Encoding]
}

/// The encoding of the first `ENCODING` parameter, if any.
pub open spec fn encoding_value<'src>(p: Option<Parameter<SpannedSegments<'src>>>) -> Option<Encoding> {
    match p {
        Some(Parameter::Encoding { value, .. }) => Some(value),
        _ => None,
    }
}

/// The attachment that a single value gives: a binary or a URI.
pub open spec fn attachment_of<'src>(value: Value<SpannedSegments<'src>>) -> Option<
    AttachmentValue<SpannedSegments<'src>>,
> {
    match value {
        Value::Binary { value, .. } => Some(AttachmentValue::Binary(value)),
        Value::Uri { value, .. } => Some(AttachmentValue::Uri(value)),
        _ => None,
    }
}

/// The errors of an attachment's value: the count error where it is not one
/// value, the type error where it is neither binary nor a URI, else none.
pub open spec fn attach_value_errors<'src>(
    es: Seq<TypedError<'src>>,
    kind: PropertyKindRef<'src>,
    value: Value<SpannedSegments<'src>>,
) -> bool {
    if value_len(value) != 1 {
        es.len() == 1 && invalid_count_error(es[0], kind, value_len(value), value_span(value))
    } else if attachment_of(value) is None {
        es.len() == 1 && (es[0] matches TypedError::PropertyUnexpectedValue { property, expected, found, span }
            && property@ == kind@ && expected@ == seq![PropertyValueKind::Uri, PropertyValueKind::Binary]
            && found == value_kind(value) && span == value_span(value))
    } else {
        es.len() == 0
    }
}

/// Attachment information (RFC 5545 Section 3.8.1.1)
#[derive(Debug)]
pub struct Attachment<S: StringStorage> {
    /// URI or binary data
    pub value: AttachmentValue<S>,
    /// Format type (optional)
    pub fmt_type: Option<S>,
    /// Encoding (optional)
    pub encoding: Option<Encoding>,
    /// X-name parameters (custom experimental parameters)
    pub x_parameters: Vec<RawParameter<S>>,
    /// Unrecognized / Non-standard parameters (preserved for round-trip)
    pub retained_parameters: Vec<Parameter<S>>,
    /// Span of the property in the source
    pub span: S::Span,
}

/// What converting a property to `Attachment` gives.
pub open spec fn attachment_result<'src>(
    prop: ParsedProperty<'src>,
    r: Result<Attachment<SpannedSegments<'src>>, Vec<TypedError<'src>>>,
) -> bool {
    &&& !(prop.kind is Attach) ==> (r matches Err(es) && es@ == seq![
        unexpected_kind(PropertyKind::Attach, prop.kind, prop.span),
    ])
    &&& prop.kind is Attach ==> (r is Ok) == (dup_errors(prop.parameters@, attach_claims()).len() == 0
        && value_len(prop.value) == 1 && attachment_of(prop.value) is Some)
    &&& prop.kind is Attach ==> (r matches Ok(a) ==> attachment_of(prop.value) == Some(a.value)
        && a.fmt_type == text_value(first_param(prop.parameters@, ParameterKind::FormatType))
        && a.encoding == encoding_value(first_param(prop.parameters@, ParameterKind::Encoding))
        && a.x_parameters@ == x_params(prop.parameters@) && a.retained_parameters@
        == retained_params(prop.parameters@, attach_claims()) && a.span == prop.span)
    &&& prop.kind is Attach ==> (r matches Err(es) ==> exists|vs: Seq<TypedError<'src>>|
        attach_value_errors(vs, prop.kind, prop.value) && es@ == dup_errors(
            prop.parameters@,
            attach_claims(),
        ) + vs)
}

impl<'src> Attachment<SpannedSegments<'src>> {
    /// Convert an `ATTACH` property: a single binary or URI value, with an
    /// optional `FMTTYPE` and `ENCODING`. All errors are reported: the
    /// duplicated parameters first, then the value's.
    pub fn try_from(prop: ParsedProperty<'src>) -> (r: Result<Self, Vec<TypedError<'src>>>)
        ensures
            attachment_result(prop, r),
    {
        if !matches!(prop.kind, PropertyKind::Attach) {
            let span = prop.span;
            let es = vec![TypedError::PropertyUnexpectedKind { expected: PropertyKind::Attach, found: prop.kind, span }];
            assert(es@ =~= seq![unexpected_kind(PropertyKind::Attach, prop.kind, prop.span)]);
            return Err(es);
        }
        let claimed: Vec<ParameterKind> = vec![ParameterKind::FormatType, ParameterKind::Encoding];
        assert(claimed@ =~= attach_claims());
        let mut sorted = sort_parameters(prop.parameters, &claimed);
        let fmt_type = take_text(next_slot(&mut sorted.slots));
        let encoding = match next_slot(&mut sorted.slots) {
            Some(Parameter::Encoding { value, .. }) => Some(value),
            _ => None,
        };
        let mut errors = sorted.errors;
        let ghost dups = errors@;
        let ghost mut vs: Seq<TypedError<'src>> = Seq::empty();
        let ghost v0 = prop.value;
        let value = match take_single_value(&PropertyKind::Attach, prop.value) {
            Ok(Value::Binary { value, .. }) => Some(AttachmentValue::Binary(value)),
            Ok(Value::Uri { value, .. }) => Some(AttachmentValue::Uri(value)),
            Ok(v) => {
                let span = v.span();
                let mut expected: Vec<PropertyValueKind> = Vec::new();
                expected.push(PropertyValueKind::Uri);
                expected.push(PropertyValueKind::Binary);
                assert(expected@ =~= seq![PropertyValueKind::Uri, PropertyValueKind::Binary]);
                let e = TypedError::PropertyUnexpectedValue { property: PropertyKind::Attach, expected, found: v.kind(), span };
                errors.push(e);
                assert(attach_value_errors(seq![e], PropertyKind::Attach, v));
                assert(errors@ =~= dups + seq![e]);
                proof {
                    vs = seq![e];
                }
                None
            },
            Err(mut e) => {
                proof {
                    vs = e@;
                }
                errors.append(&mut e);
                assert(errors@ =~= dups + vs);
                None
            },
        };
        assert(attach_value_errors(vs, PropertyKind::Attach, v0));
        assert(errors@ =~= dups + vs);
        if errors.len() > 0 {
            return Err(errors);
        }
        match value {
            Some(value) => Ok(Attachment {
                value,
                fmt_type,
                encoding,
                x_parameters: sorted.x_parameters,
                retained_parameters: sorted.retained,
                span: prop.span,
            }),
            None => Err(errors),
        }
    }

    /// Convert borrowed `Attachment` to owned `Attachment`
    pub fn to_owned(&self) -> (r: Attachment<String>)
        ensures
            attachment_value_agrees(r.value, self.value),
            opt_agrees(r.fmt_type, self.fmt_type),
            r.encoding == self.encoding,
            raw_params_agree(r.x_parameters@, self.x_parameters@),
            params_agree(r.retained_parameters@, self.retained_parameters@),
    {
        Attachment {
            value: self.value.to_owned(),
            fmt_type: opt_to_owned(&self.fmt_type),
            encoding: self.encoding,
            x_parameters: raw_params_to_owned(&self.x_parameters),
            retained_parameters: params_to_owned(&self.retained_parameters),
            span: (),
        }
    }

    /// Get the span of this property
    pub fn span(&self) -> (r: Span)
        ensures
            r == self.span,
    {
        self.span
    }
}

} // verus!
