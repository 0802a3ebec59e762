//! Helper functions and types for property parsing.
//!
//! This module provides utility functions and common types for extracting
//! and converting property values from typed properties to semantic types,
//! and the sorting of a property's parameters that every conversion shares:
//! the first parameter of each kind that the property uses is taken, a later
//! one of such a kind is reported as duplicated, experimental (`X-`)
//! parameters are kept apart, and all others are retained as written.

use vstd::prelude::*;

use crate::parameter::{
    CalendarUserType, Parameter, ParameterKind, ParticipationRole, ParticipationStatus,
    RelationshipType, param_agrees, param_kind, param_span,
};
use crate::property::{PropertyKindRef, PropertyValueKind};
use crate::string_storage::{Span, SpannedSegments, StringStorage};
use crate::syntax::{RawParameter, raw_param_agrees};
use crate::typed::{ParsedProperty, TypedError};
use crate::value::{Value, ValueText, value_kind, value_len, value_span};

verus! {

// ---------------------------------------------------------------------------
// Sorting parameters
// ---------------------------------------------------------------------------

/// The first parameter of kind `k`, if any.
pub open spec fn first_param<'src>(
    ps: Seq<Parameter<SpannedSegments<'src>>>,
    k: ParameterKind,
) -> Option<Parameter<SpannedSegments<'src>>>
    decreases ps.len(),
{
    if ps.len() == 0 {
        None
    } else {
        match first_param(ps.drop_last(), k) {
            Some(p) => Some(p),
            None => if param_kind(ps.last()) == k {
                Some(ps.last())
            } else {
                None
            },
        }
    }
}

/// The error for a parameter that occurs again.
pub open spec fn duplicated<'src>(p: Parameter<SpannedSegments<'src>>) -> TypedError<'src> {
    TypedError::ParameterDuplicated { parameter: param_kind(p), span: param_span(p) }
}

/// The errors for the parameters of a claimed kind that follow an earlier one
/// of the same kind, in order.
pub open spec fn dup_errors<'src>(
    ps: Seq<Parameter<SpannedSegments<'src>>>,
    claimed: Seq<ParameterKind>,
) -> Seq<TypedError<'src>>
    decreases ps.len(),
{
    if ps.len() == 0 {
        Seq::empty()
    } else {
        let prev = dup_errors(ps.drop_last(), claimed);
        let p = ps.last();
        if claimed.contains(param_kind(p)) && first_param(ps.drop_last(), param_kind(p)) is Some {
            prev.push(duplicated(p))
        } else {
            prev
        }
    }
}

/// The experimental (`X-`) parameters, in order.
pub open spec fn x_params<'src>(ps: Seq<Parameter<SpannedSegments<'src>>>) -> Seq<
    RawParameter<SpannedSegments<'src>>,
>
    decreases ps.len(),
{
    if ps.len() == 0 {
        Seq::empty()
    } else {
        let prev = x_params(ps.drop_last());
        match ps.last() {
            Parameter::XName(raw) => prev.push(raw),
            _ => prev,
        }
    }
}

/// The parameters that are neither experimental nor of a claimed kind, in
/// order.
pub open spec fn retained_params<'src>(
    ps: Seq<Parameter<SpannedSegments<'src>>>,
    claimed: Seq<ParameterKind>,
) -> Seq<Parameter<SpannedSegments<'src>>>
    decreases ps.len(),
{
    if ps.len() == 0 {
        Seq::empty()
    } else {
        let prev = retained_params(ps.drop_last(), claimed);
        let p = ps.last();
        if p is XName || claimed.contains(param_kind(p)) {
            prev
        } else {
            prev.push(p)
        }
    }
}

/// A parameter's position in a prefix of the parameters, kept by the kind it
/// names: the first parameter of a kind is of that kind.
pub proof fn lemma_first_param_kind<'src>(ps: Seq<Parameter<SpannedSegments<'src>>>, k: ParameterKind)
    ensures
        first_param(ps, k) matches Some(p) ==> param_kind(p) == k,
    decreases ps.len(),
{
    if ps.len() > 0 {
        lemma_first_param_kind(ps.drop_last(), k);
    }
}

/// A property's parameters, sorted.
pub struct SortedParameters<'src> {
    /// The first parameter of each claimed kind, in the order of the kinds
    pub slots: Vec<Option<Parameter<SpannedSegments<'src>>>>,
    /// The duplicated parameter errors
    pub errors: Vec<TypedError<'src>>,
    /// The experimental parameters
    pub x_parameters: Vec<RawParameter<SpannedSegments<'src>>>,
    /// The other parameters
    pub retained: Vec<Parameter<SpannedSegments<'src>>>,
}

/// Whether the claimed kinds are standard and distinct.
pub open spec fn claims_wf(claimed: Seq<ParameterKind>) -> bool {
    &&& forall|j: int|
        0 <= j < claimed.len() ==> #[trigger] claimed[j] != ParameterKind::XName && claimed[j]
            != ParameterKind::Unrecognized
    &&& forall|a: int, b: int| 0 <= a < b < claimed.len() ==> claimed[a] != claimed[b]
}

/// The position of a kind among the claimed kinds.
fn claim_index(claimed: &Vec<ParameterKind>, k: ParameterKind) -> (r: Option<usize>)
    ensures
        match r {
            Some(j) => j < claimed@.len() && claimed@[j as int] == k,
            None => !claimed@.contains(k),
        },
{
    let mut j: usize = 0;
    while j < claimed.len()
        invariant
            0 <= j <= claimed@.len(),
            forall|a: int| 0 <= a < j ==> claimed@[a] != k,
        decreases claimed@.len() - j,
    {
        if claimed[j] == k {
            return Some(j);
        }
        j = j + 1;
    }
    None
}

/// Sort parameters by the kinds that a property claims.
pub(crate) fn sort_parameters<'src>(params: Vec<Parameter<SpannedSegments<'src>>>, claimed: &Vec<ParameterKind>) -> (r:
    SortedParameters<'src>)
    requires
        claims_wf(claimed@),
    ensures
        r.slots@.len() == claimed@.len(),
        forall|j: int|
            0 <= j < claimed@.len() ==> #[trigger] r.slots@[j] == first_param(params@, claimed@[j]),
        r.errors@ == dup_errors(params@, claimed@),
        r.x_parameters@ == x_params(params@),
        r.retained@ == retained_params(params@, claimed@),
{
    let ghost ps = params@;
    let total = params.len();
    assert(ps.len() == total);
    let mut slots: Vec<Option<Parameter<SpannedSegments<'src>>>> = Vec::new();
    let mut j: usize = 0;
    while j < claimed.len()
        invariant
            0 <= j <= claimed@.len(),
            slots@.len() == j,
            forall|a: int| 0 <= a < j ==> #[trigger] slots@[a] is None,
        decreases claimed@.len() - j,
    {
        slots.push(None);
        j = j + 1;
    }
    let mut errors: Vec<TypedError<'src>> = Vec::new();
    let mut x_parameters: Vec<RawParameter<SpannedSegments<'src>>> = Vec::new();
    let mut retained: Vec<Parameter<SpannedSegments<'src>>> = Vec::new();
    let mut rest = params;
    let mut i: usize = 0;
    assert(ps.take(0) =~= Seq::<Parameter<SpannedSegments<'src>>>::empty());
    assert(rest@ =~= ps.skip(0));
    while rest.len() > 0
        invariant
            0 <= i <= ps.len(),
            ps.len() <= usize::MAX,
            rest@ == ps.skip(i as int),
            claims_wf(claimed@),
            slots@.len() == claimed@.len(),
            forall|a: int|
                0 <= a < claimed@.len() ==> #[trigger] slots@[a] == first_param(
                    ps.take(i as int),
                    claimed@[a],
                ),
            errors@ == dup_errors(ps.take(i as int), claimed@),
            x_parameters@ == x_params(ps.take(i as int)),
            retained@ == retained_params(ps.take(i as int), claimed@),
        decreases rest@.len(),
    {
        let ghost pre = ps.take(i as int);
        let p = rest.remove(0);
        assert(p == ps[i as int]);
        let ghost cur = ps.take(i as int + 1);
        assert(cur.drop_last() =~= pre);
        assert(cur.last() == p);
        let k = p.kind();
        match p {
            Parameter::XName(raw) => {
                x_parameters.push(raw);
                assert forall|a: int| 0 <= a < claimed@.len() implies #[trigger] slots@[a]
                    == first_param(cur, claimed@[a]) by {
                    assert(claimed@[a] != ParameterKind::XName);
                }
                assert(!claimed@.contains(ParameterKind::XName));
            },
            p => {
                match claim_index(claimed, k) {
                    Some(j) => {
                        proof {
                            lemma_first_param_kind(pre, k);
                        }
                        if slots[j].is_some() {
                            errors.push(TypedError::ParameterDuplicated { parameter: k, span: p.span() });
                        } else {
                            slots[j] = Some(p);
                        }
                        assert forall|a: int| 0 <= a < claimed@.len() implies #[trigger] slots@[a]
                            == first_param(cur, claimed@[a]) by {
                            if a != j {
                                assert(claimed@[a] != claimed@[j as int]);
                            }
                        }
                    },
                    None => {
                        retained.push(p);
                        assert forall|a: int| 0 <= a < claimed@.len() implies #[trigger] slots@[a]
                            == first_param(cur, claimed@[a]) by {
                            assert(claimed@[a] != k);
                        }
                    },
                }
            },
        }
        assert(rest@ =~= ps.skip(i as int + 1));
        i = i + 1;
    }
    assert(ps.take(i as int) =~= ps);
    SortedParameters { slots, errors, x_parameters, retained }
}

// ---------------------------------------------------------------------------
// Parameter values
// ---------------------------------------------------------------------------

/// The text value of a text-valued parameter.
pub open spec fn text_value<'src>(p: Option<Parameter<SpannedSegments<'src>>>) -> Option<
    SpannedSegments<'src>,
> {
    match p {
        Some(Parameter::AlternateText { value, .. }) => Some(value),
        Some(Parameter::CommonName { value, .. }) => Some(value),
        Some(Parameter::Directory { value, .. }) => Some(value),
        Some(Parameter::Language { value, .. }) => Some(value),
        Some(Parameter::SendBy { value, .. }) => Some(value),
        Some(Parameter::TimeZoneIdentifier { value, .. }) => Some(value),
        Some(Parameter::FormatType { value, .. }) => Some(value),
        _ => None,
    }
}

/// The values of a parameter that takes a list of addresses.
pub open spec fn list_value<'src>(p: Option<Parameter<SpannedSegments<'src>>>) -> Option<
    Vec<SpannedSegments<'src>>,
> {
    match p {
        Some(Parameter::Delegators { values, .. }) => Some(values),
        Some(Parameter::Delegatees { values, .. }) => Some(values),
        Some(Parameter::GroupOrListMembership { values, .. }) => Some(values),
        _ => None,
    }
}

pub(crate) fn take_text(p: Option<Parameter<SpannedSegments<'_>>>) -> (r: Option<SpannedSegments<'_>>)
    ensures
        r == text_value(p),
{
    match p {
        Some(Parameter::AlternateText { value, .. }) => Some(value),
        Some(Parameter::CommonName { value, .. }) => Some(value),
        Some(Parameter::Directory { value, .. }) => Some(value),
        Some(Parameter::Language { value, .. }) => Some(value),
        Some(Parameter::SendBy { value, .. }) => Some(value),
        Some(Parameter::TimeZoneIdentifier { value, .. }) => Some(value),
        Some(Parameter::FormatType { value, .. }) => Some(value),
        _ => None,
    }
}

pub(crate) fn take_list(p: Option<Parameter<SpannedSegments<'_>>>) -> (r: Option<Vec<SpannedSegments<'_>>>)
    ensures
        r == list_value(p),
{
    match p {
        Some(Parameter::Delegators { values, .. }) => Some(values),
        Some(Parameter::Delegatees { values, .. }) => Some(values),
        Some(Parameter::GroupOrListMembership { values, .. }) => Some(values),
        _ => None,
    }
}

/// The value of a `ROLE` parameter.
pub open spec fn role_value<'src>(p: Option<Parameter<SpannedSegments<'src>>>) -> Option<
    ParticipationRole<SpannedSegments<'src>>,
> {
    match p {
        Some(Parameter::ParticipationRole { value, .. }) => Some(value),
        _ => None,
    }
}

/// The value of a `PARTSTAT` parameter.
pub open spec fn part_stat_value<'src>(p: Option<Parameter<SpannedSegments<'src>>>) -> Option<
    ParticipationStatus<SpannedSegments<'src>>,
> {
    match p {
        Some(Parameter::ParticipationStatus { value, .. }) => Some(value),
        _ => None,
    }
}

/// The value of a `CUTYPE` parameter.
pub open spec fn cutype_value<'src>(p: Option<Parameter<SpannedSegments<'src>>>) -> Option<
    CalendarUserType<SpannedSegments<'src>>,
> {
    match p {
        Some(Parameter::CalendarUserType { value, .. }) => Some(value),
        _ => None,
    }
}

/// The value of a `RELTYPE` parameter.
pub open spec fn reltype_value<'src>(p: Option<Parameter<SpannedSegments<'src>>>) -> Option<
    RelationshipType<SpannedSegments<'src>>,
> {
    match p {
        Some(Parameter::RelationshipType { value, .. }) => Some(value),
        _ => None,
    }
}

/// The value of an `RSVP` parameter.
pub open spec fn rsvp_value<'src>(p: Option<Parameter<SpannedSegments<'src>>>) -> Option<bool> {
    match p {
        Some(Parameter::RsvpExpectation { value, .. }) => Some(value),
        _ => None,
    }
}

pub(crate) fn take_role(p: Option<Parameter<SpannedSegments<'_>>>) -> (r: Option<ParticipationRole<SpannedSegments<'_>>>)
    ensures
        r == role_value(p),
{
    match p {
        Some(Parameter::ParticipationRole { value, .. }) => Some(value),
        _ => None,
    }
}

pub(crate) fn take_part_stat(p: Option<Parameter<SpannedSegments<'_>>>) -> (r: Option<ParticipationStatus<SpannedSegments<'_>>>)
    ensures
        r == part_stat_value(p),
{
    match p {
        Some(Parameter::ParticipationStatus { value, .. }) => Some(value),
        _ => None,
    }
}

pub(crate) fn take_cutype(p: Option<Parameter<SpannedSegments<'_>>>) -> (r: Option<CalendarUserType<SpannedSegments<'_>>>)
    ensures
        r == cutype_value(p),
{
    match p {
        Some(Parameter::CalendarUserType { value, .. }) => Some(value),
        _ => None,
    }
}

pub(crate) fn take_reltype(p: Option<Parameter<SpannedSegments<'_>>>) -> (r: Option<RelationshipType<SpannedSegments<'_>>>)
    ensures
        r == reltype_value(p),
{
    match p {
        Some(Parameter::RelationshipType { value, .. }) => Some(value),
        _ => None,
    }
}

pub(crate) fn take_rsvp(p: Option<Parameter<SpannedSegments<'_>>>) -> (r: Option<bool>)
    ensures
        r == rsvp_value(p),
{
    match p {
        Some(Parameter::RsvpExpectation { value, .. }) => Some(value),
        _ => None,
    }
}

/// Take the first slot of a list of slots.
pub(crate) fn next_slot<'src>(slots: &mut Vec<Option<Parameter<SpannedSegments<'src>>>>) -> (r: Option<
    Parameter<SpannedSegments<'src>>,
>)
    requires
        old(slots)@.len() > 0,
    ensures
        r == old(slots)@[0],
        final(slots)@ == old(slots)@.drop_first(),
{
    let r = slots.remove(0);
    assert(slots@ =~= old(slots)@.drop_first());
    r
}

// ---------------------------------------------------------------------------
// Single values
// ---------------------------------------------------------------------------

/// The error for a value count other than one.
pub open spec fn invalid_count_error<'src>(
    e: TypedError<'src>,
    kind: PropertyKindRef<'src>,
    found: nat,
    span: Span,
) -> bool {
    e matches TypedError::PropertyInvalidValueCount { property, expected, found: f, span: s }
        && property@ == kind@ && expected == 1 && f == found && s == span
}

/// The error for a value of another type than the one expected.
pub open spec fn unexpected_value_error<'src>(
    e: TypedError<'src>,
    kind: PropertyKindRef<'src>,
    expected: PropertyValueKind,
    found: PropertyValueKind,
    span: Span,
) -> bool {
    e matches TypedError::PropertyUnexpectedValue { property, expected: x, found: f, span: s }
        && property@ == kind@ && x@ == seq![expected] && f == found && s == span
}

/// The list of expected value types holding the one type `k`.
pub fn expect_one(k: PropertyValueKind) -> (r: Vec<PropertyValueKind>)
    ensures
        r@ == seq![k],
{
    let r = vec![k];
    assert(r@ =~= seq![k]);
    r
}

/// The errors for a value that is not a single value of the expected type:
/// a count error where there is not exactly one value, else a type error.
pub open spec fn single_value_errors<'src>(
    es: Seq<TypedError<'src>>,
    kind: PropertyKindRef<'src>,
    value: Value<SpannedSegments<'src>>,
    expected: PropertyValueKind,
) -> bool {
    &&& es.len() == 1
    &&& if value_len(value) != 1 {
        invalid_count_error(es[0], kind, value_len(value), value_span(value))
    } else {
        unexpected_value_error(es[0], kind, expected, value_kind(value), value_span(value))
    }
}

/// The single text of a value holding exactly one text.
pub open spec fn single_text<'src>(value: Value<SpannedSegments<'src>>) -> Option<
    ValueText<SpannedSegments<'src>>,
> {
    match value {
        Value::Text { values, .. } => if values@.len() == 1 {
            Some(values@[0])
        } else {
            None
        },
        _ => None,
    }
}

/// The address of a calendar user address value.
pub open spec fn single_cal_address<'src>(value: Value<SpannedSegments<'src>>) -> Option<
    SpannedSegments<'src>,
> {
    match value {
        Value::CalAddress { value, .. } => Some(value),
        _ => None,
    }
}

/// The URI of a URI value.
pub open spec fn single_uri<'src>(value: Value<SpannedSegments<'src>>) -> Option<
    SpannedSegments<'src>,
> {
    match value {
        Value::Uri { value, .. } => Some(value),
        _ => None,
    }
}

/// Get the first value from a property, ensuring it has exactly one value
pub fn take_single_value<'src>(kind: &PropertyKindRef<'src>, value: Value<SpannedSegments<'src>>) -> (r:
    Result<Value<SpannedSegments<'src>>, Vec<TypedError<'src>>>)
    ensures
        value_len(value) == 1 ==> r == Ok::<_, Vec<TypedError<'src>>>(value),
        value_len(value) != 1 ==> (r matches Err(es) && es@.len() == 1 && invalid_count_error(
            es@[0],
            *kind,
            value_len(value),
            value_span(value),
        )),
{
    let n = value.len();
    if n != 1 {
        let span = value.span();
        return Err(
            vec![TypedError::PropertyInvalidValueCount { property: kind.clone(), expected: 1, found: n, span }],
        );
    }
    Ok(value)
}

/// Get a single calendar user address value from a property
pub fn take_single_cal_address<'src>(
    kind: &PropertyKindRef<'src>,
    value: Value<SpannedSegments<'src>>,
) -> (r: Result<SpannedSegments<'src>, Vec<TypedError<'src>>>)
    ensures
        match r {
            Ok(a) => single_cal_address(value) == Some(a),
            Err(es) => single_cal_address(value) is None && single_value_errors(
                es@,
                *kind,
                value,
                PropertyValueKind::CalendarUserAddress,
            ),
        },
{
    let value = take_single_value(kind, value)?;
    match value {
        Value::CalAddress { value, .. } => Ok(value),
        v => {
            let span = v.span();
            Err(
                vec![TypedError::PropertyUnexpectedValue { property: kind.clone(), expected: expect_one(PropertyValueKind::CalendarUserAddress), found: v.kind(), span }],
            )
        },
    }
}

/// Get a single URI value from a property
pub fn take_single_uri<'src>(kind: &PropertyKindRef<'src>, value: Value<SpannedSegments<'src>>) -> (r:
    Result<SpannedSegments<'src>, Vec<TypedError<'src>>>)
    ensures
        match r {
            Ok(a) => single_uri(value) == Some(a),
            Err(es) => single_uri(value) is None && single_value_errors(
                es@,
                *kind,
                value,
                PropertyValueKind::Uri,
            ),
        },
{
    let value = take_single_value(kind, value)?;
    match value {
        Value::Uri { value, .. } => Ok(value),
        v => {
            let span = v.span();
            Err(
                vec![TypedError::PropertyUnexpectedValue { property: kind.clone(), expected: expect_one(PropertyValueKind::Uri), found: v.kind(), span }],
            )
        },
    }
}

/// Get a single text value from a property
pub fn take_single_text<'src>(kind: &PropertyKindRef<'src>, value: Value<SpannedSegments<'src>>) -> (r:
    Result<ValueText<SpannedSegments<'src>>, Vec<TypedError<'src>>>)
    ensures
        match r {
            Ok(t) => single_text(value) == Some(t),
            Err(es) => single_text(value) is None && single_value_errors(
                es@,
                *kind,
                value,
                PropertyValueKind::Text,
            ),
        },
{
    let value = take_single_value(kind, value)?;
    match value {
        Value::Text { mut values, span } => {
            let t = values.pop().unwrap();
            Ok(t)
        },
        v => {
            let span = v.span();
            Err(
                vec![TypedError::PropertyUnexpectedValue { property: kind.clone(), expected: expect_one(PropertyValueKind::Text), found: v.kind(), span }],
            )
        },
    }
}

// ---------------------------------------------------------------------------
// Owned copies
// ---------------------------------------------------------------------------

/// Two optional values have the same text, in either storage.
pub open spec fn opt_agrees<A: StringStorage, B: StringStorage>(a: Option<A>, b: Option<B>) -> bool {
    match (a, b) {
        (Some(x), Some(y)) => x.text() == y.text(),
        (None, None) => true,
        _ => false,
    }
}

/// Two sequences of raw parameters agree one by one.
pub open spec fn raw_params_agree<A: StringStorage, B: StringStorage>(
    a: Seq<RawParameter<A>>,
    b: Seq<RawParameter<B>>,
) -> bool {
    a.len() == b.len() && forall|i: int| 0 <= i < a.len() ==> #[trigger] raw_param_agrees(a[i], b[i])
}

/// Two sequences of parameters agree one by one.
pub open spec fn params_agree<A: StringStorage, B: StringStorage>(
    a: Seq<Parameter<A>>,
    b: Seq<Parameter<B>>,
) -> bool {
    a.len() == b.len() && forall|i: int| 0 <= i < a.len() ==> #[trigger] param_agrees(a[i], b[i])
}

/// Convert borrowed raw parameters to owned ones.
pub fn raw_params_to_owned<'src>(ps: &Vec<RawParameter<SpannedSegments<'src>>>) -> (r: Vec<
    RawParameter<String>,
>)
    ensures
        raw_params_agree(r@, ps@),
{
    let mut out: Vec<RawParameter<String>> = Vec::new();
    let mut i: usize = 0;
    while i < ps.len()
        invariant
            0 <= i <= ps@.len(),
            out@.len() == i,
            forall|j: int| 0 <= j < i ==> #[trigger] raw_param_agrees(out@[j], ps@[j]),
        decreases ps@.len() - i,
    {
        out.push(ps[i].to_owned());
        i = i + 1;
    }
    out
}

/// Convert borrowed parameters to owned ones.
pub fn params_to_owned<'src>(ps: &Vec<Parameter<SpannedSegments<'src>>>) -> (r: Vec<Parameter<String>>)
    ensures
        params_agree(r@, ps@),
{
    let mut out: Vec<Parameter<String>> = Vec::new();
    let mut i: usize = 0;
    while i < ps.len()
        invariant
            0 <= i <= ps@.len(),
            out@.len() == i,
            forall|j: int| 0 <= j < i ==> #[trigger] param_agrees(out@[j], ps@[j]),
        decreases ps@.len() - i,
    {
        out.push(ps[i].to_owned());
        i = i + 1;
    }
    out
}

pub(crate) fn opt_to_owned<'src>(v: &Option<SpannedSegments<'src>>) -> (r: Option<String>)
    ensures
        opt_agrees(r, *v),
{
    match v {
        Some(s) => Some(s.to_owned()),
        None => None,
    }
}

// ---------------------------------------------------------------------------
// Common property shapes
// ---------------------------------------------------------------------------

/// URI property with parameters
///
/// This type is used by properties that have a URI value type, such as:
/// - 3.8.3.5: `TzUrl` - Time zone URL
/// - 3.8.4.6: `Url` - Uniform Resource Locator
#[derive(Debug)]
pub struct UriProperty<S: StringStorage> {
    /// The URI value
    pub uri: S,
    /// X-name parameters (custom experimental parameters)
    pub x_parameters: Vec<RawParameter<S>>,
    /// Unrecognized / Non-standard parameters (preserved for round-trip)
    pub retained_parameters: Vec<Parameter<S>>,
    /// Span of the property in the source
    pub span: S::Span,
}

/// Two URI properties agree, in either storage.
pub open spec fn uri_property_agrees<A: StringStorage, B: StringStorage>(
    a: UriProperty<A>,
    b: UriProperty<B>,
) -> bool {
    &&& a.uri.text() == b.uri.text()
    &&& raw_params_agree(a.x_parameters@, b.x_parameters@)
    &&& params_agree(a.retained_parameters@, b.retained_parameters@)
}

/// The kinds of parameters that no property of its shape uses.
pub open spec fn no_claims() -> Seq<ParameterKind> {
    Seq::empty()
}

/// The kinds of parameters that a text property with language uses.
pub open spec fn language_claims() -> Seq<ParameterKind> {
    seq![ParameterKind::Language]
}

/// The kinds of parameters that a text property with language and
/// alternate representation uses.
pub open spec fn text_claims() -> Seq<ParameterKind> {
    seq![ParameterKind::Language, ParameterKind::AlternateText]
}

/// What converting a property to `UriProperty` gives.
pub open spec fn uri_property_result<'src>(
    prop: ParsedProperty<'src>,
    r: Result<UriProperty<SpannedSegments<'src>>, Vec<TypedError<'src>>>,
) -> bool {
    &&& (r is Ok) == (single_uri(prop.value) is Some)
    &&& r matches Ok(u) ==> single_uri(prop.value) == Some(u.uri) && u.x_parameters@ == x_params(
        prop.parameters@,
    ) && u.retained_parameters@ == retained_params(prop.parameters@, no_claims())
    &&& r matches Err(es) ==> single_value_errors(es@, prop.kind, prop.value, PropertyValueKind::Uri)
    &&& (r matches Ok(x) ==> x.span == prop.span)
}

impl<'src> UriProperty<SpannedSegments<'src>> {
    /// Convert a typed property with a single URI value. All parameters are
    /// kept: experimental ones in `x_parameters`, the others in
    /// `retained_parameters`.
    pub fn try_from(prop: ParsedProperty<'src>) -> (r: Result<Self, Vec<TypedError<'src>>>)
        ensures
            uri_property_result(prop, r),
    {
        let claimed: Vec<ParameterKind> = Vec::new();
        assert(claimed@ =~= no_claims());
        let sorted = sort_parameters(prop.parameters, &claimed);
        let uri = take_single_uri(&prop.kind, prop.value)?;
        Ok(UriProperty { uri, x_parameters: sorted.x_parameters, retained_parameters: sorted.retained, span: prop.span })
    }

    /// Convert borrowed `UriProperty` to owned `UriProperty`
    pub fn to_owned(&self) -> (r: UriProperty<String>)
        ensures
            uri_property_agrees(r, *self),
    {
        UriProperty {
            uri: self.uri.to_owned(),
            x_parameters: raw_params_to_owned(&self.x_parameters),
            retained_parameters: params_to_owned(&self.retained_parameters),
            span: (),
        }
    }
}

/// Plain text property without standard parameters
///
/// This is a helper type used by text properties that do NOT support any
/// standard parameters (LANGUAGE, ALTREP, etc.):
/// - 3.8.3.1: `TzId` - Time zone identifier
/// - 3.8.4.7: `Uid` - Unique identifier
///
/// All standard parameters are preserved in `retained_parameters` for
/// round-trip compatibility.
#[derive(Debug)]
pub struct TextOnly<S: StringStorage> {
    /// The actual text content
    pub content: ValueText<S>,
    /// X-name parameters (custom experimental parameters)
    pub x_parameters: Vec<RawParameter<S>>,
    /// Unrecognized / Non-standard parameters (preserved for round-trip)
    pub retained_parameters: Vec<Parameter<S>>,
    /// Span of the property in the source
    pub span: S::Span,
}

/// Two plain text properties agree, in either storage.
pub open spec fn text_only_agrees<A: StringStorage, B: StringStorage>(
    a: TextOnly<A>,
    b: TextOnly<B>,
) -> bool {
    &&& a.content.value.text() == b.content.value.text()
    &&& raw_params_agree(a.x_parameters@, b.x_parameters@)
    &&& params_agree(a.retained_parameters@, b.retained_parameters@)
}

/// What converting a property to `TextOnly` gives.
pub open spec fn text_only_result<'src>(
    prop: ParsedProperty<'src>,
    r: Result<TextOnly<SpannedSegments<'src>>, Vec<TypedError<'src>>>,
) -> bool {
    &&& (r is Ok) == (single_text(prop.value) is Some)
    &&& r matches Ok(t) ==> single_text(prop.value) == Some(t.content) && t.x_parameters@
        == x_params(prop.parameters@) && t.retained_parameters@ == retained_params(
        prop.parameters@,
        no_claims(),
    )
    &&& r matches Err(es) ==> single_value_errors(es@, prop.kind, prop.value, PropertyValueKind::Text)
    &&& (r matches Ok(x) ==> x.span == prop.span)
}

impl<'src> TextOnly<SpannedSegments<'src>> {
    /// Convert a typed property with a single text value. All parameters are
    /// kept: experimental ones in `x_parameters`, the others in
    /// `retained_parameters`.
    pub fn try_from(prop: ParsedProperty<'src>) -> (r: Result<Self, Vec<TypedError<'src>>>)
        ensures
            text_only_result(prop, r),
    {
        let content = take_single_text(&prop.kind, prop.value)?;
        let claimed: Vec<ParameterKind> = Vec::new();
        assert(claimed@ =~= no_claims());
        let sorted = sort_parameters(prop.parameters, &claimed);
        Ok(TextOnly { content, x_parameters: sorted.x_parameters, retained_parameters: sorted.retained, span: prop.span })
    }

    /// Convert borrowed `TextOnly` to owned `TextOnly`
    pub fn to_owned(&self) -> (r: TextOnly<String>)
        ensures
            text_only_agrees(r, *self),
    {
        TextOnly {
            content: self.content.to_owned(),
            x_parameters: raw_params_to_owned(&self.x_parameters),
            retained_parameters: params_to_owned(&self.retained_parameters),
            span: (),
        }
    }
}

impl TextOnly<String> {
    /// Create a new `TextOnly<String>` from a string value, with no
    /// parameters.
    pub fn new(value: String) -> (r: Self)
        ensures
            r.content.value@ == value@,
            r.x_parameters@.len() == 0,
            r.retained_parameters@.len() == 0,
    {
        TextOnly { content: ValueText::new(value), x_parameters: Vec::new(), retained_parameters: Vec::new(), span: () }
    }
}

/// Text with language parameter only
///
/// This is a helper type used by text properties that support ONLY the LANGUAGE
/// parameter (not ALTREP):
/// - 3.8.3.2: `TzName` - Time zone name
/// - 3.8.8.3: `RequestStatus` - Request status
///
/// ALTREP and other standard parameters are preserved in `retained_parameters`
/// for round-trip compatibility.
#[derive(Debug)]
pub struct TextWithLanguage<S: StringStorage> {
    /// The actual text content
    pub content: ValueText<S>,
    /// Language code (optional)
    pub language: Option<S>,
    /// X-name parameters (custom experimental parameters)
    pub x_parameters: Vec<RawParameter<S>>,
    /// Unrecognized / Non-standard parameters (preserved for round-trip)
    pub retained_parameters: Vec<Parameter<S>>,
    /// Span of the property in the source
    pub span: S::Span,
}

/// Two text properties with language agree, in either storage.
pub open spec fn text_with_language_agrees<A: StringStorage, B: StringStorage>(
    a: TextWithLanguage<A>,
    b: TextWithLanguage<B>,
) -> bool {
    &&& a.content.value.text() == b.content.value.text()
    &&& opt_agrees(a.language, b.language)
    &&& raw_params_agree(a.x_parameters@, b.x_parameters@)
    &&& params_agree(a.retained_parameters@, b.retained_parameters@)
}

/// What converting a property to `TextWithLanguage` gives.
pub open spec fn text_with_language_result<'src>(
    prop: ParsedProperty<'src>,
    r: Result<TextWithLanguage<SpannedSegments<'src>>, Vec<TypedError<'src>>>,
) -> bool {
    &&& (r is Ok) == (single_text(prop.value) is Some && dup_errors(
        prop.parameters@,
        language_claims(),
    ).len() == 0)
    &&& r matches Ok(t) ==> single_text(prop.value) == Some(t.content) && t.language == text_value(
        first_param(prop.parameters@, ParameterKind::Language),
    ) && t.x_parameters@ == x_params(prop.parameters@) && t.retained_parameters@
        == retained_params(prop.parameters@, language_claims())
    &&& r matches Err(es) ==> if single_text(prop.value) is None {
        single_value_errors(es@, prop.kind, prop.value, PropertyValueKind::Text)
    } else {
        es@ == dup_errors(prop.parameters@, language_claims())
    }
    &&& (r matches Ok(x) ==> x.span == prop.span)
}

impl<'src> TextWithLanguage<SpannedSegments<'src>> {
    /// Convert a typed property with a single text value and an optional
    /// `LANGUAGE` parameter; a second `LANGUAGE` is an error.
    pub fn try_from(prop: ParsedProperty<'src>) -> (r: Result<Self, Vec<TypedError<'src>>>)
        ensures
            text_with_language_result(prop, r),
    {
        let content = take_single_text(&prop.kind, prop.value)?;
        let claimed: Vec<ParameterKind> = vec![ParameterKind::Language];
        assert(claimed@ =~= language_claims());
        let mut sorted = sort_parameters(prop.parameters, &claimed);
        if sorted.errors.len() > 0 {
            return Err(sorted.errors);
        }
        let language = take_text(next_slot(&mut sorted.slots));
        Ok(TextWithLanguage {
            content,
            language,
            x_parameters: sorted.x_parameters,
            retained_parameters: sorted.retained,
            span: prop.span,
        })
    }

    /// Convert borrowed `TextWithLanguage` to owned `TextWithLanguage`
    pub fn to_owned(&self) -> (r: TextWithLanguage<String>)
        ensures
            text_with_language_agrees(r, *self),
    {
        TextWithLanguage {
            content: self.content.to_owned(),
            language: opt_to_owned(&self.language),
            x_parameters: raw_params_to_owned(&self.x_parameters),
            retained_parameters: params_to_owned(&self.retained_parameters),
            span: (),
        }
    }
}

/// Text with language and alternate representation information
///
/// This is a helper type used by text properties that support both LANGUAGE
/// and ALTREP parameters:
/// - 3.8.1.4: `Comment`
/// - 3.8.1.5: `Description`
/// - 3.8.1.7: `Location`
/// - 3.8.1.10: `Resources` (multi-valued)
/// - 3.8.1.12: `Summary`
/// - 3.8.4.2: `Contact`
#[derive(Debug)]
pub struct Text<S: StringStorage> {
    /// The actual text content
    pub content: ValueText<S>,
    /// Language code (optional)
    pub language: Option<S>,
    /// Alternate text representation URI (optional)
    ///
    /// Per RFC 5545 Section 3.2.1, this parameter specifies a URI that points
    /// to an alternate representation for the textual property value.
    pub altrep: Option<S>,
    /// X-name parameters (custom experimental parameters)
    pub x_parameters: Vec<RawParameter<S>>,
    /// Unrecognized / Non-standard parameters (preserved for round-trip)
    pub retained_parameters: Vec<Parameter<S>>,
    /// Span of the property in the source
    pub span: S::Span,
}

/// Two text properties agree, in either storage.
pub open spec fn text_agrees<A: StringStorage, B: StringStorage>(a: Text<A>, b: Text<B>) -> bool {
    &&& a.content.value.text() == b.content.value.text()
    &&& opt_agrees(a.language, b.language)
    &&& opt_agrees(a.altrep, b.altrep)
    &&& raw_params_agree(a.x_parameters@, b.x_parameters@)
    &&& params_agree(a.retained_parameters@, b.retained_parameters@)
}

/// What converting a property to `Text` gives.
pub open spec fn text_result<'src>(
    prop: ParsedProperty<'src>,
    r: Result<Text<SpannedSegments<'src>>, Vec<TypedError<'src>>>,
) -> bool {
    &&& (r is Ok) == (single_text(prop.value) is Some && dup_errors(
        prop.parameters@,
        text_claims(),
    ).len() == 0)
    &&& r matches Ok(t) ==> single_text(prop.value) == Some(t.content) && t.language == text_value(
        first_param(prop.parameters@, ParameterKind::Language),
    ) && t.altrep == text_value(first_param(prop.parameters@, ParameterKind::AlternateText))
        && t.x_parameters@ == x_params(prop.parameters@) && t.retained_parameters@
        == retained_params(prop.parameters@, text_claims())
    &&& r matches Err(es) ==> if single_text(prop.value) is None {
        single_value_errors(es@, prop.kind, prop.value, PropertyValueKind::Text)
    } else {
        es@ == dup_errors(prop.parameters@, text_claims())
    }
    &&& (r matches Ok(x) ==> x.span == prop.span)
}

impl<'src> Text<SpannedSegments<'src>> {
    /// Convert a typed property with a single text value and optional
    /// `LANGUAGE` and `ALTREP` parameters; a second one of either is an
    /// error.
    pub fn try_from(prop: ParsedProperty<'src>) -> (r: Result<Self, Vec<TypedError<'src>>>)
        ensures
            text_result(prop, r),
    {
        let content = take_single_text(&prop.kind, prop.value)?;
        let claimed: Vec<ParameterKind> = vec![ParameterKind::Language, ParameterKind::AlternateText];
        assert(claimed@ =~= text_claims());
        let mut sorted = sort_parameters(prop.parameters, &claimed);
        if sorted.errors.len() > 0 {
            return Err(sorted.errors);
        }
        let language = take_text(next_slot(&mut sorted.slots));
        let altrep = take_text(next_slot(&mut sorted.slots));
        Ok(Text {
            content,
            language,
            altrep,
            x_parameters: sorted.x_parameters,
            retained_parameters: sorted.retained,
            span: prop.span,
        })
    }

    /// Convert borrowed Text to owned Text
    pub fn to_owned(&self) -> (r: Text<String>)
        ensures
            text_agrees(r, *self),
    {
        Text {
            content: self.content.to_owned(),
            language: opt_to_owned(&self.language),
            altrep: opt_to_owned(&self.altrep),
            x_parameters: raw_params_to_owned(&self.x_parameters),
            retained_parameters: params_to_owned(&self.retained_parameters),
            span: (),
        }
    }
}

impl Text<String> {
    /// Create a new `Text<String>` from a string value, with no parameters.
    pub fn new(value: String) -> (r: Self)
        ensures
            r.content.value@ == value@,
            r.language is None,
            r.altrep is None,
            r.x_parameters@.len() == 0,
            r.retained_parameters@.len() == 0,
    {
        Text {
            content: ValueText::new(value),
            language: None,
            altrep: None,
            x_parameters: Vec::new(),
            retained_parameters: Vec::new(),
            span: (),
        }
    }
}

/// The last parameter of kind `k`, if any.
pub open spec fn last_param<'src>(
    ps: Seq<Parameter<SpannedSegments<'src>>>,
    k: ParameterKind,
) -> Option<Parameter<SpannedSegments<'src>>>
    decreases ps.len(),
{
    if ps.len() == 0 {
        None
    } else if param_kind(ps.last()) == k {
        Some(ps.last())
    } else {
        last_param(ps.drop_last(), k)
    }
}

/// Multi-valued text property with language (such as `CATEGORIES`)
#[derive(Debug)]
pub struct Texts<S: StringStorage> {
    /// The texts
    pub values: Vec<ValueText<S>>,
    /// Language code (optional)
    pub language: Option<S>,
    /// X-name parameters (custom experimental parameters)
    pub x_parameters: Vec<RawParameter<S>>,
    /// Unrecognized / Non-standard parameters (preserved for round-trip)
    pub retained_parameters: Vec<Parameter<S>>,
    /// Span of the property in the source
    pub span: S::Span,
}

/// Two sequences of texts agree one by one.
pub open spec fn value_texts_agree<A: StringStorage, B: StringStorage>(
    a: Seq<ValueText<A>>,
    b: Seq<ValueText<B>>,
) -> bool {
    a.len() == b.len() && forall|i: int|
        0 <= i < a.len() ==> #[trigger] a[i].value.text() == b[i].value.text()
}

/// What converting a property to `Texts` gives.
pub open spec fn texts_result<'src>(
    prop: ParsedProperty<'src>,
    r: Result<Texts<SpannedSegments<'src>>, Vec<TypedError<'src>>>,
) -> bool {
    &&& (r is Ok) == (prop.value is Text)
    &&& r matches Ok(t) ==> prop.value matches Value::Text { values, .. } && t.values == values
        && t.language == text_value(last_param(prop.parameters@, ParameterKind::Language))
        && t.x_parameters@ == x_params(prop.parameters@) && t.retained_parameters@
        == retained_params(prop.parameters@, language_claims())
    &&& r matches Err(es) ==> es@.len() == 1 && unexpected_value_error(
        es@[0],
        prop.kind,
        PropertyValueKind::Text,
        value_kind(prop.value),
        value_span(prop.value),
    )
    &&& (r matches Ok(x) ==> x.span == prop.span)
}

impl<'src> Texts<SpannedSegments<'src>> {
    /// Convert a property holding a list of texts. The last `LANGUAGE`
    /// parameter gives the language; experimental parameters are kept in
    /// `x_parameters` and all others in `retained_parameters`.
    pub fn try_from(prop: ParsedProperty<'src>) -> (r: Result<Self, Vec<TypedError<'src>>>)
        ensures
            texts_result(prop, r),
    {
        let ghost ps = prop.parameters@;
        let total = prop.parameters.len();
        let mut language: Option<SpannedSegments<'src>> = None;
        let mut x_parameters: Vec<RawParameter<SpannedSegments<'src>>> = Vec::new();
        let mut retained: Vec<Parameter<SpannedSegments<'src>>> = Vec::new();
        let mut rest = prop.parameters;
        let mut i: usize = 0;
        assert(ps.take(0) =~= Seq::<Parameter<SpannedSegments<'src>>>::empty());
        assert(rest@ =~= ps.skip(0));
        while rest.len() > 0
            invariant
                0 <= i <= ps.len(),
                ps.len() == total,
                rest@ == ps.skip(i as int),
                language == text_value(last_param(ps.take(i as int), ParameterKind::Language)),
                x_parameters@ == x_params(ps.take(i as int)),
                retained@ == retained_params(ps.take(i as int), language_claims()),
            decreases rest@.len(),
        {
            let ghost pre = ps.take(i as int);
            let p = rest.remove(0);
            let ghost cur = ps.take(i as int + 1);
            assert(cur.drop_last() =~= pre);
            assert(cur.last() == p);
            match p {
                Parameter::Language { value, .. } => {
                    assert(language_claims()[0] == ParameterKind::Language);
                    language = Some(value);
                },
                Parameter::XName(raw) => {
                    x_parameters.push(raw);
                },
                p => {
                    assert(!language_claims().contains(param_kind(p))) by {
                        assert(language_claims().len() == 1);
                        assert(param_kind(p) != language_claims()[0]);
                    }
                    retained.push(p);
                },
            }
            assert(rest@ =~= ps.skip(i as int + 1));
            i = i + 1;
        }
        assert(ps.take(i as int) =~= ps);
        match prop.value {
            Value::Text { values, .. } => Ok(Texts {
                values,
                language,
                x_parameters,
                retained_parameters: retained,
                span: prop.span,
            }),
            v => {
                let span = v.span();
                Err(
                    vec![TypedError::PropertyUnexpectedValue { property: prop.kind, expected: expect_one(PropertyValueKind::Text), found: v.kind(), span }],
                )
            },
        }
    }

    /// Convert borrowed Texts to owned Texts
    #[verifier::spinoff_prover]
    pub fn to_owned(&self) -> (r: Texts<String>)
        ensures
            value_texts_agree(r.values@, self.values@),
            opt_agrees(r.language, self.language),
            raw_params_agree(r.x_parameters@, self.x_parameters@),
            params_agree(r.retained_parameters@, self.retained_parameters@),
    {
        let mut values: Vec<ValueText<String>> = Vec::new();
        let mut i: usize = 0;
        while i < self.values.len()
            invariant
                0 <= i <= self.values@.len(),
                values@.len() == i,
                forall|j: int| 0 <= j < i ==> #[trigger] values@[j].value@ == self.values@[j].value@,
            decreases self.values@.len() - i,
        {
            let ghost prev = values@;
            let t = self.values[i].to_owned();
            assert(t.value@ == self.values@[i as int].value@);
            values.push(t);
            assert(values@[i as int] == t);
            assert forall|j: int| 0 <= j < i + 1 implies #[trigger] values@[j].value@ == self.values@[j].value@ by {
                if j < i {
                    assert(values@[j] == prev[j]);
                }
            }
            i = i + 1;
        }
        Texts {
            values,
            language: opt_to_owned(&self.language),
            x_parameters: raw_params_to_owned(&self.x_parameters),
            retained_parameters: params_to_owned(&self.retained_parameters),
            span: (),
        }
    }
}


/// Convert borrowed texts to owned texts, one by one.
#[verifier::spinoff_prover]
pub(crate) fn value_texts_to_owned<'src>(v: &Vec<ValueText<SpannedSegments<'src>>>) -> (r: Vec<ValueText<String>>)
    ensures
        value_texts_agree(r@, v@),
{
    let mut values: Vec<ValueText<String>> = Vec::new();
    let mut i: usize = 0;
    while i < v.len()
        invariant
            0 <= i <= v@.len(),
            values@.len() == i,
            forall|j: int| 0 <= j < i ==> #[trigger] values@[j].value.text() == v@[j].value.text(),
        decreases v@.len() - i,
    {
        let ghost prev = values@;
        let t = v[i].to_owned();
        assert(t.value.text() == v@[i as int].value.text());
        values.push(t);
        assert(values@[i as int] == t);
        assert forall|j: int| 0 <= j < i + 1 implies #[trigger] values@[j].value.text() == v@[j].value.text() by {
            if j < i {
                assert(values@[j] == prev[j]);
            }
        }
        i = i + 1;
    }
    values
}

} // verus!
