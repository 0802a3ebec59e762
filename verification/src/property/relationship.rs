//! Component Relationship Properties (RFC 5545 Section 3.8.4)
//!
//! - 3.8.4.1: `Attendee` - Event participant with calendar user address and
//!   participation parameters
//! - 3.8.4.3: `Organizer` - Event organizer with calendar user address and
//!   sent-by parameter
//! - 3.8.4.5: `RelatedTo` - Related to another component

use vstd::prelude::*;

use crate::parameter::{
    CalendarUserType, Parameter, ParameterKind, ParticipationRole, ParticipationStatus,
    RelationshipType, calendar_user_type_agrees, participation_role_agrees,
    participation_status_agrees, relationship_type_agrees,
};
use crate::property::common::{
    cutype_value, dup_errors, first_param, list_value, next_slot, opt_agrees, opt_to_owned,
    params_agree, params_to_owned, part_stat_value, raw_params_agree, raw_params_to_owned,
    reltype_value, retained_params, role_value, rsvp_value, single_cal_address, single_text,
    single_value_errors, sort_parameters, take_cutype, take_list, take_part_stat, take_reltype,
    take_role, take_rsvp, take_single_cal_address, take_single_text, take_text, text_value,
    x_params,
};
use crate::property::{PropertyKind, PropertyKindRef, PropertyValueKind};
use crate::string_storage::{Span, SpannedSegments, StringStorage};
use crate::syntax::RawParameter;
use crate::typed::{ParsedProperty, TypedError};
use crate::parameter::texts_agree;
use crate::parameter::texts_to_owned;
use crate::value::{Value, ValueText};

verus! {

/// The error for a property converted as another kind.
pub open spec fn unexpected_kind<'src>(
    expected: PropertyKindRef<'src>,
    found: PropertyKindRef<'src>,
    span: Span,
) -> TypedError<'src> {
    TypedError::PropertyUnexpectedKind { expected, found, span }
}

/// The errors of a property whose parameters gave `dups` and whose value is
/// then checked for a single value of type `expected`: `dups`, followed by
/// the value's errors where it is not one.
pub open spec fn dups_then_value_errors<'src>(
    es: Seq<TypedError<'src>>,
    dups: Seq<TypedError<'src>>,
    ok: bool,
    kind: PropertyKindRef<'src>,
    value: Value<SpannedSegments<'src>>,
    expected: PropertyValueKind,
) -> bool {
    &&& es.len() >= dups.len()
    &&& es.take(dups.len() as int) == dups
    &&& if ok {
        es.len() == dups.len()
    } else {
        single_value_errors(es.skip(dups.len() as int), kind, value, expected)
    }
}

/// Two optional lists of values agree, in either storage.
pub open spec fn opt_texts_agree<A: StringStorage, B: StringStorage>(
    a: Option<Vec<A>>,
    b: Option<Vec<B>>,
) -> bool {
    match (a, b) {
        (Some(x), Some(y)) => texts_agree(x@, y@),
        (None, None) => true,
        _ => false,
    }
}

fn opt_list_to_owned<'src>(v: &Option<Vec<SpannedSegments<'src>>>) -> (r: Option<Vec<String>>)
    ensures
        opt_texts_agree(r, *v),
{
    match v {
        Some(values) => Some(texts_to_owned(values)),
        None => None,
    }
}

/// Attendee information (RFC 5545 Section 3.8.4.1)
#[derive(Debug)]
pub struct Attendee<S: StringStorage> {
    /// Calendar user address (mailto: or other URI)
    pub cal_address: S,
    /// Common name (optional)
    pub cn: Option<S>,
    /// Participation role
    pub role: ParticipationRole<S>,
    /// Participation status
    pub part_stat: ParticipationStatus<S>,
    /// RSVP expectation
    pub rsvp: Option<bool>,
    /// Calendar user type
    pub cutype: CalendarUserType<S>,
    /// Member of a group (optional, multi-valued)
    pub member: Option<Vec<S>>,
    /// Delegated to (optional, multi-valued)
    pub delegated_to: Option<Vec<S>>,
    /// Delegated from (optional, multi-valued)
    pub delegated_from: Option<Vec<S>>,
    /// Directory entry reference (optional)
    pub dir: Option<S>,
    /// Sent by (optional)
    pub sent_by: Option<S>,
    /// Language (optional)
    pub language: Option<S>,
    /// X-name parameters (custom experimental parameters)
    pub x_parameters: Vec<RawParameter<S>>,
    /// Unrecognized / Non-standard parameters (preserved for round-trip)
    pub retained_parameters: Vec<Parameter<S>>,
    /// Span of the property in the source
    pub span: S::Span,
}

/// The kinds of parameters that `ATTENDEE` uses.
pub open spec fn attendee_claims() -> Seq<ParameterKind> {
    seq![
        ParameterKind::CommonName,
        ParameterKind::ParticipationRole,
        ParameterKind::ParticipationStatus,
        ParameterKind::RsvpExpectation,
        ParameterKind::CalendarUserType,
        ParameterKind::GroupOrListMembership,
        ParameterKind::Delegatees,
        ParameterKind::Delegators,
        ParameterKind::Directory,
        ParameterKind::SendBy,
        ParameterKind::Language,
    ]
}

/// The attendee that a property with these parameters, address and span
/// gives: the first parameter of each kind, with the defaults of RFC 5545
/// (role `REQ-PARTICIPANT`, status `NEEDS-ACTION`, type `INDIVIDUAL`).
pub open spec fn attendee_fields<'src>(
    a: Attendee<SpannedSegments<'src>>,
    ps: Seq<Parameter<SpannedSegments<'src>>>,
    address: SpannedSegments<'src>,
    span: Span,
) -> bool {
    &&& a.cal_address == address
    &&& a.cn == text_value(first_param(ps, ParameterKind::CommonName))
    &&& a.role == match role_value(first_param(ps, ParameterKind::ParticipationRole)) {
        Some(v) => v,
        None => ParticipationRole::ReqParticipant,
    }
    &&& a.part_stat == match part_stat_value(first_param(ps, ParameterKind::ParticipationStatus)) {
        Some(v) => v,
        None => ParticipationStatus::NeedsAction,
    }
    &&& a.rsvp == rsvp_value(first_param(ps, ParameterKind::RsvpExpectation))
    &&& a.cutype == match cutype_value(first_param(ps, ParameterKind::CalendarUserType)) {
        Some(v) => v,
        None => CalendarUserType::Individual,
    }
    &&& a.member == list_value(first_param(ps, ParameterKind::GroupOrListMembership))
    &&& a.delegated_to == list_value(first_param(ps, ParameterKind::Delegatees))
    &&& a.delegated_from == list_value(first_param(ps, ParameterKind::Delegators))
    &&& a.dir == text_value(first_param(ps, ParameterKind::Directory))
    &&& a.sent_by == text_value(first_param(ps, ParameterKind::SendBy))
    &&& a.language == text_value(first_param(ps, ParameterKind::Language))
    &&& a.x_parameters@ == x_params(ps)
    &&& a.retained_parameters@ == retained_params(ps, attendee_claims())
    &&& a.span == span
}

/// Two attendees agree, in either storage (spans aside).
pub open spec fn attendee_agrees<A: StringStorage, B: StringStorage>(
    a: Attendee<A>,
    b: Attendee<B>,
) -> bool {
    &&& a.cal_address.text() == b.cal_address.text()
    &&& opt_agrees(a.cn, b.cn)
    &&& participation_role_agrees(a.role, b.role)
    &&& participation_status_agrees(a.part_stat, b.part_stat)
    &&& a.rsvp == b.rsvp
    &&& calendar_user_type_agrees(a.cutype, b.cutype)
    &&& opt_texts_agree(a.member, b.member)
    &&& opt_texts_agree(a.delegated_to, b.delegated_to)
    &&& opt_texts_agree(a.delegated_from, b.delegated_from)
    &&& opt_agrees(a.dir, b.dir)
    &&& opt_agrees(a.sent_by, b.sent_by)
    &&& opt_agrees(a.language, b.language)
    &&& raw_params_agree(a.x_parameters@, b.x_parameters@)
    &&& params_agree(a.retained_parameters@, b.retained_parameters@)
}

/// What converting a property to `Attendee` gives.
pub open spec fn attendee_result<'src>(
    prop: ParsedProperty<'src>,
    r: Result<Attendee<SpannedSegments<'src>>, Vec<TypedError<'src>>>,
) -> bool {
    &&& !(prop.kind is Attendee) ==> (r matches Err(es) && es@ == seq![
        unexpected_kind(PropertyKind::Attendee, prop.kind, prop.span),
    ])
    &&& prop.kind is Attendee ==> (r is Ok) == (dup_errors(prop.parameters@, attendee_claims()).len()
        == 0 && single_cal_address(prop.value) is Some)
    &&& prop.kind is Attendee ==> (r matches Ok(a) ==> single_cal_address(prop.value) matches Some(
        address,
    ) && attendee_fields(a, prop.parameters@, address, prop.span))
    &&& prop.kind is Attendee ==> (r matches Err(es) ==> dups_then_value_errors(
        es@,
        dup_errors(prop.parameters@, attendee_claims()),
        single_cal_address(prop.value) is Some,
        prop.kind,
        prop.value,
        PropertyValueKind::CalendarUserAddress,
    ))
}

impl<'src> Attendee<SpannedSegments<'src>> {
    /// Convert an `ATTENDEE` property. Each parameter that an attendee uses
    /// may occur once; every later occurrence is reported, and so is a
    /// value that is not a single calendar user address.
    pub fn try_from(prop: ParsedProperty<'src>) -> (r: Result<Self, Vec<TypedError<'src>>>)
        ensures
            attendee_result(prop, r),
    {
        if !matches!(prop.kind, PropertyKind::Attendee) {
            let span = prop.span;
            let es = vec![TypedError::PropertyUnexpectedKind { expected: PropertyKind::Attendee, found: prop.kind, span }];
            assert(es@ =~= seq![unexpected_kind(PropertyKind::Attendee, prop.kind, prop.span)]);
            return Err(es);
        }
        let claimed: Vec<ParameterKind> = vec![
            ParameterKind::CommonName,
            ParameterKind::ParticipationRole,
            ParameterKind::ParticipationStatus,
            ParameterKind::RsvpExpectation,
            ParameterKind::CalendarUserType,
            ParameterKind::GroupOrListMembership,
            ParameterKind::Delegatees,
            ParameterKind::Delegators,
            ParameterKind::Directory,
            ParameterKind::SendBy,
            ParameterKind::Language,
        ];
        assert(claimed@ =~= attendee_claims());
        let ghost ps = prop.parameters@;
        let mut sorted = sort_parameters(prop.parameters, &claimed);
        let mut errors = sorted.errors;
        let ghost dups = errors@;
        let cal_address = match take_single_cal_address(&prop.kind, prop.value) {
            Ok(v) => Some(v),
            Err(mut e) => {
                errors.append(&mut e);
                None
            },
        };
        assert(errors@.take(dups.len() as int) =~= dups);
        assert(cal_address is None ==> errors@.skip(dups.len() as int) =~= errors@.subrange(
            dups.len() as int,
            errors@.len() as int,
        ));
        if errors.len() > 0 {
            return Err(errors);
        }
        let cal_address = cal_address.unwrap();
        let cn = take_text(next_slot(&mut sorted.slots));
        let role = match take_role(next_slot(&mut sorted.slots)) {
            Some(v) => v,
            None => ParticipationRole::ReqParticipant,
        };
        let part_stat = match take_part_stat(next_slot(&mut sorted.slots)) {
            Some(v) => v,
            None => ParticipationStatus::NeedsAction,
        };
        let rsvp = take_rsvp(next_slot(&mut sorted.slots));
        let cutype = match take_cutype(next_slot(&mut sorted.slots)) {
            Some(v) => v,
            None => CalendarUserType::Individual,
        };
        let member = take_list(next_slot(&mut sorted.slots));
        let delegated_to = take_list(next_slot(&mut sorted.slots));
        let delegated_from = take_list(next_slot(&mut sorted.slots));
        let dir = take_text(next_slot(&mut sorted.slots));
        let sent_by = take_text(next_slot(&mut sorted.slots));
        let language = take_text(next_slot(&mut sorted.slots));
        Ok(Attendee {
            cal_address,
            cn,
            role,
            part_stat,
            rsvp,
            cutype,
            member,
            delegated_to,
            delegated_from,
            dir,
            sent_by,
            language,
            x_parameters: sorted.x_parameters,
            retained_parameters: sorted.retained,
            span: prop.span,
        })
    }

    /// Convert borrowed `Attendee` to owned `Attendee`
    pub fn to_owned(&self) -> (r: Attendee<String>)
        ensures
            attendee_agrees(r, *self),
    {
        Attendee {
            cal_address: self.cal_address.to_owned(),
            cn: opt_to_owned(&self.cn),
            role: self.role.to_owned(),
            part_stat: self.part_stat.to_owned(),
            rsvp: self.rsvp,
            cutype: self.cutype.to_owned(),
            member: opt_list_to_owned(&self.member),
            delegated_to: opt_list_to_owned(&self.delegated_to),
            delegated_from: opt_list_to_owned(&self.delegated_from),
            dir: opt_to_owned(&self.dir),
            sent_by: opt_to_owned(&self.sent_by),
            language: opt_to_owned(&self.language),
            x_parameters: raw_params_to_owned(&self.x_parameters),
            retained_parameters: params_to_owned(&self.retained_parameters),
            span: (),
        }
    }
}

/// Organizer information (RFC 5545 Section 3.8.4.3)
#[derive(Debug)]
pub struct Organizer<S: StringStorage> {
    /// Calendar user address (mailto: or other URI)
    pub cal_address: S,
    /// Common name (optional)
    pub cn: Option<S>,
    /// Directory entry reference (optional)
    pub dir: Option<S>,
    /// Sent by (optional)
    pub sent_by: Option<S>,
    /// Language (optional)
    pub language: Option<S>,
    /// X-name parameters (custom experimental parameters)
    pub x_parameters: Vec<RawParameter<S>>,
    /// Unrecognized / Non-standard parameters (preserved for round-trip)
    pub retained_parameters: Vec<Parameter<S>>,
    /// Span of the property in the source
    pub span: S::Span,
}

/// The kinds of parameters that `ORGANIZER` uses.
pub open spec fn organizer_claims() -> Seq<ParameterKind> {
    seq![
        ParameterKind::CommonName,
        ParameterKind::Directory,
        ParameterKind::SendBy,
        ParameterKind::Language,
    ]
}

/// The organizer that a property with these parameters, address and span
/// gives: the first parameter of each kind.
pub open spec fn organizer_fields<'src>(
    o: Organizer<SpannedSegments<'src>>,
    ps: Seq<Parameter<SpannedSegments<'src>>>,
    address: SpannedSegments<'src>,
    span: Span,
) -> bool {
    &&& o.cal_address == address
    &&& o.cn == text_value(first_param(ps, ParameterKind::CommonName))
    &&& o.dir == text_value(first_param(ps, ParameterKind::Directory))
    &&& o.sent_by == text_value(first_param(ps, ParameterKind::SendBy))
    &&& o.language == text_value(first_param(ps, ParameterKind::Language))
    &&& o.x_parameters@ == x_params(ps)
    &&& o.retained_parameters@ == retained_params(ps, organizer_claims())
    &&& o.span == span
}

/// Two organizers agree, in either storage (spans aside).
pub open spec fn organizer_agrees<A: StringStorage, B: StringStorage>(
    a: Organizer<A>,
    b: Organizer<B>,
) -> bool {
    &&& a.cal_address.text() == b.cal_address.text()
    &&& opt_agrees(a.cn, b.cn)
    &&& opt_agrees(a.dir, b.dir)
    &&& opt_agrees(a.sent_by, b.sent_by)
    &&& opt_agrees(a.language, b.language)
    &&& raw_params_agree(a.x_parameters@, b.x_parameters@)
    &&& params_agree(a.retained_parameters@, b.retained_parameters@)
}

/// What converting a property to `Organizer` gives.
pub open spec fn organizer_result<'src>(
    prop: ParsedProperty<'src>,
    r: Result<Organizer<SpannedSegments<'src>>, Vec<TypedError<'src>>>,
) -> bool {
    &&& !(prop.kind is Organizer) ==> (r matches Err(es) && es@ == seq![
        unexpected_kind(PropertyKind::Organizer, prop.kind, prop.span),
    ])
    &&& prop.kind is Organizer ==> (r is Ok) == (dup_errors(prop.parameters@, organizer_claims()).len()
        == 0 && single_cal_address(prop.value) is Some)
    &&& prop.kind is Organizer ==> (r matches Ok(o) ==> single_cal_address(prop.value) matches Some(
        address,
    ) && organizer_fields(o, prop.parameters@, address, prop.span))
    &&& prop.kind is Organizer ==> (r matches Err(es) ==> dups_then_value_errors(
        es@,
        dup_errors(prop.parameters@, organizer_claims()),
        single_cal_address(prop.value) is Some,
        prop.kind,
        prop.value,
        PropertyValueKind::CalendarUserAddress,
    ))
}

impl<'src> Organizer<SpannedSegments<'src>> {
    /// Convert an `ORGANIZER` property. Each parameter that an organizer
    /// uses may occur once; every later occurrence is reported, and so is a
    /// value that is not a single calendar user address.
    pub fn try_from(prop: ParsedProperty<'src>) -> (r: Result<Self, Vec<TypedError<'src>>>)
        ensures
            organizer_result(prop, r),
    {
        if !matches!(prop.kind, PropertyKind::Organizer) {
            let span = prop.span;
            let es = vec![TypedError::PropertyUnexpectedKind { expected: PropertyKind::Organizer, found: prop.kind, span }];
            assert(es@ =~= seq![unexpected_kind(PropertyKind::Organizer, prop.kind, prop.span)]);
            return Err(es);
        }
        let claimed: Vec<ParameterKind> = vec![
            ParameterKind::CommonName,
            ParameterKind::Directory,
            ParameterKind::SendBy,
            ParameterKind::Language,
        ];
        assert(claimed@ =~= organizer_claims());
        let mut sorted = sort_parameters(prop.parameters, &claimed);
        let mut errors = sorted.errors;
        let ghost dups = errors@;
        let cal_address = match take_single_cal_address(&prop.kind, prop.value) {
            Ok(v) => Some(v),
            Err(mut e) => {
                errors.append(&mut e);
                None
            },
        };
        assert(errors@.take(dups.len() as int) =~= dups);
        assert(cal_address is None ==> errors@.skip(dups.len() as int) =~= errors@.subrange(
            dups.len() as int,
            errors@.len() as int,
        ));
        if errors.len() > 0 {
            return Err(errors);
        }
        let cal_address = cal_address.unwrap();
        let cn = take_text(next_slot(&mut sorted.slots));
        let dir = take_text(next_slot(&mut sorted.slots));
        let sent_by = take_text(next_slot(&mut sorted.slots));
        let language = take_text(next_slot(&mut sorted.slots));
        Ok(Organizer {
            cal_address,
            cn,
            dir,
            sent_by,
            language,
            x_parameters: sorted.x_parameters,
            retained_parameters: sorted.retained,
            span: prop.span,
        })
    }

    /// Convert borrowed `Organizer` to owned `Organizer`
    pub fn to_owned(&self) -> (r: Organizer<String>)
        ensures
            organizer_agrees(r, *self),
    {
        Organizer {
            cal_address: self.cal_address.to_owned(),
            cn: opt_to_owned(&self.cn),
            dir: opt_to_owned(&self.dir),
            sent_by: opt_to_owned(&self.sent_by),
            language: opt_to_owned(&self.language),
            x_parameters: raw_params_to_owned(&self.x_parameters),
            retained_parameters: params_to_owned(&self.retained_parameters),
            span: (),
        }
    }
}

/// Related To property (RFC 5545 Section 3.8.4.5)
///
/// This property is used to represent a relationship or reference between one
/// calendar component and another.
///
/// Per RFC 5545, RELATED-TO supports the RELTYPE parameter with a default
/// value of PARENT.
#[derive(Debug)]
pub struct RelatedTo<S: StringStorage> {
    /// The related component's persistent, globally unique identifier
    pub content: ValueText<S>,
    /// Relationship type (defaults to PARENT per RFC 5545)
    pub reltype: RelationshipType<S>,
    /// X-name parameters (custom experimental parameters)
    pub x_parameters: Vec<RawParameter<S>>,
    /// Unrecognized / Non-standard parameters (preserved for round-trip)
    pub retained_parameters: Vec<Parameter<S>>,
    /// Span of the property in the source
    pub span: S::Span,
}

/// The kinds of parameters that `RELATED-TO` uses.
pub open spec fn related_to_claims() -> Seq<ParameterKind> {
    seq![ParameterKind::RelationshipType]
}

/// Two relations agree, in either storage (spans aside).
pub open spec fn related_to_agrees<A: StringStorage, B: StringStorage>(
    a: RelatedTo<A>,
    b: RelatedTo<B>,
) -> bool {
    &&& a.content.value.text() == b.content.value.text()
    &&& relationship_type_agrees(a.reltype, b.reltype)
    &&& raw_params_agree(a.x_parameters@, b.x_parameters@)
    &&& params_agree(a.retained_parameters@, b.retained_parameters@)
}

/// What converting a property to `RelatedTo` gives.
pub open spec fn related_to_result<'src>(
    prop: ParsedProperty<'src>,
    r: Result<RelatedTo<SpannedSegments<'src>>, Vec<TypedError<'src>>>,
) -> bool {
    &&& !(prop.kind is RelatedTo) ==> (r matches Err(es) && es@ == seq![
        unexpected_kind(PropertyKind::RelatedTo, prop.kind, prop.span),
    ])
    &&& prop.kind is RelatedTo ==> (r is Ok) == (dup_errors(prop.parameters@, related_to_claims()).len()
        == 0 && single_text(prop.value) is Some)
    &&& prop.kind is RelatedTo ==> (r matches Ok(t) ==> single_text(prop.value) == Some(t.content)
        && t.reltype == match reltype_value(
        first_param(prop.parameters@, ParameterKind::RelationshipType),
    ) {
        Some(v) => v,
        None => RelationshipType::Parent,
    } && t.x_parameters@ == x_params(prop.parameters@) && t.retained_parameters@
        == retained_params(prop.parameters@, related_to_claims()) && t.span == prop.span)
    &&& prop.kind is RelatedTo ==> (r matches Err(es) ==> if dup_errors(
        prop.parameters@,
        related_to_claims(),
    ).len() > 0 {
        es@ == dup_errors(prop.parameters@, related_to_claims())
    } else {
        single_value_errors(es@, prop.kind, prop.value, PropertyValueKind::Text)
    })
}

impl<'src> RelatedTo<SpannedSegments<'src>> {
    /// Convert a `RELATED-TO` property: a single text and an optional
    /// `RELTYPE` (by default `PARENT`). Duplicated parameters are reported
    /// before the value is looked at.
    pub fn try_from(prop: ParsedProperty<'src>) -> (r: Result<Self, Vec<TypedError<'src>>>)
        ensures
            related_to_result(prop, r),
    {
        if !matches!(prop.kind, PropertyKind::RelatedTo) {
            let span = prop.span;
            let es = vec![TypedError::PropertyUnexpectedKind { expected: PropertyKind::RelatedTo, found: prop.kind, span }];
            assert(es@ =~= seq![unexpected_kind(PropertyKind::RelatedTo, prop.kind, prop.span)]);
            return Err(es);
        }
        let claimed: Vec<ParameterKind> = vec![ParameterKind::RelationshipType];
        assert(claimed@ =~= related_to_claims());
        let mut sorted = sort_parameters(prop.parameters, &claimed);
        if sorted.errors.len() > 0 {
            return Err(sorted.errors);
        }
        let content = take_single_text(&prop.kind, prop.value)?;
        let reltype = match take_reltype(next_slot(&mut sorted.slots)) {
            Some(v) => v,
            None => RelationshipType::Parent,
        };
        Ok(RelatedTo {
            content,
            reltype,
            x_parameters: sorted.x_parameters,
            retained_parameters: sorted.retained,
            span: prop.span,
        })
    }

    /// Convert borrowed `RelatedTo` to owned `RelatedTo`
    pub fn to_owned(&self) -> (r: RelatedTo<String>)
        ensures
            related_to_agrees(r, *self),
    {
        RelatedTo {
            content: self.content.to_owned(),
            reltype: self.reltype.to_owned(),
            x_parameters: raw_params_to_owned(&self.x_parameters),
            retained_parameters: params_to_owned(&self.retained_parameters),
            span: (),
        }
    }
}

} // verus!
