//! Property parameters (RFC 5545 Section 3.2) and the values of the
//! enumerated ones.

use vstd::prelude::*;

use crate::keyword::{
    KW_BINARY, KW_BOOLEAN, KW_CAL_ADDRESS, KW_DATE, KW_DATETIME, KW_DURATION_TYPE, KW_FALSE, KW_FLOAT,
    KW_INTEGER, KW_PERIOD, KW_RECUR, KW_TEXT, KW_TIME, KW_TRUE, KW_URI, KW_UTC_OFFSET,KW_ALTREP, KW_CN, KW_CUTYPE, KW_CUTYPE_GROUP, KW_CUTYPE_INDIVIDUAL, KW_CUTYPE_RESOURCE, KW_CUTYPE_ROOM, KW_CUTYPE_UNKNOWN, KW_DELEGATED_FROM, KW_DELEGATED_TO, KW_DIR, KW_LANGUAGE, KW_MEMBER, KW_PARTSTAT, KW_PARTSTAT_ACCEPTED, KW_PARTSTAT_COMPLETED, KW_PARTSTAT_DECLINED, KW_PARTSTAT_DELEGATED, KW_PARTSTAT_IN_PROCESS, KW_PARTSTAT_NEEDS_ACTION, KW_PARTSTAT_TENTATIVE, KW_RELTYPE, KW_RELTYPE_CHILD, KW_RELTYPE_PARENT, KW_RELTYPE_SIBLING, KW_ROLE, KW_ROLE_CHAIR, KW_ROLE_NON_PARTICIPANT, KW_ROLE_OPT_PARTICIPANT, KW_ROLE_REQ_PARTICIPANT, KW_RSVP, KW_SENT_BY, KW_TZID, KW_VALUE, KW_ENCODING, KW_ENCODING_8BIT, KW_ENCODING_BASE64, KW_FMTTYPE, KW_RELATED, KW_RELATED_END, KW_RELATED_START, KW_FBTYPE, KW_FBTYPE_BUSY, KW_FBTYPE_BUSY_TENTATIVE, KW_FBTYPE_BUSY_UNAVAILABLE, KW_FBTYPE_FREE};
use vstd::string::StringSliceAdditionalSpecFns;

use crate::property::PropertyValueKind;
use crate::property::common::list_value;
use crate::property::kind::value_kind_keyword;
use crate::string_storage::{ascii_lower, eq_ignore_ascii_case, lemma_ascii_str_bytes};
use crate::syntax::RawParameterValue;
use crate::typed::TypedError;
use crate::string_storage::{Span, SpannedSegments, StringStorage};
use crate::syntax::{RawParameter, raw_param_agrees};

verus! {

/// Calendar user type (RFC 5545 Section 3.2.3)
#[derive(Debug)]
pub enum CalendarUserType<S> {
    /// An individual
    Individual,
    /// A group of individuals
    Group,
    /// A physical resource
    Resource,
    /// A room resource
    Room,
    /// Otherwise not known
    Unknown,
    /// Experimental value (`X-` prefix)
    XName(S),
    /// Value not recognized by this implementation
    Unrecognized(S),
}

/// Two `CalendarUserType` values are the same value, in either storage.
pub open spec fn calendar_user_type_agrees<A: StringStorage, B: StringStorage>(a: CalendarUserType<A>, b: CalendarUserType<B>) -> bool {
    match (a, b) {
        (CalendarUserType::Individual, CalendarUserType::Individual) => true,
        (CalendarUserType::Group, CalendarUserType::Group) => true,
        (CalendarUserType::Resource, CalendarUserType::Resource) => true,
        (CalendarUserType::Room, CalendarUserType::Room) => true,
        (CalendarUserType::Unknown, CalendarUserType::Unknown) => true,
        (CalendarUserType::XName(x), CalendarUserType::XName(y)) => x.text() == y.text(),
        (CalendarUserType::Unrecognized(x), CalendarUserType::Unrecognized(y)) => x.text() == y.text(),
        _ => false,
    }
}

impl<'src> CalendarUserType<SpannedSegments<'src>> {
    /// Convert borrowed type to owned type
    pub fn to_owned(&self) -> (r: CalendarUserType<String>)
        ensures
            calendar_user_type_agrees(r, *self),
    {
        match self {
            CalendarUserType::Individual => CalendarUserType::Individual,
            CalendarUserType::Group => CalendarUserType::Group,
            CalendarUserType::Resource => CalendarUserType::Resource,
            CalendarUserType::Room => CalendarUserType::Room,
            CalendarUserType::Unknown => CalendarUserType::Unknown,
            CalendarUserType::XName(s) => CalendarUserType::XName(s.to_owned()),
            CalendarUserType::Unrecognized(s) => CalendarUserType::Unrecognized(s.to_owned()),
        }
    }
}

/// The keyword of a standard `CalendarUserType`; `None` for experimental and
/// unrecognized ones.
pub open spec fn calendar_user_type_keyword<S>(v: CalendarUserType<S>) -> Option<&'static str> {
    match v {
        CalendarUserType::Individual => Some(KW_CUTYPE_INDIVIDUAL),
        CalendarUserType::Group => Some(KW_CUTYPE_GROUP),
        CalendarUserType::Resource => Some(KW_CUTYPE_RESOURCE),
        CalendarUserType::Room => Some(KW_CUTYPE_ROOM),
        CalendarUserType::Unknown => Some(KW_CUTYPE_UNKNOWN),
        CalendarUserType::XName(_) => None,
        CalendarUserType::Unrecognized(_) => None,
    }
}

impl<S> CalendarUserType<S> {
    /// The keyword of a standard value; `None` for experimental and
    /// unrecognized values.
    pub fn keyword(&self) -> (r: Option<&'static str>)
        ensures
            r == calendar_user_type_keyword(*self),
    {
        match self {
            CalendarUserType::Individual => Some(KW_CUTYPE_INDIVIDUAL),
            CalendarUserType::Group => Some(KW_CUTYPE_GROUP),
            CalendarUserType::Resource => Some(KW_CUTYPE_RESOURCE),
            CalendarUserType::Room => Some(KW_CUTYPE_ROOM),
            CalendarUserType::Unknown => Some(KW_CUTYPE_UNKNOWN),
            CalendarUserType::XName(_) => None,
            CalendarUserType::Unrecognized(_) => None,
        }
    }
}

/// Free/busy time type (RFC 5545 Section 3.2.9)
#[derive(Debug)]
pub enum FreeBusyType<S> {
    /// Free for scheduling
    Free,
    /// Busy
    Busy,
    /// Busy and unavailable for scheduling
    BusyUnavailable,
    /// Tentatively busy
    BusyTentative,
    /// Experimental value (`X-` prefix)
    XName(S),
    /// Value not recognized by this implementation
    Unrecognized(S),
}

/// Two `FreeBusyType` values are the same value, in either storage.
pub open spec fn free_busy_type_agrees<A: StringStorage, B: StringStorage>(a: FreeBusyType<A>, b: FreeBusyType<B>) -> bool {
    match (a, b) {
        (FreeBusyType::Free, FreeBusyType::Free) => true,
        (FreeBusyType::Busy, FreeBusyType::Busy) => true,
        (FreeBusyType::BusyUnavailable, FreeBusyType::BusyUnavailable) => true,
        (FreeBusyType::BusyTentative, FreeBusyType::BusyTentative) => true,
        (FreeBusyType::XName(x), FreeBusyType::XName(y)) => x.text() == y.text(),
        (FreeBusyType::Unrecognized(x), FreeBusyType::Unrecognized(y)) => x.text() == y.text(),
        _ => false,
    }
}

impl<'src> FreeBusyType<SpannedSegments<'src>> {
    /// Convert borrowed type to owned type
    pub fn to_owned(&self) -> (r: FreeBusyType<String>)
        ensures
            free_busy_type_agrees(r, *self),
    {
        match self {
            FreeBusyType::Free => FreeBusyType::Free,
            FreeBusyType::Busy => FreeBusyType::Busy,
            FreeBusyType::BusyUnavailable => FreeBusyType::BusyUnavailable,
            FreeBusyType::BusyTentative => FreeBusyType::BusyTentative,
            FreeBusyType::XName(s) => FreeBusyType::XName(s.to_owned()),
            FreeBusyType::Unrecognized(s) => FreeBusyType::Unrecognized(s.to_owned()),
        }
    }
}

/// The keyword of a standard `FreeBusyType`; `None` for experimental and
/// unrecognized ones.
pub open spec fn free_busy_type_keyword<S>(v: FreeBusyType<S>) -> Option<&'static str> {
    match v {
        FreeBusyType::Free => Some(KW_FBTYPE_FREE),
        FreeBusyType::Busy => Some(KW_FBTYPE_BUSY),
        FreeBusyType::BusyUnavailable => Some(KW_FBTYPE_BUSY_UNAVAILABLE),
        FreeBusyType::BusyTentative => Some(KW_FBTYPE_BUSY_TENTATIVE),
        FreeBusyType::XName(_) => None,
        FreeBusyType::Unrecognized(_) => None,
    }
}

impl<S> FreeBusyType<S> {
    /// The keyword of a standard value; `None` for experimental and
    /// unrecognized values.
    pub fn keyword(&self) -> (r: Option<&'static str>)
        ensures
            r == free_busy_type_keyword(*self),
    {
        match self {
            FreeBusyType::Free => Some(KW_FBTYPE_FREE),
            FreeBusyType::Busy => Some(KW_FBTYPE_BUSY),
            FreeBusyType::BusyUnavailable => Some(KW_FBTYPE_BUSY_UNAVAILABLE),
            FreeBusyType::BusyTentative => Some(KW_FBTYPE_BUSY_TENTATIVE),
            FreeBusyType::XName(_) => None,
            FreeBusyType::Unrecognized(_) => None,
        }
    }
}

/// Participation role (RFC 5545 Section 3.2.16)
#[derive(Debug)]
pub enum ParticipationRole<S> {
    /// Chair of the calendar entity
    Chair,
    /// Required participant
    ReqParticipant,
    /// Optional participant
    OptParticipant,
    /// Participant copied for information purposes only
    NonParticipant,
    /// Experimental value (`X-` prefix)
    XName(S),
    /// Value not recognized by this implementation
    Unrecognized(S),
}

/// Two `ParticipationRole` values are the same value, in either storage.
pub open spec fn participation_role_agrees<A: StringStorage, B: StringStorage>(a: ParticipationRole<A>, b: ParticipationRole<B>) -> bool {
    match (a, b) {
        (ParticipationRole::Chair, ParticipationRole::Chair) => true,
        (ParticipationRole::ReqParticipant, ParticipationRole::ReqParticipant) => true,
        (ParticipationRole::OptParticipant, ParticipationRole::OptParticipant) => true,
        (ParticipationRole::NonParticipant, ParticipationRole::NonParticipant) => true,
        (ParticipationRole::XName(x), ParticipationRole::XName(y)) => x.text() == y.text(),
        (ParticipationRole::Unrecognized(x), ParticipationRole::Unrecognized(y)) => x.text() == y.text(),
        _ => false,
    }
}

impl<'src> ParticipationRole<SpannedSegments<'src>> {
    /// Convert borrowed type to owned type
    pub fn to_owned(&self) -> (r: ParticipationRole<String>)
        ensures
            participation_role_agrees(r, *self),
    {
        match self {
            ParticipationRole::Chair => ParticipationRole::Chair,
            ParticipationRole::ReqParticipant => ParticipationRole::ReqParticipant,
            ParticipationRole::OptParticipant => ParticipationRole::OptParticipant,
            ParticipationRole::NonParticipant => ParticipationRole::NonParticipant,
            ParticipationRole::XName(s) => ParticipationRole::XName(s.to_owned()),
            ParticipationRole::Unrecognized(s) => ParticipationRole::Unrecognized(s.to_owned()),
        }
    }
}

/// The keyword of a standard `ParticipationRole`; `None` for experimental and
/// unrecognized ones.
pub open spec fn participation_role_keyword<S>(v: ParticipationRole<S>) -> Option<&'static str> {
    match v {
        ParticipationRole::Chair => Some(KW_ROLE_CHAIR),
        ParticipationRole::ReqParticipant => Some(KW_ROLE_REQ_PARTICIPANT),
        ParticipationRole::OptParticipant => Some(KW_ROLE_OPT_PARTICIPANT),
        ParticipationRole::NonParticipant => Some(KW_ROLE_NON_PARTICIPANT),
        ParticipationRole::XName(_) => None,
        ParticipationRole::Unrecognized(_) => None,
    }
}

impl<S> ParticipationRole<S> {
    /// The keyword of a standard value; `None` for experimental and
    /// unrecognized values.
    pub fn keyword(&self) -> (r: Option<&'static str>)
        ensures
            r == participation_role_keyword(*self),
    {
        match self {
            ParticipationRole::Chair => Some(KW_ROLE_CHAIR),
            ParticipationRole::ReqParticipant => Some(KW_ROLE_REQ_PARTICIPANT),
            ParticipationRole::OptParticipant => Some(KW_ROLE_OPT_PARTICIPANT),
            ParticipationRole::NonParticipant => Some(KW_ROLE_NON_PARTICIPANT),
            ParticipationRole::XName(_) => None,
            ParticipationRole::Unrecognized(_) => None,
        }
    }
}

/// Participation status (RFC 5545 Section 3.2.12)
#[derive(Debug)]
pub enum ParticipationStatus<S> {
    /// Needs action
    NeedsAction,
    /// Accepted
    Accepted,
    /// Declined
    Declined,
    /// Tentatively accepted
    Tentative,
    /// Delegated
    Delegated,
    /// Completed
    Completed,
    /// In process of being completed
    InProcess,
    /// Experimental value (`X-` prefix)
    XName(S),
    /// Value not recognized by this implementation
    Unrecognized(S),
}

/// Two `ParticipationStatus` values are the same value, in either storage.
pub open spec fn participation_status_agrees<A: StringStorage, B: StringStorage>(a: ParticipationStatus<A>, b: ParticipationStatus<B>) -> bool {
    match (a, b) {
        (ParticipationStatus::NeedsAction, ParticipationStatus::NeedsAction) => true,
        (ParticipationStatus::Accepted, ParticipationStatus::Accepted) => true,
        (ParticipationStatus::Declined, ParticipationStatus::Declined) => true,
        (ParticipationStatus::Tentative, ParticipationStatus::Tentative) => true,
        (ParticipationStatus::Delegated, ParticipationStatus::Delegated) => true,
        (ParticipationStatus::Completed, ParticipationStatus::Completed) => true,
        (ParticipationStatus::InProcess, ParticipationStatus::InProcess) => true,
        (ParticipationStatus::XName(x), ParticipationStatus::XName(y)) => x.text() == y.text(),
        (ParticipationStatus::Unrecognized(x), ParticipationStatus::Unrecognized(y)) => x.text() == y.text(),
        _ => false,
    }
}

impl<'src> ParticipationStatus<SpannedSegments<'src>> {
    /// Convert borrowed type to owned type
    pub fn to_owned(&self) -> (r: ParticipationStatus<String>)
        ensures
            participation_status_agrees(r, *self),
    {
        match self {
            ParticipationStatus::NeedsAction => ParticipationStatus::NeedsAction,
            ParticipationStatus::Accepted => ParticipationStatus::Accepted,
            ParticipationStatus::Declined => ParticipationStatus::Declined,
            ParticipationStatus::Tentative => ParticipationStatus::Tentative,
            ParticipationStatus::Delegated => ParticipationStatus::Delegated,
            ParticipationStatus::Completed => ParticipationStatus::Completed,
            ParticipationStatus::InProcess => ParticipationStatus::InProcess,
            ParticipationStatus::XName(s) => ParticipationStatus::XName(s.to_owned()),
            ParticipationStatus::Unrecognized(s) => ParticipationStatus::Unrecognized(s.to_owned()),
        }
    }
}

/// The keyword of a standard `ParticipationStatus`; `None` for experimental and
/// unrecognized ones.
pub open spec fn participation_status_keyword<S>(v: ParticipationStatus<S>) -> Option<&'static str> {
    match v {
        ParticipationStatus::NeedsAction => Some(KW_PARTSTAT_NEEDS_ACTION),
        ParticipationStatus::Accepted => Some(KW_PARTSTAT_ACCEPTED),
        ParticipationStatus::Declined => Some(KW_PARTSTAT_DECLINED),
        ParticipationStatus::Tentative => Some(KW_PARTSTAT_TENTATIVE),
        ParticipationStatus::Delegated => Some(KW_PARTSTAT_DELEGATED),
        ParticipationStatus::Completed => Some(KW_PARTSTAT_COMPLETED),
        ParticipationStatus::InProcess => Some(KW_PARTSTAT_IN_PROCESS),
        ParticipationStatus::XName(_) => None,
        ParticipationStatus::Unrecognized(_) => None,
    }
}

impl<S> ParticipationStatus<S> {
    /// The keyword of a standard value; `None` for experimental and
    /// unrecognized values.
    pub fn keyword(&self) -> (r: Option<&'static str>)
        ensures
            r == participation_status_keyword(*self),
    {
        match self {
            ParticipationStatus::NeedsAction => Some(KW_PARTSTAT_NEEDS_ACTION),
            ParticipationStatus::Accepted => Some(KW_PARTSTAT_ACCEPTED),
            ParticipationStatus::Declined => Some(KW_PARTSTAT_DECLINED),
            ParticipationStatus::Tentative => Some(KW_PARTSTAT_TENTATIVE),
            ParticipationStatus::Delegated => Some(KW_PARTSTAT_DELEGATED),
            ParticipationStatus::Completed => Some(KW_PARTSTAT_COMPLETED),
            ParticipationStatus::InProcess => Some(KW_PARTSTAT_IN_PROCESS),
            ParticipationStatus::XName(_) => None,
            ParticipationStatus::Unrecognized(_) => None,
        }
    }
}

/// Relationship type (RFC 5545 Section 3.2.15)
#[derive(Debug)]
pub enum RelationshipType<S> {
    /// Parent relationship
    Parent,
    /// Child relationship
    Child,
    /// Sibling relationship
    Sibling,
    /// Experimental value (`X-` prefix)
    XName(S),
    /// Value not recognized by this implementation
    Unrecognized(S),
}

/// Two `RelationshipType` values are the same value, in either storage.
pub open spec fn relationship_type_agrees<A: StringStorage, B: StringStorage>(a: RelationshipType<A>, b: RelationshipType<B>) -> bool {
    match (a, b) {
        (RelationshipType::Parent, RelationshipType::Parent) => true,
        (RelationshipType::Child, RelationshipType::Child) => true,
        (RelationshipType::Sibling, RelationshipType::Sibling) => true,
        (RelationshipType::XName(x), RelationshipType::XName(y)) => x.text() == y.text(),
        (RelationshipType::Unrecognized(x), RelationshipType::Unrecognized(y)) => x.text() == y.text(),
        _ => false,
    }
}

impl<'src> RelationshipType<SpannedSegments<'src>> {
    /// Convert borrowed type to owned type
    pub fn to_owned(&self) -> (r: RelationshipType<String>)
        ensures
            relationship_type_agrees(r, *self),
    {
        match self {
            RelationshipType::Parent => RelationshipType::Parent,
            RelationshipType::Child => RelationshipType::Child,
            RelationshipType::Sibling => RelationshipType::Sibling,
            RelationshipType::XName(s) => RelationshipType::XName(s.to_owned()),
            RelationshipType::Unrecognized(s) => RelationshipType::Unrecognized(s.to_owned()),
        }
    }
}

/// The keyword of a standard `RelationshipType`; `None` for experimental and
/// unrecognized ones.
pub open spec fn relationship_type_keyword<S>(v: RelationshipType<S>) -> Option<&'static str> {
    match v {
        RelationshipType::Parent => Some(KW_RELTYPE_PARENT),
        RelationshipType::Child => Some(KW_RELTYPE_CHILD),
        RelationshipType::Sibling => Some(KW_RELTYPE_SIBLING),
        RelationshipType::XName(_) => None,
        RelationshipType::Unrecognized(_) => None,
    }
}

impl<S> RelationshipType<S> {
    /// The keyword of a standard value; `None` for experimental and
    /// unrecognized values.
    pub fn keyword(&self) -> (r: Option<&'static str>)
        ensures
            r == relationship_type_keyword(*self),
    {
        match self {
            RelationshipType::Parent => Some(KW_RELTYPE_PARENT),
            RelationshipType::Child => Some(KW_RELTYPE_CHILD),
            RelationshipType::Sibling => Some(KW_RELTYPE_SIBLING),
            RelationshipType::XName(_) => None,
            RelationshipType::Unrecognized(_) => None,
        }
    }
}

/// Alarm trigger relationship (RFC 5545 Section 3.2.14)
#[derive(Debug, Clone, Copy, PartialEq, Eq)]
pub enum AlarmTriggerRelationship {
    /// Relative to the start of the component
    Start,
    /// Relative to the end of the component
    End,
}

/// The `AlarmTriggerRelationship` that a parameter value spells, ASCII case
/// ignored.
pub open spec fn alarm_trigger_relationship_of(b: Seq<u8>) -> Option<AlarmTriggerRelationship> {
    if eq_ignore_ascii_case(b, KW_RELATED_START.spec_bytes()) {
        Some(AlarmTriggerRelationship::Start)
    } else if eq_ignore_ascii_case(b, KW_RELATED_END.spec_bytes()) {
        Some(AlarmTriggerRelationship::End)
    } else {
        None
    }
}

/// Inline encoding (RFC 5545 Section 3.2.7)
#[derive(Debug, Clone, Copy, PartialEq, Eq)]
pub enum Encoding {
    /// 8-bit text encoding
    EightBit,
    /// Base64 binary encoding
    Base64,
}

/// The `Encoding` that a parameter value spells, ASCII case ignored.
pub open spec fn encoding_of(b: Seq<u8>) -> Option<Encoding> {
    if eq_ignore_ascii_case(b, KW_ENCODING_8BIT.spec_bytes()) {
        Some(Encoding::EightBit)
    } else if eq_ignore_ascii_case(b, KW_ENCODING_BASE64.spec_bytes()) {
        Some(Encoding::Base64)
    } else {
        None
    }
}

/// Kind of a property parameter, without its value.
#[derive(Debug, Clone, Copy, PartialEq, Eq, Structural)]
pub enum ParameterKind {
    /// Alternate text representation (`ALTREP`)
    AlternateText,
    /// Common name (`CN`)
    CommonName,
    /// Calendar user type (`CUTYPE`)
    CalendarUserType,
    /// Delegators (`DELEGATED-FROM`)
    Delegators,
    /// Delegatees (`DELEGATED-TO`)
    Delegatees,
    /// Directory entry reference (`DIR`)
    Directory,
    /// Language (`LANGUAGE`)
    Language,
    /// Group or list membership (`MEMBER`)
    GroupOrListMembership,
    /// Participation status (`PARTSTAT`)
    ParticipationStatus,
    /// Relationship type (`RELTYPE`)
    RelationshipType,
    /// Participation role (`ROLE`)
    ParticipationRole,
    /// RSVP expectation (`RSVP`)
    RsvpExpectation,
    /// Sent by (`SENT-BY`)
    SendBy,
    /// Time zone identifier (`TZID`)
    TimeZoneIdentifier,
    /// Value data type (`VALUE`)
    ValueType,
    /// Alarm trigger relationship (`RELATED`)
    AlarmTriggerRelationship,
    /// Inline encoding (`ENCODING`)
    Encoding,
    /// Format type (`FMTTYPE`)
    FormatType,
    /// Free/busy time type (`FBTYPE`)
    FreeBusyType,
    /// Experimental parameter (`X-` prefix)
    XName,
    /// Parameter not recognized by this implementation
    Unrecognized,
}

/// The keyword of a standard `ParameterKind`; `None` for experimental and
/// unrecognized ones.
pub open spec fn parameter_kind_name(v: ParameterKind) -> Option<&'static str> {
    match v {
        ParameterKind::AlternateText => Some(KW_ALTREP),
        ParameterKind::CommonName => Some(KW_CN),
        ParameterKind::CalendarUserType => Some(KW_CUTYPE),
        ParameterKind::Delegators => Some(KW_DELEGATED_FROM),
        ParameterKind::Delegatees => Some(KW_DELEGATED_TO),
        ParameterKind::Directory => Some(KW_DIR),
        ParameterKind::Language => Some(KW_LANGUAGE),
        ParameterKind::GroupOrListMembership => Some(KW_MEMBER),
        ParameterKind::ParticipationStatus => Some(KW_PARTSTAT),
        ParameterKind::RelationshipType => Some(KW_RELTYPE),
        ParameterKind::ParticipationRole => Some(KW_ROLE),
        ParameterKind::RsvpExpectation => Some(KW_RSVP),
        ParameterKind::SendBy => Some(KW_SENT_BY),
        ParameterKind::TimeZoneIdentifier => Some(KW_TZID),
        ParameterKind::ValueType => Some(KW_VALUE),
        ParameterKind::AlarmTriggerRelationship => Some(KW_RELATED),
        ParameterKind::Encoding => Some(KW_ENCODING),
        ParameterKind::FormatType => Some(KW_FMTTYPE),
        ParameterKind::FreeBusyType => Some(KW_FBTYPE),
        ParameterKind::XName => None,
        ParameterKind::Unrecognized => None,
    }
}

impl ParameterKind {
    /// The parameter name of a standard kind; `None` for experimental and
    /// unrecognized parameters.
    pub fn name(&self) -> (r: Option<&'static str>)
        ensures
            r == parameter_kind_name(*self),
    {
        match self {
            ParameterKind::AlternateText => Some(KW_ALTREP),
            ParameterKind::CommonName => Some(KW_CN),
            ParameterKind::CalendarUserType => Some(KW_CUTYPE),
            ParameterKind::Delegators => Some(KW_DELEGATED_FROM),
            ParameterKind::Delegatees => Some(KW_DELEGATED_TO),
            ParameterKind::Directory => Some(KW_DIR),
            ParameterKind::Language => Some(KW_LANGUAGE),
            ParameterKind::GroupOrListMembership => Some(KW_MEMBER),
            ParameterKind::ParticipationStatus => Some(KW_PARTSTAT),
            ParameterKind::RelationshipType => Some(KW_RELTYPE),
            ParameterKind::ParticipationRole => Some(KW_ROLE),
            ParameterKind::RsvpExpectation => Some(KW_RSVP),
            ParameterKind::SendBy => Some(KW_SENT_BY),
            ParameterKind::TimeZoneIdentifier => Some(KW_TZID),
            ParameterKind::ValueType => Some(KW_VALUE),
            ParameterKind::AlarmTriggerRelationship => Some(KW_RELATED),
            ParameterKind::Encoding => Some(KW_ENCODING),
            ParameterKind::FormatType => Some(KW_FMTTYPE),
            ParameterKind::FreeBusyType => Some(KW_FBTYPE),
            ParameterKind::XName => None,
            ParameterKind::Unrecognized => None,
        }
    }
}

/// A property parameter with its typed value.
#[derive(Debug)]
pub enum Parameter<S: StringStorage> {
    /// Alternate text representation (`ALTREP`)
    AlternateText {
        /// The parameter value
        value: S,
        /// The span of the parameter
        span: S::Span,
    },
    /// Common name (`CN`)
    CommonName {
        /// The parameter value
        value: S,
        /// The span of the parameter
        span: S::Span,
    },
    /// Calendar user type (`CUTYPE`)
    CalendarUserType {
        /// The parameter value
        value: CalendarUserType<S>,
        /// The span of the parameter
        span: S::Span,
    },
    /// Delegators (`DELEGATED-FROM`)
    Delegators {
        /// The parameter value
        values: Vec<S>,
        /// The span of the parameter
        span: S::Span,
    },
    /// Delegatees (`DELEGATED-TO`)
    Delegatees {
        /// The parameter value
        values: Vec<S>,
        /// The span of the parameter
        span: S::Span,
    },
    /// Directory entry reference (`DIR`)
    Directory {
        /// The parameter value
        value: S,
        /// The span of the parameter
        span: S::Span,
    },
    /// Language (`LANGUAGE`)
    Language {
        /// The parameter value
        value: S,
        /// The span of the parameter
        span: S::Span,
    },
    /// Group or list membership (`MEMBER`)
    GroupOrListMembership {
        /// The parameter value
        values: Vec<S>,
        /// The span of the parameter
        span: S::Span,
    },
    /// Participation status (`PARTSTAT`)
    ParticipationStatus {
        /// The parameter value
        value: ParticipationStatus<S>,
        /// The span of the parameter
        span: S::Span,
    },
    /// Relationship type (`RELTYPE`)
    RelationshipType {
        /// The parameter value
        value: RelationshipType<S>,
        /// The span of the parameter
        span: S::Span,
    },
    /// Participation role (`ROLE`)
    ParticipationRole {
        /// The parameter value
        value: ParticipationRole<S>,
        /// The span of the parameter
        span: S::Span,
    },
    /// RSVP expectation (`RSVP`)
    RsvpExpectation {
        /// The parameter value
        value: bool,
        /// The span of the parameter
        span: S::Span,
    },
    /// Sent by (`SENT-BY`)
    SendBy {
        /// The parameter value
        value: S,
        /// The span of the parameter
        span: S::Span,
    },
    /// Time zone identifier (`TZID`)
    TimeZoneIdentifier {
        /// The parameter value
        value: S,
        /// The span of the parameter
        span: S::Span,
    },
    /// Value data type (`VALUE`)
    ValueType {
        /// The parameter value
        value: PropertyValueKind,
        /// The span of the parameter
        span: S::Span,
    },
    /// Alarm trigger relationship (`RELATED`)
    AlarmTriggerRelationship {
        /// The parameter value
        value: AlarmTriggerRelationship,
        /// The span of the parameter
        span: S::Span,
    },
    /// Inline encoding (`ENCODING`)
    Encoding {
        /// The parameter value
        value: Encoding,
        /// The span of the parameter
        span: S::Span,
    },
    /// Format type (`FMTTYPE`)
    FormatType {
        /// The parameter value
        value: S,
        /// The span of the parameter
        span: S::Span,
    },
    /// Free/busy time type (`FBTYPE`)
    FreeBusyType {
        /// The parameter value
        value: FreeBusyType<S>,
        /// The span of the parameter
        span: S::Span,
    },
    /// Experimental parameter (`X-` prefix), kept as written
    XName(RawParameter<S>),
    /// Parameter not recognized by this implementation, kept as written
    Unrecognized(RawParameter<S>),
}

/// The kind of a parameter.
pub open spec fn param_kind<S: StringStorage>(p: Parameter<S>) -> ParameterKind {
    match p {
        Parameter::AlternateText { .. } => ParameterKind::AlternateText,
        Parameter::CommonName { .. } => ParameterKind::CommonName,
        Parameter::CalendarUserType { .. } => ParameterKind::CalendarUserType,
        Parameter::Delegators { .. } => ParameterKind::Delegators,
        Parameter::Delegatees { .. } => ParameterKind::Delegatees,
        Parameter::Directory { .. } => ParameterKind::Directory,
        Parameter::Language { .. } => ParameterKind::Language,
        Parameter::GroupOrListMembership { .. } => ParameterKind::GroupOrListMembership,
        Parameter::ParticipationStatus { .. } => ParameterKind::ParticipationStatus,
        Parameter::RelationshipType { .. } => ParameterKind::RelationshipType,
        Parameter::ParticipationRole { .. } => ParameterKind::ParticipationRole,
        Parameter::RsvpExpectation { .. } => ParameterKind::RsvpExpectation,
        Parameter::SendBy { .. } => ParameterKind::SendBy,
        Parameter::TimeZoneIdentifier { .. } => ParameterKind::TimeZoneIdentifier,
        Parameter::ValueType { .. } => ParameterKind::ValueType,
        Parameter::AlarmTriggerRelationship { .. } => ParameterKind::AlarmTriggerRelationship,
        Parameter::Encoding { .. } => ParameterKind::Encoding,
        Parameter::FormatType { .. } => ParameterKind::FormatType,
        Parameter::FreeBusyType { .. } => ParameterKind::FreeBusyType,
        Parameter::XName(_) => ParameterKind::XName,
        Parameter::Unrecognized(_) => ParameterKind::Unrecognized,
    }
}

/// The span of a parameter in the source.
pub open spec fn param_span<'src>(p: Parameter<SpannedSegments<'src>>) -> Span {
    match p {
        Parameter::AlternateText { span, .. } => span,
        Parameter::CommonName { span, .. } => span,
        Parameter::CalendarUserType { span, .. } => span,
        Parameter::Delegators { span, .. } => span,
        Parameter::Delegatees { span, .. } => span,
        Parameter::Directory { span, .. } => span,
        Parameter::Language { span, .. } => span,
        Parameter::GroupOrListMembership { span, .. } => span,
        Parameter::ParticipationStatus { span, .. } => span,
        Parameter::RelationshipType { span, .. } => span,
        Parameter::ParticipationRole { span, .. } => span,
        Parameter::RsvpExpectation { span, .. } => span,
        Parameter::SendBy { span, .. } => span,
        Parameter::TimeZoneIdentifier { span, .. } => span,
        Parameter::ValueType { span, .. } => span,
        Parameter::AlarmTriggerRelationship { span, .. } => span,
        Parameter::Encoding { span, .. } => span,
        Parameter::FormatType { span, .. } => span,
        Parameter::FreeBusyType { span, .. } => span,
        Parameter::XName(raw) => raw.span,
        Parameter::Unrecognized(raw) => raw.span,
    }
}

/// Two sequences of values have the same texts, in either storage.
pub open spec fn texts_agree<A: StringStorage, B: StringStorage>(a: Seq<A>, b: Seq<B>) -> bool {
    a.len() == b.len() && forall|i: int| 0 <= i < a.len() ==> #[trigger] a[i].text() == b[i].text()
}

/// Two parameters are the same parameter with the same value, in either
/// storage (spans aside).
pub open spec fn param_agrees<A: StringStorage, B: StringStorage>(a: Parameter<A>, b: Parameter<B>) -> bool {
    match (a, b) {
        (Parameter::AlternateText { value: x, .. }, Parameter::AlternateText { value: y, .. }) => x.text() == y.text(),
        (Parameter::CommonName { value: x, .. }, Parameter::CommonName { value: y, .. }) => x.text() == y.text(),
        (Parameter::CalendarUserType { value: x, .. }, Parameter::CalendarUserType { value: y, .. }) => calendar_user_type_agrees(x, y),
        (Parameter::Delegators { values: x, .. }, Parameter::Delegators { values: y, .. }) => texts_agree(x@, y@),
        (Parameter::Delegatees { values: x, .. }, Parameter::Delegatees { values: y, .. }) => texts_agree(x@, y@),
        (Parameter::Directory { value: x, .. }, Parameter::Directory { value: y, .. }) => x.text() == y.text(),
        (Parameter::Language { value: x, .. }, Parameter::Language { value: y, .. }) => x.text() == y.text(),
        (Parameter::GroupOrListMembership { values: x, .. }, Parameter::GroupOrListMembership { values: y, .. }) => texts_agree(x@, y@),
        (Parameter::ParticipationStatus { value: x, .. }, Parameter::ParticipationStatus { value: y, .. }) => participation_status_agrees(x, y),
        (Parameter::RelationshipType { value: x, .. }, Parameter::RelationshipType { value: y, .. }) => relationship_type_agrees(x, y),
        (Parameter::ParticipationRole { value: x, .. }, Parameter::ParticipationRole { value: y, .. }) => participation_role_agrees(x, y),
        (Parameter::RsvpExpectation { value: x, .. }, Parameter::RsvpExpectation { value: y, .. }) => x == y,
        (Parameter::SendBy { value: x, .. }, Parameter::SendBy { value: y, .. }) => x.text() == y.text(),
        (Parameter::TimeZoneIdentifier { value: x, .. }, Parameter::TimeZoneIdentifier { value: y, .. }) => x.text() == y.text(),
        (Parameter::ValueType { value: x, .. }, Parameter::ValueType { value: y, .. }) => x == y,
        (Parameter::AlarmTriggerRelationship { value: x, .. }, Parameter::AlarmTriggerRelationship { value: y, .. }) => x == y,
        (Parameter::Encoding { value: x, .. }, Parameter::Encoding { value: y, .. }) => x == y,
        (Parameter::FormatType { value: x, .. }, Parameter::FormatType { value: y, .. }) => x.text() == y.text(),
        (Parameter::FreeBusyType { value: x, .. }, Parameter::FreeBusyType { value: y, .. }) => free_busy_type_agrees(x, y),
        (Parameter::XName(x), Parameter::XName(y)) => raw_param_agrees(x, y),
        (Parameter::Unrecognized(x), Parameter::Unrecognized(y)) => raw_param_agrees(x, y),
        _ => false,
    }
}

/// Convert borrowed values to owned ones.
pub fn texts_to_owned<'src>(values: &Vec<SpannedSegments<'src>>) -> (r: Vec<String>)
    ensures
        texts_agree(r@, values@),
{
    let mut out: Vec<String> = Vec::new();
    let mut i: usize = 0;
    while i < values.len()
        invariant
            0 <= i <= values@.len(),
            out@.len() == i,
            forall|j: int| 0 <= j < i ==> #[trigger] out@[j]@ == values@[j]@,
        decreases values@.len() - i,
    {
        out.push(values[i].to_owned());
        i = i + 1;
    }
    out
}

impl<S: StringStorage> Parameter<S> {
    /// The kind of this parameter.
    pub fn kind(&self) -> (r: ParameterKind)
        ensures
            r == param_kind(*self),
    {
        match self {
            Parameter::AlternateText { .. } => ParameterKind::AlternateText,
            Parameter::CommonName { .. } => ParameterKind::CommonName,
            Parameter::CalendarUserType { .. } => ParameterKind::CalendarUserType,
            Parameter::Delegators { .. } => ParameterKind::Delegators,
            Parameter::Delegatees { .. } => ParameterKind::Delegatees,
            Parameter::Directory { .. } => ParameterKind::Directory,
            Parameter::Language { .. } => ParameterKind::Language,
            Parameter::GroupOrListMembership { .. } => ParameterKind::GroupOrListMembership,
            Parameter::ParticipationStatus { .. } => ParameterKind::ParticipationStatus,
            Parameter::RelationshipType { .. } => ParameterKind::RelationshipType,
            Parameter::ParticipationRole { .. } => ParameterKind::ParticipationRole,
            Parameter::RsvpExpectation { .. } => ParameterKind::RsvpExpectation,
            Parameter::SendBy { .. } => ParameterKind::SendBy,
            Parameter::TimeZoneIdentifier { .. } => ParameterKind::TimeZoneIdentifier,
            Parameter::ValueType { .. } => ParameterKind::ValueType,
            Parameter::AlarmTriggerRelationship { .. } => ParameterKind::AlarmTriggerRelationship,
            Parameter::Encoding { .. } => ParameterKind::Encoding,
            Parameter::FormatType { .. } => ParameterKind::FormatType,
            Parameter::FreeBusyType { .. } => ParameterKind::FreeBusyType,
            Parameter::XName(_) => ParameterKind::XName,
            Parameter::Unrecognized(_) => ParameterKind::Unrecognized,
        }
    }
}

impl<'src> Parameter<SpannedSegments<'src>> {
    /// The span of this parameter in the source.
    pub fn span(&self) -> (r: Span)
        ensures
            r == param_span(*self),
    {
        match self {
            Parameter::AlternateText { span, .. } => *span,
            Parameter::CommonName { span, .. } => *span,
            Parameter::CalendarUserType { span, .. } => *span,
            Parameter::Delegators { span, .. } => *span,
            Parameter::Delegatees { span, .. } => *span,
            Parameter::Directory { span, .. } => *span,
            Parameter::Language { span, .. } => *span,
            Parameter::GroupOrListMembership { span, .. } => *span,
            Parameter::ParticipationStatus { span, .. } => *span,
            Parameter::RelationshipType { span, .. } => *span,
            Parameter::ParticipationRole { span, .. } => *span,
            Parameter::RsvpExpectation { span, .. } => *span,
            Parameter::SendBy { span, .. } => *span,
            Parameter::TimeZoneIdentifier { span, .. } => *span,
            Parameter::ValueType { span, .. } => *span,
            Parameter::AlarmTriggerRelationship { span, .. } => *span,
            Parameter::Encoding { span, .. } => *span,
            Parameter::FormatType { span, .. } => *span,
            Parameter::FreeBusyType { span, .. } => *span,
            Parameter::XName(raw) => raw.span,
            Parameter::Unrecognized(raw) => raw.span,
        }
    }

    /// Convert borrowed type to owned type
    pub fn to_owned(&self) -> (r: Parameter<String>)
        ensures
            param_agrees(r, *self),
    {
        match self {
            Parameter::AlternateText { value, .. } => Parameter::AlternateText { value: value.to_owned(), span: () },
            Parameter::CommonName { value, .. } => Parameter::CommonName { value: value.to_owned(), span: () },
            Parameter::CalendarUserType { value, .. } => Parameter::CalendarUserType { value: value.to_owned(), span: () },
            Parameter::Delegators { values, .. } => Parameter::Delegators { values: texts_to_owned(values), span: () },
            Parameter::Delegatees { values, .. } => Parameter::Delegatees { values: texts_to_owned(values), span: () },
            Parameter::Directory { value, .. } => Parameter::Directory { value: value.to_owned(), span: () },
            Parameter::Language { value, .. } => Parameter::Language { value: value.to_owned(), span: () },
            Parameter::GroupOrListMembership { values, .. } => Parameter::GroupOrListMembership { values: texts_to_owned(values), span: () },
            Parameter::ParticipationStatus { value, .. } => Parameter::ParticipationStatus { value: value.to_owned(), span: () },
            Parameter::RelationshipType { value, .. } => Parameter::RelationshipType { value: value.to_owned(), span: () },
            Parameter::ParticipationRole { value, .. } => Parameter::ParticipationRole { value: value.to_owned(), span: () },
            Parameter::RsvpExpectation { value, .. } => Parameter::RsvpExpectation { value: *value, span: () },
            Parameter::SendBy { value, .. } => Parameter::SendBy { value: value.to_owned(), span: () },
            Parameter::TimeZoneIdentifier { value, .. } => Parameter::TimeZoneIdentifier { value: value.to_owned(), span: () },
            Parameter::ValueType { value, .. } => Parameter::ValueType { value: *value, span: () },
            Parameter::AlarmTriggerRelationship { value, .. } => Parameter::AlarmTriggerRelationship { value: *value, span: () },
            Parameter::Encoding { value, .. } => Parameter::Encoding { value: *value, span: () },
            Parameter::FormatType { value, .. } => Parameter::FormatType { value: value.to_owned(), span: () },
            Parameter::FreeBusyType { value, .. } => Parameter::FreeBusyType { value: value.to_owned(), span: () },
            Parameter::XName(raw) => Parameter::XName(raw.to_owned()),
            Parameter::Unrecognized(raw) => Parameter::Unrecognized(raw.to_owned()),
        }
    }
}

// ---------------------------------------------------------------------------
// Reading parameters
// ---------------------------------------------------------------------------

/// Whether the bytes start with `X-`, ASCII case ignored.
pub open spec fn has_x_prefix(b: Seq<u8>) -> bool {
    "X-".spec_bytes().len() <= b.len() && eq_ignore_ascii_case(b.take("X-".spec_bytes().len() as int), "X-".spec_bytes())
}

/// The `CalendarUserType` that a parameter value spells: a standard value (ASCII
/// case ignored), else an experimental one when it starts with `X-`, else
/// an unrecognized one.
pub open spec fn calendar_user_type_from<'src>(v: SpannedSegments<'src>) -> CalendarUserType<SpannedSegments<'src>> {
    if eq_ignore_ascii_case(v.bytes(), KW_CUTYPE_INDIVIDUAL.spec_bytes()) {
        CalendarUserType::Individual
    } else if eq_ignore_ascii_case(v.bytes(), KW_CUTYPE_GROUP.spec_bytes()) {
        CalendarUserType::Group
    } else if eq_ignore_ascii_case(v.bytes(), KW_CUTYPE_RESOURCE.spec_bytes()) {
        CalendarUserType::Resource
    } else if eq_ignore_ascii_case(v.bytes(), KW_CUTYPE_ROOM.spec_bytes()) {
        CalendarUserType::Room
    } else if eq_ignore_ascii_case(v.bytes(), KW_CUTYPE_UNKNOWN.spec_bytes()) {
        CalendarUserType::Unknown
    } else if has_x_prefix(v.bytes()) {
        CalendarUserType::XName(v)
    } else {
        CalendarUserType::Unrecognized(v)
    }
}

/// Reading the keyword of a standard calendar user type gives it back: the keywords
/// are distinct, even with ASCII case ignored.
#[verifier::spinoff_prover]
pub proof fn lemma_calendar_user_type_round_trip<'src>(k: CalendarUserType<SpannedSegments<'src>>, v: SpannedSegments<'src>)
    requires
        calendar_user_type_keyword(k) is Some,
        v.bytes() == calendar_user_type_keyword(k)->0.spec_bytes(),
    ensures
        calendar_user_type_from(v) == k,
{
    reveal(eq_ignore_ascii_case);
    let b = v.bytes();
    assert(eq_ignore_ascii_case(b, b));
    match k {
        CalendarUserType::Individual => {
            reveal_strlit("INDIVIDUAL");
            lemma_ascii_str_bytes(KW_CUTYPE_INDIVIDUAL);
        }
        CalendarUserType::Group => {
            reveal_strlit("INDIVIDUAL");
            reveal_strlit("GROUP");
            lemma_ascii_str_bytes(KW_CUTYPE_GROUP);
            lemma_ascii_str_bytes(KW_CUTYPE_INDIVIDUAL);
            assert(b.len() != KW_CUTYPE_INDIVIDUAL.spec_bytes().len());
        }
        CalendarUserType::Resource => {
            reveal_strlit("INDIVIDUAL");
            reveal_strlit("GROUP");
            reveal_strlit("RESOURCE");
            lemma_ascii_str_bytes(KW_CUTYPE_RESOURCE);
            lemma_ascii_str_bytes(KW_CUTYPE_INDIVIDUAL);
            assert(b.len() != KW_CUTYPE_INDIVIDUAL.spec_bytes().len());
            lemma_ascii_str_bytes(KW_CUTYPE_GROUP);
            assert(b.len() != KW_CUTYPE_GROUP.spec_bytes().len());
        }
        CalendarUserType::Room => {
            reveal_strlit("INDIVIDUAL");
            reveal_strlit("GROUP");
            reveal_strlit("RESOURCE");
            reveal_strlit("ROOM");
            lemma_ascii_str_bytes(KW_CUTYPE_ROOM);
            lemma_ascii_str_bytes(KW_CUTYPE_INDIVIDUAL);
            assert(b.len() != KW_CUTYPE_INDIVIDUAL.spec_bytes().len());
            lemma_ascii_str_bytes(KW_CUTYPE_GROUP);
            assert(b.len() != KW_CUTYPE_GROUP.spec_bytes().len());
            lemma_ascii_str_bytes(KW_CUTYPE_RESOURCE);
            assert(b.len() != KW_CUTYPE_RESOURCE.spec_bytes().len());
        }
        CalendarUserType::Unknown => {
            reveal_strlit("INDIVIDUAL");
            reveal_strlit("GROUP");
            reveal_strlit("RESOURCE");
            reveal_strlit("ROOM");
            reveal_strlit("UNKNOWN");
            lemma_ascii_str_bytes(KW_CUTYPE_UNKNOWN);
            lemma_ascii_str_bytes(KW_CUTYPE_INDIVIDUAL);
            assert(b.len() != KW_CUTYPE_INDIVIDUAL.spec_bytes().len());
            lemma_ascii_str_bytes(KW_CUTYPE_GROUP);
            assert(b.len() != KW_CUTYPE_GROUP.spec_bytes().len());
            lemma_ascii_str_bytes(KW_CUTYPE_RESOURCE);
            assert(b.len() != KW_CUTYPE_RESOURCE.spec_bytes().len());
            lemma_ascii_str_bytes(KW_CUTYPE_ROOM);
            assert(b.len() != KW_CUTYPE_ROOM.spec_bytes().len());
        }
        _ => {}
    }
}


impl<'src> CalendarUserType<SpannedSegments<'src>> {
    /// Read a parameter value.
    pub fn from_value(v: SpannedSegments<'src>) -> (r: Self)
        ensures
            r == calendar_user_type_from(v),
    {
        if v.eq_str_ignore_ascii_case(KW_CUTYPE_INDIVIDUAL) {
            CalendarUserType::Individual
        } else if v.eq_str_ignore_ascii_case(KW_CUTYPE_GROUP) {
            CalendarUserType::Group
        } else if v.eq_str_ignore_ascii_case(KW_CUTYPE_RESOURCE) {
            CalendarUserType::Resource
        } else if v.eq_str_ignore_ascii_case(KW_CUTYPE_ROOM) {
            CalendarUserType::Room
        } else if v.eq_str_ignore_ascii_case(KW_CUTYPE_UNKNOWN) {
            CalendarUserType::Unknown
        } else if v.starts_with_str_ignore_ascii_case("X-") {
            CalendarUserType::XName(v)
        } else {
            CalendarUserType::Unrecognized(v)
        }
    }
}

/// The `FreeBusyType` that a parameter value spells: a standard value (ASCII
/// case ignored), else an experimental one when it starts with `X-`, else
/// an unrecognized one.
pub open spec fn free_busy_type_from<'src>(v: SpannedSegments<'src>) -> FreeBusyType<SpannedSegments<'src>> {
    if eq_ignore_ascii_case(v.bytes(), KW_FBTYPE_FREE.spec_bytes()) {
        FreeBusyType::Free
    } else if eq_ignore_ascii_case(v.bytes(), KW_FBTYPE_BUSY.spec_bytes()) {
        FreeBusyType::Busy
    } else if eq_ignore_ascii_case(v.bytes(), KW_FBTYPE_BUSY_UNAVAILABLE.spec_bytes()) {
        FreeBusyType::BusyUnavailable
    } else if eq_ignore_ascii_case(v.bytes(), KW_FBTYPE_BUSY_TENTATIVE.spec_bytes()) {
        FreeBusyType::BusyTentative
    } else if has_x_prefix(v.bytes()) {
        FreeBusyType::XName(v)
    } else {
        FreeBusyType::Unrecognized(v)
    }
}

/// Reading the keyword of a standard free/busy type gives it back: the keywords
/// are distinct, even with ASCII case ignored.
#[verifier::spinoff_prover]
pub proof fn lemma_free_busy_type_round_trip<'src>(k: FreeBusyType<SpannedSegments<'src>>, v: SpannedSegments<'src>)
    requires
        free_busy_type_keyword(k) is Some,
        v.bytes() == free_busy_type_keyword(k)->0.spec_bytes(),
    ensures
        free_busy_type_from(v) == k,
{
    reveal(eq_ignore_ascii_case);
    let b = v.bytes();
    assert(eq_ignore_ascii_case(b, b));
    match k {
        FreeBusyType::Free => {
            reveal_strlit("FREE");
            lemma_ascii_str_bytes(KW_FBTYPE_FREE);
        }
        FreeBusyType::Busy => {
            reveal_strlit("FREE");
            reveal_strlit("BUSY");
            lemma_ascii_str_bytes(KW_FBTYPE_BUSY);
            lemma_ascii_str_bytes(KW_FBTYPE_FREE);
            assert(ascii_lower(b[0]) != ascii_lower(KW_FBTYPE_FREE.spec_bytes()[0]));
        }
        FreeBusyType::BusyUnavailable => {
            reveal_strlit("FREE");
            reveal_strlit("BUSY");
            reveal_strlit("BUSY-UNAVAILABLE");
            lemma_ascii_str_bytes(KW_FBTYPE_BUSY_UNAVAILABLE);
            lemma_ascii_str_bytes(KW_FBTYPE_FREE);
            assert(b.len() != KW_FBTYPE_FREE.spec_bytes().len());
            lemma_ascii_str_bytes(KW_FBTYPE_BUSY);
            assert(b.len() != KW_FBTYPE_BUSY.spec_bytes().len());
        }
        FreeBusyType::BusyTentative => {
            reveal_strlit("FREE");
            reveal_strlit("BUSY");
            reveal_strlit("BUSY-UNAVAILABLE");
            reveal_strlit("BUSY-TENTATIVE");
            lemma_ascii_str_bytes(KW_FBTYPE_BUSY_TENTATIVE);
            lemma_ascii_str_bytes(KW_FBTYPE_FREE);
            assert(b.len() != KW_FBTYPE_FREE.spec_bytes().len());
            lemma_ascii_str_bytes(KW_FBTYPE_BUSY);
            assert(b.len() != KW_FBTYPE_BUSY.spec_bytes().len());
            lemma_ascii_str_bytes(KW_FBTYPE_BUSY_UNAVAILABLE);
            assert(b.len() != KW_FBTYPE_BUSY_UNAVAILABLE.spec_bytes().len());
        }
        _ => {}
    }
}


impl<'src> FreeBusyType<SpannedSegments<'src>> {
    /// Read a parameter value.
    pub fn from_value(v: SpannedSegments<'src>) -> (r: Self)
        ensures
            r == free_busy_type_from(v),
    {
        if v.eq_str_ignore_ascii_case(KW_FBTYPE_FREE) {
            FreeBusyType::Free
        } else if v.eq_str_ignore_ascii_case(KW_FBTYPE_BUSY) {
            FreeBusyType::Busy
        } else if v.eq_str_ignore_ascii_case(KW_FBTYPE_BUSY_UNAVAILABLE) {
            FreeBusyType::BusyUnavailable
        } else if v.eq_str_ignore_ascii_case(KW_FBTYPE_BUSY_TENTATIVE) {
            FreeBusyType::BusyTentative
        } else if v.starts_with_str_ignore_ascii_case("X-") {
            FreeBusyType::XName(v)
        } else {
            FreeBusyType::Unrecognized(v)
        }
    }
}

/// The `ParticipationRole` that a parameter value spells: a standard value (ASCII
/// case ignored), else an experimental one when it starts with `X-`, else
/// an unrecognized one.
pub open spec fn participation_role_from<'src>(v: SpannedSegments<'src>) -> ParticipationRole<SpannedSegments<'src>> {
    if eq_ignore_ascii_case(v.bytes(), KW_ROLE_CHAIR.spec_bytes()) {
        ParticipationRole::Chair
    } else if eq_ignore_ascii_case(v.bytes(), KW_ROLE_REQ_PARTICIPANT.spec_bytes()) {
        ParticipationRole::ReqParticipant
    } else if eq_ignore_ascii_case(v.bytes(), KW_ROLE_OPT_PARTICIPANT.spec_bytes()) {
        ParticipationRole::OptParticipant
    } else if eq_ignore_ascii_case(v.bytes(), KW_ROLE_NON_PARTICIPANT.spec_bytes()) {
        ParticipationRole::NonParticipant
    } else if has_x_prefix(v.bytes()) {
        ParticipationRole::XName(v)
    } else {
        ParticipationRole::Unrecognized(v)
    }
}

/// Reading the keyword of a standard participation role gives it back: the keywords
/// are distinct, even with ASCII case ignored.
#[verifier::spinoff_prover]
pub proof fn lemma_participation_role_round_trip<'src>(k: ParticipationRole<SpannedSegments<'src>>, v: SpannedSegments<'src>)
    requires
        participation_role_keyword(k) is Some,
        v.bytes() == participation_role_keyword(k)->0.spec_bytes(),
    ensures
        participation_role_from(v) == k,
{
    reveal(eq_ignore_ascii_case);
    let b = v.bytes();
    assert(eq_ignore_ascii_case(b, b));
    match k {
        ParticipationRole::Chair => {
            reveal_strlit("CHAIR");
            lemma_ascii_str_bytes(KW_ROLE_CHAIR);
        }
        ParticipationRole::ReqParticipant => {
            reveal_strlit("CHAIR");
            reveal_strlit("REQ-PARTICIPANT");
            lemma_ascii_str_bytes(KW_ROLE_REQ_PARTICIPANT);
            lemma_ascii_str_bytes(KW_ROLE_CHAIR);
            assert(b.len() != KW_ROLE_CHAIR.spec_bytes().len());
        }
        ParticipationRole::OptParticipant => {
            reveal_strlit("CHAIR");
            reveal_strlit("REQ-PARTICIPANT");
            reveal_strlit("OPT-PARTICIPANT");
            lemma_ascii_str_bytes(KW_ROLE_OPT_PARTICIPANT);
            lemma_ascii_str_bytes(KW_ROLE_CHAIR);
            assert(b.len() != KW_ROLE_CHAIR.spec_bytes().len());
            lemma_ascii_str_bytes(KW_ROLE_REQ_PARTICIPANT);
            assert(ascii_lower(b[0]) != ascii_lower(KW_ROLE_REQ_PARTICIPANT.spec_bytes()[0]));
        }
        ParticipationRole::NonParticipant => {
            reveal_strlit("CHAIR");
            reveal_strlit("REQ-PARTICIPANT");
            reveal_strlit("OPT-PARTICIPANT");
            reveal_strlit("NON-PARTICIPANT");
            lemma_ascii_str_bytes(KW_ROLE_NON_PARTICIPANT);
            lemma_ascii_str_bytes(KW_ROLE_CHAIR);
            assert(b.len() != KW_ROLE_CHAIR.spec_bytes().len());
            lemma_ascii_str_bytes(KW_ROLE_REQ_PARTICIPANT);
            assert(ascii_lower(b[0]) != ascii_lower(KW_ROLE_REQ_PARTICIPANT.spec_bytes()[0]));
            lemma_ascii_str_bytes(KW_ROLE_OPT_PARTICIPANT);
            assert(ascii_lower(b[0]) != ascii_lower(KW_ROLE_OPT_PARTICIPANT.spec_bytes()[0]));
        }
        _ => {}
    }
}


impl<'src> ParticipationRole<SpannedSegments<'src>> {
    /// Read a parameter value.
    pub fn from_value(v: SpannedSegments<'src>) -> (r: Self)
        ensures
            r == participation_role_from(v),
    {
        if v.eq_str_ignore_ascii_case(KW_ROLE_CHAIR) {
            ParticipationRole::Chair
        } else if v.eq_str_ignore_ascii_case(KW_ROLE_REQ_PARTICIPANT) {
            ParticipationRole::ReqParticipant
        } else if v.eq_str_ignore_ascii_case(KW_ROLE_OPT_PARTICIPANT) {
            ParticipationRole::OptParticipant
        } else if v.eq_str_ignore_ascii_case(KW_ROLE_NON_PARTICIPANT) {
            ParticipationRole::NonParticipant
        } else if v.starts_with_str_ignore_ascii_case("X-") {
            ParticipationRole::XName(v)
        } else {
            ParticipationRole::Unrecognized(v)
        }
    }
}

/// The `ParticipationStatus` that a parameter value spells: a standard value (ASCII
/// case ignored), else an experimental one when it starts with `X-`, else
/// an unrecognized one.
pub open spec fn participation_status_from<'src>(v: SpannedSegments<'src>) -> ParticipationStatus<SpannedSegments<'src>> {
    if eq_ignore_ascii_case(v.bytes(), KW_PARTSTAT_NEEDS_ACTION.spec_bytes()) {
        ParticipationStatus::NeedsAction
    } else if eq_ignore_ascii_case(v.bytes(), KW_PARTSTAT_ACCEPTED.spec_bytes()) {
        ParticipationStatus::Accepted
    } else if eq_ignore_ascii_case(v.bytes(), KW_PARTSTAT_DECLINED.spec_bytes()) {
        ParticipationStatus::Declined
    } else if eq_ignore_ascii_case(v.bytes(), KW_PARTSTAT_TENTATIVE.spec_bytes()) {
        ParticipationStatus::Tentative
    } else if eq_ignore_ascii_case(v.bytes(), KW_PARTSTAT_DELEGATED.spec_bytes()) {
        ParticipationStatus::Delegated
    } else if eq_ignore_ascii_case(v.bytes(), KW_PARTSTAT_COMPLETED.spec_bytes()) {
        ParticipationStatus::Completed
    } else if eq_ignore_ascii_case(v.bytes(), KW_PARTSTAT_IN_PROCESS.spec_bytes()) {
        ParticipationStatus::InProcess
    } else if has_x_prefix(v.bytes()) {
        ParticipationStatus::XName(v)
    } else {
        ParticipationStatus::Unrecognized(v)
    }
}

/// Reading the keyword of a standard participation status gives it back: the keywords
/// are distinct, even with ASCII case ignored.
#[verifier::spinoff_prover]
pub proof fn lemma_participation_status_round_trip<'src>(k: ParticipationStatus<SpannedSegments<'src>>, v: SpannedSegments<'src>)
    requires
        participation_status_keyword(k) is Some,
        v.bytes() == participation_status_keyword(k)->0.spec_bytes(),
    ensures
        participation_status_from(v) == k,
{
    reveal(eq_ignore_ascii_case);
    let b = v.bytes();
    assert(eq_ignore_ascii_case(b, b));
    match k {
        ParticipationStatus::NeedsAction => {
            reveal_strlit("NEEDS-ACTION");
            lemma_ascii_str_bytes(KW_PARTSTAT_NEEDS_ACTION);
        }
        ParticipationStatus::Accepted => {
            reveal_strlit("NEEDS-ACTION");
            reveal_strlit("ACCEPTED");
            lemma_ascii_str_bytes(KW_PARTSTAT_ACCEPTED);
            lemma_ascii_str_bytes(KW_PARTSTAT_NEEDS_ACTION);
            assert(b.len() != KW_PARTSTAT_NEEDS_ACTION.spec_bytes().len());
        }
        ParticipationStatus::Declined => {
            reveal_strlit("NEEDS-ACTION");
            reveal_strlit("ACCEPTED");
            reveal_strlit("DECLINED");
            lemma_ascii_str_bytes(KW_PARTSTAT_DECLINED);
            lemma_ascii_str_bytes(KW_PARTSTAT_NEEDS_ACTION);
            assert(b.len() != KW_PARTSTAT_NEEDS_ACTION.spec_bytes().len());
            lemma_ascii_str_bytes(KW_PARTSTAT_ACCEPTED);
            assert(ascii_lower(b[0]) != ascii_lower(KW_PARTSTAT_ACCEPTED.spec_bytes()[0]));
        }
        ParticipationStatus::Tentative => {
            reveal_strlit("NEEDS-ACTION");
            reveal_strlit("ACCEPTED");
            reveal_strlit("DECLINED");
            reveal_strlit("TENTATIVE");
            lemma_ascii_str_bytes(KW_PARTSTAT_TENTATIVE);
            lemma_ascii_str_bytes(KW_PARTSTAT_NEEDS_ACTION);
            assert(b.len() != KW_PARTSTAT_NEEDS_ACTION.spec_bytes().len());
            lemma_ascii_str_bytes(KW_PARTSTAT_ACCEPTED);
            assert(b.len() != KW_PARTSTAT_ACCEPTED.spec_bytes().len());
            lemma_ascii_str_bytes(KW_PARTSTAT_DECLINED);
            assert(b.len() != KW_PARTSTAT_DECLINED.spec_bytes().len());
        }
        ParticipationStatus::Delegated => {
            reveal_strlit("NEEDS-ACTION");
            reveal_strlit("ACCEPTED");
            reveal_strlit("DECLINED");
            reveal_strlit("TENTATIVE");
            reveal_strlit("DELEGATED");
            lemma_ascii_str_bytes(KW_PARTSTAT_DELEGATED);
            lemma_ascii_str_bytes(KW_PARTSTAT_NEEDS_ACTION);
            assert(b.len() != KW_PARTSTAT_NEEDS_ACTION.spec_bytes().len());
            lemma_ascii_str_bytes(KW_PARTSTAT_ACCEPTED);
            assert(b.len() != KW_PARTSTAT_ACCEPTED.spec_bytes().len());
            lemma_ascii_str_bytes(KW_PARTSTAT_DECLINED);
            assert(b.len() != KW_PARTSTAT_DECLINED.spec_bytes().len());
            lemma_ascii_str_bytes(KW_PARTSTAT_TENTATIVE);
            assert(ascii_lower(b[0]) != ascii_lower(KW_PARTSTAT_TENTATIVE.spec_bytes()[0]));
        }
        ParticipationStatus::Completed => {
            reveal_strlit("NEEDS-ACTION");
            reveal_strlit("ACCEPTED");
            reveal_strlit("DECLINED");
            reveal_strlit("TENTATIVE");
            reveal_strlit("DELEGATED");
            reveal_strlit("COMPLETED");
            lemma_ascii_str_bytes(KW_PARTSTAT_COMPLETED);
            lemma_ascii_str_bytes(KW_PARTSTAT_NEEDS_ACTION);
            assert(b.len() != KW_PARTSTAT_NEEDS_ACTION.spec_bytes().len());
            lemma_ascii_str_bytes(KW_PARTSTAT_ACCEPTED);
            assert(b.len() != KW_PARTSTAT_ACCEPTED.spec_bytes().len());
            lemma_ascii_str_bytes(KW_PARTSTAT_DECLINED);
            assert(b.len() != KW_PARTSTAT_DECLINED.spec_bytes().len());
            lemma_ascii_str_bytes(KW_PARTSTAT_TENTATIVE);
            assert(ascii_lower(b[0]) != ascii_lower(KW_PARTSTAT_TENTATIVE.spec_bytes()[0]));
            lemma_ascii_str_bytes(KW_PARTSTAT_DELEGATED);
            assert(ascii_lower(b[0]) != ascii_lower(KW_PARTSTAT_DELEGATED.spec_bytes()[0]));
        }
        ParticipationStatus::InProcess => {
            reveal_strlit("NEEDS-ACTION");
            reveal_strlit("ACCEPTED");
            reveal_strlit("DECLINED");
            reveal_strlit("TENTATIVE");
            reveal_strlit("DELEGATED");
            reveal_strlit("COMPLETED");
            reveal_strlit("IN-PROCESS");
            lemma_ascii_str_bytes(KW_PARTSTAT_IN_PROCESS);
            lemma_ascii_str_bytes(KW_PARTSTAT_NEEDS_ACTION);
            assert(b.len() != KW_PARTSTAT_NEEDS_ACTION.spec_bytes().len());
            lemma_ascii_str_bytes(KW_PARTSTAT_ACCEPTED);
            assert(b.len() != KW_PARTSTAT_ACCEPTED.spec_bytes().len());
            lemma_ascii_str_bytes(KW_PARTSTAT_DECLINED);
            assert(b.len() != KW_PARTSTAT_DECLINED.spec_bytes().len());
            lemma_ascii_str_bytes(KW_PARTSTAT_TENTATIVE);
            assert(b.len() != KW_PARTSTAT_TENTATIVE.spec_bytes().len());
            lemma_ascii_str_bytes(KW_PARTSTAT_DELEGATED);
            assert(b.len() != KW_PARTSTAT_DELEGATED.spec_bytes().len());
            lemma_ascii_str_bytes(KW_PARTSTAT_COMPLETED);
            assert(b.len() != KW_PARTSTAT_COMPLETED.spec_bytes().len());
        }
        _ => {}
    }
}


impl<'src> ParticipationStatus<SpannedSegments<'src>> {
    /// Read a parameter value.
    pub fn from_value(v: SpannedSegments<'src>) -> (r: Self)
        ensures
            r == participation_status_from(v),
    {
        if v.eq_str_ignore_ascii_case(KW_PARTSTAT_NEEDS_ACTION) {
            ParticipationStatus::NeedsAction
        } else if v.eq_str_ignore_ascii_case(KW_PARTSTAT_ACCEPTED) {
            ParticipationStatus::Accepted
        } else if v.eq_str_ignore_ascii_case(KW_PARTSTAT_DECLINED) {
            ParticipationStatus::Declined
        } else if v.eq_str_ignore_ascii_case(KW_PARTSTAT_TENTATIVE) {
            ParticipationStatus::Tentative
        } else if v.eq_str_ignore_ascii_case(KW_PARTSTAT_DELEGATED) {
            ParticipationStatus::Delegated
        } else if v.eq_str_ignore_ascii_case(KW_PARTSTAT_COMPLETED) {
            ParticipationStatus::Completed
        } else if v.eq_str_ignore_ascii_case(KW_PARTSTAT_IN_PROCESS) {
            ParticipationStatus::InProcess
        } else if v.starts_with_str_ignore_ascii_case("X-") {
            ParticipationStatus::XName(v)
        } else {
            ParticipationStatus::Unrecognized(v)
        }
    }
}

/// The `RelationshipType` that a parameter value spells: a standard value (ASCII
/// case ignored), else an experimental one when it starts with `X-`, else
/// an unrecognized one.
pub open spec fn relationship_type_from<'src>(v: SpannedSegments<'src>) -> RelationshipType<SpannedSegments<'src>> {
    if eq_ignore_ascii_case(v.bytes(), KW_RELTYPE_PARENT.spec_bytes()) {
        RelationshipType::Parent
    } else if eq_ignore_ascii_case(v.bytes(), KW_RELTYPE_CHILD.spec_bytes()) {
        RelationshipType::Child
    } else if eq_ignore_ascii_case(v.bytes(), KW_RELTYPE_SIBLING.spec_bytes()) {
        RelationshipType::Sibling
    } else if has_x_prefix(v.bytes()) {
        RelationshipType::XName(v)
    } else {
        RelationshipType::Unrecognized(v)
    }
}

/// Reading the keyword of a standard relationship type gives it back: the keywords
/// are distinct, even with ASCII case ignored.
#[verifier::spinoff_prover]
pub proof fn lemma_relationship_type_round_trip<'src>(k: RelationshipType<SpannedSegments<'src>>, v: SpannedSegments<'src>)
    requires
        relationship_type_keyword(k) is Some,
        v.bytes() == relationship_type_keyword(k)->0.spec_bytes(),
    ensures
        relationship_type_from(v) == k,
{
    reveal(eq_ignore_ascii_case);
    let b = v.bytes();
    assert(eq_ignore_ascii_case(b, b));
    match k {
        RelationshipType::Parent => {
            reveal_strlit("PARENT");
            lemma_ascii_str_bytes(KW_RELTYPE_PARENT);
        }
        RelationshipType::Child => {
            reveal_strlit("PARENT");
            reveal_strlit("CHILD");
            lemma_ascii_str_bytes(KW_RELTYPE_CHILD);
            lemma_ascii_str_bytes(KW_RELTYPE_PARENT);
            assert(b.len() != KW_RELTYPE_PARENT.spec_bytes().len());
        }
        RelationshipType::Sibling => {
            reveal_strlit("PARENT");
            reveal_strlit("CHILD");
            reveal_strlit("SIBLING");
            lemma_ascii_str_bytes(KW_RELTYPE_SIBLING);
            lemma_ascii_str_bytes(KW_RELTYPE_PARENT);
            assert(b.len() != KW_RELTYPE_PARENT.spec_bytes().len());
            lemma_ascii_str_bytes(KW_RELTYPE_CHILD);
            assert(b.len() != KW_RELTYPE_CHILD.spec_bytes().len());
        }
        _ => {}
    }
}


impl<'src> RelationshipType<SpannedSegments<'src>> {
    /// Read a parameter value.
    pub fn from_value(v: SpannedSegments<'src>) -> (r: Self)
        ensures
            r == relationship_type_from(v),
    {
        if v.eq_str_ignore_ascii_case(KW_RELTYPE_PARENT) {
            RelationshipType::Parent
        } else if v.eq_str_ignore_ascii_case(KW_RELTYPE_CHILD) {
            RelationshipType::Child
        } else if v.eq_str_ignore_ascii_case(KW_RELTYPE_SIBLING) {
            RelationshipType::Sibling
        } else if v.starts_with_str_ignore_ascii_case("X-") {
            RelationshipType::XName(v)
        } else {
            RelationshipType::Unrecognized(v)
        }
    }
}

/// The kind of parameter that a name gives, ASCII case ignored.
#[verifier::opaque]
pub open spec fn param_kind_of_name(b: Seq<u8>) -> ParameterKind {
    if eq_ignore_ascii_case(b, KW_ALTREP.spec_bytes()) {
        ParameterKind::AlternateText
    } else if eq_ignore_ascii_case(b, KW_CN.spec_bytes()) {
        ParameterKind::CommonName
    } else if eq_ignore_ascii_case(b, KW_CUTYPE.spec_bytes()) {
        ParameterKind::CalendarUserType
    } else if eq_ignore_ascii_case(b, KW_DELEGATED_FROM.spec_bytes()) {
        ParameterKind::Delegators
    } else if eq_ignore_ascii_case(b, KW_DELEGATED_TO.spec_bytes()) {
        ParameterKind::Delegatees
    } else if eq_ignore_ascii_case(b, KW_DIR.spec_bytes()) {
        ParameterKind::Directory
    } else if eq_ignore_ascii_case(b, KW_LANGUAGE.spec_bytes()) {
        ParameterKind::Language
    } else if eq_ignore_ascii_case(b, KW_MEMBER.spec_bytes()) {
        ParameterKind::GroupOrListMembership
    } else if eq_ignore_ascii_case(b, KW_PARTSTAT.spec_bytes()) {
        ParameterKind::ParticipationStatus
    } else if eq_ignore_ascii_case(b, KW_RELTYPE.spec_bytes()) {
        ParameterKind::RelationshipType
    } else if eq_ignore_ascii_case(b, KW_ROLE.spec_bytes()) {
        ParameterKind::ParticipationRole
    } else if eq_ignore_ascii_case(b, KW_RSVP.spec_bytes()) {
        ParameterKind::RsvpExpectation
    } else if eq_ignore_ascii_case(b, KW_SENT_BY.spec_bytes()) {
        ParameterKind::SendBy
    } else if eq_ignore_ascii_case(b, KW_TZID.spec_bytes()) {
        ParameterKind::TimeZoneIdentifier
    } else if eq_ignore_ascii_case(b, KW_VALUE.spec_bytes()) {
        ParameterKind::ValueType
    } else if eq_ignore_ascii_case(b, KW_RELATED.spec_bytes()) {
        ParameterKind::AlarmTriggerRelationship
    } else if eq_ignore_ascii_case(b, KW_ENCODING.spec_bytes()) {
        ParameterKind::Encoding
    } else if eq_ignore_ascii_case(b, KW_FMTTYPE.spec_bytes()) {
        ParameterKind::FormatType
    } else if eq_ignore_ascii_case(b, KW_FBTYPE.spec_bytes()) {
        ParameterKind::FreeBusyType
    } else if has_x_prefix(b) {
        ParameterKind::XName
    } else {
        ParameterKind::Unrecognized
    }
}

/// Reading the keyword of a standard parameter kind gives it back: the keywords
/// are distinct, even with ASCII case ignored.
#[verifier::spinoff_prover]
pub proof fn lemma_parameter_kind_round_trip(k: ParameterKind)
    requires
        parameter_kind_name(k) is Some,
    ensures
        param_kind_of_name(parameter_kind_name(k)->0.spec_bytes()) == k,
{
    reveal(eq_ignore_ascii_case);
    reveal(param_kind_of_name);
    let b = parameter_kind_name(k)->0.spec_bytes();
    assert(eq_ignore_ascii_case(b, b));
    match k {
        ParameterKind::AlternateText => {
            reveal_strlit("ALTREP");
            lemma_ascii_str_bytes(KW_ALTREP);
        }
        ParameterKind::CommonName => {
            reveal_strlit("ALTREP");
            reveal_strlit("CN");
            lemma_ascii_str_bytes(KW_CN);
            lemma_ascii_str_bytes(KW_ALTREP);
            assert(b.len() != KW_ALTREP.spec_bytes().len());
        }
        ParameterKind::CalendarUserType => {
            reveal_strlit("ALTREP");
            reveal_strlit("CN");
            reveal_strlit("CUTYPE");
            lemma_ascii_str_bytes(KW_CUTYPE);
            lemma_ascii_str_bytes(KW_ALTREP);
            assert(ascii_lower(b[0]) != ascii_lower(KW_ALTREP.spec_bytes()[0]));
            lemma_ascii_str_bytes(KW_CN);
            assert(b.len() != KW_CN.spec_bytes().len());
        }
        ParameterKind::Delegators => {
            reveal_strlit("ALTREP");
            reveal_strlit("CN");
            reveal_strlit("CUTYPE");
            reveal_strlit("DELEGATED-FROM");
            lemma_ascii_str_bytes(KW_DELEGATED_FROM);
            lemma_ascii_str_bytes(KW_ALTREP);
            assert(b.len() != KW_ALTREP.spec_bytes().len());
            lemma_ascii_str_bytes(KW_CN);
            assert(b.len() != KW_CN.spec_bytes().len());
            lemma_ascii_str_bytes(KW_CUTYPE);
            assert(b.len() != KW_CUTYPE.spec_bytes().len());
        }
        ParameterKind::Delegatees => {
            reveal_strlit("ALTREP");
            reveal_strlit("CN");
            reveal_strlit("CUTYPE");
            reveal_strlit("DELEGATED-FROM");
            reveal_strlit("DELEGATED-TO");
            lemma_ascii_str_bytes(KW_DELEGATED_TO);
            lemma_ascii_str_bytes(KW_ALTREP);
            assert(b.len() != KW_ALTREP.spec_bytes().len());
            lemma_ascii_str_bytes(KW_CN);
            assert(b.len() != KW_CN.spec_bytes().len());
            lemma_ascii_str_bytes(KW_CUTYPE);
            assert(b.len() != KW_CUTYPE.spec_bytes().len());
            lemma_ascii_str_bytes(KW_DELEGATED_FROM);
            assert(b.len() != KW_DELEGATED_FROM.spec_bytes().len());
        }
        ParameterKind::Directory => {
            reveal_strlit("ALTREP");
            reveal_strlit("CN");
            reveal_strlit("CUTYPE");
            reveal_strlit("DELEGATED-FROM");
            reveal_strlit("DELEGATED-TO");
            reveal_strlit("DIR");
            lemma_ascii_str_bytes(KW_DIR);
            lemma_ascii_str_bytes(KW_ALTREP);
            assert(b.len() != KW_ALTREP.spec_bytes().len());
            lemma_ascii_str_bytes(KW_CN);
            assert(b.len() != KW_CN.spec_bytes().len());
            lemma_ascii_str_bytes(KW_CUTYPE);
            assert(b.len() != KW_CUTYPE.spec_bytes().len());
            lemma_ascii_str_bytes(KW_DELEGATED_FROM);
            assert(b.len() != KW_DELEGATED_FROM.spec_bytes().len());
            lemma_ascii_str_bytes(KW_DELEGATED_TO);
            assert(b.len() != KW_DELEGATED_TO.spec_bytes().len());
        }
        ParameterKind::Language => {
            reveal_strlit("ALTREP");
            reveal_strlit("CN");
            reveal_strlit("CUTYPE");
            reveal_strlit("DELEGATED-FROM");
            reveal_strlit("DELEGATED-TO");
            reveal_strlit("DIR");
            reveal_strlit("LANGUAGE");
            lemma_ascii_str_bytes(KW_LANGUAGE);
            lemma_ascii_str_bytes(KW_ALTREP);
            assert(b.len() != KW_ALTREP.spec_bytes().len());
            lemma_ascii_str_bytes(KW_CN);
            assert(b.len() != KW_CN.spec_bytes().len());
            lemma_ascii_str_bytes(KW_CUTYPE);
            assert(b.len() != KW_CUTYPE.spec_bytes().len());
            lemma_ascii_str_bytes(KW_DELEGATED_FROM);
            assert(b.len() != KW_DELEGATED_FROM.spec_bytes().len());
            lemma_ascii_str_bytes(KW_DELEGATED_TO);
            assert(b.len() != KW_DELEGATED_TO.spec_bytes().len());
            lemma_ascii_str_bytes(KW_DIR);
            assert(b.len() != KW_DIR.spec_bytes().len());
        }
        ParameterKind::GroupOrListMembership => {
            reveal_strlit("ALTREP");
            reveal_strlit("CN");
            reveal_strlit("CUTYPE");
            reveal_strlit("DELEGATED-FROM");
            reveal_strlit("DELEGATED-TO");
            reveal_strlit("DIR");
            reveal_strlit("LANGUAGE");
            reveal_strlit("MEMBER");
            lemma_ascii_str_bytes(KW_MEMBER);
            lemma_ascii_str_bytes(KW_ALTREP);
            assert(ascii_lower(b[0]) != ascii_lower(KW_ALTREP.spec_bytes()[0]));
            lemma_ascii_str_bytes(KW_CN);
            assert(b.len() != KW_CN.spec_bytes().len());
            lemma_ascii_str_bytes(KW_CUTYPE);
            assert(ascii_lower(b[0]) != ascii_lower(KW_CUTYPE.spec_bytes()[0]));
            lemma_ascii_str_bytes(KW_DELEGATED_FROM);
            assert(b.len() != KW_DELEGATED_FROM.spec_bytes().len());
            lemma_ascii_str_bytes(KW_DELEGATED_TO);
            assert(b.len() != KW_DELEGATED_TO.spec_bytes().len());
            lemma_ascii_str_bytes(KW_DIR);
            assert(b.len() != KW_DIR.spec_bytes().len());
            lemma_ascii_str_bytes(KW_LANGUAGE);
            assert(b.len() != KW_LANGUAGE.spec_bytes().len());
        }
        ParameterKind::ParticipationStatus => {
            reveal_strlit("ALTREP");
            reveal_strlit("CN");
            reveal_strlit("CUTYPE");
            reveal_strlit("DELEGATED-FROM");
            reveal_strlit("DELEGATED-TO");
            reveal_strlit("DIR");
            reveal_strlit("LANGUAGE");
            reveal_strlit("MEMBER");
            reveal_strlit("PARTSTAT");
            lemma_ascii_str_bytes(KW_PARTSTAT);
            lemma_ascii_str_bytes(KW_ALTREP);
            assert(b.len() != KW_ALTREP.spec_bytes().len());
            lemma_ascii_str_bytes(KW_CN);
            assert(b.len() != KW_CN.spec_bytes().len());
            lemma_ascii_str_bytes(KW_CUTYPE);
            assert(b.len() != KW_CUTYPE.spec_bytes().len());
            lemma_ascii_str_bytes(KW_DELEGATED_FROM);
            assert(b.len() != KW_DELEGATED_FROM.spec_bytes().len());
            lemma_ascii_str_bytes(KW_DELEGATED_TO);
            assert(b.len() != KW_DELEGATED_TO.spec_bytes().len());
            lemma_ascii_str_bytes(KW_DIR);
            assert(b.len() != KW_DIR.spec_bytes().len());
            lemma_ascii_str_bytes(KW_LANGUAGE);
            assert(ascii_lower(b[0]) != ascii_lower(KW_LANGUAGE.spec_bytes()[0]));
            lemma_ascii_str_bytes(KW_MEMBER);
            assert(b.len() != KW_MEMBER.spec_bytes().len());
        }
        ParameterKind::RelationshipType => {
            reveal_strlit("ALTREP");
            reveal_strlit("CN");
            reveal_strlit("CUTYPE");
            reveal_strlit("DELEGATED-FROM");
            reveal_strlit("DELEGATED-TO");
            reveal_strlit("DIR");
            reveal_strlit("LANGUAGE");
            reveal_strlit("MEMBER");
            reveal_strlit("PARTSTAT");
            reveal_strlit("RELTYPE");
            lemma_ascii_str_bytes(KW_RELTYPE);
            lemma_ascii_str_bytes(KW_ALTREP);
            assert(b.len() != KW_ALTREP.spec_bytes().len());
            lemma_ascii_str_bytes(KW_CN);
            assert(b.len() != KW_CN.spec_bytes().len());
            lemma_ascii_str_bytes(KW_CUTYPE);
            assert(b.len() != KW_CUTYPE.spec_bytes().len());
            lemma_ascii_str_bytes(KW_DELEGATED_FROM);
            assert(b.len() != KW_DELEGATED_FROM.spec_bytes().len());
            lemma_ascii_str_bytes(KW_DELEGATED_TO);
            assert(b.len() != KW_DELEGATED_TO.spec_bytes().len());
            lemma_ascii_str_bytes(KW_DIR);
            assert(b.len() != KW_DIR.spec_bytes().len());
            lemma_ascii_str_bytes(KW_LANGUAGE);
            assert(b.len() != KW_LANGUAGE.spec_bytes().len());
            lemma_ascii_str_bytes(KW_MEMBER);
            assert(b.len() != KW_MEMBER.spec_bytes().len());
            lemma_ascii_str_bytes(KW_PARTSTAT);
            assert(b.len() != KW_PARTSTAT.spec_bytes().len());
        }
        ParameterKind::ParticipationRole => {
            reveal_strlit("ALTREP");
            reveal_strlit("CN");
            reveal_strlit("CUTYPE");
            reveal_strlit("DELEGATED-FROM");
            reveal_strlit("DELEGATED-TO");
            reveal_strlit("DIR");
            reveal_strlit("LANGUAGE");
            reveal_strlit("MEMBER");
            reveal_strlit("PARTSTAT");
            reveal_strlit("RELTYPE");
            reveal_strlit("ROLE");
            lemma_ascii_str_bytes(KW_ROLE);
            lemma_ascii_str_bytes(KW_ALTREP);
            assert(b.len() != KW_ALTREP.spec_bytes().len());
            lemma_ascii_str_bytes(KW_CN);
            assert(b.len() != KW_CN.spec_bytes().len());
            lemma_ascii_str_bytes(KW_CUTYPE);
            assert(b.len() != KW_CUTYPE.spec_bytes().len());
            lemma_ascii_str_bytes(KW_DELEGATED_FROM);
            assert(b.len() != KW_DELEGATED_FROM.spec_bytes().len());
            lemma_ascii_str_bytes(KW_DELEGATED_TO);
            assert(b.len() != KW_DELEGATED_TO.spec_bytes().len());
            lemma_ascii_str_bytes(KW_DIR);
            assert(b.len() != KW_DIR.spec_bytes().len());
            lemma_ascii_str_bytes(KW_LANGUAGE);
            assert(b.len() != KW_LANGUAGE.spec_bytes().len());
            lemma_ascii_str_bytes(KW_MEMBER);
            assert(b.len() != KW_MEMBER.spec_bytes().len());
            lemma_ascii_str_bytes(KW_PARTSTAT);
            assert(b.len() != KW_PARTSTAT.spec_bytes().len());
            lemma_ascii_str_bytes(KW_RELTYPE);
            assert(b.len() != KW_RELTYPE.spec_bytes().len());
        }
        ParameterKind::RsvpExpectation => {
            reveal_strlit("ALTREP");
            reveal_strlit("CN");
            reveal_strlit("CUTYPE");
            reveal_strlit("DELEGATED-FROM");
            reveal_strlit("DELEGATED-TO");
            reveal_strlit("DIR");
            reveal_strlit("LANGUAGE");
            reveal_strlit("MEMBER");
            reveal_strlit("PARTSTAT");
            reveal_strlit("RELTYPE");
            reveal_strlit("ROLE");
            reveal_strlit("RSVP");
            lemma_ascii_str_bytes(KW_RSVP);
            lemma_ascii_str_bytes(KW_ALTREP);
            assert(b.len() != KW_ALTREP.spec_bytes().len());
            lemma_ascii_str_bytes(KW_CN);
            assert(b.len() != KW_CN.spec_bytes().len());
            lemma_ascii_str_bytes(KW_CUTYPE);
            assert(b.len() != KW_CUTYPE.spec_bytes().len());
            lemma_ascii_str_bytes(KW_DELEGATED_FROM);
            assert(b.len() != KW_DELEGATED_FROM.spec_bytes().len());
            lemma_ascii_str_bytes(KW_DELEGATED_TO);
            assert(b.len() != KW_DELEGATED_TO.spec_bytes().len());
            lemma_ascii_str_bytes(KW_DIR);
            assert(b.len() != KW_DIR.spec_bytes().len());
            lemma_ascii_str_bytes(KW_LANGUAGE);
            assert(b.len() != KW_LANGUAGE.spec_bytes().len());
            lemma_ascii_str_bytes(KW_MEMBER);
            assert(b.len() != KW_MEMBER.spec_bytes().len());
            lemma_ascii_str_bytes(KW_PARTSTAT);
            assert(b.len() != KW_PARTSTAT.spec_bytes().len());
            lemma_ascii_str_bytes(KW_RELTYPE);
            assert(b.len() != KW_RELTYPE.spec_bytes().len());
            lemma_ascii_str_bytes(KW_ROLE);
            assert(ascii_lower(b[1]) != ascii_lower(KW_ROLE.spec_bytes()[1]));
        }
        ParameterKind::SendBy => {
            reveal_strlit("ALTREP");
            reveal_strlit("CN");
            reveal_strlit("CUTYPE");
            reveal_strlit("DELEGATED-FROM");
            reveal_strlit("DELEGATED-TO");
            reveal_strlit("DIR");
            reveal_strlit("LANGUAGE");
            reveal_strlit("MEMBER");
            reveal_strlit("PARTSTAT");
            reveal_strlit("RELTYPE");
            reveal_strlit("ROLE");
            reveal_strlit("RSVP");
            reveal_strlit("SENT-BY");
            lemma_ascii_str_bytes(KW_SENT_BY);
            lemma_ascii_str_bytes(KW_ALTREP);
            assert(b.len() != KW_ALTREP.spec_bytes().len());
            lemma_ascii_str_bytes(KW_CN);
            assert(b.len() != KW_CN.spec_bytes().len());
            lemma_ascii_str_bytes(KW_CUTYPE);
            assert(b.len() != KW_CUTYPE.spec_bytes().len());
            lemma_ascii_str_bytes(KW_DELEGATED_FROM);
            assert(b.len() != KW_DELEGATED_FROM.spec_bytes().len());
            lemma_ascii_str_bytes(KW_DELEGATED_TO);
            assert(b.len() != KW_DELEGATED_TO.spec_bytes().len());
            lemma_ascii_str_bytes(KW_DIR);
            assert(b.len() != KW_DIR.spec_bytes().len());
            lemma_ascii_str_bytes(KW_LANGUAGE);
            assert(b.len() != KW_LANGUAGE.spec_bytes().len());
            lemma_ascii_str_bytes(KW_MEMBER);
            assert(b.len() != KW_MEMBER.spec_bytes().len());
            lemma_ascii_str_bytes(KW_PARTSTAT);
            assert(b.len() != KW_PARTSTAT.spec_bytes().len());
            lemma_ascii_str_bytes(KW_RELTYPE);
            assert(ascii_lower(b[0]) != ascii_lower(KW_RELTYPE.spec_bytes()[0]));
            lemma_ascii_str_bytes(KW_ROLE);
            assert(b.len() != KW_ROLE.spec_bytes().len());
            lemma_ascii_str_bytes(KW_RSVP);
            assert(b.len() != KW_RSVP.spec_bytes().len());
        }
        ParameterKind::TimeZoneIdentifier => {
            reveal_strlit("ALTREP");
            reveal_strlit("CN");
            reveal_strlit("CUTYPE");
            reveal_strlit("DELEGATED-FROM");
            reveal_strlit("DELEGATED-TO");
            reveal_strlit("DIR");
            reveal_strlit("LANGUAGE");
            reveal_strlit("MEMBER");
            reveal_strlit("PARTSTAT");
            reveal_strlit("RELTYPE");
            reveal_strlit("ROLE");
            reveal_strlit("RSVP");
            reveal_strlit("SENT-BY");
            reveal_strlit("TZID");
            lemma_ascii_str_bytes(KW_TZID);
            lemma_ascii_str_bytes(KW_ALTREP);
            assert(b.len() != KW_ALTREP.spec_bytes().len());
            lemma_ascii_str_bytes(KW_CN);
            assert(b.len() != KW_CN.spec_bytes().len());
            lemma_ascii_str_bytes(KW_CUTYPE);
            assert(b.len() != KW_CUTYPE.spec_bytes().len());
            lemma_ascii_str_bytes(KW_DELEGATED_FROM);
            assert(b.len() != KW_DELEGATED_FROM.spec_bytes().len());
            lemma_ascii_str_bytes(KW_DELEGATED_TO);
            assert(b.len() != KW_DELEGATED_TO.spec_bytes().len());
            lemma_ascii_str_bytes(KW_DIR);
            assert(b.len() != KW_DIR.spec_bytes().len());
            lemma_ascii_str_bytes(KW_LANGUAGE);
            assert(b.len() != KW_LANGUAGE.spec_bytes().len());
            lemma_ascii_str_bytes(KW_MEMBER);
            assert(b.len() != KW_MEMBER.spec_bytes().len());
            lemma_ascii_str_bytes(KW_PARTSTAT);
            assert(b.len() != KW_PARTSTAT.spec_bytes().len());
            lemma_ascii_str_bytes(KW_RELTYPE);
            assert(b.len() != KW_RELTYPE.spec_bytes().len());
            lemma_ascii_str_bytes(KW_ROLE);
            assert(ascii_lower(b[0]) != ascii_lower(KW_ROLE.spec_bytes()[0]));
            lemma_ascii_str_bytes(KW_RSVP);
            assert(ascii_lower(b[0]) != ascii_lower(KW_RSVP.spec_bytes()[0]));
            lemma_ascii_str_bytes(KW_SENT_BY);
            assert(b.len() != KW_SENT_BY.spec_bytes().len());
        }
        ParameterKind::ValueType => {
            reveal_strlit("ALTREP");
            reveal_strlit("CN");
            reveal_strlit("CUTYPE");
            reveal_strlit("DELEGATED-FROM");
            reveal_strlit("DELEGATED-TO");
            reveal_strlit("DIR");
            reveal_strlit("LANGUAGE");
            reveal_strlit("MEMBER");
            reveal_strlit("PARTSTAT");
            reveal_strlit("RELTYPE");
            reveal_strlit("ROLE");
            reveal_strlit("RSVP");
            reveal_strlit("SENT-BY");
            reveal_strlit("TZID");
            reveal_strlit("VALUE");
            lemma_ascii_str_bytes(KW_VALUE);
            lemma_ascii_str_bytes(KW_ALTREP);
            assert(b.len() != KW_ALTREP.spec_bytes().len());
            lemma_ascii_str_bytes(KW_CN);
            assert(b.len() != KW_CN.spec_bytes().len());
            lemma_ascii_str_bytes(KW_CUTYPE);
            assert(b.len() != KW_CUTYPE.spec_bytes().len());
            lemma_ascii_str_bytes(KW_DELEGATED_FROM);
            assert(b.len() != KW_DELEGATED_FROM.spec_bytes().len());
            lemma_ascii_str_bytes(KW_DELEGATED_TO);
            assert(b.len() != KW_DELEGATED_TO.spec_bytes().len());
            lemma_ascii_str_bytes(KW_DIR);
            assert(b.len() != KW_DIR.spec_bytes().len());
            lemma_ascii_str_bytes(KW_LANGUAGE);
            assert(b.len() != KW_LANGUAGE.spec_bytes().len());
            lemma_ascii_str_bytes(KW_MEMBER);
            assert(b.len() != KW_MEMBER.spec_bytes().len());
            lemma_ascii_str_bytes(KW_PARTSTAT);
            assert(b.len() != KW_PARTSTAT.spec_bytes().len());
            lemma_ascii_str_bytes(KW_RELTYPE);
            assert(b.len() != KW_RELTYPE.spec_bytes().len());
            lemma_ascii_str_bytes(KW_ROLE);
            assert(b.len() != KW_ROLE.spec_bytes().len());
            lemma_ascii_str_bytes(KW_RSVP);
            assert(b.len() != KW_RSVP.spec_bytes().len());
            lemma_ascii_str_bytes(KW_SENT_BY);
            assert(b.len() != KW_SENT_BY.spec_bytes().len());
            lemma_ascii_str_bytes(KW_TZID);
            assert(b.len() != KW_TZID.spec_bytes().len());
        }
        ParameterKind::AlarmTriggerRelationship => {
            reveal_strlit("ALTREP");
            reveal_strlit("CN");
            reveal_strlit("CUTYPE");
            reveal_strlit("DELEGATED-FROM");
            reveal_strlit("DELEGATED-TO");
            reveal_strlit("DIR");
            reveal_strlit("LANGUAGE");
            reveal_strlit("MEMBER");
            reveal_strlit("PARTSTAT");
            reveal_strlit("RELTYPE");
            reveal_strlit("ROLE");
            reveal_strlit("RSVP");
            reveal_strlit("SENT-BY");
            reveal_strlit("TZID");
            reveal_strlit("VALUE");
            reveal_strlit("RELATED");
            lemma_ascii_str_bytes(KW_RELATED);
            lemma_ascii_str_bytes(KW_ALTREP);
            assert(b.len() != KW_ALTREP.spec_bytes().len());
            lemma_ascii_str_bytes(KW_CN);
            assert(b.len() != KW_CN.spec_bytes().len());
            lemma_ascii_str_bytes(KW_CUTYPE);
            assert(b.len() != KW_CUTYPE.spec_bytes().len());
            lemma_ascii_str_bytes(KW_DELEGATED_FROM);
            assert(b.len() != KW_DELEGATED_FROM.spec_bytes().len());
            lemma_ascii_str_bytes(KW_DELEGATED_TO);
            assert(b.len() != KW_DELEGATED_TO.spec_bytes().len());
            lemma_ascii_str_bytes(KW_DIR);
            assert(b.len() != KW_DIR.spec_bytes().len());
            lemma_ascii_str_bytes(KW_LANGUAGE);
            assert(b.len() != KW_LANGUAGE.spec_bytes().len());
            lemma_ascii_str_bytes(KW_MEMBER);
            assert(b.len() != KW_MEMBER.spec_bytes().len());
            lemma_ascii_str_bytes(KW_PARTSTAT);
            assert(b.len() != KW_PARTSTAT.spec_bytes().len());
            lemma_ascii_str_bytes(KW_RELTYPE);
            assert(ascii_lower(b[3]) != ascii_lower(KW_RELTYPE.spec_bytes()[3]));
            lemma_ascii_str_bytes(KW_ROLE);
            assert(b.len() != KW_ROLE.spec_bytes().len());
            lemma_ascii_str_bytes(KW_RSVP);
            assert(b.len() != KW_RSVP.spec_bytes().len());
            lemma_ascii_str_bytes(KW_SENT_BY);
            assert(ascii_lower(b[0]) != ascii_lower(KW_SENT_BY.spec_bytes()[0]));
            lemma_ascii_str_bytes(KW_TZID);
            assert(b.len() != KW_TZID.spec_bytes().len());
            lemma_ascii_str_bytes(KW_VALUE);
            assert(b.len() != KW_VALUE.spec_bytes().len());
        }
        ParameterKind::Encoding => {
            reveal_strlit("ALTREP");
            reveal_strlit("CN");
            reveal_strlit("CUTYPE");
            reveal_strlit("DELEGATED-FROM");
            reveal_strlit("DELEGATED-TO");
            reveal_strlit("DIR");
            reveal_strlit("LANGUAGE");
            reveal_strlit("MEMBER");
            reveal_strlit("PARTSTAT");
            reveal_strlit("RELTYPE");
            reveal_strlit("ROLE");
            reveal_strlit("RSVP");
            reveal_strlit("SENT-BY");
            reveal_strlit("TZID");
            reveal_strlit("VALUE");
            reveal_strlit("RELATED");
            reveal_strlit("ENCODING");
            lemma_ascii_str_bytes(KW_ENCODING);
            lemma_ascii_str_bytes(KW_ALTREP);
            assert(b.len() != KW_ALTREP.spec_bytes().len());
            lemma_ascii_str_bytes(KW_CN);
            assert(b.len() != KW_CN.spec_bytes().len());
            lemma_ascii_str_bytes(KW_CUTYPE);
            assert(b.len() != KW_CUTYPE.spec_bytes().len());
            lemma_ascii_str_bytes(KW_DELEGATED_FROM);
            assert(b.len() != KW_DELEGATED_FROM.spec_bytes().len());
            lemma_ascii_str_bytes(KW_DELEGATED_TO);
            assert(b.len() != KW_DELEGATED_TO.spec_bytes().len());
            lemma_ascii_str_bytes(KW_DIR);
            assert(b.len() != KW_DIR.spec_bytes().len());
            lemma_ascii_str_bytes(KW_LANGUAGE);
            assert(ascii_lower(b[0]) != ascii_lower(KW_LANGUAGE.spec_bytes()[0]));
            lemma_ascii_str_bytes(KW_MEMBER);
            assert(b.len() != KW_MEMBER.spec_bytes().len());
            lemma_ascii_str_bytes(KW_PARTSTAT);
            assert(ascii_lower(b[0]) != ascii_lower(KW_PARTSTAT.spec_bytes()[0]));
            lemma_ascii_str_bytes(KW_RELTYPE);
            assert(b.len() != KW_RELTYPE.spec_bytes().len());
            lemma_ascii_str_bytes(KW_ROLE);
            assert(b.len() != KW_ROLE.spec_bytes().len());
            lemma_ascii_str_bytes(KW_RSVP);
            assert(b.len() != KW_RSVP.spec_bytes().len());
            lemma_ascii_str_bytes(KW_SENT_BY);
            assert(b.len() != KW_SENT_BY.spec_bytes().len());
            lemma_ascii_str_bytes(KW_TZID);
            assert(b.len() != KW_TZID.spec_bytes().len());
            lemma_ascii_str_bytes(KW_VALUE);
            assert(b.len() != KW_VALUE.spec_bytes().len());
            lemma_ascii_str_bytes(KW_RELATED);
            assert(b.len() != KW_RELATED.spec_bytes().len());
        }
        ParameterKind::FormatType => {
            reveal_strlit("ALTREP");
            reveal_strlit("CN");
            reveal_strlit("CUTYPE");
            reveal_strlit("DELEGATED-FROM");
            reveal_strlit("DELEGATED-TO");
            reveal_strlit("DIR");
            reveal_strlit("LANGUAGE");
            reveal_strlit("MEMBER");
            reveal_strlit("PARTSTAT");
            reveal_strlit("RELTYPE");
            reveal_strlit("ROLE");
            reveal_strlit("RSVP");
            reveal_strlit("SENT-BY");
            reveal_strlit("TZID");
            reveal_strlit("VALUE");
            reveal_strlit("RELATED");
            reveal_strlit("ENCODING");
            reveal_strlit("FMTTYPE");
            lemma_ascii_str_bytes(KW_FMTTYPE);
            lemma_ascii_str_bytes(KW_ALTREP);
            assert(b.len() != KW_ALTREP.spec_bytes().len());
            lemma_ascii_str_bytes(KW_CN);
            assert(b.len() != KW_CN.spec_bytes().len());
            lemma_ascii_str_bytes(KW_CUTYPE);
            assert(b.len() != KW_CUTYPE.spec_bytes().len());
            lemma_ascii_str_bytes(KW_DELEGATED_FROM);
            assert(b.len() != KW_DELEGATED_FROM.spec_bytes().len());
            lemma_ascii_str_bytes(KW_DELEGATED_TO);
            assert(b.len() != KW_DELEGATED_TO.spec_bytes().len());
            lemma_ascii_str_bytes(KW_DIR);
            assert(b.len() != KW_DIR.spec_bytes().len());
            lemma_ascii_str_bytes(KW_LANGUAGE);
            assert(b.len() != KW_LANGUAGE.spec_bytes().len());
            lemma_ascii_str_bytes(KW_MEMBER);
            assert(b.len() != KW_MEMBER.spec_bytes().len());
            lemma_ascii_str_bytes(KW_PARTSTAT);
            assert(b.len() != KW_PARTSTAT.spec_bytes().len());
            lemma_ascii_str_bytes(KW_RELTYPE);
            assert(ascii_lower(b[0]) != ascii_lower(KW_RELTYPE.spec_bytes()[0]));
            lemma_ascii_str_bytes(KW_ROLE);
            assert(b.len() != KW_ROLE.spec_bytes().len());
            lemma_ascii_str_bytes(KW_RSVP);
            assert(b.len() != KW_RSVP.spec_bytes().len());
            lemma_ascii_str_bytes(KW_SENT_BY);
            assert(ascii_lower(b[0]) != ascii_lower(KW_SENT_BY.spec_bytes()[0]));
            lemma_ascii_str_bytes(KW_TZID);
            assert(b.len() != KW_TZID.spec_bytes().len());
            lemma_ascii_str_bytes(KW_VALUE);
            assert(b.len() != KW_VALUE.spec_bytes().len());
            lemma_ascii_str_bytes(KW_RELATED);
            assert(ascii_lower(b[0]) != ascii_lower(KW_RELATED.spec_bytes()[0]));
            lemma_ascii_str_bytes(KW_ENCODING);
            assert(b.len() != KW_ENCODING.spec_bytes().len());
        }
        ParameterKind::FreeBusyType => {
            reveal_strlit("ALTREP");
            reveal_strlit("CN");
            reveal_strlit("CUTYPE");
            reveal_strlit("DELEGATED-FROM");
            reveal_strlit("DELEGATED-TO");
            reveal_strlit("DIR");
            reveal_strlit("LANGUAGE");
            reveal_strlit("MEMBER");
            reveal_strlit("PARTSTAT");
            reveal_strlit("RELTYPE");
            reveal_strlit("ROLE");
            reveal_strlit("RSVP");
            reveal_strlit("SENT-BY");
            reveal_strlit("TZID");
            reveal_strlit("VALUE");
            reveal_strlit("RELATED");
            reveal_strlit("ENCODING");
            reveal_strlit("FMTTYPE");
            reveal_strlit("FBTYPE");
            lemma_ascii_str_bytes(KW_FBTYPE);
            lemma_ascii_str_bytes(KW_ALTREP);
            assert(ascii_lower(b[0]) != ascii_lower(KW_ALTREP.spec_bytes()[0]));
            lemma_ascii_str_bytes(KW_CN);
            assert(b.len() != KW_CN.spec_bytes().len());
            lemma_ascii_str_bytes(KW_CUTYPE);
            assert(ascii_lower(b[0]) != ascii_lower(KW_CUTYPE.spec_bytes()[0]));
            lemma_ascii_str_bytes(KW_DELEGATED_FROM);
            assert(b.len() != KW_DELEGATED_FROM.spec_bytes().len());
            lemma_ascii_str_bytes(KW_DELEGATED_TO);
            assert(b.len() != KW_DELEGATED_TO.spec_bytes().len());
            lemma_ascii_str_bytes(KW_DIR);
            assert(b.len() != KW_DIR.spec_bytes().len());
            lemma_ascii_str_bytes(KW_LANGUAGE);
            assert(b.len() != KW_LANGUAGE.spec_bytes().len());
            lemma_ascii_str_bytes(KW_MEMBER);
            assert(ascii_lower(b[0]) != ascii_lower(KW_MEMBER.spec_bytes()[0]));
            lemma_ascii_str_bytes(KW_PARTSTAT);
            assert(b.len() != KW_PARTSTAT.spec_bytes().len());
            lemma_ascii_str_bytes(KW_RELTYPE);
            assert(b.len() != KW_RELTYPE.spec_bytes().len());
            lemma_ascii_str_bytes(KW_ROLE);
            assert(b.len() != KW_ROLE.spec_bytes().len());
            lemma_ascii_str_bytes(KW_RSVP);
            assert(b.len() != KW_RSVP.spec_bytes().len());
            lemma_ascii_str_bytes(KW_SENT_BY);
            assert(b.len() != KW_SENT_BY.spec_bytes().len());
            lemma_ascii_str_bytes(KW_TZID);
            assert(b.len() != KW_TZID.spec_bytes().len());
            lemma_ascii_str_bytes(KW_VALUE);
            assert(b.len() != KW_VALUE.spec_bytes().len());
            lemma_ascii_str_bytes(KW_RELATED);
            assert(b.len() != KW_RELATED.spec_bytes().len());
            lemma_ascii_str_bytes(KW_ENCODING);
            assert(b.len() != KW_ENCODING.spec_bytes().len());
            lemma_ascii_str_bytes(KW_FMTTYPE);
            assert(b.len() != KW_FMTTYPE.spec_bytes().len());
        }
        _ => {}
    }
}


/// Read the kind of parameter that a name gives.
pub fn param_kind_from_name(name: &SpannedSegments<'_>) -> (r: ParameterKind)
    ensures
        r == param_kind_of_name(name.bytes()),
{
    reveal(param_kind_of_name);
    if name.eq_str_ignore_ascii_case(KW_ALTREP) {
        ParameterKind::AlternateText
    } else if name.eq_str_ignore_ascii_case(KW_CN) {
        ParameterKind::CommonName
    } else if name.eq_str_ignore_ascii_case(KW_CUTYPE) {
        ParameterKind::CalendarUserType
    } else if name.eq_str_ignore_ascii_case(KW_DELEGATED_FROM) {
        ParameterKind::Delegators
    } else if name.eq_str_ignore_ascii_case(KW_DELEGATED_TO) {
        ParameterKind::Delegatees
    } else if name.eq_str_ignore_ascii_case(KW_DIR) {
        ParameterKind::Directory
    } else if name.eq_str_ignore_ascii_case(KW_LANGUAGE) {
        ParameterKind::Language
    } else if name.eq_str_ignore_ascii_case(KW_MEMBER) {
        ParameterKind::GroupOrListMembership
    } else if name.eq_str_ignore_ascii_case(KW_PARTSTAT) {
        ParameterKind::ParticipationStatus
    } else if name.eq_str_ignore_ascii_case(KW_RELTYPE) {
        ParameterKind::RelationshipType
    } else if name.eq_str_ignore_ascii_case(KW_ROLE) {
        ParameterKind::ParticipationRole
    } else if name.eq_str_ignore_ascii_case(KW_RSVP) {
        ParameterKind::RsvpExpectation
    } else if name.eq_str_ignore_ascii_case(KW_SENT_BY) {
        ParameterKind::SendBy
    } else if name.eq_str_ignore_ascii_case(KW_TZID) {
        ParameterKind::TimeZoneIdentifier
    } else if name.eq_str_ignore_ascii_case(KW_VALUE) {
        ParameterKind::ValueType
    } else if name.eq_str_ignore_ascii_case(KW_RELATED) {
        ParameterKind::AlarmTriggerRelationship
    } else if name.eq_str_ignore_ascii_case(KW_ENCODING) {
        ParameterKind::Encoding
    } else if name.eq_str_ignore_ascii_case(KW_FMTTYPE) {
        ParameterKind::FormatType
    } else if name.eq_str_ignore_ascii_case(KW_FBTYPE) {
        ParameterKind::FreeBusyType
    } else if name.starts_with_str_ignore_ascii_case("X-") {
        ParameterKind::XName
    } else {
        ParameterKind::Unrecognized
    }
}

/// The value type that a `VALUE` parameter names, ASCII case ignored.
#[verifier::opaque]
pub open spec fn value_kind_of(b: Seq<u8>) -> Option<PropertyValueKind> {
    if eq_ignore_ascii_case(b, KW_BINARY.spec_bytes()) {
        Some(PropertyValueKind::Binary)
    } else if eq_ignore_ascii_case(b, KW_BOOLEAN.spec_bytes()) {
        Some(PropertyValueKind::Boolean)
    } else if eq_ignore_ascii_case(b, KW_CAL_ADDRESS.spec_bytes()) {
        Some(PropertyValueKind::CalendarUserAddress)
    } else if eq_ignore_ascii_case(b, KW_DATE.spec_bytes()) {
        Some(PropertyValueKind::Date)
    } else if eq_ignore_ascii_case(b, KW_DATETIME.spec_bytes()) {
        Some(PropertyValueKind::DateTime)
    } else if eq_ignore_ascii_case(b, KW_DURATION_TYPE.spec_bytes()) {
        Some(PropertyValueKind::Duration)
    } else if eq_ignore_ascii_case(b, KW_FLOAT.spec_bytes()) {
        Some(PropertyValueKind::Float)
    } else if eq_ignore_ascii_case(b, KW_INTEGER.spec_bytes()) {
        Some(PropertyValueKind::Integer)
    } else if eq_ignore_ascii_case(b, KW_PERIOD.spec_bytes()) {
        Some(PropertyValueKind::Period)
    } else if eq_ignore_ascii_case(b, KW_RECUR.spec_bytes()) {
        Some(PropertyValueKind::RecurrenceRule)
    } else if eq_ignore_ascii_case(b, KW_TEXT.spec_bytes()) {
        Some(PropertyValueKind::Text)
    } else if eq_ignore_ascii_case(b, KW_TIME.spec_bytes()) {
        Some(PropertyValueKind::Time)
    } else if eq_ignore_ascii_case(b, KW_URI.spec_bytes()) {
        Some(PropertyValueKind::Uri)
    } else if eq_ignore_ascii_case(b, KW_UTC_OFFSET.spec_bytes()) {
        Some(PropertyValueKind::UtcOffset)
    } else {
        None
    }
}

/// Reading the keyword of a value type gives it back: `from_text` undoes
/// `as_str` on every `PropertyValueKind`.
pub proof fn lemma_value_kind_round_trip(v: PropertyValueKind)
    ensures
        value_kind_of(value_kind_keyword(v).spec_bytes()) == Some(v),
{
    reveal(eq_ignore_ascii_case);
    reveal(value_kind_of);
    let b = value_kind_keyword(v).spec_bytes();
    assert(eq_ignore_ascii_case(b, b));
    match v {
        PropertyValueKind::Binary => {
            reveal_strlit("BINARY");
            lemma_ascii_str_bytes(KW_BINARY);
            assert(value_kind_of(b) == Some(PropertyValueKind::Binary));
        }
        PropertyValueKind::Boolean => {
            reveal_strlit("BINARY");
            reveal_strlit("BOOLEAN");
            lemma_ascii_str_bytes(KW_BOOLEAN);
            lemma_ascii_str_bytes(KW_BINARY);
            assert(b.len() != KW_BINARY.spec_bytes().len());
            assert(value_kind_of(b) == Some(PropertyValueKind::Boolean));
        }
        PropertyValueKind::CalendarUserAddress => {
            reveal_strlit("BINARY");
            reveal_strlit("BOOLEAN");
            reveal_strlit("CAL-ADDRESS");
            lemma_ascii_str_bytes(KW_CAL_ADDRESS);
            lemma_ascii_str_bytes(KW_BINARY);
            assert(b.len() != KW_BINARY.spec_bytes().len());
            lemma_ascii_str_bytes(KW_BOOLEAN);
            assert(b.len() != KW_BOOLEAN.spec_bytes().len());
            assert(value_kind_of(b) == Some(PropertyValueKind::CalendarUserAddress));
        }
        PropertyValueKind::Date => {
            reveal_strlit("BINARY");
            reveal_strlit("BOOLEAN");
            reveal_strlit("CAL-ADDRESS");
            reveal_strlit("DATE");
            lemma_ascii_str_bytes(KW_DATE);
            lemma_ascii_str_bytes(KW_BINARY);
            assert(b.len() != KW_BINARY.spec_bytes().len());
            lemma_ascii_str_bytes(KW_BOOLEAN);
            assert(b.len() != KW_BOOLEAN.spec_bytes().len());
            lemma_ascii_str_bytes(KW_CAL_ADDRESS);
            assert(b.len() != KW_CAL_ADDRESS.spec_bytes().len());
            assert(value_kind_of(b) == Some(PropertyValueKind::Date));
        }
        PropertyValueKind::DateTime => {
            reveal_strlit("BINARY");
            reveal_strlit("BOOLEAN");
            reveal_strlit("CAL-ADDRESS");
            reveal_strlit("DATE");
            reveal_strlit("DATE-TIME");
            lemma_ascii_str_bytes(KW_DATETIME);
            lemma_ascii_str_bytes(KW_BINARY);
            assert(b.len() != KW_BINARY.spec_bytes().len());
            lemma_ascii_str_bytes(KW_BOOLEAN);
            assert(b.len() != KW_BOOLEAN.spec_bytes().len());
            lemma_ascii_str_bytes(KW_CAL_ADDRESS);
            assert(b.len() != KW_CAL_ADDRESS.spec_bytes().len());
            lemma_ascii_str_bytes(KW_DATE);
            assert(b.len() != KW_DATE.spec_bytes().len());
            assert(value_kind_of(b) == Some(PropertyValueKind::DateTime));
        }
        PropertyValueKind::Duration => {
            reveal_strlit("BINARY");
            reveal_strlit("BOOLEAN");
            reveal_strlit("CAL-ADDRESS");
            reveal_strlit("DATE");
            reveal_strlit("DATE-TIME");
            reveal_strlit("DURATION");
            lemma_ascii_str_bytes(KW_DURATION_TYPE);
            lemma_ascii_str_bytes(KW_BINARY);
            assert(b.len() != KW_BINARY.spec_bytes().len());
            lemma_ascii_str_bytes(KW_BOOLEAN);
            assert(b.len() != KW_BOOLEAN.spec_bytes().len());
            lemma_ascii_str_bytes(KW_CAL_ADDRESS);
            assert(b.len() != KW_CAL_ADDRESS.spec_bytes().len());
            lemma_ascii_str_bytes(KW_DATE);
            assert(b.len() != KW_DATE.spec_bytes().len());
            lemma_ascii_str_bytes(KW_DATETIME);
            assert(b.len() != KW_DATETIME.spec_bytes().len());
            assert(value_kind_of(b) == Some(PropertyValueKind::Duration));
        }
        PropertyValueKind::Float => {
            reveal_strlit("BINARY");
            reveal_strlit("BOOLEAN");
            reveal_strlit("CAL-ADDRESS");
            reveal_strlit("DATE");
            reveal_strlit("DATE-TIME");
            reveal_strlit("DURATION");
            reveal_strlit("FLOAT");
            lemma_ascii_str_bytes(KW_FLOAT);
            lemma_ascii_str_bytes(KW_BINARY);
            assert(b.len() != KW_BINARY.spec_bytes().len());
            lemma_ascii_str_bytes(KW_BOOLEAN);
            assert(b.len() != KW_BOOLEAN.spec_bytes().len());
            lemma_ascii_str_bytes(KW_CAL_ADDRESS);
            assert(b.len() != KW_CAL_ADDRESS.spec_bytes().len());
            lemma_ascii_str_bytes(KW_DATE);
            assert(b.len() != KW_DATE.spec_bytes().len());
            lemma_ascii_str_bytes(KW_DATETIME);
            assert(b.len() != KW_DATETIME.spec_bytes().len());
            lemma_ascii_str_bytes(KW_DURATION_TYPE);
            assert(b.len() != KW_DURATION_TYPE.spec_bytes().len());
            assert(value_kind_of(b) == Some(PropertyValueKind::Float));
        }
        PropertyValueKind::Integer => {
            reveal_strlit("BINARY");
            reveal_strlit("BOOLEAN");
            reveal_strlit("CAL-ADDRESS");
            reveal_strlit("DATE");
            reveal_strlit("DATE-TIME");
            reveal_strlit("DURATION");
            reveal_strlit("FLOAT");
            reveal_strlit("INTEGER");
            lemma_ascii_str_bytes(KW_INTEGER);
            lemma_ascii_str_bytes(KW_BINARY);
            assert(b.len() != KW_BINARY.spec_bytes().len());
            lemma_ascii_str_bytes(KW_BOOLEAN);
            assert(ascii_lower(b[0]) != ascii_lower(KW_BOOLEAN.spec_bytes()[0]));
            lemma_ascii_str_bytes(KW_CAL_ADDRESS);
            assert(b.len() != KW_CAL_ADDRESS.spec_bytes().len());
            lemma_ascii_str_bytes(KW_DATE);
            assert(b.len() != KW_DATE.spec_bytes().len());
            lemma_ascii_str_bytes(KW_DATETIME);
            assert(b.len() != KW_DATETIME.spec_bytes().len());
            lemma_ascii_str_bytes(KW_DURATION_TYPE);
            assert(b.len() != KW_DURATION_TYPE.spec_bytes().len());
            lemma_ascii_str_bytes(KW_FLOAT);
            assert(b.len() != KW_FLOAT.spec_bytes().len());
            assert(value_kind_of(b) == Some(PropertyValueKind::Integer));
        }
        PropertyValueKind::Period => {
            reveal_strlit("BINARY");
            reveal_strlit("BOOLEAN");
            reveal_strlit("CAL-ADDRESS");
            reveal_strlit("DATE");
            reveal_strlit("DATE-TIME");
            reveal_strlit("DURATION");
            reveal_strlit("FLOAT");
            reveal_strlit("INTEGER");
            reveal_strlit("PERIOD");
            lemma_ascii_str_bytes(KW_PERIOD);
            lemma_ascii_str_bytes(KW_BINARY);
            assert(ascii_lower(b[0]) != ascii_lower(KW_BINARY.spec_bytes()[0]));
            lemma_ascii_str_bytes(KW_BOOLEAN);
            assert(b.len() != KW_BOOLEAN.spec_bytes().len());
            lemma_ascii_str_bytes(KW_CAL_ADDRESS);
            assert(b.len() != KW_CAL_ADDRESS.spec_bytes().len());
            lemma_ascii_str_bytes(KW_DATE);
            assert(b.len() != KW_DATE.spec_bytes().len());
            lemma_ascii_str_bytes(KW_DATETIME);
            assert(b.len() != KW_DATETIME.spec_bytes().len());
            lemma_ascii_str_bytes(KW_DURATION_TYPE);
            assert(b.len() != KW_DURATION_TYPE.spec_bytes().len());
            lemma_ascii_str_bytes(KW_FLOAT);
            assert(b.len() != KW_FLOAT.spec_bytes().len());
            lemma_ascii_str_bytes(KW_INTEGER);
            assert(b.len() != KW_INTEGER.spec_bytes().len());
            assert(value_kind_of(b) == Some(PropertyValueKind::Period));
        }
        PropertyValueKind::RecurrenceRule => {
            reveal_strlit("BINARY");
            reveal_strlit("BOOLEAN");
            reveal_strlit("CAL-ADDRESS");
            reveal_strlit("DATE");
            reveal_strlit("DATE-TIME");
            reveal_strlit("DURATION");
            reveal_strlit("FLOAT");
            reveal_strlit("INTEGER");
            reveal_strlit("PERIOD");
            reveal_strlit("RECUR");
            lemma_ascii_str_bytes(KW_RECUR);
            lemma_ascii_str_bytes(KW_BINARY);
            assert(b.len() != KW_BINARY.spec_bytes().len());
            lemma_ascii_str_bytes(KW_BOOLEAN);
            assert(b.len() != KW_BOOLEAN.spec_bytes().len());
            lemma_ascii_str_bytes(KW_CAL_ADDRESS);
            assert(b.len() != KW_CAL_ADDRESS.spec_bytes().len());
            lemma_ascii_str_bytes(KW_DATE);
            assert(b.len() != KW_DATE.spec_bytes().len());
            lemma_ascii_str_bytes(KW_DATETIME);
            assert(b.len() != KW_DATETIME.spec_bytes().len());
            lemma_ascii_str_bytes(KW_DURATION_TYPE);
            assert(b.len() != KW_DURATION_TYPE.spec_bytes().len());
            lemma_ascii_str_bytes(KW_FLOAT);
            assert(ascii_lower(b[0]) != ascii_lower(KW_FLOAT.spec_bytes()[0]));
            lemma_ascii_str_bytes(KW_INTEGER);
            assert(b.len() != KW_INTEGER.spec_bytes().len());
            lemma_ascii_str_bytes(KW_PERIOD);
            assert(b.len() != KW_PERIOD.spec_bytes().len());
            assert(value_kind_of(b) == Some(PropertyValueKind::RecurrenceRule));
        }
        PropertyValueKind::Text => {
            reveal_strlit("BINARY");
            reveal_strlit("BOOLEAN");
            reveal_strlit("CAL-ADDRESS");
            reveal_strlit("DATE");
            reveal_strlit("DATE-TIME");
            reveal_strlit("DURATION");
            reveal_strlit("FLOAT");
            reveal_strlit("INTEGER");
            reveal_strlit("PERIOD");
            reveal_strlit("RECUR");
            reveal_strlit("TEXT");
            lemma_ascii_str_bytes(KW_TEXT);
            lemma_ascii_str_bytes(KW_BINARY);
            assert(b.len() != KW_BINARY.spec_bytes().len());
            lemma_ascii_str_bytes(KW_BOOLEAN);
            assert(b.len() != KW_BOOLEAN.spec_bytes().len());
            lemma_ascii_str_bytes(KW_CAL_ADDRESS);
            assert(b.len() != KW_CAL_ADDRESS.spec_bytes().len());
            lemma_ascii_str_bytes(KW_DATE);
            assert(ascii_lower(b[0]) != ascii_lower(KW_DATE.spec_bytes()[0]));
            lemma_ascii_str_bytes(KW_DATETIME);
            assert(b.len() != KW_DATETIME.spec_bytes().len());
            lemma_ascii_str_bytes(KW_DURATION_TYPE);
            assert(b.len() != KW_DURATION_TYPE.spec_bytes().len());
            lemma_ascii_str_bytes(KW_FLOAT);
            assert(b.len() != KW_FLOAT.spec_bytes().len());
            lemma_ascii_str_bytes(KW_INTEGER);
            assert(b.len() != KW_INTEGER.spec_bytes().len());
            lemma_ascii_str_bytes(KW_PERIOD);
            assert(b.len() != KW_PERIOD.spec_bytes().len());
            lemma_ascii_str_bytes(KW_RECUR);
            assert(b.len() != KW_RECUR.spec_bytes().len());
            assert(value_kind_of(b) == Some(PropertyValueKind::Text));
        }
        PropertyValueKind::Time => {
            reveal_strlit("BINARY");
            reveal_strlit("BOOLEAN");
            reveal_strlit("CAL-ADDRESS");
            reveal_strlit("DATE");
            reveal_strlit("DATE-TIME");
            reveal_strlit("DURATION");
            reveal_strlit("FLOAT");
            reveal_strlit("INTEGER");
            reveal_strlit("PERIOD");
            reveal_strlit("RECUR");
            reveal_strlit("TEXT");
            reveal_strlit("TIME");
            lemma_ascii_str_bytes(KW_TIME);
            lemma_ascii_str_bytes(KW_BINARY);
            assert(b.len() != KW_BINARY.spec_bytes().len());
            lemma_ascii_str_bytes(KW_BOOLEAN);
            assert(b.len() != KW_BOOLEAN.spec_bytes().len());
            lemma_ascii_str_bytes(KW_CAL_ADDRESS);
            assert(b.len() != KW_CAL_ADDRESS.spec_bytes().len());
            lemma_ascii_str_bytes(KW_DATE);
            assert(ascii_lower(b[0]) != ascii_lower(KW_DATE.spec_bytes()[0]));
            lemma_ascii_str_bytes(KW_DATETIME);
            assert(b.len() != KW_DATETIME.spec_bytes().len());
            lemma_ascii_str_bytes(KW_DURATION_TYPE);
            assert(b.len() != KW_DURATION_TYPE.spec_bytes().len());
            lemma_ascii_str_bytes(KW_FLOAT);
            assert(b.len() != KW_FLOAT.spec_bytes().len());
            lemma_ascii_str_bytes(KW_INTEGER);
            assert(b.len() != KW_INTEGER.spec_bytes().len());
            lemma_ascii_str_bytes(KW_PERIOD);
            assert(b.len() != KW_PERIOD.spec_bytes().len());
            lemma_ascii_str_bytes(KW_RECUR);
            assert(b.len() != KW_RECUR.spec_bytes().len());
            lemma_ascii_str_bytes(KW_TEXT);
            assert(ascii_lower(b[1]) != ascii_lower(KW_TEXT.spec_bytes()[1]));
            assert(value_kind_of(b) == Some(PropertyValueKind::Time));
        }
        PropertyValueKind::Uri => {
            reveal_strlit("BINARY");
            reveal_strlit("BOOLEAN");
            reveal_strlit("CAL-ADDRESS");
            reveal_strlit("DATE");
            reveal_strlit("DATE-TIME");
            reveal_strlit("DURATION");
            reveal_strlit("FLOAT");
            reveal_strlit("INTEGER");
            reveal_strlit("PERIOD");
            reveal_strlit("RECUR");
            reveal_strlit("TEXT");
            reveal_strlit("TIME");
            reveal_strlit("URI");
            lemma_ascii_str_bytes(KW_URI);
            lemma_ascii_str_bytes(KW_BINARY);
            assert(b.len() != KW_BINARY.spec_bytes().len());
            lemma_ascii_str_bytes(KW_BOOLEAN);
            assert(b.len() != KW_BOOLEAN.spec_bytes().len());
            lemma_ascii_str_bytes(KW_CAL_ADDRESS);
            assert(b.len() != KW_CAL_ADDRESS.spec_bytes().len());
            lemma_ascii_str_bytes(KW_DATE);
            assert(b.len() != KW_DATE.spec_bytes().len());
            lemma_ascii_str_bytes(KW_DATETIME);
            assert(b.len() != KW_DATETIME.spec_bytes().len());
            lemma_ascii_str_bytes(KW_DURATION_TYPE);
            assert(b.len() != KW_DURATION_TYPE.spec_bytes().len());
            lemma_ascii_str_bytes(KW_FLOAT);
            assert(b.len() != KW_FLOAT.spec_bytes().len());
            lemma_ascii_str_bytes(KW_INTEGER);
            assert(b.len() != KW_INTEGER.spec_bytes().len());
            lemma_ascii_str_bytes(KW_PERIOD);
            assert(b.len() != KW_PERIOD.spec_bytes().len());
            lemma_ascii_str_bytes(KW_RECUR);
            assert(b.len() != KW_RECUR.spec_bytes().len());
            lemma_ascii_str_bytes(KW_TEXT);
            assert(b.len() != KW_TEXT.spec_bytes().len());
            lemma_ascii_str_bytes(KW_TIME);
            assert(b.len() != KW_TIME.spec_bytes().len());
            assert(value_kind_of(b) == Some(PropertyValueKind::Uri));
        }
        PropertyValueKind::UtcOffset => {
            reveal_strlit("BINARY");
            reveal_strlit("BOOLEAN");
            reveal_strlit("CAL-ADDRESS");
            reveal_strlit("DATE");
            reveal_strlit("DATE-TIME");
            reveal_strlit("DURATION");
            reveal_strlit("FLOAT");
            reveal_strlit("INTEGER");
            reveal_strlit("PERIOD");
            reveal_strlit("RECUR");
            reveal_strlit("TEXT");
            reveal_strlit("TIME");
            reveal_strlit("URI");
            reveal_strlit("UTC-OFFSET");
            lemma_ascii_str_bytes(KW_UTC_OFFSET);
            lemma_ascii_str_bytes(KW_BINARY);
            assert(b.len() != KW_BINARY.spec_bytes().len());
            lemma_ascii_str_bytes(KW_BOOLEAN);
            assert(b.len() != KW_BOOLEAN.spec_bytes().len());
            lemma_ascii_str_bytes(KW_CAL_ADDRESS);
            assert(b.len() != KW_CAL_ADDRESS.spec_bytes().len());
            lemma_ascii_str_bytes(KW_DATE);
            assert(b.len() != KW_DATE.spec_bytes().len());
            lemma_ascii_str_bytes(KW_DATETIME);
            assert(b.len() != KW_DATETIME.spec_bytes().len());
            lemma_ascii_str_bytes(KW_DURATION_TYPE);
            assert(b.len() != KW_DURATION_TYPE.spec_bytes().len());
            lemma_ascii_str_bytes(KW_FLOAT);
            assert(b.len() != KW_FLOAT.spec_bytes().len());
            lemma_ascii_str_bytes(KW_INTEGER);
            assert(b.len() != KW_INTEGER.spec_bytes().len());
            lemma_ascii_str_bytes(KW_PERIOD);
            assert(b.len() != KW_PERIOD.spec_bytes().len());
            lemma_ascii_str_bytes(KW_RECUR);
            assert(b.len() != KW_RECUR.spec_bytes().len());
            lemma_ascii_str_bytes(KW_TEXT);
            assert(b.len() != KW_TEXT.spec_bytes().len());
            lemma_ascii_str_bytes(KW_TIME);
            assert(b.len() != KW_TIME.spec_bytes().len());
            lemma_ascii_str_bytes(KW_URI);
            assert(b.len() != KW_URI.spec_bytes().len());
            assert(value_kind_of(b) == Some(PropertyValueKind::UtcOffset));
        }
    }
}



/// Read the value type that a `VALUE` parameter names.
pub fn value_kind_from(v: &SpannedSegments<'_>) -> (r: Option<PropertyValueKind>)
    ensures
        r == value_kind_of(v.bytes()),
{
    reveal(value_kind_of);
    if v.eq_str_ignore_ascii_case(KW_BINARY) {
        Some(PropertyValueKind::Binary)
    } else if v.eq_str_ignore_ascii_case(KW_BOOLEAN) {
        Some(PropertyValueKind::Boolean)
    } else if v.eq_str_ignore_ascii_case(KW_CAL_ADDRESS) {
        Some(PropertyValueKind::CalendarUserAddress)
    } else if v.eq_str_ignore_ascii_case(KW_DATE) {
        Some(PropertyValueKind::Date)
    } else if v.eq_str_ignore_ascii_case(KW_DATETIME) {
        Some(PropertyValueKind::DateTime)
    } else if v.eq_str_ignore_ascii_case(KW_DURATION_TYPE) {
        Some(PropertyValueKind::Duration)
    } else if v.eq_str_ignore_ascii_case(KW_FLOAT) {
        Some(PropertyValueKind::Float)
    } else if v.eq_str_ignore_ascii_case(KW_INTEGER) {
        Some(PropertyValueKind::Integer)
    } else if v.eq_str_ignore_ascii_case(KW_PERIOD) {
        Some(PropertyValueKind::Period)
    } else if v.eq_str_ignore_ascii_case(KW_RECUR) {
        Some(PropertyValueKind::RecurrenceRule)
    } else if v.eq_str_ignore_ascii_case(KW_TEXT) {
        Some(PropertyValueKind::Text)
    } else if v.eq_str_ignore_ascii_case(KW_TIME) {
        Some(PropertyValueKind::Time)
    } else if v.eq_str_ignore_ascii_case(KW_URI) {
        Some(PropertyValueKind::Uri)
    } else if v.eq_str_ignore_ascii_case(KW_UTC_OFFSET) {
        Some(PropertyValueKind::UtcOffset)
    } else {
        None
    }
}

/// The boolean that an `RSVP` parameter spells, ASCII case ignored.
pub open spec fn rsvp_of(b: Seq<u8>) -> Option<bool> {
    if eq_ignore_ascii_case(b, KW_TRUE.spec_bytes()) {
        Some(true)
    } else if eq_ignore_ascii_case(b, KW_FALSE.spec_bytes()) {
        Some(false)
    } else {
        None
    }
}

/// An `RSVP` parameter types as the boolean its value spells: `TRUE` gives
/// `true`, `FALSE` gives `false` (ASCII case ignored), and any other value
/// gives no parameter.
pub proof fn lemma_rsvp_reads_its_word<'src>(v: SpannedSegments<'src>, span: Span)
    ensures
        eq_ignore_ascii_case(v.bytes(), KW_TRUE.spec_bytes()) ==> param_from_single(
            ParameterKind::RsvpExpectation,
            v,
            span,
        ) == Some(Parameter::<SpannedSegments<'src>>::RsvpExpectation { value: true, span }),
        eq_ignore_ascii_case(v.bytes(), KW_FALSE.spec_bytes()) ==> param_from_single(
            ParameterKind::RsvpExpectation,
            v,
            span,
        ) == Some(Parameter::<SpannedSegments<'src>>::RsvpExpectation { value: false, span }),
        !eq_ignore_ascii_case(v.bytes(), KW_TRUE.spec_bytes()) && !eq_ignore_ascii_case(
            v.bytes(),
            KW_FALSE.spec_bytes(),
        ) ==> param_from_single(ParameterKind::RsvpExpectation, v, span) is None,
{
    reveal(param_from_single);
    reveal(eq_ignore_ascii_case);
    reveal_strlit("TRUE");
    reveal_strlit("FALSE");
    lemma_ascii_str_bytes(KW_TRUE);
    lemma_ascii_str_bytes(KW_FALSE);
    assert(KW_TRUE.spec_bytes().len() != KW_FALSE.spec_bytes().len());
}

/// Whether a kind of parameter takes a list of values.
pub open spec fn is_list_kind(k: ParameterKind) -> bool {
    k == ParameterKind::Delegators || k == ParameterKind::Delegatees || k
        == ParameterKind::GroupOrListMembership
}

/// Whether a kind of parameter is standard and takes a single value.
pub open spec fn is_single_kind(k: ParameterKind) -> bool {
    !is_list_kind(k) && k != ParameterKind::XName && k != ParameterKind::Unrecognized
}

/// The parameter of a standard single-valued kind with this value, if the
/// value is one the kind allows.
#[verifier::opaque]
pub open spec fn param_from_single<'src>(
    k: ParameterKind,
    v: SpannedSegments<'src>,
    span: Span,
) -> Option<Parameter<SpannedSegments<'src>>> {
    match k {
        ParameterKind::AlternateText => Some(Parameter::AlternateText { value: v, span }),
        ParameterKind::CommonName => Some(Parameter::CommonName { value: v, span }),
        ParameterKind::CalendarUserType => Some(
            Parameter::CalendarUserType { value: calendar_user_type_from(v), span },
        ),
        ParameterKind::Directory => Some(Parameter::Directory { value: v, span }),
        ParameterKind::Language => Some(Parameter::Language { value: v, span }),
        ParameterKind::ParticipationStatus => Some(
            Parameter::ParticipationStatus { value: participation_status_from(v), span },
        ),
        ParameterKind::RelationshipType => Some(
            Parameter::RelationshipType { value: relationship_type_from(v), span },
        ),
        ParameterKind::ParticipationRole => Some(
            Parameter::ParticipationRole { value: participation_role_from(v), span },
        ),
        ParameterKind::RsvpExpectation => match rsvp_of(v.bytes()) {
            Some(b) => Some(Parameter::RsvpExpectation { value: b, span }),
            None => None,
        },
        ParameterKind::SendBy => Some(Parameter::SendBy { value: v, span }),
        ParameterKind::TimeZoneIdentifier => Some(Parameter::TimeZoneIdentifier { value: v, span }),
        ParameterKind::ValueType => match value_kind_of(v.bytes()) {
            Some(t) => Some(Parameter::ValueType { value: t, span }),
            None => None,
        },
        ParameterKind::AlarmTriggerRelationship => match alarm_trigger_relationship_of(v.bytes()) {
            Some(t) => Some(Parameter::AlarmTriggerRelationship { value: t, span }),
            None => None,
        },
        ParameterKind::Encoding => match encoding_of(v.bytes()) {
            Some(t) => Some(Parameter::Encoding { value: t, span }),
            None => None,
        },
        ParameterKind::FormatType => Some(Parameter::FormatType { value: v, span }),
        ParameterKind::FreeBusyType => Some(Parameter::FreeBusyType { value: free_busy_type_from(v), span }),
        _ => None,
    }
}

/// The error for a parameter that does not take several values.
pub open spec fn multiple_values_error<'src>(k: ParameterKind, span: Span) -> TypedError<'src> {
    TypedError::ParameterMultipleValuesDisallowed { parameter: k, span }
}

/// The error for a parameter value that its kind does not allow.
pub open spec fn invalid_param_value_error<'src>(
    k: ParameterKind,
    v: SpannedSegments<'src>,
    span: Span,
) -> TypedError<'src> {
    TypedError::ParameterValueInvalid { parameter: k, value: v, span }
}

/// The values of a raw parameter.
pub open spec fn raw_values<'src>(vs: Seq<RawParameterValue<SpannedSegments<'src>>>) -> Seq<
    SpannedSegments<'src>,
> {
    vs.map_values(|v: RawParameterValue<SpannedSegments<'src>>| v.value)
}


/// The values of a list parameter, in order.
fn list_values<'src>(values: Vec<RawParameterValue<SpannedSegments<'src>>>) -> (r: Vec<SpannedSegments<'src>>)
    ensures
        r@ == raw_values(values@),
{
    let ghost vs = values@;
    let mut values = values;
    let total = values.len();
    let mut list: Vec<SpannedSegments<'src>> = Vec::new();
    let mut i: usize = 0;
    while values.len() > 0
        invariant
            0 <= i <= vs.len(),
            vs.len() == total,
            values@ == vs.skip(i as int),
            list@ == raw_values(vs.take(i as int)),
        decreases values@.len(),
    {
        let v = values.remove(0);
        assert(v == vs[i as int]);
        list.push(v.value);
        assert(raw_values(vs.take(i as int + 1)) =~= raw_values(vs.take(i as int)).push(v.value));
        assert(values@ =~= vs.skip(i as int + 1));
        i = i + 1;
    }
    assert(vs.take(i as int) =~= vs);
    list
}

/// Read the one value of a standard single-valued parameter.
fn read_single<'src>(k: ParameterKind, v: SpannedSegments<'src>, span: Span) -> (r: Result<
    Parameter<SpannedSegments<'src>>,
    Vec<TypedError<'src>>,
>)
    requires
        is_single_kind(k),
    ensures
        match param_from_single(k, v, span) {
            Some(p) => r == Ok::<Parameter<SpannedSegments<'src>>, Vec<TypedError<'src>>>(p),
            None => r matches Err(es) && es@ == seq![invalid_param_value_error(k, v, span)],
        },
{
    reveal(param_from_single);
    match k {
        ParameterKind::AlternateText => Ok(Parameter::AlternateText { value: v, span }),
        ParameterKind::CommonName => Ok(Parameter::CommonName { value: v, span }),
        ParameterKind::CalendarUserType => Ok(
            Parameter::CalendarUserType { value: CalendarUserType::from_value(v), span },
        ),
        ParameterKind::Directory => Ok(Parameter::Directory { value: v, span }),
        ParameterKind::Language => Ok(Parameter::Language { value: v, span }),
        ParameterKind::ParticipationStatus => Ok(
            Parameter::ParticipationStatus { value: ParticipationStatus::from_value(v), span },
        ),
        ParameterKind::RelationshipType => Ok(
            Parameter::RelationshipType { value: RelationshipType::from_value(v), span },
        ),
        ParameterKind::ParticipationRole => Ok(
            Parameter::ParticipationRole { value: ParticipationRole::from_value(v), span },
        ),
        ParameterKind::RsvpExpectation => {
            if v.eq_str_ignore_ascii_case(KW_TRUE) {
                Ok(Parameter::RsvpExpectation { value: true, span })
            } else if v.eq_str_ignore_ascii_case(KW_FALSE) {
                Ok(Parameter::RsvpExpectation { value: false, span })
            } else {
                Err(vec![TypedError::ParameterValueInvalid { parameter: k, value: v, span }])
            }
        },
        ParameterKind::SendBy => Ok(Parameter::SendBy { value: v, span }),
        ParameterKind::TimeZoneIdentifier => Ok(Parameter::TimeZoneIdentifier { value: v, span }),
        ParameterKind::AlarmTriggerRelationship => {
            if v.eq_str_ignore_ascii_case(KW_RELATED_START) {
                Ok(Parameter::AlarmTriggerRelationship { value: AlarmTriggerRelationship::Start, span })
            } else if v.eq_str_ignore_ascii_case(KW_RELATED_END) {
                Ok(Parameter::AlarmTriggerRelationship { value: AlarmTriggerRelationship::End, span })
            } else {
                Err(vec![TypedError::ParameterValueInvalid { parameter: k, value: v, span }])
            }
        },
        ParameterKind::Encoding => {
            if v.eq_str_ignore_ascii_case(KW_ENCODING_8BIT) {
                Ok(Parameter::Encoding { value: Encoding::EightBit, span })
            } else if v.eq_str_ignore_ascii_case(KW_ENCODING_BASE64) {
                Ok(Parameter::Encoding { value: Encoding::Base64, span })
            } else {
                Err(vec![TypedError::ParameterValueInvalid { parameter: k, value: v, span }])
            }
        },
        ParameterKind::FormatType => Ok(Parameter::FormatType { value: v, span }),
        ParameterKind::FreeBusyType => Ok(Parameter::FreeBusyType { value: FreeBusyType::from_value(v), span }),
        _ => {
            match value_kind_from(&v) {
                Some(t) => Ok(Parameter::ValueType { value: t, span }),
                None => Err(vec![TypedError::ParameterValueInvalid { parameter: k, value: v, span }]),
            }
        },
    }
}

/// What typing a raw parameter gives: an experimental or unrecognized
/// parameter kept as written; a list parameter with its values; a
/// single-valued one with its one value read, or the error for several
/// values or for a value its kind does not allow.
pub open spec fn param_read<'src>(
    raw: RawParameter<SpannedSegments<'src>>,
    r: Result<Parameter<SpannedSegments<'src>>, Vec<TypedError<'src>>>,
) -> bool {
    let k = param_kind_of_name(raw.name.bytes());
    if k == ParameterKind::XName {
        r == Ok::<Parameter<SpannedSegments<'src>>, Vec<TypedError<'src>>>(Parameter::XName(raw))
    } else if k == ParameterKind::Unrecognized {
        r == Ok::<Parameter<SpannedSegments<'src>>, Vec<TypedError<'src>>>(Parameter::Unrecognized(raw))
    } else if is_list_kind(k) {
        r matches Ok(p) && param_kind(p) == k && param_span(p) == raw.span && (list_value(Some(p)) matches Some(
            vs,
        ) && vs@ == raw_values(raw.values@))
    } else if raw.values@.len() != 1 {
        r matches Err(es) && es@ == seq![multiple_values_error(k, raw.span)]
    } else {
        match param_from_single(k, raw.values@[0].value, raw.span) {
            Some(p) => r == Ok::<Parameter<SpannedSegments<'src>>, Vec<TypedError<'src>>>(p),
            None => r matches Err(es) && es@ == seq![
                invalid_param_value_error(k, raw.values@[0].value, raw.span),
            ],
        }
    }
}

impl<'src> Parameter<SpannedSegments<'src>> {
    /// Type a raw parameter by its name (ASCII case ignored): a standard
    /// parameter with its value read, an experimental (`X-`) one, or an
    /// unrecognized one, both kept as written. A standard single-valued
    /// parameter with several values, or with a value its kind does not
    /// allow, is an error.
    pub fn try_from(raw: RawParameter<SpannedSegments<'src>>) -> (r: Result<Self, Vec<TypedError<'src>>>)
        ensures
            param_read(raw, r),
    {
        let k = param_kind_from_name(&raw.name);
        match k {
            ParameterKind::XName => return Ok(Parameter::XName(raw)),
            ParameterKind::Unrecognized => return Ok(Parameter::Unrecognized(raw)),
            _ => {},
        }
        let span = raw.span;
        let mut values = raw.values;
        let ghost vs = values@;
        if k == ParameterKind::Delegators || k == ParameterKind::Delegatees || k
            == ParameterKind::GroupOrListMembership {
            let list = list_values(values);
            return Ok(
                if k == ParameterKind::Delegators {
                    Parameter::Delegators { values: list, span }
                } else if k == ParameterKind::Delegatees {
                    Parameter::Delegatees { values: list, span }
                } else {
                    Parameter::GroupOrListMembership { values: list, span }
                },
            );
        }
        if values.len() != 1 {
            let es = vec![TypedError::ParameterMultipleValuesDisallowed { parameter: k, span }];
            assert(es@ == seq![multiple_values_error(k, raw.span)]);
            assert(!is_list_kind(k));
            assert(raw.values@.len() != 1);
            return Err(es);
        }
        let v = values.pop().unwrap().value;
        read_single(k, v, span)
    }
}

} // verus!
