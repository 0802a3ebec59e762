//! Strongly-typed structures that give the semantic meaning of iCalendar
//! data: the errors of semantic analysis, and the component-specific status
//! values of events, to-dos and journal entries.

pub mod collect;
pub mod fields;
pub mod icalendar;
pub mod observance;
pub mod property_util;
pub mod valarm;
pub mod vfreebusy;
pub mod vevent;
pub mod vjournal;
pub mod vtimezone;
pub mod tz_validator;
pub mod vtodo;

pub use icalendar::{CalendarComponent, ICalendar, UnrecognizedComponent, XComponent, semantic_analysis};
pub use observance::TimeZoneObservance;
pub use valarm::VAlarm;
pub use vevent::VEvent;
pub use vfreebusy::VFreeBusy;
pub use vjournal::VJournal;
pub use vtimezone::VTimeZone;
pub use vtodo::VTodo;

use vstd::prelude::*;
use vstd::string::StringExecFns;

use crate::parameter::Parameter;
use crate::property::common::{params_agree, params_to_owned, raw_params_agree, raw_params_to_owned};
use crate::property::descriptive::{Status, StatusValue, status_value_keyword};
use crate::property::{PropertyKind, PropertyKindRef};
use crate::string_storage::{Span, SpannedSegments, StringStorage};
use crate::syntax::RawParameter;

verus! {

/// Error type for parsing operations
#[derive(Debug)]
pub enum SemanticError<'src> {
    /// Unknown component type
    UnknownComponent {
        /// The unknown component name
        component: String,
        /// The span of the error
        span: Span,
    },
    /// Expected a different component type
    ExpectedComponent {
        /// The expected component name
        expected: &'src str,
        /// The actual component name that was found
        got: SpannedSegments<'src>,
        /// The span of the error
        span: Span,
    },
    /// Duplicate property
    DuplicateProperty {
        /// The property that is duplicated
        property: PropertyKindRef<'src>,
        /// The span of the error
        span: Span,
    },
    /// Missing required property
    MissingProperty {
        /// The property that is missing
        property: PropertyKindRef<'src>,
        /// The span of the error
        span: Span,
    },
    /// Invalid property value
    InvalidValue {
        /// The property that has the invalid value
        property: PropertyKindRef<'src>,
        /// The invalid value description
        value: String,
        /// The span of the error
        span: Span,
    },
    /// Business rule constraint violation
    ConstraintViolation {
        /// Error message describing the constraint violation
        message: String,
        /// The span of the error
        span: Span,
    },
    /// Timezone identifier not found in VTIMEZONE components or local database
    TimezoneNotFound {
        /// The timezone identifier that was not found (owned)
        tzid: String,
        /// The span of the error
        span: Span,
    },
}

/// The span of a semantic error.
pub open spec fn semantic_error_span<'src>(e: SemanticError<'src>) -> Span {
    match e {
        SemanticError::UnknownComponent { span, .. } => span,
        SemanticError::ExpectedComponent { span, .. } => span,
        SemanticError::DuplicateProperty { span, .. } => span,
        SemanticError::MissingProperty { span, .. } => span,
        SemanticError::InvalidValue { span, .. } => span,
        SemanticError::ConstraintViolation { span, .. } => span,
        SemanticError::TimezoneNotFound { span, .. } => span,
    }
}

impl<'src> SemanticError<'src> {
    /// Get the span of this error.
    pub fn span(&self) -> (r: Span)
        ensures
            r == semantic_error_span(*self),
    {
        match self {
            SemanticError::UnknownComponent { span, .. } => *span,
            SemanticError::ExpectedComponent { span, .. } => *span,
            SemanticError::DuplicateProperty { span, .. } => *span,
            SemanticError::MissingProperty { span, .. } => *span,
            SemanticError::InvalidValue { span, .. } => *span,
            SemanticError::ConstraintViolation { span, .. } => *span,
            SemanticError::TimezoneNotFound { span, .. } => *span,
        }
    }
}

/// The error for a status value that a component does not allow.
pub open spec fn invalid_status_error<'src>(e: SemanticError<'src>, message: Seq<char>, span: Span) -> bool {
    e matches SemanticError::InvalidValue { property, value, span: s } && property is Status
        && value@ == message && s == span
}

/// Event status value (RFC 5545 Section 3.8.1.11)
#[derive(Debug, Clone, Copy, PartialEq, Eq)]
pub enum EventStatusValue {
    /// Event is tentative
    Tentative,
    /// Event is confirmed
    Confirmed,
    /// Event is cancelled
    Cancelled,
}

/// The `EventStatusValue` of a status value, if the component allows it.
pub open spec fn event_status_value_of(v: StatusValue) -> Option<EventStatusValue> {
    match v {
        StatusValue::Tentative => Some(EventStatusValue::Tentative),
        StatusValue::Confirmed => Some(EventStatusValue::Confirmed),
        StatusValue::Cancelled => Some(EventStatusValue::Cancelled),
        _ => None,
    }
}

/// The status value of a `EventStatusValue`.
pub open spec fn event_status_value_status(v: EventStatusValue) -> StatusValue {
    match v {
        EventStatusValue::Tentative => StatusValue::Tentative,
        EventStatusValue::Confirmed => StatusValue::Confirmed,
        EventStatusValue::Cancelled => StatusValue::Cancelled,
    }
}

impl EventStatusValue {
    /// The value for a status value, if the component allows it.
    pub fn from_status(v: StatusValue) -> (r: Option<EventStatusValue>)
        ensures
            r == event_status_value_of(v),
    {
        match v {
            StatusValue::Tentative => Some(EventStatusValue::Tentative),
            StatusValue::Confirmed => Some(EventStatusValue::Confirmed),
            StatusValue::Cancelled => Some(EventStatusValue::Cancelled),
            _ => None,
        }
    }

    /// The status value of this value.
    pub fn status(&self) -> (r: StatusValue)
        ensures
            r == event_status_value_status(*self),
    {
        match self {
            EventStatusValue::Tentative => StatusValue::Tentative,
            EventStatusValue::Confirmed => StatusValue::Confirmed,
            EventStatusValue::Cancelled => StatusValue::Cancelled,
        }
    }
}

/// Event status (RFC 5545 Section 3.8.1.11)
#[derive(Debug)]
pub struct EventStatus<S: StringStorage> {
    /// Status value
    pub value: EventStatusValue,
    /// Custom X- parameters (preserved for round-trip)
    pub x_parameters: Vec<RawParameter<S>>,
    /// Unknown IANA parameters (preserved for round-trip)
    pub retained_parameters: Vec<Parameter<S>>,
}

impl<'src> EventStatus<SpannedSegments<'src>> {
    /// Narrow a `STATUS` property to the values a event allows; another
    /// value is an invalid value.
    pub fn try_from(property: Status<SpannedSegments<'src>>) -> (r: Result<Self, SemanticError<'src>>)
        ensures
            (r is Ok) == (event_status_value_of(property.value) is Some),
            r matches Ok(s) ==> Some(s.value) == event_status_value_of(property.value) && s.x_parameters
                == property.x_parameters && s.retained_parameters == property.retained_parameters,
            r matches Err(e) ==> invalid_status_error(
                e,
                "Invalid event status value: "@ + status_value_keyword(property.value)@,
                property.span,
            ),
    {
        match EventStatusValue::from_status(property.value) {
            Some(value) => Ok(EventStatus {
                value,
                x_parameters: property.x_parameters,
                retained_parameters: property.retained_parameters,
            }),
            None => {
                let mut message = "Invalid event status value: ".to_owned();
                message.append(property.value.as_str());
                Err(SemanticError::InvalidValue { property: PropertyKind::Status, value: message, span: property.span })
            },
        }
    }

    /// Convert borrowed data to owned data
    pub fn to_owned(&self) -> (r: EventStatus<String>)
        ensures
            r.value == self.value,
            raw_params_agree(r.x_parameters@, self.x_parameters@),
            params_agree(r.retained_parameters@, self.retained_parameters@),
    {
        EventStatus {
            value: self.value,
            x_parameters: raw_params_to_owned(&self.x_parameters),
            retained_parameters: params_to_owned(&self.retained_parameters),
        }
    }
}

impl EventStatus<String> {
    /// Create a new `EventStatus<String>` from a status value, with no parameters.
    pub fn new(value: EventStatusValue) -> (r: Self)
        ensures
            r.value == value,
            r.x_parameters@.len() == 0,
            r.retained_parameters@.len() == 0,
    {
        EventStatus { value, x_parameters: Vec::new(), retained_parameters: Vec::new() }
    }
}

/// To-do status value (RFC 5545 Section 3.8.1.11)
#[derive(Debug, Clone, Copy, PartialEq, Eq)]
pub enum TodoStatusValue {
    /// To-do needs action
    NeedsAction,
    /// To-do is completed
    Completed,
    /// To-do is in process
    InProcess,
    /// To-do is cancelled
    Cancelled,
}

/// The `TodoStatusValue` of a status value, if the component allows it.
pub open spec fn todo_status_value_of(v: StatusValue) -> Option<TodoStatusValue> {
    match v {
        StatusValue::NeedsAction => Some(TodoStatusValue::NeedsAction),
        StatusValue::Completed => Some(TodoStatusValue::Completed),
        StatusValue::InProcess => Some(TodoStatusValue::InProcess),
        StatusValue::Cancelled => Some(TodoStatusValue::Cancelled),
        _ => None,
    }
}

/// The status value of a `TodoStatusValue`.
pub open spec fn todo_status_value_status(v: TodoStatusValue) -> StatusValue {
    match v {
        TodoStatusValue::NeedsAction => StatusValue::NeedsAction,
        TodoStatusValue::Completed => StatusValue::Completed,
        TodoStatusValue::InProcess => StatusValue::InProcess,
        TodoStatusValue::Cancelled => StatusValue::Cancelled,
    }
}

impl TodoStatusValue {
    /// The value for a status value, if the component allows it.
    pub fn from_status(v: StatusValue) -> (r: Option<TodoStatusValue>)
        ensures
            r == todo_status_value_of(v),
    {
        match v {
            StatusValue::NeedsAction => Some(TodoStatusValue::NeedsAction),
            StatusValue::Completed => Some(TodoStatusValue::Completed),
            StatusValue::InProcess => Some(TodoStatusValue::InProcess),
            StatusValue::Cancelled => Some(TodoStatusValue::Cancelled),
            _ => None,
        }
    }

    /// The status value of this value.
    pub fn status(&self) -> (r: StatusValue)
        ensures
            r == todo_status_value_status(*self),
    {
        match self {
            TodoStatusValue::NeedsAction => StatusValue::NeedsAction,
            TodoStatusValue::Completed => StatusValue::Completed,
            TodoStatusValue::InProcess => StatusValue::InProcess,
            TodoStatusValue::Cancelled => StatusValue::Cancelled,
        }
    }
}

/// To-do status (RFC 5545 Section 3.8.1.11)
#[derive(Debug)]
pub struct TodoStatus<S: StringStorage> {
    /// Status value
    pub value: TodoStatusValue,
    /// Custom X- parameters (preserved for round-trip)
    pub x_parameters: Vec<RawParameter<S>>,
    /// Unknown IANA parameters (preserved for round-trip)
    pub retained_parameters: Vec<Parameter<S>>,
}

impl<'src> TodoStatus<SpannedSegments<'src>> {
    /// Narrow a `STATUS` property to the values a todo allows; another
    /// value is an invalid value.
    pub fn try_from(property: Status<SpannedSegments<'src>>) -> (r: Result<Self, SemanticError<'src>>)
        ensures
            (r is Ok) == (todo_status_value_of(property.value) is Some),
            r matches Ok(s) ==> Some(s.value) == todo_status_value_of(property.value) && s.x_parameters
                == property.x_parameters && s.retained_parameters == property.retained_parameters,
            r matches Err(e) ==> invalid_status_error(
                e,
                "Invalid todo status value: "@ + status_value_keyword(property.value)@,
                property.span,
            ),
    {
        match TodoStatusValue::from_status(property.value) {
            Some(value) => Ok(TodoStatus {
                value,
                x_parameters: property.x_parameters,
                retained_parameters: property.retained_parameters,
            }),
            None => {
                let mut message = "Invalid todo status value: ".to_owned();
                message.append(property.value.as_str());
                Err(SemanticError::InvalidValue { property: PropertyKind::Status, value: message, span: property.span })
            },
        }
    }

    /// Convert borrowed data to owned data
    pub fn to_owned(&self) -> (r: TodoStatus<String>)
        ensures
            r.value == self.value,
            raw_params_agree(r.x_parameters@, self.x_parameters@),
            params_agree(r.retained_parameters@, self.retained_parameters@),
    {
        TodoStatus {
            value: self.value,
            x_parameters: raw_params_to_owned(&self.x_parameters),
            retained_parameters: params_to_owned(&self.retained_parameters),
        }
    }
}

impl TodoStatus<String> {
    /// Create a new `TodoStatus<String>` from a status value, with no parameters.
    pub fn new(value: TodoStatusValue) -> (r: Self)
        ensures
            r.value == value,
            r.x_parameters@.len() == 0,
            r.retained_parameters@.len() == 0,
    {
        TodoStatus { value, x_parameters: Vec::new(), retained_parameters: Vec::new() }
    }
}

/// Journal status value (RFC 5545 Section 3.8.1.11)
#[derive(Debug, Clone, Copy, PartialEq, Eq)]
pub enum JournalStatusValue {
    /// Journal entry is draft
    Draft,
    /// Journal entry is final
    Final,
    /// Journal entry is cancelled
    Cancelled,
}

/// The `JournalStatusValue` of a status value, if the component allows it.
pub open spec fn journal_status_value_of(v: StatusValue) -> Option<JournalStatusValue> {
    match v {
        StatusValue::Draft => Some(JournalStatusValue::Draft),
        StatusValue::Final => Some(JournalStatusValue::Final),
        StatusValue::Cancelled => Some(JournalStatusValue::Cancelled),
        _ => None,
    }
}

/// The status value of a `JournalStatusValue`.
pub open spec fn journal_status_value_status(v: JournalStatusValue) -> StatusValue {
    match v {
        JournalStatusValue::Draft => StatusValue::Draft,
        JournalStatusValue::Final => StatusValue::Final,
        JournalStatusValue::Cancelled => StatusValue::Cancelled,
    }
}

impl JournalStatusValue {
    /// The value for a status value, if the component allows it.
    pub fn from_status(v: StatusValue) -> (r: Option<JournalStatusValue>)
        ensures
            r == journal_status_value_of(v),
    {
        match v {
            StatusValue::Draft => Some(JournalStatusValue::Draft),
            StatusValue::Final => Some(JournalStatusValue::Final),
            StatusValue::Cancelled => Some(JournalStatusValue::Cancelled),
            _ => None,
        }
    }

    /// The status value of this value.
    pub fn status(&self) -> (r: StatusValue)
        ensures
            r == journal_status_value_status(*self),
    {
        match self {
            JournalStatusValue::Draft => StatusValue::Draft,
            JournalStatusValue::Final => StatusValue::Final,
            JournalStatusValue::Cancelled => StatusValue::Cancelled,
        }
    }
}

/// Journal status (RFC 5545 Section 3.8.1.11)
#[derive(Debug)]
pub struct JournalStatus<S: StringStorage> {
    /// Status value
    pub value: JournalStatusValue,
    /// Custom X- parameters (preserved for round-trip)
    pub x_parameters: Vec<RawParameter<S>>,
    /// Unknown IANA parameters (preserved for round-trip)
    pub retained_parameters: Vec<Parameter<S>>,
}

impl<'src> JournalStatus<SpannedSegments<'src>> {
    /// Narrow a `STATUS` property to the values a journal allows; another
    /// value is an invalid value.
    pub fn try_from(property: Status<SpannedSegments<'src>>) -> (r: Result<Self, SemanticError<'src>>)
        ensures
            (r is Ok) == (journal_status_value_of(property.value) is Some),
            r matches Ok(s) ==> Some(s.value) == journal_status_value_of(property.value) && s.x_parameters
                == property.x_parameters && s.retained_parameters == property.retained_parameters,
            r matches Err(e) ==> invalid_status_error(
                e,
                "Invalid journal status value: "@ + status_value_keyword(property.value)@,
                property.span,
            ),
    {
        match JournalStatusValue::from_status(property.value) {
            Some(value) => Ok(JournalStatus {
                value,
                x_parameters: property.x_parameters,
                retained_parameters: property.retained_parameters,
            }),
            None => {
                let mut message = "Invalid journal status value: ".to_owned();
                message.append(property.value.as_str());
                Err(SemanticError::InvalidValue { property: PropertyKind::Status, value: message, span: property.span })
            },
        }
    }

    /// Convert borrowed data to owned data
    pub fn to_owned(&self) -> (r: JournalStatus<String>)
        ensures
            r.value == self.value,
            raw_params_agree(r.x_parameters@, self.x_parameters@),
            params_agree(r.retained_parameters@, self.retained_parameters@),
    {
        JournalStatus {
            value: self.value,
            x_parameters: raw_params_to_owned(&self.x_parameters),
            retained_parameters: params_to_owned(&self.retained_parameters),
        }
    }
}

impl JournalStatus<String> {
    /// Create a new `JournalStatus<String>` from a status value, with no parameters.
    pub fn new(value: JournalStatusValue) -> (r: Self)
        ensures
            r.value == value,
            r.x_parameters@.len() == 0,
            r.retained_parameters@.len() == 0,
    {
        JournalStatus { value, x_parameters: Vec::new(), retained_parameters: Vec::new() }
    }
}

/// Type alias for `JournalStatus` with borrowed data
pub type JournalStatusRef<'src> = JournalStatus<SpannedSegments<'src>>;

/// Type alias for `JournalStatus` with owned data
pub type JournalStatusOwned = JournalStatus<String>;

} // verus!
