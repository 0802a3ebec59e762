//! Typed property values (RFC 5545 Section 3.3).

use vstd::prelude::*;
use vstd::string::StringSliceAdditionalSpecFns;

use crate::property::PropertyValueKind;
use crate::string_storage::{Span, SpannedSegments, StringStorage, eq_ignore_ascii_case};

verus! {

/// A text value (RFC 5545 Section 3.3.11).
#[derive(Debug)]
pub struct ValueText<S: StringStorage> {
    /// The text as written in the property value
    pub value: S,
}

impl ValueText<String> {
    /// A text value with the given content.
    pub fn new(value: String) -> (r: Self)
        ensures
            r.value@ == value@,
    {
        ValueText { value }
    }
}

impl<'src> ValueText<SpannedSegments<'src>> {
    /// Convert borrowed type to owned type
    pub fn to_owned(&self) -> (r: ValueText<String>)
        ensures
            r.value@ == self.value@,
    {
        ValueText { value: self.value.to_owned() }
    }

    /// Whether the text equals `other`, ignoring ASCII case.
    pub fn eq_str_ignore_ascii_case(&self, other: &str) -> (r: bool)
        ensures
            r == eq_ignore_ascii_case(self.value.bytes(), other.spec_bytes()),
    {
        self.value.eq_str_ignore_ascii_case(other)
    }
}

/// A duration (RFC 5545 Section 3.3.6).
#[derive(Debug, Clone, Copy, PartialEq, Eq)]
pub enum ValueDuration {
    /// A duration in days, hours, minutes and seconds
    DateTime {
        /// Whether the duration is positive
        positive: bool,
        /// Days
        day: u32,
        /// Hours
        hour: u32,
        /// Minutes
        minute: u32,
        /// Seconds
        second: u32,
    },
    /// A duration in weeks
    Week {
        /// Whether the duration is positive
        positive: bool,
        /// Weeks
        week: u32,
    },
}

/// An offset from UTC (RFC 5545 Section 3.3.14).
#[derive(Debug, Clone, Copy, PartialEq, Eq)]
pub struct ValueUtcOffset {
    /// Whether the offset is east of UTC (or zero)
    pub positive: bool,
    /// Hours
    pub hour: u8,
    /// Minutes
    pub minute: u8,
    /// Seconds
    pub second: u8,
}

/// A calendar date (RFC 5545 Section 3.3.4).
#[derive(Debug, Clone, Copy, PartialEq, Eq)]
pub struct ValueDate {
    /// Year
    pub year: i16,
    /// Month (1-12)
    pub month: i8,
    /// Day of the month (1-31)
    pub day: i8,
}

/// A time of day (RFC 5545 Section 3.3.12).
#[derive(Debug, Clone, Copy, PartialEq, Eq)]
pub struct ValueTime {
    /// Hour (0-23)
    pub hour: i8,
    /// Minute (0-59)
    pub minute: i8,
    /// Second (0-60, where 60 is a leap second)
    pub second: i8,
    /// Whether the time is in UTC (`Z` suffix)
    pub utc: bool,
}

/// A date with a time of day (RFC 5545 Section 3.3.5).
#[derive(Debug, Clone, Copy, PartialEq, Eq)]
pub struct ValueDateTime {
    /// The date
    pub date: ValueDate,
    /// The time of day
    pub time: ValueTime,
}

/// A period of time (RFC 5545 Section 3.3.9): a start with an end or a
/// duration.
#[derive(Debug, Clone, Copy, PartialEq, Eq)]
pub enum ValuePeriod {
    /// A start and an end
    Explicit {
        /// The start
        start: ValueDateTime,
        /// The end
        end: ValueDateTime,
    },
    /// A start and a duration
    Duration {
        /// The start
        start: ValueDateTime,
        /// The duration
        duration: ValueDuration,
    },
}

/// A typed property value. A property that allows a list of values holds
/// them all; the others hold one.
#[derive(Debug)]
pub enum Value<S: StringStorage> {
    /// Inline binary data (RFC 5545 Section 3.3.1)
    Binary {
        /// The encoded data
        value: S,
        /// The span of the value
        span: S::Span,
    },
    /// `TRUE` or `FALSE` (RFC 5545 Section 3.3.2)
    Boolean {
        /// The value
        value: bool,
        /// The span of the value
        span: S::Span,
    },
    /// A calendar user address (RFC 5545 Section 3.3.3)
    CalAddress {
        /// The address URI
        value: S,
        /// The span of the value
        span: S::Span,
    },
    /// Dates (RFC 5545 Section 3.3.4)
    Date {
        /// The dates
        values: Vec<ValueDate>,
        /// The span of the value
        span: S::Span,
    },
    /// Dates with times (RFC 5545 Section 3.3.5)
    DateTime {
        /// The date-times
        values: Vec<ValueDateTime>,
        /// The span of the value
        span: S::Span,
    },
    /// Durations (RFC 5545 Section 3.3.6)
    Duration {
        /// The durations
        values: Vec<ValueDuration>,
        /// The span of the value
        span: S::Span,
    },
    /// Floating-point numbers (RFC 5545 Section 3.3.7), each kept as the
    /// bytes that spell it; their binary floating-point values are not read
    Float {
        /// The bytes of each number
        values: Vec<Vec<u8>>,
        /// The span of the value
        span: S::Span,
    },
    /// Periods of time (RFC 5545 Section 3.3.9)
    Period {
        /// The periods
        values: Vec<ValuePeriod>,
        /// The span of the value
        span: S::Span,
    },
    /// Integers (RFC 5545 Section 3.3.8)
    Integer {
        /// The integers
        values: Vec<i32>,
        /// The span of the value
        span: S::Span,
    },
    /// Texts (RFC 5545 Section 3.3.11)
    Text {
        /// The texts
        values: Vec<ValueText<S>>,
        /// The span of the value
        span: S::Span,
    },
    /// Times of day (RFC 5545 Section 3.3.12)
    Time {
        /// The times
        values: Vec<ValueTime>,
        /// The span of the value
        span: S::Span,
    },
    /// A URI (RFC 5545 Section 3.3.13)
    Uri {
        /// The URI
        value: S,
        /// The span of the value
        span: S::Span,
    },
    /// An offset from UTC (RFC 5545 Section 3.3.14)
    UtcOffset {
        /// The offset
        value: ValueUtcOffset,
        /// The span of the value
        span: S::Span,
    },
}

/// The number of values a value holds.
pub open spec fn value_len<S: StringStorage>(v: Value<S>) -> nat {
    match v {
        Value::Date { values, .. } => values@.len(),
        Value::DateTime { values, .. } => values@.len(),
        Value::Duration { values, .. } => values@.len(),
        Value::Integer { values, .. } => values@.len(),
        Value::Float { values, .. } => values@.len(),
        Value::Period { values, .. } => values@.len(),
        Value::Text { values, .. } => values@.len(),
        Value::Time { values, .. } => values@.len(),
        _ => 1,
    }
}

/// The value type of a value.
pub open spec fn value_kind<S: StringStorage>(v: Value<S>) -> PropertyValueKind {
    match v {
        Value::Binary { .. } => PropertyValueKind::Binary,
        Value::Boolean { .. } => PropertyValueKind::Boolean,
        Value::CalAddress { .. } => PropertyValueKind::CalendarUserAddress,
        Value::Date { .. } => PropertyValueKind::Date,
        Value::DateTime { .. } => PropertyValueKind::DateTime,
        Value::Duration { .. } => PropertyValueKind::Duration,
        Value::Integer { .. } => PropertyValueKind::Integer,
        Value::Float { .. } => PropertyValueKind::Float,
        Value::Period { .. } => PropertyValueKind::Period,
        Value::Text { .. } => PropertyValueKind::Text,
        Value::Time { .. } => PropertyValueKind::Time,
        Value::Uri { .. } => PropertyValueKind::Uri,
        Value::UtcOffset { .. } => PropertyValueKind::UtcOffset,
    }
}

/// The span of a value in the source.
pub open spec fn value_span<'src>(v: Value<SpannedSegments<'src>>) -> Span {
    match v {
        Value::Binary { span, .. } => span,
        Value::Boolean { span, .. } => span,
        Value::CalAddress { span, .. } => span,
        Value::Date { span, .. } => span,
        Value::DateTime { span, .. } => span,
        Value::Duration { span, .. } => span,
        Value::Integer { span, .. } => span,
        Value::Float { span, .. } => span,
        Value::Period { span, .. } => span,
        Value::Text { span, .. } => span,
        Value::Time { span, .. } => span,
        Value::Uri { span, .. } => span,
        Value::UtcOffset { span, .. } => span,
    }
}

impl<S: StringStorage> Value<S> {
    /// The number of values held.
    pub fn len(&self) -> (r: usize)
        ensures
            r == value_len(*self),
    {
        match self {
            Value::Date { values, .. } => values.len(),
            Value::DateTime { values, .. } => values.len(),
            Value::Duration { values, .. } => values.len(),
            Value::Integer { values, .. } => values.len(),
            Value::Float { values, .. } => values.len(),
            Value::Period { values, .. } => values.len(),
            Value::Text { values, .. } => values.len(),
            Value::Time { values, .. } => values.len(),
            _ => 1,
        }
    }

    /// The value type.
    pub fn kind(&self) -> (r: PropertyValueKind)
        ensures
            r == value_kind(*self),
    {
        match self {
            Value::Binary { .. } => PropertyValueKind::Binary,
            Value::Boolean { .. } => PropertyValueKind::Boolean,
            Value::CalAddress { .. } => PropertyValueKind::CalendarUserAddress,
            Value::Date { .. } => PropertyValueKind::Date,
            Value::DateTime { .. } => PropertyValueKind::DateTime,
            Value::Duration { .. } => PropertyValueKind::Duration,
            Value::Integer { .. } => PropertyValueKind::Integer,
            Value::Float { .. } => PropertyValueKind::Float,
            Value::Period { .. } => PropertyValueKind::Period,
            Value::Text { .. } => PropertyValueKind::Text,
            Value::Time { .. } => PropertyValueKind::Time,
            Value::Uri { .. } => PropertyValueKind::Uri,
            Value::UtcOffset { .. } => PropertyValueKind::UtcOffset,
        }
    }
}

impl<'src> Value<SpannedSegments<'src>> {
    /// The span of the value in the source.
    pub fn span(&self) -> (r: Span)
        ensures
            r == value_span(*self),
    {
        match self {
            Value::Binary { span, .. } => *span,
            Value::Boolean { span, .. } => *span,
            Value::CalAddress { span, .. } => *span,
            Value::Date { span, .. } => *span,
            Value::DateTime { span, .. } => *span,
            Value::Duration { span, .. } => *span,
            Value::Integer { span, .. } => *span,
            Value::Float { span, .. } => *span,
            Value::Period { span, .. } => *span,
            Value::Text { span, .. } => *span,
            Value::Time { span, .. } => *span,
            Value::Uri { span, .. } => *span,
            Value::UtcOffset { span, .. } => *span,
        }
    }
}

} // verus!
