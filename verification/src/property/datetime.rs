//! Date and Time Component Properties (RFC 5545 Section 3.8.2)
//!
//! - 3.8.2.5: `Duration` - Duration of time
//! - 3.8.2.7: `TimeTransparency` - Whether an event blocks time

use vstd::prelude::*;
use vstd::string::StringSliceAdditionalSpecFns;
use vstd::string::StringExecFns;

use crate::keyword::{KW_TRANSP_OPAQUE, KW_TRANSP_TRANSPARENT};
use crate::parameter::{FreeBusyType, Parameter, ParameterKind, free_busy_type_agrees, param_kind};
use crate::property::alarm::invalid_value_error;
use crate::property::common::expect_one;
use crate::property::common::{
    dup_errors, first_param, no_claims, params_agree, params_to_owned, raw_params_agree, raw_params_to_owned, text_value,
    retained_params, single_text, single_value_errors, sort_parameters, take_single_text, x_params,
};
use crate::property::relationship::unexpected_kind;
use crate::property::{PropertyKind, PropertyValueKind};
use crate::string_storage::{Span, SpannedSegments, StringStorage, ascii_lower, eq_ignore_ascii_case, lemma_ascii_str_bytes};
use crate::syntax::RawParameter;
use crate::typed::{ParsedProperty, TypedError};
use crate::property::PropertyKindRef;
use crate::property::common::{invalid_count_error, last_param, lemma_first_param_kind, opt_agrees, opt_to_owned, next_slot, take_single_value, take_text};
use crate::value::{Value, ValueDate, ValueDateTime, ValueDuration, ValuePeriod, ValueTime, value_kind, value_len, value_span};

verus! {

/// Time transparency value (RFC 5545 Section 3.8.2.7)
#[derive(Debug, Clone, Copy, PartialEq, Eq)]
pub enum TimeTransparencyValue {
    /// Event blocks time
    Opaque,
    /// Event does not block time
    Transparent,
}

/// The `TimeTransparencyValue` that a text spells, ASCII case ignored.
pub open spec fn time_transparency_value_of(b: Seq<u8>) -> Option<TimeTransparencyValue> {
    if eq_ignore_ascii_case(b, KW_TRANSP_OPAQUE.spec_bytes()) {
        Some(TimeTransparencyValue::Opaque)
    } else if eq_ignore_ascii_case(b, KW_TRANSP_TRANSPARENT.spec_bytes()) {
        Some(TimeTransparencyValue::Transparent)
    } else {
        None
    }
}

/// Reading the keyword of a time transparency gives it back: `from_text` undoes
/// `as_str` on every `TimeTransparencyValue`.
pub proof fn lemma_time_transparency_value_round_trip(v: TimeTransparencyValue)
    ensures
        time_transparency_value_of(time_transparency_value_keyword(v).spec_bytes()) == Some(v),
{
    reveal(eq_ignore_ascii_case);
    let b = time_transparency_value_keyword(v).spec_bytes();
    assert(eq_ignore_ascii_case(b, b));
    match v {
        TimeTransparencyValue::Opaque => {
            reveal_strlit("OPAQUE");
            lemma_ascii_str_bytes(KW_TRANSP_OPAQUE);
            assert(time_transparency_value_of(b) == Some(TimeTransparencyValue::Opaque));
        }
        TimeTransparencyValue::Transparent => {
            reveal_strlit("OPAQUE");
            reveal_strlit("TRANSPARENT");
            lemma_ascii_str_bytes(KW_TRANSP_TRANSPARENT);
            lemma_ascii_str_bytes(KW_TRANSP_OPAQUE);
            assert(b.len() != KW_TRANSP_OPAQUE.spec_bytes().len());
            assert(time_transparency_value_of(b) == Some(TimeTransparencyValue::Transparent));
        }
    }
}



/// The keyword of a `TimeTransparencyValue`.
pub open spec fn time_transparency_value_keyword(v: TimeTransparencyValue) -> &'static str {
    match v {
        TimeTransparencyValue::Opaque => KW_TRANSP_OPAQUE,
        TimeTransparencyValue::Transparent => KW_TRANSP_TRANSPARENT,
    }
}

impl TimeTransparencyValue {
    /// The value that a text spells, ASCII case ignored.
    pub fn from_text(text: &SpannedSegments<'_>) -> (r: Option<TimeTransparencyValue>)
        ensures
            r == time_transparency_value_of(text.bytes()),
    {
        if text.eq_str_ignore_ascii_case(KW_TRANSP_OPAQUE) {
            Some(TimeTransparencyValue::Opaque)
        } else if text.eq_str_ignore_ascii_case(KW_TRANSP_TRANSPARENT) {
            Some(TimeTransparencyValue::Transparent)
        } else {
            None
        }
    }

    /// The keyword of this value.
    pub fn as_str(&self) -> (r: &'static str)
        ensures
            r == time_transparency_value_keyword(*self),
    {
        match self {
            TimeTransparencyValue::Opaque => KW_TRANSP_OPAQUE,
            TimeTransparencyValue::Transparent => KW_TRANSP_TRANSPARENT,
        }
    }
}

/// Time transparency for events (RFC 5545 Section 3.8.2.7)
#[derive(Debug)]
pub struct TimeTransparency<S: StringStorage> {
    /// The value
    pub value: TimeTransparencyValue,
    /// X-name parameters (custom experimental parameters)
    pub x_parameters: Vec<RawParameter<S>>,
    /// Unrecognized / Non-standard parameters (preserved for round-trip)
    pub retained_parameters: Vec<Parameter<S>>,
    /// Span of the property in the source
    pub span: S::Span,
}

/// What converting a property to `TimeTransparency` gives.
pub open spec fn time_transparency_result<'src>(
    prop: ParsedProperty<'src>,
    r: Result<TimeTransparency<SpannedSegments<'src>>, Vec<TypedError<'src>>>,
) -> bool {
    &&& !(prop.kind is Transp) ==> (r matches Err(es) && es@ == seq![
        unexpected_kind(PropertyKind::Transp, prop.kind, prop.span),
    ])
    &&& prop.kind is Transp ==> (r is Ok) == (single_text(prop.value) matches Some(t)
        && time_transparency_value_of(t.value.bytes()) is Some)
    &&& prop.kind is Transp ==> (r matches Ok(a) ==> single_text(prop.value) matches Some(t)
        && time_transparency_value_of(t.value.bytes()) == Some(a.value) && a.x_parameters@ == x_params(
        prop.parameters@,
    ) && a.retained_parameters@ == retained_params(prop.parameters@, no_claims()) && a.span
        == prop.span)
    &&& prop.kind is Transp ==> (r matches Err(es) ==> match single_text(prop.value) {
        None => single_value_errors(es@, prop.kind, prop.value, PropertyValueKind::Text),
        Some(t) => es@.len() == 1 && invalid_value_error(
            es@[0],
            prop.kind,
            "Invalid time transparency value: "@ + t.value@,
            value_span(prop.value),
        ),
    })
}

impl<'src> TimeTransparency<SpannedSegments<'src>> {
    /// Convert a `TRANSP` property: a single text naming one of the values
    /// (ASCII case ignored); any other text is an invalid value.
    pub fn try_from(prop: ParsedProperty<'src>) -> (r: Result<Self, Vec<TypedError<'src>>>)
        ensures
            time_transparency_result(prop, r),
    {
        if !matches!(prop.kind, PropertyKind::Transp) {
            let span = prop.span;
            let es = vec![TypedError::PropertyUnexpectedKind { expected: PropertyKind::Transp, found: prop.kind, span }];
            assert(es@ =~= seq![unexpected_kind(PropertyKind::Transp, prop.kind, prop.span)]);
            return Err(es);
        }
        let claimed: Vec<ParameterKind> = Vec::new();
        assert(claimed@ =~= no_claims());
        let sorted = sort_parameters(prop.parameters, &claimed);
        let value_span = prop.value.span();
        let text = take_single_text(&PropertyKind::Transp, prop.value)?;
        match TimeTransparencyValue::from_text(&text.value) {
            Some(value) => Ok(TimeTransparency {
                value,
                x_parameters: sorted.x_parameters,
                retained_parameters: sorted.retained,
                span: prop.span,
            }),
            None => {
                let mut message = "Invalid time transparency value: ".to_owned();
                let resolved = text.value.to_owned();
                message.append(resolved.as_str());
                Err(
                    vec![TypedError::PropertyInvalidValue { property: PropertyKind::Transp, value: message, span: value_span }],
                )
            },
        }
    }

    /// Convert borrowed type to owned type
    pub fn to_owned(&self) -> (r: TimeTransparency<String>)
        ensures
            r.value == self.value,
            raw_params_agree(r.x_parameters@, self.x_parameters@),
            params_agree(r.retained_parameters@, self.retained_parameters@),
    {
        TimeTransparency {
            value: self.value,
            x_parameters: raw_params_to_owned(&self.x_parameters),
            retained_parameters: params_to_owned(&self.retained_parameters),
            span: (),
        }
    }

    /// Get the span of this property
    pub fn span(&self) -> (r: Span)
        ensures
            r == self.span,
    {
        self.span
    }
}

/// The errors of a property whose value must be one value of type
/// `expected`: a count error where there is not exactly one value, else a
/// type error.
pub open spec fn single_of_type_errors<'src>(
    es: Seq<TypedError<'src>>,
    kind: PropertyKindRef<'src>,
    value: Value<SpannedSegments<'src>>,
    expected: PropertyValueKind,
) -> bool {
    &&& es.len() == 1
    &&& if value_len(value) != 1 {
        invalid_count_error(es[0], kind, value_len(value), value_span(value))
    } else {
        es[0] matches TypedError::PropertyUnexpectedValue { property, expected: x, found, span }
            && property@ == kind@ && x@ == seq![expected] && found == value_kind(value) && span
            == value_span(value)
    }
}

/// Duration (RFC 5545 Section 3.8.2.5)
///
/// This property specifies a duration of time.
#[derive(Debug)]
pub struct Duration<S: StringStorage> {
    /// Duration value
    pub value: ValueDuration,
    /// X-name parameters (custom experimental parameters)
    pub x_parameters: Vec<RawParameter<S>>,
    /// Unrecognized / Non-standard parameters (preserved for round-trip)
    pub retained_parameters: Vec<Parameter<S>>,
    /// Span of the property in the source
    pub span: S::Span,
}

/// What converting a property to `Duration` gives.
pub open spec fn duration_result<'src>(
    prop: ParsedProperty<'src>,
    r: Result<Duration<SpannedSegments<'src>>, Vec<TypedError<'src>>>,
) -> bool {
    &&& !(prop.kind is Duration) ==> (r matches Err(es) && es@ == seq![
        unexpected_kind(PropertyKind::Duration, prop.kind, prop.span),
    ])
    &&& prop.kind is Duration ==> (r is Ok) == (prop.value matches Value::Duration { values, .. }
        && values@.len() == 1)
    &&& prop.kind is Duration ==> (r matches Ok(d) ==> prop.value matches Value::Duration {
        values,
        ..
    } && d.value == values@[0] && d.x_parameters@ == x_params(prop.parameters@)
        && d.retained_parameters@ == retained_params(prop.parameters@, no_claims()) && d.span
        == prop.span)
    &&& prop.kind is Duration ==> (r matches Err(es) ==> single_of_type_errors(
        es@,
        prop.kind,
        prop.value,
        PropertyValueKind::Duration,
    ))
}

impl<'src> Duration<SpannedSegments<'src>> {
    /// The property kind of `DURATION`.
    pub fn kind() -> (r: PropertyKindRef<'src>)
        ensures
            r is Duration,
    {
        PropertyKind::Duration
    }

    /// Convert a `DURATION` property: a single duration.
    pub fn try_from(prop: ParsedProperty<'src>) -> (r: Result<Self, Vec<TypedError<'src>>>)
        ensures
            duration_result(prop, r),
    {
        if !matches!(prop.kind, PropertyKind::Duration) {
            let span = prop.span;
            let es = vec![TypedError::PropertyUnexpectedKind { expected: PropertyKind::Duration, found: prop.kind, span }];
            assert(es@ =~= seq![unexpected_kind(PropertyKind::Duration, prop.kind, prop.span)]);
            return Err(es);
        }
        let claimed: Vec<ParameterKind> = Vec::new();
        assert(claimed@ =~= no_claims());
        let sorted = sort_parameters(prop.parameters, &claimed);
        match take_single_value(&PropertyKind::Duration, prop.value) {
            Ok(Value::Duration { mut values, .. }) => Ok(Duration {
                value: values.pop().unwrap(),
                x_parameters: sorted.x_parameters,
                retained_parameters: sorted.retained,
                span: prop.span,
            }),
            Ok(v) => {
                let span = v.span();
                Err(
                    vec![TypedError::PropertyUnexpectedValue { property: prop.kind, expected: expect_one(PropertyValueKind::Duration), found: v.kind(), span }],
                )
            },
            Err(e) => Err(e),
        }
    }

    /// Convert borrowed `Duration` to owned `Duration`
    pub fn to_owned(&self) -> (r: Duration<String>)
        ensures
            r.value == self.value,
            raw_params_agree(r.x_parameters@, self.x_parameters@),
            params_agree(r.retained_parameters@, self.retained_parameters@),
    {
        Duration {
            value: self.value,
            x_parameters: raw_params_to_owned(&self.x_parameters),
            retained_parameters: params_to_owned(&self.retained_parameters),
            span: (),
        }
    }

    /// Get the span of this property
    pub fn span(&self) -> (r: Span)
        ensures
            r == self.span,
    {
        self.span
    }
}


/// Time of day (hour, minute and second; a second of 60 is a leap second)
#[derive(Debug, Clone, Copy, PartialEq, Eq)]
pub struct Time {
    /// Hour component (0-23)
    pub hour: i8,
    /// Minute component (0-59)
    pub minute: i8,
    /// Second component (0-60)
    pub second: i8,
}

/// Whether the components name a time of day: an hour of 0 to 23, a minute
/// of 0 to 59 and a second of 0 to 60.
pub open spec fn time_in_range(hour: i8, minute: i8, second: i8) -> bool {
    0 <= hour <= 23 && 0 <= minute <= 59 && 0 <= second <= 60
}

/// The `Time` of a parsed time value (its UTC flag is not part of it).
pub open spec fn time_of(v: ValueTime) -> Time {
    Time { hour: v.hour, minute: v.minute, second: v.second }
}

impl Time {
    /// Create a new `Time` instance.
    ///
    /// # Errors
    /// If hour, minute, or second are out of valid ranges.
    pub fn new(hour: i8, minute: i8, second: i8) -> (r: Result<Self, String>)
        ensures
            (r is Ok) == time_in_range(hour, minute, second),
            r matches Ok(t) ==> t == (Time { hour, minute, second }),
    {
        if 0 <= hour && hour <= 23 && 0 <= minute && minute <= 59 && 0 <= second && second <= 60 {
            Ok(Time { hour, minute, second })
        } else {
            Err("time of day out of range".to_owned())
        }
    }

    /// The time of a parsed time value.
    pub fn from_value(value: ValueTime) -> (r: Time)
        ensures
            r == time_of(value),
    {
        Time { hour: value.hour, minute: value.minute, second: value.second }
    }
}

impl From<ValueTime> for Time {
    fn from(value: ValueTime) -> (r: Time) {
        Time { hour: value.hour, minute: value.minute, second: value.second }
    }
}

impl vstd::std_specs::convert::FromSpecImpl<ValueTime> for Time {
    open spec fn obeys_from_spec() -> bool {
        true
    }

    open spec fn from_spec(value: ValueTime) -> Time {
        time_of(value)
    }
}

/// Core date-time value variants without parameters or span
#[derive(Debug, Clone, Copy, PartialEq, Eq)]
pub enum DateTime {
    /// Date and time without timezone (floating time)
    Floating {
        /// Date part
        date: ValueDate,
        /// Time part
        time: Time,
    },
    /// Date and time with specific timezone
    Zoned {
        /// Date part
        date: ValueDate,
        /// Time part
        time: Time,
    },
    /// Date and time in UTC
    Utc {
        /// Date part
        date: ValueDate,
        /// Time part
        time: Time,
    },
    /// Date-only value
    Date(ValueDate),
}

/// The date part of a `DateTime`.
pub open spec fn date_time_date(d: DateTime) -> ValueDate {
    match d {
        DateTime::Floating { date, .. } => date,
        DateTime::Zoned { date, .. } => date,
        DateTime::Utc { date, .. } => date,
        DateTime::Date(date) => date,
    }
}

/// The time part of a `DateTime`, none for a date-only value.
pub open spec fn date_time_time(d: DateTime) -> Option<Time> {
    match d {
        DateTime::Floating { time, .. } => Some(time),
        DateTime::Zoned { time, .. } => Some(time),
        DateTime::Utc { time, .. } => Some(time),
        DateTime::Date(_) => None,
    }
}

impl DateTime {
    /// Get the date part of this `DateTime`
    pub fn date(&self) -> (r: ValueDate)
        ensures
            r == date_time_date(*self),
    {
        match self {
            DateTime::Floating { date, .. } => *date,
            DateTime::Zoned { date, .. } => *date,
            DateTime::Utc { date, .. } => *date,
            DateTime::Date(date) => *date,
        }
    }

    /// Get the time part if this is not a date-only value
    pub fn time(&self) -> (r: Option<Time>)
        ensures
            r == date_time_time(*self),
    {
        match self {
            DateTime::Floating { time, .. } => Some(*time),
            DateTime::Zoned { time, .. } => Some(*time),
            DateTime::Utc { time, .. } => Some(*time),
            DateTime::Date(_) => None,
        }
    }

    /// Check if this is a date-only value
    pub fn is_date_only(&self) -> (r: bool)
        ensures
            r == (*self is Date),
    {
        matches!(self, DateTime::Date(_))
    }

    /// Check if this is a UTC value
    pub fn is_utc(&self) -> (r: bool)
        ensures
            r == (*self is Utc),
    {
        matches!(self, DateTime::Utc { .. })
    }

    /// Check if this is a floating (no timezone) value
    pub fn is_floating(&self) -> (r: bool)
        ensures
            r == (*self is Floating),
    {
        matches!(self, DateTime::Floating { .. })
    }

    /// Check if this is a zoned value
    pub fn is_zoned(&self) -> (r: bool)
        ensures
            r == (*self is Zoned),
    {
        matches!(self, DateTime::Zoned { .. })
    }
}


/// The parameter kinds that a date-time property takes for itself.
pub open spec fn tzid_claims() -> Seq<ParameterKind> {
    seq![ParameterKind::TimeZoneIdentifier]
}

/// The date-time that a single `DATE` or `DATE-TIME` value gives: a `DATE`
/// only without a zone, a UTC time as UTC, else zoned where a zone is given
/// and floating where not.
pub open spec fn date_time_of<'src>(value: Value<SpannedSegments<'src>>, zoned: bool) -> Option<DateTime> {
    match value {
        Value::Date { values, .. } => if !zoned && values@.len() == 1 {
            Some(DateTime::Date(values@[0]))
        } else {
            None
        },
        Value::DateTime { values, .. } => if values@.len() == 1 {
            let dt = values@[0];
            if dt.time.utc {
                Some(DateTime::Utc { date: dt.date, time: time_of(dt.time) })
            } else if zoned {
                Some(DateTime::Zoned { date: dt.date, time: time_of(dt.time) })
            } else {
                Some(DateTime::Floating { date: dt.date, time: time_of(dt.time) })
            }
        } else {
            None
        },
        _ => None,
    }
}

/// The zone identifier of a date-time property's parameters: that of the
/// first `TZID`.
pub open spec fn tzid_of<'src>(ps: Seq<Parameter<SpannedSegments<'src>>>) -> Option<SpannedSegments<'src>> {
    text_value(first_param(ps, ParameterKind::TimeZoneIdentifier))
}

/// The error for a single value that gives no date-time.
pub open spec fn date_time_value_error<'src>(
    e: TypedError<'src>,
    kind: PropertyKindRef<'src>,
    value: Value<SpannedSegments<'src>>,
    zoned: bool,
) -> bool {
    if zoned {
        invalid_value_error(e, kind, "Expected date-time value"@, value_span(value))
    } else {
        e matches TypedError::PropertyUnexpectedValue { property, expected, found, span }
            && property == PropertyKind::<SpannedSegments<'src>>::DtStart && expected@ == seq![
            PropertyValueKind::Date,
            PropertyValueKind::DateTime,
        ] && found == value_kind(value) && span == value_span(value)
    }
}

/// What converting a date-time property gives: the count error where the
/// value is not one value; else the duplicated `TZID` errors where there are
/// any; else the date-time of the value, or the error where it gives none.
pub open spec fn date_time_property_result<'src>(
    prop: ParsedProperty<'src>,
    r: Result<DateTimeProperty<SpannedSegments<'src>>, Vec<TypedError<'src>>>,
) -> bool {
    let ps = prop.parameters@;
    let zoned = tzid_of(ps) is Some;
    if value_len(prop.value) != 1 {
        r matches Err(es) && es@.len() == 1 && invalid_count_error(
            es@[0],
            prop.kind,
            value_len(prop.value),
            value_span(prop.value),
        )
    } else if dup_errors(ps, tzid_claims()).len() > 0 {
        r matches Err(es) && es@ == dup_errors(ps, tzid_claims())
    } else {
        match date_time_of(prop.value, zoned) {
            Some(d) => r matches Ok(p) && p.value == d && p.tz_id == (if d is Zoned {
                tzid_of(ps)
            } else {
                None
            }) && p.x_parameters@ == x_params(ps) && p.retained_parameters@ == retained_params(
                ps,
                tzid_claims(),
            ) && p.span == prop.span,
            None => r matches Err(es) && es@.len() == 1 && date_time_value_error(
                es@[0],
                prop.kind,
                prop.value,
                zoned,
            ),
        }
    }
}

/// Date and time representation
#[derive(Debug)]
pub struct DateTimeProperty<S: StringStorage> {
    /// Core date-time value
    pub value: DateTime,
    /// Timezone ID (only for Zoned variant)
    pub tz_id: Option<S>,
    /// X-name parameters (custom experimental parameters)
    pub x_parameters: Vec<RawParameter<S>>,
    /// Unrecognized / Non-standard parameters (preserved for round-trip)
    pub retained_parameters: Vec<Parameter<S>>,
    /// Span of the property in the source
    pub span: S::Span,
}

impl<S: StringStorage> DateTimeProperty<S> {
    /// Create a new floating `DateTimeProperty` (no timezone)
    pub fn floating(
        date: ValueDate,
        time: Time,
        x_parameters: Vec<RawParameter<S>>,
        retained_parameters: Vec<Parameter<S>>,
        span: S::Span,
    ) -> (r: Self)
        ensures
            r.value == (DateTime::Floating { date, time }),
            r.tz_id is None,
            r.x_parameters == x_parameters,
            r.retained_parameters == retained_parameters,
            r.span == span,
    {
        DateTimeProperty { value: DateTime::Floating { date, time }, tz_id: None, x_parameters, retained_parameters, span }
    }

    /// Create a new zoned `DateTimeProperty` (with timezone)
    pub fn zoned(
        date: ValueDate,
        time: Time,
        tz_id: S,
        x_parameters: Vec<RawParameter<S>>,
        retained_parameters: Vec<Parameter<S>>,
        span: S::Span,
    ) -> (r: Self)
        ensures
            r.value == (DateTime::Zoned { date, time }),
            r.tz_id == Some(tz_id),
            r.x_parameters == x_parameters,
            r.retained_parameters == retained_parameters,
            r.span == span,
    {
        DateTimeProperty {
            value: DateTime::Zoned { date, time },
            tz_id: Some(tz_id),
            x_parameters,
            retained_parameters,
            span,
        }
    }

    /// Create a new UTC `DateTimeProperty`
    pub fn utc(
        date: ValueDate,
        time: Time,
        x_parameters: Vec<RawParameter<S>>,
        retained_parameters: Vec<Parameter<S>>,
        span: S::Span,
    ) -> (r: Self)
        ensures
            r.value == (DateTime::Utc { date, time }),
            r.tz_id is None,
            r.x_parameters == x_parameters,
            r.retained_parameters == retained_parameters,
            r.span == span,
    {
        DateTimeProperty { value: DateTime::Utc { date, time }, tz_id: None, x_parameters, retained_parameters, span }
    }

    /// Create a new date-only `DateTimeProperty`
    pub fn date_only(
        date: ValueDate,
        x_parameters: Vec<RawParameter<S>>,
        retained_parameters: Vec<Parameter<S>>,
        span: S::Span,
    ) -> (r: Self)
        ensures
            r.value == DateTime::Date(date),
            r.tz_id is None,
            r.x_parameters == x_parameters,
            r.retained_parameters == retained_parameters,
            r.span == span,
    {
        DateTimeProperty { value: DateTime::Date(date), tz_id: None, x_parameters, retained_parameters, span }
    }

    /// Get the date part of this `DateTimeProperty`
    pub fn date(&self) -> (r: ValueDate)
        ensures
            r == date_time_date(self.value),
    {
        self.value.date()
    }

    /// Get the time part if this is not a date-only value
    pub fn time(&self) -> (r: Option<Time>)
        ensures
            r == date_time_time(self.value),
    {
        self.value.time()
    }

    /// Get the timezone ID if this is a zoned value
    pub fn tz_id(&self) -> (r: Option<&S>)
        ensures
            r == match self.tz_id {
                Some(t) => Some(&t),
                None => None::<&S>,
            },
    {
        match &self.tz_id {
            Some(t) => Some(t),
            None => None,
        }
    }

    /// Check if this is a date-only value
    pub fn is_date_only(&self) -> (r: bool)
        ensures
            r == (self.value is Date),
    {
        self.value.is_date_only()
    }

    /// Check if this is a UTC value
    pub fn is_utc(&self) -> (r: bool)
        ensures
            r == (self.value is Utc),
    {
        self.value.is_utc()
    }

    /// Check if this is a floating (no timezone) value
    pub fn is_floating(&self) -> (r: bool)
        ensures
            r == (self.value is Floating),
    {
        self.value.is_floating()
    }

    /// Check if this is a zoned value
    pub fn is_zoned(&self) -> (r: bool)
        ensures
            r == (self.value is Zoned),
    {
        self.value.is_zoned()
    }
}


impl<'src> DateTimeProperty<SpannedSegments<'src>> {
    /// Convert a date-time property: a single `DATE` or `DATE-TIME`, with an
    /// optional `TZID` that makes a local time zoned (a `DATE` then is an
    /// invalid value).
    pub fn try_from(prop: ParsedProperty<'src>) -> (r: Result<Self, Vec<TypedError<'src>>>)
        ensures
            date_time_property_result(prop, r),
    {
        let ghost ps = prop.parameters@;
        let value = take_single_value(&prop.kind, prop.value)?;
        let claimed: Vec<ParameterKind> = vec![ParameterKind::TimeZoneIdentifier];
        assert(claimed@ =~= tzid_claims());
        let mut sorted = sort_parameters(prop.parameters, &claimed);
        if sorted.errors.len() > 0 {
            return Err(sorted.errors);
        }
        let tz_id = take_text(next_slot(&mut sorted.slots));
        proof {
            lemma_first_param_kind(ps, ParameterKind::TimeZoneIdentifier);
        }
        let zoned = tz_id.is_some();
        let value_span = value.span();
        match value {
            Value::Date { mut values, .. } if !zoned => {
                let date = values.pop().unwrap();
                Ok(DateTimeProperty::date_only(date, sorted.x_parameters, sorted.retained, prop.span))
            },
            Value::DateTime { mut values, .. } => {
                let dt = values.pop().unwrap();
                let time = Time::from_value(dt.time);
                if dt.time.utc {
                    Ok(DateTimeProperty::utc(dt.date, time, sorted.x_parameters, sorted.retained, prop.span))
                } else {
                    match tz_id {
                        Some(tz) => Ok(
                            DateTimeProperty::zoned(dt.date, time, tz, sorted.x_parameters, sorted.retained, prop.span),
                        ),
                        None => Ok(
                            DateTimeProperty::floating(dt.date, time, sorted.x_parameters, sorted.retained, prop.span),
                        ),
                    }
                }
            },
            v => {
                if zoned {
                    Err(
                        vec![TypedError::PropertyInvalidValue { property: prop.kind, value: "Expected date-time value".to_owned(), span: value_span }],
                    )
                } else {
                    let mut expected: Vec<PropertyValueKind> = Vec::new();
                    expected.push(PropertyValueKind::Date);
                    expected.push(PropertyValueKind::DateTime);
                    assert(expected@ =~= seq![PropertyValueKind::Date, PropertyValueKind::DateTime]);
                    Err(
                        vec![TypedError::PropertyUnexpectedValue { property: PropertyKind::DtStart, expected, found: v.kind(), span: value_span }],
                    )
                }
            },
        }
    }

    /// Convert borrowed `DateTimeProperty` to owned `DateTimeProperty`
    pub fn to_owned(&self) -> (r: DateTimeProperty<String>)
        ensures
            date_time_property_agrees(r, *self),
    {
        DateTimeProperty {
            value: self.value,
            tz_id: opt_to_owned(&self.tz_id),
            x_parameters: raw_params_to_owned(&self.x_parameters),
            retained_parameters: params_to_owned(&self.retained_parameters),
            span: (),
        }
    }

    /// Get the span of this property
    pub fn span(&self) -> (r: Span)
        ensures
            r == self.span,
    {
        self.span
    }
}

/// Two date-time properties agree: the same date-time, zone identifier text
/// and parameters, in either storage.
pub open spec fn date_time_property_agrees<A: StringStorage, B: StringStorage>(
    a: DateTimeProperty<A>,
    b: DateTimeProperty<B>,
) -> bool {
    &&& a.value == b.value
    &&& opt_agrees(a.tz_id, b.tz_id)
    &&& raw_params_agree(a.x_parameters@, b.x_parameters@)
    &&& params_agree(a.retained_parameters@, b.retained_parameters@)
}

/// UTC-only date and time representation.
///
/// This type is used for properties that MUST be specified in UTC time format
/// per RFC 5545: COMPLETED, CREATED, DTSTAMP, LAST-MODIFIED.
#[derive(Debug)]
pub struct DateTimeUtc<S: StringStorage> {
    /// Date part
    pub date: ValueDate,
    /// Time part
    pub time: Time,
    /// X-name parameters (custom experimental parameters)
    pub x_parameters: Vec<RawParameter<S>>,
    /// Unrecognized / Non-standard parameters (preserved for round-trip)
    pub retained_parameters: Vec<Parameter<S>>,
    /// Span of the property in the source
    pub span: S::Span,
}

impl<S: StringStorage> DateTimeUtc<S> {
    /// Get the date part of this `DateTimeUtc`
    pub fn date(&self) -> (r: ValueDate)
        ensures
            r == self.date,
    {
        self.date
    }

    /// Get the time part of this `DateTimeUtc`
    pub fn time(&self) -> (r: Time)
        ensures
            r == self.time,
    {
        self.time
    }
}

/// The message for a date-time that is not in UTC.
pub open spec fn not_utc_message(d: DateTime) -> Seq<char> {
    if d is Date {
        "DATE value not allowed, must be DATE-TIME with UTC time"@
    } else if d is Floating {
        "Floating time not allowed, must be UTC time (ends with 'Z')"@
    } else {
        "Timezone reference not allowed, must be UTC time (ends with 'Z')"@
    }
}

/// What converting a UTC date-time property gives: what the date-time
/// conversion gives, where it fails or gives UTC; else the error that the
/// time is not in UTC.
pub open spec fn date_time_utc_result<'src>(
    prop: ParsedProperty<'src>,
    r: Result<DateTimeUtc<SpannedSegments<'src>>, Vec<TypedError<'src>>>,
) -> bool {
    exists|d: Result<DateTimeProperty<SpannedSegments<'src>>, Vec<TypedError<'src>>>|
        #[trigger] date_time_property_result(prop, d) && match d {
            Err(es) => r matches Err(es2) && es2@ == es@,
            Ok(p) => match p.value {
                DateTime::Utc { date, time } => r matches Ok(u) && u.date == date && u.time == time
                    && u.x_parameters@ == p.x_parameters@ && u.retained_parameters@
                    == p.retained_parameters@ && u.span == prop.span,
                _ => r matches Err(es) && es@.len() == 1 && invalid_value_error(
                    es@[0],
                    PropertyKind::DtStamp,
                    not_utc_message(p.value),
                    prop.span,
                ),
            },
        }
}

impl<'src> DateTimeUtc<SpannedSegments<'src>> {
    /// Convert a date-time property that must be in UTC.
    pub fn try_from(prop: ParsedProperty<'src>) -> (r: Result<Self, Vec<TypedError<'src>>>)
        ensures
            date_time_utc_result(prop, r),
    {
        let ghost p0 = prop;
        let span = prop.span;
        let dt = match DateTimeProperty::try_from(prop) {
            Ok(dt) => dt,
            Err(es) => {
                let ghost d = Err::<DateTimeProperty<SpannedSegments<'src>>, Vec<TypedError<'src>>>(es);
                assert(date_time_property_result(p0, d));
                return Err(es);
            },
        };
        let ghost d = Ok::<DateTimeProperty<SpannedSegments<'src>>, Vec<TypedError<'src>>>(dt);
        assert(date_time_property_result(p0, d));
        match dt.value {
            DateTime::Utc { date, time } => Ok(
                DateTimeUtc { date, time, x_parameters: dt.x_parameters, retained_parameters: dt.retained_parameters, span },
            ),
            _ => {
                let message = if dt.is_date_only() {
                    "DATE value not allowed, must be DATE-TIME with UTC time".to_owned()
                } else if dt.is_floating() {
                    "Floating time not allowed, must be UTC time (ends with 'Z')".to_owned()
                } else {
                    "Timezone reference not allowed, must be UTC time (ends with 'Z')".to_owned()
                };
                Err(vec![TypedError::PropertyInvalidValue { property: PropertyKind::DtStamp, value: message, span }])
            },
        }
    }

    /// Convert borrowed `DateTimeUtc` to owned `DateTimeUtc`
    pub fn to_owned(&self) -> (r: DateTimeUtc<String>)
        ensures
            r.date == self.date,
            r.time == self.time,
            raw_params_agree(r.x_parameters@, self.x_parameters@),
            params_agree(r.retained_parameters@, self.retained_parameters@),
    {
        DateTimeUtc {
            date: self.date,
            time: self.time,
            x_parameters: raw_params_to_owned(&self.x_parameters),
            retained_parameters: params_to_owned(&self.retained_parameters),
            span: (),
        }
    }

    /// Get the span of this property
    pub fn span(&self) -> (r: Span)
        ensures
            r == self.span,
    {
        self.span
    }
}


/// Period of time (RFC 5545 Section 3.8.2.6)
///
/// UTC, floating and zoned periods are told apart at the type level, so that
/// start and end always have the same time zone semantics. A period has an
/// explicit end or a duration.
#[derive(Debug)]
pub enum Period<S: StringStorage> {
    /// Start and end date/time in UTC
    ExplicitUtc {
        /// Start date/time
        start: DateTime,
        /// End date/time
        end: DateTime,
    },
    /// Start and end date/time in floating time (no timezone)
    ExplicitFloating {
        /// Start date/time
        start: DateTime,
        /// End date/time
        end: DateTime,
    },
    /// Start and end date/time with timezone reference
    ExplicitZoned {
        /// Start date/time
        start: DateTime,
        /// End date/time
        end: DateTime,
        /// Timezone ID (same for both start and end)
        tz_id: S,
    },
    /// Start date/time in UTC with a duration
    DurationUtc {
        /// Start date/time
        start: DateTime,
        /// Duration from the start
        duration: ValueDuration,
    },
    /// Start date/time in floating time with a duration
    DurationFloating {
        /// Start date/time
        start: DateTime,
        /// Duration from the start
        duration: ValueDuration,
    },
    /// Start date/time with timezone reference and a duration
    DurationZoned {
        /// Start date/time
        start: DateTime,
        /// Duration from the start
        duration: ValueDuration,
        /// Start timezone ID
        tz_id: S,
    },
}

/// The start of a period.
pub open spec fn period_start<S: StringStorage>(p: Period<S>) -> DateTime {
    match p {
        Period::ExplicitUtc { start, .. } => start,
        Period::ExplicitFloating { start, .. } => start,
        Period::ExplicitZoned { start, .. } => start,
        Period::DurationUtc { start, .. } => start,
        Period::DurationFloating { start, .. } => start,
        Period::DurationZoned { start, .. } => start,
    }
}

/// Whether a duration runs forward.
pub open spec fn duration_positive(d: ValueDuration) -> bool {
    match d {
        ValueDuration::DateTime { positive, .. } => positive,
        ValueDuration::Week { positive, .. } => positive,
    }
}

/// The date-time of a parsed date-time in a period: UTC or floating.
pub open spec fn period_point(v: ValueDateTime) -> DateTime {
    if v.time.utc {
        DateTime::Utc { date: v.date, time: time_of(v.time) }
    } else {
        DateTime::Floating { date: v.date, time: time_of(v.time) }
    }
}

/// The period that a parsed period gives: UTC when its start is in UTC,
/// else floating. A duration must run forward.
pub open spec fn period_of<'src>(v: ValuePeriod) -> Option<Period<SpannedSegments<'src>>> {
    match v {
        ValuePeriod::Explicit { start, end } => if start.time.utc {
            Some(Period::ExplicitUtc { start: period_point(start), end: period_point(end) })
        } else {
            Some(Period::ExplicitFloating { start: period_point(start), end: period_point(end) })
        },
        ValuePeriod::Duration { start, duration } => if !duration_positive(duration) {
            None
        } else if start.time.utc {
            Some(Period::DurationUtc { start: period_point(start), duration })
        } else {
            Some(Period::DurationFloating { start: period_point(start), duration })
        },
    }
}

fn point_of(v: ValueDateTime) -> (r: DateTime)
    ensures
        r == period_point(v),
{
    if v.time.utc {
        DateTime::Utc { date: v.date, time: Time::from_value(v.time) }
    } else {
        DateTime::Floating { date: v.date, time: Time::from_value(v.time) }
    }
}

fn read_period<'src>(v: ValuePeriod) -> (r: Option<Period<SpannedSegments<'src>>>)
    ensures
        r == period_of::<'src>(v),
{
    match v {
        ValuePeriod::Explicit { start, end } => if start.time.utc {
            Some(Period::ExplicitUtc { start: point_of(start), end: point_of(end) })
        } else {
            Some(Period::ExplicitFloating { start: point_of(start), end: point_of(end) })
        },
        ValuePeriod::Duration { start, duration } => {
            let positive = match duration {
                ValueDuration::DateTime { positive, .. } => positive,
                ValueDuration::Week { positive, .. } => positive,
            };
            if !positive {
                None
            } else if start.time.utc {
                Some(Period::DurationUtc { start: point_of(start), duration })
            } else {
                Some(Period::DurationFloating { start: point_of(start), duration })
            }
        },
    }
}

/// Two periods agree: the same variant with the same times, and zone
/// identifiers with the same text, in either storage.
pub open spec fn period_agrees<A: StringStorage, B: StringStorage>(a: Period<A>, b: Period<B>) -> bool {
    match (a, b) {
        (Period::ExplicitUtc { start: s1, end: e1 }, Period::ExplicitUtc { start: s2, end: e2 }) => s1 == s2 && e1 == e2,
        (Period::ExplicitFloating { start: s1, end: e1 }, Period::ExplicitFloating { start: s2, end: e2 }) => s1 == s2
            && e1 == e2,
        (Period::ExplicitZoned { start: s1, end: e1, tz_id: t1 }, Period::ExplicitZoned { start: s2, end: e2, tz_id: t2 }) => s1
            == s2 && e1 == e2 && t1.text() == t2.text(),
        (Period::DurationUtc { start: s1, duration: d1 }, Period::DurationUtc { start: s2, duration: d2 }) => s1 == s2 && d1
            == d2,
        (Period::DurationFloating { start: s1, duration: d1 }, Period::DurationFloating { start: s2, duration: d2 }) => s1
            == s2 && d1 == d2,
        (
            Period::DurationZoned { start: s1, duration: d1, tz_id: t1 },
            Period::DurationZoned { start: s2, duration: d2, tz_id: t2 },
        ) => s1 == s2 && d1 == d2 && t1.text() == t2.text(),
        _ => false,
    }
}

/// What jiff's `checked_add` gives for a civil date and time plus a span of
/// weeks, days, hours, minutes and seconds.
pub uninterp spec fn civil_add_result(
    date: ValueDate,
    time: Time,
    weeks: i64,
    days: i64,
    hours: i64,
    minutes: i64,
    seconds: i64,
) -> Option<(ValueDate, Time)>;

/// What jiff's `checked_sub` gives for a civil date and time minus a span of
/// weeks, days, hours, minutes and seconds.
pub uninterp spec fn civil_sub_result(
    date: ValueDate,
    time: Time,
    weeks: i64,
    days: i64,
    hours: i64,
    minutes: i64,
    seconds: i64,
) -> Option<(ValueDate, Time)>;

/// Calls `jiff::civil::DateTime::checked_add` on the civil date-time that
/// `jiff::civil::DateTime::new` builds from the parts (no fraction of a
/// second) and a `jiff::Span` built with `try_weeks`, `try_days`,
/// `try_hours`, `try_minutes` and `try_seconds`. Any error of jiff (a date
/// or time jiff does not accept, an amount out of its range, a result out
/// of its range) gives `None`. The contract claims only that the result
/// depends on the arguments alone; what jiff computes is not stated.
#[verifier::external_body]
fn civil_add(date: ValueDate, time: Time, weeks: i64, days: i64, hours: i64, minutes: i64, seconds: i64) -> (r: Option<
    (ValueDate, Time),
>)
    ensures
        r == civil_add_result(date, time, weeks, days, hours, minutes, seconds),
{
    let start = jiff::civil::DateTime::new(date.year, date.month, date.day, time.hour, time.minute, time.second, 0).ok()?;
    let span = jiff::Span::new().try_weeks(weeks).ok()?.try_days(days).ok()?.try_hours(hours).ok()?.try_minutes(minutes).ok()?.try_seconds(seconds).ok()?;
    let end = start.checked_add(span).ok()?;
    Some((ValueDate { year: end.year(), month: end.month(), day: end.day() }, Time { hour: end.hour(), minute: end.minute(), second: end.second() }))
}

/// Calls `jiff::civil::DateTime::checked_sub`, with the date-time and the
/// span built as for `civil_add`. Any error of jiff gives `None`. The
/// contract claims only that the result depends on the arguments alone.
#[verifier::external_body]
fn civil_sub(date: ValueDate, time: Time, weeks: i64, days: i64, hours: i64, minutes: i64, seconds: i64) -> (r: Option<
    (ValueDate, Time),
>)
    ensures
        r == civil_sub_result(date, time, weeks, days, hours, minutes, seconds),
{
    let start = jiff::civil::DateTime::new(date.year, date.month, date.day, time.hour, time.minute, time.second, 0).ok()?;
    let span = jiff::Span::new().try_weeks(weeks).ok()?.try_days(days).ok()?.try_hours(hours).ok()?.try_minutes(minutes).ok()?.try_seconds(seconds).ok()?;
    let end = start.checked_sub(span).ok()?;
    Some((ValueDate { year: end.year(), month: end.month(), day: end.day() }, Time { hour: end.hour(), minute: end.minute(), second: end.second() }))
}

/// The civil date and time that a period's end is computed from: those of
/// the start, or midnight of 1 January of year 0 (jiff's zero date-time)
/// for a date-only start.
pub open spec fn civil_start(start: DateTime) -> (ValueDate, Time) {
    match start {
        DateTime::Floating { date, time } => (date, time),
        DateTime::Zoned { date, time } => (date, time),
        DateTime::Utc { date, time } => (date, time),
        DateTime::Date(_) => (ValueDate { year: 0, month: 1, day: 1 }, Time { hour: 0, minute: 0, second: 0 }),
    }
}

/// The civil date and time that a duration moves a start to: forward for
/// a positive duration, backward otherwise; `None` when jiff fails.
pub open spec fn shifted_by(start: DateTime, d: ValueDuration) -> Option<(ValueDate, Time)> {
    let (date, time) = civil_start(start);
    match d {
        ValueDuration::DateTime { positive, day, hour, minute, second } => if positive {
            civil_add_result(date, time, 0, day as i64, hour as i64, minute as i64, second as i64)
        } else {
            civil_sub_result(date, time, 0, day as i64, hour as i64, minute as i64, second as i64)
        },
        ValueDuration::Week { positive, week } => if positive {
            civil_add_result(date, time, week as i64, 0, 0, 0, 0)
        } else {
            civil_sub_result(date, time, week as i64, 0, 0, 0, 0)
        },
    }
}

/// The end of a period: the given end, or the start moved by the duration,
/// in the same form (UTC, floating or zoned); `None` when jiff fails.
pub open spec fn period_end<S: StringStorage>(p: Period<S>) -> Option<DateTime> {
    match p {
        Period::ExplicitUtc { end, .. } => Some(end),
        Period::ExplicitFloating { end, .. } => Some(end),
        Period::ExplicitZoned { end, .. } => Some(end),
        Period::DurationUtc { start, duration } => match shifted_by(start, duration) {
            Some((date, time)) => Some(DateTime::Utc { date, time }),
            None => None,
        },
        Period::DurationFloating { start, duration } => match shifted_by(start, duration) {
            Some((date, time)) => Some(DateTime::Floating { date, time }),
            None => None,
        },
        Period::DurationZoned { start, duration, .. } => match shifted_by(start, duration) {
            Some((date, time)) => Some(DateTime::Zoned { date, time }),
            None => None,
        },
    }
}

/// Move a start by a duration with jiff.
fn shift_by(start: DateTime, d: ValueDuration) -> (r: Option<(ValueDate, Time)>)
    ensures
        r == shifted_by(start, d),
{
    let (date, time) = match start {
        DateTime::Floating { date, time } => (date, time),
        DateTime::Zoned { date, time } => (date, time),
        DateTime::Utc { date, time } => (date, time),
        DateTime::Date(_) => (ValueDate { year: 0, month: 1, day: 1 }, Time { hour: 0, minute: 0, second: 0 }),
    };
    match d {
        ValueDuration::DateTime { positive, day, hour, minute, second } => if positive {
            civil_add(date, time, 0, day as i64, hour as i64, minute as i64, second as i64)
        } else {
            civil_sub(date, time, 0, day as i64, hour as i64, minute as i64, second as i64)
        },
        ValueDuration::Week { positive, week } => if positive {
            civil_add(date, time, week as i64, 0, 0, 0, 0)
        } else {
            civil_sub(date, time, week as i64, 0, 0, 0, 0)
        },
    }
}

impl<S: StringStorage> Period<S> {
    /// Get the timezone ID if this is a zoned period
    pub fn tz_id(&self) -> (r: Option<&S>)
        ensures
            r == match *self {
                Period::ExplicitZoned { tz_id, .. } => Some(&tz_id),
                Period::DurationZoned { tz_id, .. } => Some(&tz_id),
                _ => None::<&S>,
            },
    {
        match self {
            Period::ExplicitZoned { tz_id, .. } => Some(tz_id),
            Period::DurationZoned { tz_id, .. } => Some(tz_id),
            _ => None,
        }
    }

    /// The end of the period, when jiff can compute it: the given end, or
    /// the start moved by the duration (a date-only start counts as jiff's
    /// zero date-time), in the same form as the period.
    pub fn checked_end(&self) -> (r: Option<DateTime>)
        ensures
            r == period_end(*self),
    {
        match self.compute_end() {
            Some(_) => Some(self.end()),
            None => None,
        }
    }

    fn compute_end(&self) -> (r: Option<DateTime>)
        ensures
            r == period_end(*self),
    {
        match self {
            Period::ExplicitUtc { end, .. } => Some(*end),
            Period::ExplicitFloating { end, .. } => Some(*end),
            Period::ExplicitZoned { end, .. } => Some(*end),
            Period::DurationUtc { start, duration } => match shift_by(*start, *duration) {
                Some((date, time)) => Some(DateTime::Utc { date, time }),
                None => None,
            },
            Period::DurationFloating { start, duration } => match shift_by(*start, *duration) {
                Some((date, time)) => Some(DateTime::Floating { date, time }),
                None => None,
            },
            Period::DurationZoned { start, duration, .. } => match shift_by(*start, *duration) {
                Some((date, time)) => Some(DateTime::Zoned { date, time }),
                None => None,
            },
        }
    }

    /// The end of the period, for one whose end jiff can compute.
    pub fn end(&self) -> (r: DateTime)
        requires
            period_end(*self) is Some,
        ensures
            Some(r) == period_end(*self),
    {
        match self.compute_end() {
            Some(e) => e,
            None => self.start(),
        }
    }

    /// Get the start as a `DateTime`.
    pub fn start(&self) -> (r: DateTime)
        ensures
            r == period_start(*self),
    {
        match self {
            Period::ExplicitUtc { start, .. } => *start,
            Period::ExplicitFloating { start, .. } => *start,
            Period::ExplicitZoned { start, .. } => *start,
            Period::DurationUtc { start, .. } => *start,
            Period::DurationFloating { start, .. } => *start,
            Period::DurationZoned { start, .. } => *start,
        }
    }
}

/// The message for a period whose duration runs backward.
pub open spec fn backward_period_message() -> Seq<char> {
    "Duration must be positive for periods"@
}

impl<'src> Period<SpannedSegments<'src>> {
    /// Read a value holding one period: the period, or the error that its
    /// duration runs backward; any other value is a disallowed type.
    pub fn try_from(value: Value<SpannedSegments<'src>>) -> (r: Result<Self, Vec<TypedError<'src>>>)
        ensures
            match value {
                Value::Period { values, span } => if values@.len() == 1 {
                    match period_of::<'src>(values@[0]) {
                        Some(p) => r == Ok::<Period<SpannedSegments<'src>>, Vec<TypedError<'src>>>(p),
                        None => r matches Err(es) && es@.len() == 1 && invalid_value_error(
                            es@[0],
                            PropertyKind::FreeBusy,
                            backward_period_message(),
                            span,
                        ),
                    }
                } else {
                    r matches Err(es) && es@.len() == 1 && es@[0] == (TypedError::ValueTypeDisallowed {
                        property: PropertyKind::FreeBusy,
                        value_type: PropertyValueKind::Period,
                        span,
                    })
                },
                _ => r matches Err(es) && es@.len() == 1 && es@[0] == (TypedError::ValueTypeDisallowed {
                    property: PropertyKind::FreeBusy,
                    value_type: value_kind(value),
                    span: value_span(value),
                }),
            },
    {
        let span = value.span();
        let kind = value.kind();
        match value {
            Value::Period { mut values, .. } => {
                if values.len() == 1 {
                    let v = values.pop().unwrap();
                    match read_period(v) {
                        Some(p) => Ok(p),
                        None => Err(
                            vec![TypedError::PropertyInvalidValue { property: PropertyKind::FreeBusy, value: "Duration must be positive for periods".to_owned(), span }],
                        ),
                    }
                } else {
                    Err(vec![TypedError::ValueTypeDisallowed { property: PropertyKind::FreeBusy, value_type: kind, span }])
                }
            },
            _ => Err(vec![TypedError::ValueTypeDisallowed { property: PropertyKind::FreeBusy, value_type: kind, span }]),
        }
    }

    /// Convert borrowed `Period` to owned `Period`
    pub fn to_owned(&self) -> (r: Period<String>)
        ensures
            period_agrees(r, *self),
    {
        match self {
            Period::ExplicitUtc { start, end } => Period::ExplicitUtc { start: *start, end: *end },
            Period::ExplicitFloating { start, end } => Period::ExplicitFloating { start: *start, end: *end },
            Period::ExplicitZoned { start, end, tz_id } => Period::ExplicitZoned {
                start: *start,
                end: *end,
                tz_id: tz_id.to_owned(),
            },
            Period::DurationUtc { start, duration } => Period::DurationUtc { start: *start, duration: *duration },
            Period::DurationFloating { start, duration } => Period::DurationFloating { start: *start, duration: *duration },
            Period::DurationZoned { start, duration, tz_id } => Period::DurationZoned {
                start: *start,
                duration: *duration,
                tz_id: tz_id.to_owned(),
            },
        }
    }
}


/// The parameter kinds that `FREEBUSY` takes for itself.
pub open spec fn fb_claims() -> Seq<ParameterKind> {
    seq![ParameterKind::FreeBusyType]
}

/// The free/busy type of a `FBTYPE` parameter, busy without one.
pub open spec fn fb_type_value<'src>(p: Option<Parameter<SpannedSegments<'src>>>) -> FreeBusyType<
    SpannedSegments<'src>,
> {
    match p {
        Some(Parameter::FreeBusyType { value, .. }) => value,
        _ => FreeBusyType::Busy,
    }
}

/// The number of parsed periods whose duration runs backward.
pub open spec fn backward_periods(vs: Seq<ValuePeriod>) -> nat
    decreases vs.len(),
{
    if vs.len() == 0 {
        0
    } else {
        backward_periods(vs.drop_last()) + if !period_valid(vs.last()) {
            1nat
        } else {
            0nat
        }
    }
}

/// The periods of a list of parsed periods that read as periods, in order.
pub open spec fn periods_of<'src>(vs: Seq<ValuePeriod>) -> Seq<Period<SpannedSegments<'src>>>
    decreases vs.len(),
{
    if vs.len() == 0 {
        Seq::empty()
    } else {
        match period_of::<'src>(vs.last()) {
            Some(p) => periods_of(vs.drop_last()).push(p),
            None => periods_of(vs.drop_last()),
        }
    }
}

/// Whether a parsed period reads as a period: its duration, if any, runs
/// forward.
pub open spec fn period_valid(v: ValuePeriod) -> bool {
    match v {
        ValuePeriod::Explicit { .. } => true,
        ValuePeriod::Duration { duration, .. } => duration_positive(duration),
    }
}

/// Free/Busy Time (RFC 5545 Section 3.8.2.6)
///
/// This property defines one or more free or busy time intervals.
#[derive(Debug)]
pub struct FreeBusy<S: StringStorage> {
    /// Free/Busy type parameter
    pub fb_type: FreeBusyType<S>,
    /// List of free/busy time periods
    pub values: Vec<Period<S>>,
    /// X-name parameters (custom experimental parameters)
    pub x_parameters: Vec<RawParameter<S>>,
    /// Unrecognized / Non-standard parameters (preserved for round-trip)
    pub retained_parameters: Vec<Parameter<S>>,
    /// Span of the property in the source
    pub span: S::Span,
}

/// What converting a property to `FreeBusy` gives.
pub open spec fn free_busy_result<'src>(
    prop: ParsedProperty<'src>,
    r: Result<FreeBusy<SpannedSegments<'src>>, Vec<TypedError<'src>>>,
) -> bool {
    let ps = prop.parameters@;
    if !(prop.kind is FreeBusy) {
        r matches Err(es) && es@ == seq![unexpected_kind(PropertyKind::FreeBusy, prop.kind, prop.span)]
    } else {
        match prop.value {
            Value::Period { values, span } => if values@.len() == 0 {
                r matches Err(es) && es@ == seq![
                    TypedError::PropertyMissingValue { property: prop.kind, span: prop.span },
                ]
            } else if backward_periods(values@) > 0 {
                r matches Err(es) && es@.len() == backward_periods(values@) && forall|i: int|
                    0 <= i < es@.len() ==> invalid_value_error(#[trigger] es@[i], prop.kind, backward_period_message(), span)
            } else {
                r matches Ok(f) && f.fb_type == fb_type_value(last_param(ps, ParameterKind::FreeBusyType))
                    && f.values@ == periods_of::<'src>(values@) && f.x_parameters@ == x_params(ps)
                    && f.retained_parameters@ == retained_params(ps, fb_claims()) && f.span == prop.span
            },
            _ => r matches Err(es) && es@.len() == 1 && (es@[0] matches TypedError::PropertyUnexpectedValue {
                property,
                expected,
                found,
                span,
            } && property == prop.kind && expected@ == seq![PropertyValueKind::Period] && found == value_kind(
                prop.value,
            ) && span == value_span(prop.value)),
        }
    }
}

impl<'src> FreeBusy<SpannedSegments<'src>> {
    /// Convert a `FREEBUSY` property: its periods, with the free/busy type of
    /// the last `FBTYPE` (busy without one). A period whose duration runs
    /// backward is an error, one for each.
    pub fn try_from(prop: ParsedProperty<'src>) -> (r: Result<Self, Vec<TypedError<'src>>>)
        ensures
            free_busy_result(prop, r),
    {
        if !matches!(prop.kind, PropertyKind::FreeBusy) {
            let span = prop.span;
            let es = vec![TypedError::PropertyUnexpectedKind { expected: PropertyKind::FreeBusy, found: prop.kind, span }];
            assert(es@ =~= seq![unexpected_kind(PropertyKind::FreeBusy, prop.kind, prop.span)]);
            return Err(es);
        }
        let ghost ps = prop.parameters@;
        let total = prop.parameters.len();
        let mut fb_type: FreeBusyType<SpannedSegments<'src>> = FreeBusyType::Busy;
        let mut x_parameters: Vec<RawParameter<SpannedSegments<'src>>> = Vec::new();
        let mut retained: Vec<Parameter<SpannedSegments<'src>>> = Vec::new();
        let mut rest = prop.parameters;
        let mut i: usize = 0;
        assert(ps.take(0) =~= Seq::<Parameter<SpannedSegments<'src>>>::empty());
        while rest.len() > 0
            invariant
                0 <= i <= ps.len(),
                ps.len() == total,
                rest@ == ps.skip(i as int),
                fb_type == fb_type_value(last_param(ps.take(i as int), ParameterKind::FreeBusyType)),
                x_parameters@ == x_params(ps.take(i as int)),
                retained@ == retained_params(ps.take(i as int), fb_claims()),
            decreases rest@.len(),
        {
            let ghost pre = ps.take(i as int);
            let p = rest.remove(0);
            let ghost cur = ps.take(i as int + 1);
            assert(cur.drop_last() =~= pre);
            assert(cur.last() == p);
            match p {
                Parameter::FreeBusyType { value, .. } => {
                    assert(fb_claims()[0] == ParameterKind::FreeBusyType);
                    fb_type = value;
                },
                Parameter::XName(raw) => {
                    x_parameters.push(raw);
                },
                p => {
                    assert(!fb_claims().contains(param_kind(p))) by {
                        assert(fb_claims().len() == 1);
                        assert(param_kind(p) != fb_claims()[0]);
                    }
                    retained.push(p);
                },
            }
            assert(rest@ =~= ps.skip(i as int + 1));
            i = i + 1;
        }
        assert(ps.take(i as int) =~= ps);
        match prop.value {
            Value::Period { values, span } => {
                if values.len() == 0 {
                    let es = vec![TypedError::PropertyMissingValue { property: prop.kind, span: prop.span }];
                    assert(es@ =~= seq![TypedError::PropertyMissingValue { property: prop.kind, span: prop.span }]);
                    return Err(es);
                }
                let ghost vs = values@;
                let n = values.len();
                let mut periods: Vec<Period<SpannedSegments<'src>>> = Vec::new();
                let mut errors: Vec<TypedError<'src>> = Vec::new();
                let mut left = values;
                let mut k: usize = 0;
                assert(vs.take(0) =~= Seq::<ValuePeriod>::empty());
                while left.len() > 0
                    invariant
                        0 <= k <= vs.len(),
                        vs.len() == n,
                        left@ == vs.skip(k as int),
                        errors@.len() == backward_periods(vs.take(k as int)),
                        forall|j: int|
                            0 <= j < errors@.len() ==> invalid_value_error(
                                #[trigger] errors@[j],
                                PropertyKind::FreeBusy,
                                backward_period_message(),
                                span,
                            ),
                        periods@ == periods_of::<'src>(vs.take(k as int)),
                    decreases left@.len(),
                {
                    let v = left.remove(0);
                    assert(vs.take(k as int + 1).drop_last() =~= vs.take(k as int));
                    assert(vs.take(k as int + 1).last() == v);
                    match read_period(v) {
                        Some(p) => periods.push(p),
                        None => errors.push(
                            TypedError::PropertyInvalidValue {
                                property: PropertyKind::FreeBusy,
                                value: "Duration must be positive for periods".to_owned(),
                                span,
                            },
                        ),
                    }
                    assert(left@ =~= vs.skip(k as int + 1));
                    k = k + 1;
                }
                assert(vs.take(k as int) =~= vs);
                if errors.len() > 0 {
                    return Err(errors);
                }
                Ok(FreeBusy {
                    fb_type,
                    values: periods,
                    x_parameters,
                    retained_parameters: retained,
                    span: prop.span,
                })
            },
            v => {
                let span = v.span();
                let mut expected: Vec<PropertyValueKind> = Vec::new();
                expected.push(PropertyValueKind::Period);
                assert(expected@ =~= seq![PropertyValueKind::Period]);
                Err(vec![TypedError::PropertyUnexpectedValue { property: prop.kind, expected, found: v.kind(), span }])
            },
        }
    }

    /// Convert borrowed `FreeBusy` to owned `FreeBusy`
    pub fn to_owned(&self) -> (r: FreeBusy<String>)
        ensures
            free_busy_type_agrees(r.fb_type, self.fb_type),
            r.values@.len() == self.values@.len(),
            forall|i: int| 0 <= i < r.values@.len() ==> period_agrees(#[trigger] r.values@[i], self.values@[i]),
            raw_params_agree(r.x_parameters@, self.x_parameters@),
            params_agree(r.retained_parameters@, self.retained_parameters@),
    {
        let mut values: Vec<Period<String>> = Vec::new();
        let mut i: usize = 0;
        while i < self.values.len()
            invariant
                0 <= i <= self.values@.len(),
                values@.len() == i,
                forall|j: int| 0 <= j < i ==> period_agrees(#[trigger] values@[j], self.values@[j]),
            decreases self.values@.len() - i,
        {
            let ghost prev = values@;
            let p = self.values[i].to_owned();
            values.push(p);
            assert forall|j: int| 0 <= j < i + 1 implies period_agrees(#[trigger] values@[j], self.values@[j]) by {
                if j < i {
                    assert(values@[j] == prev[j]);
                }
            }
            i = i + 1;
        }
        FreeBusy {
            fb_type: self.fb_type.to_owned(),
            values,
            x_parameters: raw_params_to_owned(&self.x_parameters),
            retained_parameters: params_to_owned(&self.retained_parameters),
            span: (),
        }
    }

    /// Get the span of this property
    pub fn span(&self) -> (r: Span)
        ensures
            r == self.span,
    {
        self.span
    }
}

} // verus!
