//! Property kinds and the value types that each property allows.

use vstd::prelude::*;
use vstd::string::StringSliceAdditionalSpecFns;

use crate::keyword::{
    KW_ACTION, KW_ATTACH, KW_ATTENDEE, KW_BINARY, KW_BOOLEAN, KW_CALSCALE, KW_CAL_ADDRESS, KW_CATEGORIES, KW_CLASS, KW_COMMENT, KW_COMPLETED, KW_CONTACT, KW_CREATED, KW_DATE, KW_DATETIME, KW_DESCRIPTION, KW_DTEND, KW_DTSTAMP, KW_DTSTART, KW_DUE, KW_DURATION, KW_DURATION_TYPE, KW_EXDATE, KW_FLOAT, KW_FREEBUSY, KW_GEO, KW_INTEGER, KW_LAST_MODIFIED, KW_LOCATION, KW_METHOD, KW_ORGANIZER, KW_PERCENT_COMPLETE, KW_PERIOD, KW_PRIORITY, KW_PRODID, KW_RDATE, KW_RECUR, KW_RECURRENCE_ID, KW_RELATED_TO, KW_REPEAT, KW_REQUEST_STATUS, KW_RESOURCES, KW_RRULE, KW_SEQUENCE, KW_STATUS, KW_SUMMARY, KW_TEXT, KW_TIME, KW_TRANSP, KW_TRIGGER, KW_TZID, KW_TZNAME, KW_TZOFFSETFROM, KW_TZOFFSETTO, KW_TZURL, KW_UID, KW_URI, KW_URL, KW_UTC_OFFSET, KW_VERSION,
};
use crate::string_storage::{SpannedSegments, ascii_lower, eq_ignore_ascii_case, lemma_ascii_str_bytes};

verus! {

/// The value types of RFC 5545 (Section 3.3).
#[derive(Debug, Clone, Copy, PartialEq, Eq, Structural)]
pub enum PropertyValueKind {
    /// `BINARY`
    Binary,
    /// `BOOLEAN`
    Boolean,
    /// `CAL-ADDRESS`
    CalendarUserAddress,
    /// `DATE`
    Date,
    /// `DATE-TIME`
    DateTime,
    /// `DURATION`
    Duration,
    /// `FLOAT`
    Float,
    /// `INTEGER`
    Integer,
    /// `PERIOD`
    Period,
    /// `RECUR`
    RecurrenceRule,
    /// `TEXT`
    Text,
    /// `TIME`
    Time,
    /// `URI`
    Uri,
    /// `UTC-OFFSET`
    UtcOffset,
}

impl PropertyValueKind {
    /// The keyword of this value type.
    pub fn as_str(&self) -> (r: &'static str)
        ensures
            r == value_kind_keyword(*self),
    {
        match self {
            PropertyValueKind::Binary => KW_BINARY,
            PropertyValueKind::Boolean => KW_BOOLEAN,
            PropertyValueKind::CalendarUserAddress => KW_CAL_ADDRESS,
            PropertyValueKind::Date => KW_DATE,
            PropertyValueKind::DateTime => KW_DATETIME,
            PropertyValueKind::Duration => KW_DURATION_TYPE,
            PropertyValueKind::Float => KW_FLOAT,
            PropertyValueKind::Integer => KW_INTEGER,
            PropertyValueKind::Period => KW_PERIOD,
            PropertyValueKind::RecurrenceRule => KW_RECUR,
            PropertyValueKind::Text => KW_TEXT,
            PropertyValueKind::Time => KW_TIME,
            PropertyValueKind::Uri => KW_URI,
            PropertyValueKind::UtcOffset => KW_UTC_OFFSET,
        }
    }
}

/// The keyword of a value type.
pub open spec fn value_kind_keyword(k: PropertyValueKind) -> &'static str {
    match k {
        PropertyValueKind::Binary => KW_BINARY,
        PropertyValueKind::Boolean => KW_BOOLEAN,
        PropertyValueKind::CalendarUserAddress => KW_CAL_ADDRESS,
        PropertyValueKind::Date => KW_DATE,
        PropertyValueKind::DateTime => KW_DATETIME,
        PropertyValueKind::Duration => KW_DURATION_TYPE,
        PropertyValueKind::Float => KW_FLOAT,
        PropertyValueKind::Integer => KW_INTEGER,
        PropertyValueKind::Period => KW_PERIOD,
        PropertyValueKind::RecurrenceRule => KW_RECUR,
        PropertyValueKind::Text => KW_TEXT,
        PropertyValueKind::Time => KW_TIME,
        PropertyValueKind::Uri => KW_URI,
        PropertyValueKind::UtcOffset => KW_UTC_OFFSET,
    }
}

/// Kind of iCalendar property: the standard properties of RFC 5545, an
/// experimental `X-` property, or an unrecognized one.
#[derive(Debug)]
pub enum PropertyKind<S> {
    /// `CALSCALE`
    CalScale,
    /// `METHOD`
    Method,
    /// `PRODID`
    ProdId,
    /// `VERSION`
    Version,
    /// `ATTACH`
    Attach,
    /// `CATEGORIES`
    Categories,
    /// `CLASS`
    Class,
    /// `COMMENT`
    Comment,
    /// `DESCRIPTION`
    Description,
    /// `GEO`
    Geo,
    /// `LOCATION`
    Location,
    /// `PERCENT-COMPLETE`
    PercentComplete,
    /// `PRIORITY`
    Priority,
    /// `RESOURCES`
    Resources,
    /// `STATUS`
    Status,
    /// `SUMMARY`
    Summary,
    /// `COMPLETED`
    Completed,
    /// `DTEND`
    DtEnd,
    /// `DUE`
    Due,
    /// `DTSTART`
    DtStart,
    /// `DURATION`
    Duration,
    /// `FREEBUSY`
    FreeBusy,
    /// `TRANSP`
    Transp,
    /// `TZID`
    TzId,
    /// `TZNAME`
    TzName,
    /// `TZOFFSETFROM`
    TzOffsetFrom,
    /// `TZOFFSETTO`
    TzOffsetTo,
    /// `TZURL`
    TzUrl,
    /// `ATTENDEE`
    Attendee,
    /// `CONTACT`
    Contact,
    /// `ORGANIZER`
    Organizer,
    /// `RECURRENCE-ID`
    RecurrenceId,
    /// `RELATED-TO`
    RelatedTo,
    /// `URL`
    Url,
    /// `UID`
    Uid,
    /// `EXDATE`
    ExDate,
    /// `RDATE`
    RDate,
    /// `RRULE`
    RRule,
    /// `ACTION`
    Action,
    /// `REPEAT`
    Repeat,
    /// `TRIGGER`
    Trigger,
    /// `CREATED`
    Created,
    /// `DTSTAMP`
    DtStamp,
    /// `LAST-MODIFIED`
    LastModified,
    /// `SEQUENCE`
    Sequence,
    /// `REQUEST-STATUS`
    RequestStatus,
    /// Custom experimental x-name property (starts with "X-" or "x-")
    XName(S),
    /// Unrecognized property (not a known standard property)
    Unrecognized(S),
}

/// Type alias for borrowed `PropertyKind`
pub type PropertyKindRef<'src> = PropertyKind<SpannedSegments<'src>>;

/// Type alias for owned `PropertyKind`
pub type PropertyKindOwned = PropertyKind<String>;

/// The keyword of a standard property kind.
pub open spec fn kind_keyword<S>(k: PropertyKind<S>) -> Option<&'static str> {
    match k {
        PropertyKind::CalScale => Some(KW_CALSCALE),
        PropertyKind::Method => Some(KW_METHOD),
        PropertyKind::ProdId => Some(KW_PRODID),
        PropertyKind::Version => Some(KW_VERSION),
        PropertyKind::Attach => Some(KW_ATTACH),
        PropertyKind::Categories => Some(KW_CATEGORIES),
        PropertyKind::Class => Some(KW_CLASS),
        PropertyKind::Comment => Some(KW_COMMENT),
        PropertyKind::Description => Some(KW_DESCRIPTION),
        PropertyKind::Geo => Some(KW_GEO),
        PropertyKind::Location => Some(KW_LOCATION),
        PropertyKind::PercentComplete => Some(KW_PERCENT_COMPLETE),
        PropertyKind::Priority => Some(KW_PRIORITY),
        PropertyKind::Resources => Some(KW_RESOURCES),
        PropertyKind::Status => Some(KW_STATUS),
        PropertyKind::Summary => Some(KW_SUMMARY),
        PropertyKind::Completed => Some(KW_COMPLETED),
        PropertyKind::DtEnd => Some(KW_DTEND),
        PropertyKind::Due => Some(KW_DUE),
        PropertyKind::DtStart => Some(KW_DTSTART),
        PropertyKind::Duration => Some(KW_DURATION),
        PropertyKind::FreeBusy => Some(KW_FREEBUSY),
        PropertyKind::Transp => Some(KW_TRANSP),
        PropertyKind::TzId => Some(KW_TZID),
        PropertyKind::TzName => Some(KW_TZNAME),
        PropertyKind::TzOffsetFrom => Some(KW_TZOFFSETFROM),
        PropertyKind::TzOffsetTo => Some(KW_TZOFFSETTO),
        PropertyKind::TzUrl => Some(KW_TZURL),
        PropertyKind::Attendee => Some(KW_ATTENDEE),
        PropertyKind::Contact => Some(KW_CONTACT),
        PropertyKind::Organizer => Some(KW_ORGANIZER),
        PropertyKind::RecurrenceId => Some(KW_RECURRENCE_ID),
        PropertyKind::RelatedTo => Some(KW_RELATED_TO),
        PropertyKind::Url => Some(KW_URL),
        PropertyKind::Uid => Some(KW_UID),
        PropertyKind::ExDate => Some(KW_EXDATE),
        PropertyKind::RDate => Some(KW_RDATE),
        PropertyKind::RRule => Some(KW_RRULE),
        PropertyKind::Action => Some(KW_ACTION),
        PropertyKind::Repeat => Some(KW_REPEAT),
        PropertyKind::Trigger => Some(KW_TRIGGER),
        PropertyKind::Created => Some(KW_CREATED),
        PropertyKind::DtStamp => Some(KW_DTSTAMP),
        PropertyKind::LastModified => Some(KW_LAST_MODIFIED),
        PropertyKind::Sequence => Some(KW_SEQUENCE),
        PropertyKind::RequestStatus => Some(KW_REQUEST_STATUS),
        PropertyKind::XName(_) => None,
        PropertyKind::Unrecognized(_) => None,
    }
}

/// The standard kind whose keyword the bytes spell (ASCII case ignored),
/// if any.
pub open spec fn standard_kind<S>(b: Seq<u8>) -> Option<PropertyKind<S>> {
    if standard_kind_part0::<S>(b) is Some {
        standard_kind_part0::<S>(b)
    } else if standard_kind_part1::<S>(b) is Some {
        standard_kind_part1::<S>(b)
    } else if standard_kind_part2::<S>(b) is Some {
        standard_kind_part2::<S>(b)
    } else if standard_kind_part3::<S>(b) is Some {
        standard_kind_part3::<S>(b)
    } else {
        None
    }
}

/// Part 1 of the table of standard kinds.
#[verifier::opaque]
pub open spec fn standard_kind_part0<S>(b: Seq<u8>) -> Option<PropertyKind<S>> {
    if eq_ignore_ascii_case(b, KW_CALSCALE.spec_bytes()) {
        Some(PropertyKind::CalScale)
    } else if eq_ignore_ascii_case(b, KW_METHOD.spec_bytes()) {
        Some(PropertyKind::Method)
    } else if eq_ignore_ascii_case(b, KW_PRODID.spec_bytes()) {
        Some(PropertyKind::ProdId)
    } else if eq_ignore_ascii_case(b, KW_VERSION.spec_bytes()) {
        Some(PropertyKind::Version)
    } else if eq_ignore_ascii_case(b, KW_ATTACH.spec_bytes()) {
        Some(PropertyKind::Attach)
    } else if eq_ignore_ascii_case(b, KW_CATEGORIES.spec_bytes()) {
        Some(PropertyKind::Categories)
    } else if eq_ignore_ascii_case(b, KW_CLASS.spec_bytes()) {
        Some(PropertyKind::Class)
    } else if eq_ignore_ascii_case(b, KW_COMMENT.spec_bytes()) {
        Some(PropertyKind::Comment)
    } else if eq_ignore_ascii_case(b, KW_DESCRIPTION.spec_bytes()) {
        Some(PropertyKind::Description)
    } else if eq_ignore_ascii_case(b, KW_GEO.spec_bytes()) {
        Some(PropertyKind::Geo)
    } else if eq_ignore_ascii_case(b, KW_LOCATION.spec_bytes()) {
        Some(PropertyKind::Location)
    } else if eq_ignore_ascii_case(b, KW_PERCENT_COMPLETE.spec_bytes()) {
        Some(PropertyKind::PercentComplete)
    } else {
        None
    }
}

/// Part 2 of the table of standard kinds.
#[verifier::opaque]
pub open spec fn standard_kind_part1<S>(b: Seq<u8>) -> Option<PropertyKind<S>> {
    if eq_ignore_ascii_case(b, KW_PRIORITY.spec_bytes()) {
        Some(PropertyKind::Priority)
    } else if eq_ignore_ascii_case(b, KW_RESOURCES.spec_bytes()) {
        Some(PropertyKind::Resources)
    } else if eq_ignore_ascii_case(b, KW_STATUS.spec_bytes()) {
        Some(PropertyKind::Status)
    } else if eq_ignore_ascii_case(b, KW_SUMMARY.spec_bytes()) {
        Some(PropertyKind::Summary)
    } else if eq_ignore_ascii_case(b, KW_COMPLETED.spec_bytes()) {
        Some(PropertyKind::Completed)
    } else if eq_ignore_ascii_case(b, KW_DTEND.spec_bytes()) {
        Some(PropertyKind::DtEnd)
    } else if eq_ignore_ascii_case(b, KW_DUE.spec_bytes()) {
        Some(PropertyKind::Due)
    } else if eq_ignore_ascii_case(b, KW_DTSTART.spec_bytes()) {
        Some(PropertyKind::DtStart)
    } else if eq_ignore_ascii_case(b, KW_DURATION.spec_bytes()) {
        Some(PropertyKind::Duration)
    } else if eq_ignore_ascii_case(b, KW_FREEBUSY.spec_bytes()) {
        Some(PropertyKind::FreeBusy)
    } else if eq_ignore_ascii_case(b, KW_TRANSP.spec_bytes()) {
        Some(PropertyKind::Transp)
    } else if eq_ignore_ascii_case(b, KW_TZID.spec_bytes()) {
        Some(PropertyKind::TzId)
    } else {
        None
    }
}

/// Part 3 of the table of standard kinds.
#[verifier::opaque]
pub open spec fn standard_kind_part2<S>(b: Seq<u8>) -> Option<PropertyKind<S>> {
    if eq_ignore_ascii_case(b, KW_TZNAME.spec_bytes()) {
        Some(PropertyKind::TzName)
    } else if eq_ignore_ascii_case(b, KW_TZOFFSETFROM.spec_bytes()) {
        Some(PropertyKind::TzOffsetFrom)
    } else if eq_ignore_ascii_case(b, KW_TZOFFSETTO.spec_bytes()) {
        Some(PropertyKind::TzOffsetTo)
    } else if eq_ignore_ascii_case(b, KW_TZURL.spec_bytes()) {
        Some(PropertyKind::TzUrl)
    } else if eq_ignore_ascii_case(b, KW_ATTENDEE.spec_bytes()) {
        Some(PropertyKind::Attendee)
    } else if eq_ignore_ascii_case(b, KW_CONTACT.spec_bytes()) {
        Some(PropertyKind::Contact)
    } else if eq_ignore_ascii_case(b, KW_ORGANIZER.spec_bytes()) {
        Some(PropertyKind::Organizer)
    } else if eq_ignore_ascii_case(b, KW_RECURRENCE_ID.spec_bytes()) {
        Some(PropertyKind::RecurrenceId)
    } else if eq_ignore_ascii_case(b, KW_RELATED_TO.spec_bytes()) {
        Some(PropertyKind::RelatedTo)
    } else if eq_ignore_ascii_case(b, KW_URL.spec_bytes()) {
        Some(PropertyKind::Url)
    } else if eq_ignore_ascii_case(b, KW_UID.spec_bytes()) {
        Some(PropertyKind::Uid)
    } else if eq_ignore_ascii_case(b, KW_EXDATE.spec_bytes()) {
        Some(PropertyKind::ExDate)
    } else {
        None
    }
}

/// Part 4 of the table of standard kinds.
#[verifier::opaque]
pub open spec fn standard_kind_part3<S>(b: Seq<u8>) -> Option<PropertyKind<S>> {
    if eq_ignore_ascii_case(b, KW_RDATE.spec_bytes()) {
        Some(PropertyKind::RDate)
    } else if eq_ignore_ascii_case(b, KW_RRULE.spec_bytes()) {
        Some(PropertyKind::RRule)
    } else if eq_ignore_ascii_case(b, KW_ACTION.spec_bytes()) {
        Some(PropertyKind::Action)
    } else if eq_ignore_ascii_case(b, KW_REPEAT.spec_bytes()) {
        Some(PropertyKind::Repeat)
    } else if eq_ignore_ascii_case(b, KW_TRIGGER.spec_bytes()) {
        Some(PropertyKind::Trigger)
    } else if eq_ignore_ascii_case(b, KW_CREATED.spec_bytes()) {
        Some(PropertyKind::Created)
    } else if eq_ignore_ascii_case(b, KW_DTSTAMP.spec_bytes()) {
        Some(PropertyKind::DtStamp)
    } else if eq_ignore_ascii_case(b, KW_LAST_MODIFIED.spec_bytes()) {
        Some(PropertyKind::LastModified)
    } else if eq_ignore_ascii_case(b, KW_SEQUENCE.spec_bytes()) {
        Some(PropertyKind::Sequence)
    } else if eq_ignore_ascii_case(b, KW_REQUEST_STATUS.spec_bytes()) {
        Some(PropertyKind::RequestStatus)
    } else {
        None
    }
}

/// The value types allowed for a property kind; `None` for experimental and
/// unrecognized properties, whose value types are not known.
pub open spec fn kind_value_types<S>(k: PropertyKind<S>) -> Option<Seq<PropertyValueKind>> {
    match k {
        PropertyKind::CalScale => Some(seq![PropertyValueKind::Text]),
        PropertyKind::Method => Some(seq![PropertyValueKind::Text]),
        PropertyKind::ProdId => Some(seq![PropertyValueKind::Text]),
        PropertyKind::Version => Some(seq![PropertyValueKind::Text]),
        PropertyKind::Attach => Some(seq![PropertyValueKind::Uri, PropertyValueKind::Binary]),
        PropertyKind::Categories => Some(seq![PropertyValueKind::Text]),
        PropertyKind::Class => Some(seq![PropertyValueKind::Text]),
        PropertyKind::Comment => Some(seq![PropertyValueKind::Text]),
        PropertyKind::Description => Some(seq![PropertyValueKind::Text]),
        PropertyKind::Geo => Some(seq![PropertyValueKind::Text]),
        PropertyKind::Location => Some(seq![PropertyValueKind::Text]),
        PropertyKind::PercentComplete => Some(seq![PropertyValueKind::Integer]),
        PropertyKind::Priority => Some(seq![PropertyValueKind::Integer]),
        PropertyKind::Resources => Some(seq![PropertyValueKind::Text]),
        PropertyKind::Status => Some(seq![PropertyValueKind::Text]),
        PropertyKind::Summary => Some(seq![PropertyValueKind::Text]),
        PropertyKind::Completed => Some(seq![PropertyValueKind::DateTime]),
        PropertyKind::DtEnd => Some(seq![PropertyValueKind::DateTime, PropertyValueKind::Date]),
        PropertyKind::Due => Some(seq![PropertyValueKind::DateTime, PropertyValueKind::Date]),
        PropertyKind::DtStart => Some(seq![PropertyValueKind::DateTime, PropertyValueKind::Date]),
        PropertyKind::Duration => Some(seq![PropertyValueKind::Duration]),
        PropertyKind::FreeBusy => Some(seq![PropertyValueKind::Period]),
        PropertyKind::Transp => Some(seq![PropertyValueKind::Text]),
        PropertyKind::TzId => Some(seq![PropertyValueKind::Text]),
        PropertyKind::TzName => Some(seq![PropertyValueKind::Text]),
        PropertyKind::TzOffsetFrom => Some(seq![PropertyValueKind::UtcOffset]),
        PropertyKind::TzOffsetTo => Some(seq![PropertyValueKind::UtcOffset]),
        PropertyKind::TzUrl => Some(seq![PropertyValueKind::Uri]),
        PropertyKind::Attendee => Some(seq![PropertyValueKind::CalendarUserAddress]),
        PropertyKind::Contact => Some(seq![PropertyValueKind::Text]),
        PropertyKind::Organizer => Some(seq![PropertyValueKind::CalendarUserAddress]),
        PropertyKind::RecurrenceId => Some(seq![PropertyValueKind::DateTime, PropertyValueKind::Date]),
        PropertyKind::RelatedTo => Some(seq![PropertyValueKind::Text]),
        PropertyKind::Url => Some(seq![PropertyValueKind::Uri]),
        PropertyKind::Uid => Some(seq![PropertyValueKind::Text]),
        PropertyKind::ExDate => Some(seq![PropertyValueKind::DateTime, PropertyValueKind::Date]),
        PropertyKind::RDate => Some(seq![PropertyValueKind::DateTime, PropertyValueKind::Date, PropertyValueKind::Period]),
        PropertyKind::RRule => Some(seq![PropertyValueKind::RecurrenceRule]),
        PropertyKind::Action => Some(seq![PropertyValueKind::Text]),
        PropertyKind::Repeat => Some(seq![PropertyValueKind::Integer]),
        PropertyKind::Trigger => Some(seq![PropertyValueKind::Duration, PropertyValueKind::DateTime]),
        PropertyKind::Created => Some(seq![PropertyValueKind::DateTime]),
        PropertyKind::DtStamp => Some(seq![PropertyValueKind::DateTime]),
        PropertyKind::LastModified => Some(seq![PropertyValueKind::DateTime]),
        PropertyKind::Sequence => Some(seq![PropertyValueKind::Integer]),
        PropertyKind::RequestStatus => Some(seq![PropertyValueKind::Text]),
        PropertyKind::XName(_) => None,
        PropertyKind::Unrecognized(_) => None,
    }
}

#[verifier::spinoff_prover]
proof fn lemma_kind_name_round_trip_part0<S>(k: PropertyKind<S>)
    ensures
        k is CalScale || k is Method || k is ProdId || k is Version || k is Attach || k is Categories || k is Class || k is Comment || k is Description || k is Geo || k is Location || k is PercentComplete ==> standard_kind::<S>(kind_keyword(k)->0.spec_bytes()) == Some(k),
{
    reveal(eq_ignore_ascii_case);
    reveal(standard_kind_part0);
    let b = kind_keyword(k)->0.spec_bytes();
    assert(eq_ignore_ascii_case(b, b));
    match k {
        PropertyKind::CalScale => {
            reveal_strlit("CALSCALE");
            lemma_ascii_str_bytes(KW_CALSCALE);
        }
        PropertyKind::Method => {
            reveal_strlit("CALSCALE");
            reveal_strlit("METHOD");
            lemma_ascii_str_bytes(KW_METHOD);
            lemma_ascii_str_bytes(KW_CALSCALE);
            assert(b.len() != KW_CALSCALE.spec_bytes().len());
        }
        PropertyKind::ProdId => {
            reveal_strlit("CALSCALE");
            reveal_strlit("METHOD");
            reveal_strlit("PRODID");
            lemma_ascii_str_bytes(KW_PRODID);
            lemma_ascii_str_bytes(KW_CALSCALE);
            assert(b.len() != KW_CALSCALE.spec_bytes().len());
            lemma_ascii_str_bytes(KW_METHOD);
            assert(ascii_lower(b[0]) != ascii_lower(KW_METHOD.spec_bytes()[0]));
        }
        PropertyKind::Version => {
            reveal_strlit("CALSCALE");
            reveal_strlit("METHOD");
            reveal_strlit("PRODID");
            reveal_strlit("VERSION");
            lemma_ascii_str_bytes(KW_VERSION);
            lemma_ascii_str_bytes(KW_CALSCALE);
            assert(b.len() != KW_CALSCALE.spec_bytes().len());
            lemma_ascii_str_bytes(KW_METHOD);
            assert(b.len() != KW_METHOD.spec_bytes().len());
            lemma_ascii_str_bytes(KW_PRODID);
            assert(b.len() != KW_PRODID.spec_bytes().len());
        }
        PropertyKind::Attach => {
            reveal_strlit("CALSCALE");
            reveal_strlit("METHOD");
            reveal_strlit("PRODID");
            reveal_strlit("VERSION");
            reveal_strlit("ATTACH");
            lemma_ascii_str_bytes(KW_ATTACH);
            lemma_ascii_str_bytes(KW_CALSCALE);
            assert(b.len() != KW_CALSCALE.spec_bytes().len());
            lemma_ascii_str_bytes(KW_METHOD);
            assert(ascii_lower(b[0]) != ascii_lower(KW_METHOD.spec_bytes()[0]));
            lemma_ascii_str_bytes(KW_PRODID);
            assert(ascii_lower(b[0]) != ascii_lower(KW_PRODID.spec_bytes()[0]));
            lemma_ascii_str_bytes(KW_VERSION);
            assert(b.len() != KW_VERSION.spec_bytes().len());
        }
        PropertyKind::Categories => {
            reveal_strlit("CALSCALE");
            reveal_strlit("METHOD");
            reveal_strlit("PRODID");
            reveal_strlit("VERSION");
            reveal_strlit("ATTACH");
            reveal_strlit("CATEGORIES");
            lemma_ascii_str_bytes(KW_CATEGORIES);
            lemma_ascii_str_bytes(KW_CALSCALE);
            assert(b.len() != KW_CALSCALE.spec_bytes().len());
            lemma_ascii_str_bytes(KW_METHOD);
            assert(b.len() != KW_METHOD.spec_bytes().len());
            lemma_ascii_str_bytes(KW_PRODID);
            assert(b.len() != KW_PRODID.spec_bytes().len());
            lemma_ascii_str_bytes(KW_VERSION);
            assert(b.len() != KW_VERSION.spec_bytes().len());
            lemma_ascii_str_bytes(KW_ATTACH);
            assert(b.len() != KW_ATTACH.spec_bytes().len());
        }
        PropertyKind::Class => {
            reveal_strlit("CALSCALE");
            reveal_strlit("METHOD");
            reveal_strlit("PRODID");
            reveal_strlit("VERSION");
            reveal_strlit("ATTACH");
            reveal_strlit("CATEGORIES");
            reveal_strlit("CLASS");
            lemma_ascii_str_bytes(KW_CLASS);
            lemma_ascii_str_bytes(KW_CALSCALE);
            assert(b.len() != KW_CALSCALE.spec_bytes().len());
            lemma_ascii_str_bytes(KW_METHOD);
            assert(b.len() != KW_METHOD.spec_bytes().len());
            lemma_ascii_str_bytes(KW_PRODID);
            assert(b.len() != KW_PRODID.spec_bytes().len());
            lemma_ascii_str_bytes(KW_VERSION);
            assert(b.len() != KW_VERSION.spec_bytes().len());
            lemma_ascii_str_bytes(KW_ATTACH);
            assert(b.len() != KW_ATTACH.spec_bytes().len());
            lemma_ascii_str_bytes(KW_CATEGORIES);
            assert(b.len() != KW_CATEGORIES.spec_bytes().len());
        }
        PropertyKind::Comment => {
            reveal_strlit("CALSCALE");
            reveal_strlit("METHOD");
            reveal_strlit("PRODID");
            reveal_strlit("VERSION");
            reveal_strlit("ATTACH");
            reveal_strlit("CATEGORIES");
            reveal_strlit("CLASS");
            reveal_strlit("COMMENT");
            lemma_ascii_str_bytes(KW_COMMENT);
            lemma_ascii_str_bytes(KW_CALSCALE);
            assert(b.len() != KW_CALSCALE.spec_bytes().len());
            lemma_ascii_str_bytes(KW_METHOD);
            assert(b.len() != KW_METHOD.spec_bytes().len());
            lemma_ascii_str_bytes(KW_PRODID);
            assert(b.len() != KW_PRODID.spec_bytes().len());
            lemma_ascii_str_bytes(KW_VERSION);
            assert(ascii_lower(b[0]) != ascii_lower(KW_VERSION.spec_bytes()[0]));
            lemma_ascii_str_bytes(KW_ATTACH);
            assert(b.len() != KW_ATTACH.spec_bytes().len());
            lemma_ascii_str_bytes(KW_CATEGORIES);
            assert(b.len() != KW_CATEGORIES.spec_bytes().len());
            lemma_ascii_str_bytes(KW_CLASS);
            assert(b.len() != KW_CLASS.spec_bytes().len());
        }
        PropertyKind::Description => {
            reveal_strlit("CALSCALE");
            reveal_strlit("METHOD");
            reveal_strlit("PRODID");
            reveal_strlit("VERSION");
            reveal_strlit("ATTACH");
            reveal_strlit("CATEGORIES");
            reveal_strlit("CLASS");
            reveal_strlit("COMMENT");
            reveal_strlit("DESCRIPTION");
            lemma_ascii_str_bytes(KW_DESCRIPTION);
            lemma_ascii_str_bytes(KW_CALSCALE);
            assert(b.len() != KW_CALSCALE.spec_bytes().len());
            lemma_ascii_str_bytes(KW_METHOD);
            assert(b.len() != KW_METHOD.spec_bytes().len());
            lemma_ascii_str_bytes(KW_PRODID);
            assert(b.len() != KW_PRODID.spec_bytes().len());
            lemma_ascii_str_bytes(KW_VERSION);
            assert(b.len() != KW_VERSION.spec_bytes().len());
            lemma_ascii_str_bytes(KW_ATTACH);
            assert(b.len() != KW_ATTACH.spec_bytes().len());
            lemma_ascii_str_bytes(KW_CATEGORIES);
            assert(b.len() != KW_CATEGORIES.spec_bytes().len());
            lemma_ascii_str_bytes(KW_CLASS);
            assert(b.len() != KW_CLASS.spec_bytes().len());
            lemma_ascii_str_bytes(KW_COMMENT);
            assert(b.len() != KW_COMMENT.spec_bytes().len());
        }
        PropertyKind::Geo => {
            reveal_strlit("CALSCALE");
            reveal_strlit("METHOD");
            reveal_strlit("PRODID");
            reveal_strlit("VERSION");
            reveal_strlit("ATTACH");
            reveal_strlit("CATEGORIES");
            reveal_strlit("CLASS");
            reveal_strlit("COMMENT");
            reveal_strlit("DESCRIPTION");
            reveal_strlit("GEO");
            lemma_ascii_str_bytes(KW_GEO);
            lemma_ascii_str_bytes(KW_CALSCALE);
            assert(b.len() != KW_CALSCALE.spec_bytes().len());
            lemma_ascii_str_bytes(KW_METHOD);
            assert(b.len() != KW_METHOD.spec_bytes().len());
            lemma_ascii_str_bytes(KW_PRODID);
            assert(b.len() != KW_PRODID.spec_bytes().len());
            lemma_ascii_str_bytes(KW_VERSION);
            assert(b.len() != KW_VERSION.spec_bytes().len());
            lemma_ascii_str_bytes(KW_ATTACH);
            assert(b.len() != KW_ATTACH.spec_bytes().len());
            lemma_ascii_str_bytes(KW_CATEGORIES);
            assert(b.len() != KW_CATEGORIES.spec_bytes().len());
            lemma_ascii_str_bytes(KW_CLASS);
            assert(b.len() != KW_CLASS.spec_bytes().len());
            lemma_ascii_str_bytes(KW_COMMENT);
            assert(b.len() != KW_COMMENT.spec_bytes().len());
            lemma_ascii_str_bytes(KW_DESCRIPTION);
            assert(b.len() != KW_DESCRIPTION.spec_bytes().len());
        }
        PropertyKind::Location => {
            reveal_strlit("CALSCALE");
            reveal_strlit("METHOD");
            reveal_strlit("PRODID");
            reveal_strlit("VERSION");
            reveal_strlit("ATTACH");
            reveal_strlit("CATEGORIES");
            reveal_strlit("CLASS");
            reveal_strlit("COMMENT");
            reveal_strlit("DESCRIPTION");
            reveal_strlit("GEO");
            reveal_strlit("LOCATION");
            lemma_ascii_str_bytes(KW_LOCATION);
            lemma_ascii_str_bytes(KW_CALSCALE);
            assert(ascii_lower(b[0]) != ascii_lower(KW_CALSCALE.spec_bytes()[0]));
            lemma_ascii_str_bytes(KW_METHOD);
            assert(b.len() != KW_METHOD.spec_bytes().len());
            lemma_ascii_str_bytes(KW_PRODID);
            assert(b.len() != KW_PRODID.spec_bytes().len());
            lemma_ascii_str_bytes(KW_VERSION);
            assert(b.len() != KW_VERSION.spec_bytes().len());
            lemma_ascii_str_bytes(KW_ATTACH);
            assert(b.len() != KW_ATTACH.spec_bytes().len());
            lemma_ascii_str_bytes(KW_CATEGORIES);
            assert(b.len() != KW_CATEGORIES.spec_bytes().len());
            lemma_ascii_str_bytes(KW_CLASS);
            assert(b.len() != KW_CLASS.spec_bytes().len());
            lemma_ascii_str_bytes(KW_COMMENT);
            assert(b.len() != KW_COMMENT.spec_bytes().len());
            lemma_ascii_str_bytes(KW_DESCRIPTION);
            assert(b.len() != KW_DESCRIPTION.spec_bytes().len());
            lemma_ascii_str_bytes(KW_GEO);
            assert(b.len() != KW_GEO.spec_bytes().len());
        }
        PropertyKind::PercentComplete => {
            reveal_strlit("CALSCALE");
            reveal_strlit("METHOD");
            reveal_strlit("PRODID");
            reveal_strlit("VERSION");
            reveal_strlit("ATTACH");
            reveal_strlit("CATEGORIES");
            reveal_strlit("CLASS");
            reveal_strlit("COMMENT");
            reveal_strlit("DESCRIPTION");
            reveal_strlit("GEO");
            reveal_strlit("LOCATION");
            reveal_strlit("PERCENT-COMPLETE");
            lemma_ascii_str_bytes(KW_PERCENT_COMPLETE);
            lemma_ascii_str_bytes(KW_CALSCALE);
            assert(b.len() != KW_CALSCALE.spec_bytes().len());
            lemma_ascii_str_bytes(KW_METHOD);
            assert(b.len() != KW_METHOD.spec_bytes().len());
            lemma_ascii_str_bytes(KW_PRODID);
            assert(b.len() != KW_PRODID.spec_bytes().len());
            lemma_ascii_str_bytes(KW_VERSION);
            assert(b.len() != KW_VERSION.spec_bytes().len());
            lemma_ascii_str_bytes(KW_ATTACH);
            assert(b.len() != KW_ATTACH.spec_bytes().len());
            lemma_ascii_str_bytes(KW_CATEGORIES);
            assert(b.len() != KW_CATEGORIES.spec_bytes().len());
            lemma_ascii_str_bytes(KW_CLASS);
            assert(b.len() != KW_CLASS.spec_bytes().len());
            lemma_ascii_str_bytes(KW_COMMENT);
            assert(b.len() != KW_COMMENT.spec_bytes().len());
            lemma_ascii_str_bytes(KW_DESCRIPTION);
            assert(b.len() != KW_DESCRIPTION.spec_bytes().len());
            lemma_ascii_str_bytes(KW_GEO);
            assert(b.len() != KW_GEO.spec_bytes().len());
            lemma_ascii_str_bytes(KW_LOCATION);
            assert(b.len() != KW_LOCATION.spec_bytes().len());
        }
        _ => {}
    }
}

#[verifier::spinoff_prover]
proof fn lemma_kind_name_round_trip_part1<S>(k: PropertyKind<S>)
    ensures
        k is Priority || k is Resources || k is Status || k is Summary || k is Completed || k is DtEnd || k is Due || k is DtStart || k is Duration || k is FreeBusy || k is Transp || k is TzId ==> standard_kind::<S>(kind_keyword(k)->0.spec_bytes()) == Some(k),
{
    reveal(eq_ignore_ascii_case);
    reveal(standard_kind_part0);
    reveal(standard_kind_part1);
    let b = kind_keyword(k)->0.spec_bytes();
    assert(eq_ignore_ascii_case(b, b));
    match k {
        PropertyKind::Priority => {
            reveal_strlit("CALSCALE");
            reveal_strlit("METHOD");
            reveal_strlit("PRODID");
            reveal_strlit("VERSION");
            reveal_strlit("ATTACH");
            reveal_strlit("CATEGORIES");
            reveal_strlit("CLASS");
            reveal_strlit("COMMENT");
            reveal_strlit("DESCRIPTION");
            reveal_strlit("GEO");
            reveal_strlit("LOCATION");
            reveal_strlit("PERCENT-COMPLETE");
            reveal_strlit("PRIORITY");
            lemma_ascii_str_bytes(KW_PRIORITY);
            lemma_ascii_str_bytes(KW_CALSCALE);
            assert(ascii_lower(b[0]) != ascii_lower(KW_CALSCALE.spec_bytes()[0]));
            lemma_ascii_str_bytes(KW_METHOD);
            assert(b.len() != KW_METHOD.spec_bytes().len());
            lemma_ascii_str_bytes(KW_PRODID);
            assert(b.len() != KW_PRODID.spec_bytes().len());
            lemma_ascii_str_bytes(KW_VERSION);
            assert(b.len() != KW_VERSION.spec_bytes().len());
            lemma_ascii_str_bytes(KW_ATTACH);
            assert(b.len() != KW_ATTACH.spec_bytes().len());
            lemma_ascii_str_bytes(KW_CATEGORIES);
            assert(b.len() != KW_CATEGORIES.spec_bytes().len());
            lemma_ascii_str_bytes(KW_CLASS);
            assert(b.len() != KW_CLASS.spec_bytes().len());
            lemma_ascii_str_bytes(KW_COMMENT);
            assert(b.len() != KW_COMMENT.spec_bytes().len());
            lemma_ascii_str_bytes(KW_DESCRIPTION);
            assert(b.len() != KW_DESCRIPTION.spec_bytes().len());
            lemma_ascii_str_bytes(KW_GEO);
            assert(b.len() != KW_GEO.spec_bytes().len());
            lemma_ascii_str_bytes(KW_LOCATION);
            assert(ascii_lower(b[0]) != ascii_lower(KW_LOCATION.spec_bytes()[0]));
            lemma_ascii_str_bytes(KW_PERCENT_COMPLETE);
            assert(b.len() != KW_PERCENT_COMPLETE.spec_bytes().len());
        }
        PropertyKind::Resources => {
            reveal_strlit("CALSCALE");
            reveal_strlit("METHOD");
            reveal_strlit("PRODID");
            reveal_strlit("VERSION");
            reveal_strlit("ATTACH");
            reveal_strlit("CATEGORIES");
            reveal_strlit("CLASS");
            reveal_strlit("COMMENT");
            reveal_strlit("DESCRIPTION");
            reveal_strlit("GEO");
            reveal_strlit("LOCATION");
            reveal_strlit("PERCENT-COMPLETE");
            reveal_strlit("PRIORITY");
            reveal_strlit("RESOURCES");
            lemma_ascii_str_bytes(KW_RESOURCES);
            lemma_ascii_str_bytes(KW_CALSCALE);
            assert(b.len() != KW_CALSCALE.spec_bytes().len());
            lemma_ascii_str_bytes(KW_METHOD);
            assert(b.len() != KW_METHOD.spec_bytes().len());
            lemma_ascii_str_bytes(KW_PRODID);
            assert(b.len() != KW_PRODID.spec_bytes().len());
            lemma_ascii_str_bytes(KW_VERSION);
            assert(b.len() != KW_VERSION.spec_bytes().len());
            lemma_ascii_str_bytes(KW_ATTACH);
            assert(b.len() != KW_ATTACH.spec_bytes().len());
            lemma_ascii_str_bytes(KW_CATEGORIES);
            assert(b.len() != KW_CATEGORIES.spec_bytes().len());
            lemma_ascii_str_bytes(KW_CLASS);
            assert(b.len() != KW_CLASS.spec_bytes().len());
            lemma_ascii_str_bytes(KW_COMMENT);
            assert(b.len() != KW_COMMENT.spec_bytes().len());
            lemma_ascii_str_bytes(KW_DESCRIPTION);
            assert(b.len() != KW_DESCRIPTION.spec_bytes().len());
            lemma_ascii_str_bytes(KW_GEO);
            assert(b.len() != KW_GEO.spec_bytes().len());
            lemma_ascii_str_bytes(KW_LOCATION);
            assert(b.len() != KW_LOCATION.spec_bytes().len());
            lemma_ascii_str_bytes(KW_PERCENT_COMPLETE);
            assert(b.len() != KW_PERCENT_COMPLETE.spec_bytes().len());
            lemma_ascii_str_bytes(KW_PRIORITY);
            assert(b.len() != KW_PRIORITY.spec_bytes().len());
        }
        PropertyKind::Status => {
            reveal_strlit("CALSCALE");
            reveal_strlit("METHOD");
            reveal_strlit("PRODID");
            reveal_strlit("VERSION");
            reveal_strlit("ATTACH");
            reveal_strlit("CATEGORIES");
            reveal_strlit("CLASS");
            reveal_strlit("COMMENT");
            reveal_strlit("DESCRIPTION");
            reveal_strlit("GEO");
            reveal_strlit("LOCATION");
            reveal_strlit("PERCENT-COMPLETE");
            reveal_strlit("PRIORITY");
            reveal_strlit("RESOURCES");
            reveal_strlit("STATUS");
            lemma_ascii_str_bytes(KW_STATUS);
            lemma_ascii_str_bytes(KW_CALSCALE);
            assert(b.len() != KW_CALSCALE.spec_bytes().len());
            lemma_ascii_str_bytes(KW_METHOD);
            assert(ascii_lower(b[0]) != ascii_lower(KW_METHOD.spec_bytes()[0]));
            lemma_ascii_str_bytes(KW_PRODID);
            assert(ascii_lower(b[0]) != ascii_lower(KW_PRODID.spec_bytes()[0]));
            lemma_ascii_str_bytes(KW_VERSION);
            assert(b.len() != KW_VERSION.spec_bytes().len());
            lemma_ascii_str_bytes(KW_ATTACH);
            assert(ascii_lower(b[0]) != ascii_lower(KW_ATTACH.spec_bytes()[0]));
            lemma_ascii_str_bytes(KW_CATEGORIES);
            assert(b.len() != KW_CATEGORIES.spec_bytes().len());
            lemma_ascii_str_bytes(KW_CLASS);
            assert(b.len() != KW_CLASS.spec_bytes().len());
            lemma_ascii_str_bytes(KW_COMMENT);
            assert(b.len() != KW_COMMENT.spec_bytes().len());
            lemma_ascii_str_bytes(KW_DESCRIPTION);
            assert(b.len() != KW_DESCRIPTION.spec_bytes().len());
            lemma_ascii_str_bytes(KW_GEO);
            assert(b.len() != KW_GEO.spec_bytes().len());
            lemma_ascii_str_bytes(KW_LOCATION);
            assert(b.len() != KW_LOCATION.spec_bytes().len());
            lemma_ascii_str_bytes(KW_PERCENT_COMPLETE);
            assert(b.len() != KW_PERCENT_COMPLETE.spec_bytes().len());
            lemma_ascii_str_bytes(KW_PRIORITY);
            assert(b.len() != KW_PRIORITY.spec_bytes().len());
            lemma_ascii_str_bytes(KW_RESOURCES);
            assert(b.len() != KW_RESOURCES.spec_bytes().len());
        }
        PropertyKind::Summary => {
            reveal_strlit("CALSCALE");
            reveal_strlit("METHOD");
            reveal_strlit("PRODID");
            reveal_strlit("VERSION");
            reveal_strlit("ATTACH");
            reveal_strlit("CATEGORIES");
            reveal_strlit("CLASS");
            reveal_strlit("COMMENT");
            reveal_strlit("DESCRIPTION");
            reveal_strlit("GEO");
            reveal_strlit("LOCATION");
            reveal_strlit("PERCENT-COMPLETE");
            reveal_strlit("PRIORITY");
            reveal_strlit("RESOURCES");
            reveal_strlit("STATUS");
            reveal_strlit("SUMMARY");
            lemma_ascii_str_bytes(KW_SUMMARY);
            lemma_ascii_str_bytes(KW_CALSCALE);
            assert(b.len() != KW_CALSCALE.spec_bytes().len());
            lemma_ascii_str_bytes(KW_METHOD);
            assert(b.len() != KW_METHOD.spec_bytes().len());
            lemma_ascii_str_bytes(KW_PRODID);
            assert(b.len() != KW_PRODID.spec_bytes().len());
            lemma_ascii_str_bytes(KW_VERSION);
            assert(ascii_lower(b[0]) != ascii_lower(KW_VERSION.spec_bytes()[0]));
            lemma_ascii_str_bytes(KW_ATTACH);
            assert(b.len() != KW_ATTACH.spec_bytes().len());
            lemma_ascii_str_bytes(KW_CATEGORIES);
            assert(b.len() != KW_CATEGORIES.spec_bytes().len());
            lemma_ascii_str_bytes(KW_CLASS);
            assert(b.len() != KW_CLASS.spec_bytes().len());
            lemma_ascii_str_bytes(KW_COMMENT);
            assert(ascii_lower(b[0]) != ascii_lower(KW_COMMENT.spec_bytes()[0]));
            lemma_ascii_str_bytes(KW_DESCRIPTION);
            assert(b.len() != KW_DESCRIPTION.spec_bytes().len());
            lemma_ascii_str_bytes(KW_GEO);
            assert(b.len() != KW_GEO.spec_bytes().len());
            lemma_ascii_str_bytes(KW_LOCATION);
            assert(b.len() != KW_LOCATION.spec_bytes().len());
            lemma_ascii_str_bytes(KW_PERCENT_COMPLETE);
            assert(b.len() != KW_PERCENT_COMPLETE.spec_bytes().len());
            lemma_ascii_str_bytes(KW_PRIORITY);
            assert(b.len() != KW_PRIORITY.spec_bytes().len());
            lemma_ascii_str_bytes(KW_RESOURCES);
            assert(b.len() != KW_RESOURCES.spec_bytes().len());
            lemma_ascii_str_bytes(KW_STATUS);
            assert(b.len() != KW_STATUS.spec_bytes().len());
        }
        PropertyKind::Completed => {
            reveal_strlit("CALSCALE");
            reveal_strlit("METHOD");
            reveal_strlit("PRODID");
            reveal_strlit("VERSION");
            reveal_strlit("ATTACH");
            reveal_strlit("CATEGORIES");
            reveal_strlit("CLASS");
            reveal_strlit("COMMENT");
            reveal_strlit("DESCRIPTION");
            reveal_strlit("GEO");
            reveal_strlit("LOCATION");
            reveal_strlit("PERCENT-COMPLETE");
            reveal_strlit("PRIORITY");
            reveal_strlit("RESOURCES");
            reveal_strlit("STATUS");
            reveal_strlit("SUMMARY");
            reveal_strlit("COMPLETED");
            lemma_ascii_str_bytes(KW_COMPLETED);
            lemma_ascii_str_bytes(KW_CALSCALE);
            assert(b.len() != KW_CALSCALE.spec_bytes().len());
            lemma_ascii_str_bytes(KW_METHOD);
            assert(b.len() != KW_METHOD.spec_bytes().len());
            lemma_ascii_str_bytes(KW_PRODID);
            assert(b.len() != KW_PRODID.spec_bytes().len());
            lemma_ascii_str_bytes(KW_VERSION);
            assert(b.len() != KW_VERSION.spec_bytes().len());
            lemma_ascii_str_bytes(KW_ATTACH);
            assert(b.len() != KW_ATTACH.spec_bytes().len());
            lemma_ascii_str_bytes(KW_CATEGORIES);
            assert(b.len() != KW_CATEGORIES.spec_bytes().len());
            lemma_ascii_str_bytes(KW_CLASS);
            assert(b.len() != KW_CLASS.spec_bytes().len());
            lemma_ascii_str_bytes(KW_COMMENT);
            assert(b.len() != KW_COMMENT.spec_bytes().len());
            lemma_ascii_str_bytes(KW_DESCRIPTION);
            assert(b.len() != KW_DESCRIPTION.spec_bytes().len());
            lemma_ascii_str_bytes(KW_GEO);
            assert(b.len() != KW_GEO.spec_bytes().len());
            lemma_ascii_str_bytes(KW_LOCATION);
            assert(b.len() != KW_LOCATION.spec_bytes().len());
            lemma_ascii_str_bytes(KW_PERCENT_COMPLETE);
            assert(b.len() != KW_PERCENT_COMPLETE.spec_bytes().len());
            lemma_ascii_str_bytes(KW_PRIORITY);
            assert(b.len() != KW_PRIORITY.spec_bytes().len());
            lemma_ascii_str_bytes(KW_RESOURCES);
            assert(ascii_lower(b[0]) != ascii_lower(KW_RESOURCES.spec_bytes()[0]));
            lemma_ascii_str_bytes(KW_STATUS);
            assert(b.len() != KW_STATUS.spec_bytes().len());
            lemma_ascii_str_bytes(KW_SUMMARY);
            assert(b.len() != KW_SUMMARY.spec_bytes().len());
        }
        PropertyKind::DtEnd => {
            reveal_strlit("CALSCALE");
            reveal_strlit("METHOD");
            reveal_strlit("PRODID");
            reveal_strlit("VERSION");
            reveal_strlit("ATTACH");
            reveal_strlit("CATEGORIES");
            reveal_strlit("CLASS");
            reveal_strlit("COMMENT");
            reveal_strlit("DESCRIPTION");
            reveal_strlit("GEO");
            reveal_strlit("LOCATION");
            reveal_strlit("PERCENT-COMPLETE");
            reveal_strlit("PRIORITY");
            reveal_strlit("RESOURCES");
            reveal_strlit("STATUS");
            reveal_strlit("SUMMARY");
            reveal_strlit("COMPLETED");
            reveal_strlit("DTEND");
            lemma_ascii_str_bytes(KW_DTEND);
            lemma_ascii_str_bytes(KW_CALSCALE);
            assert(b.len() != KW_CALSCALE.spec_bytes().len());
            lemma_ascii_str_bytes(KW_METHOD);
            assert(b.len() != KW_METHOD.spec_bytes().len());
            lemma_ascii_str_bytes(KW_PRODID);
            assert(b.len() != KW_PRODID.spec_bytes().len());
            lemma_ascii_str_bytes(KW_VERSION);
            assert(b.len() != KW_VERSION.spec_bytes().len());
            lemma_ascii_str_bytes(KW_ATTACH);
            assert(b.len() != KW_ATTACH.spec_bytes().len());
            lemma_ascii_str_bytes(KW_CATEGORIES);
            assert(b.len() != KW_CATEGORIES.spec_bytes().len());
            lemma_ascii_str_bytes(KW_CLASS);
            assert(ascii_lower(b[0]) != ascii_lower(KW_CLASS.spec_bytes()[0]));
            lemma_ascii_str_bytes(KW_COMMENT);
            assert(b.len() != KW_COMMENT.spec_bytes().len());
            lemma_ascii_str_bytes(KW_DESCRIPTION);
            assert(b.len() != KW_DESCRIPTION.spec_bytes().len());
            lemma_ascii_str_bytes(KW_GEO);
            assert(b.len() != KW_GEO.spec_bytes().len());
            lemma_ascii_str_bytes(KW_LOCATION);
            assert(b.len() != KW_LOCATION.spec_bytes().len());
            lemma_ascii_str_bytes(KW_PERCENT_COMPLETE);
            assert(b.len() != KW_PERCENT_COMPLETE.spec_bytes().len());
            lemma_ascii_str_bytes(KW_PRIORITY);
            assert(b.len() != KW_PRIORITY.spec_bytes().len());
            lemma_ascii_str_bytes(KW_RESOURCES);
            assert(b.len() != KW_RESOURCES.spec_bytes().len());
            lemma_ascii_str_bytes(KW_STATUS);
            assert(b.len() != KW_STATUS.spec_bytes().len());
            lemma_ascii_str_bytes(KW_SUMMARY);
            assert(b.len() != KW_SUMMARY.spec_bytes().len());
            lemma_ascii_str_bytes(KW_COMPLETED);
            assert(b.len() != KW_COMPLETED.spec_bytes().len());
        }
        PropertyKind::Due => {
            reveal_strlit("CALSCALE");
            reveal_strlit("METHOD");
            reveal_strlit("PRODID");
            reveal_strlit("VERSION");
            reveal_strlit("ATTACH");
            reveal_strlit("CATEGORIES");
            reveal_strlit("CLASS");
            reveal_strlit("COMMENT");
            reveal_strlit("DESCRIPTION");
            reveal_strlit("GEO");
            reveal_strlit("LOCATION");
            reveal_strlit("PERCENT-COMPLETE");
            reveal_strlit("PRIORITY");
            reveal_strlit("RESOURCES");
            reveal_strlit("STATUS");
            reveal_strlit("SUMMARY");
            reveal_strlit("COMPLETED");
            reveal_strlit("DTEND");
            reveal_strlit("DUE");
            lemma_ascii_str_bytes(KW_DUE);
            lemma_ascii_str_bytes(KW_CALSCALE);
            assert(b.len() != KW_CALSCALE.spec_bytes().len());
            lemma_ascii_str_bytes(KW_METHOD);
            assert(b.len() != KW_METHOD.spec_bytes().len());
            lemma_ascii_str_bytes(KW_PRODID);
            assert(b.len() != KW_PRODID.spec_bytes().len());
            lemma_ascii_str_bytes(KW_VERSION);
            assert(b.len() != KW_VERSION.spec_bytes().len());
            lemma_ascii_str_bytes(KW_ATTACH);
            assert(b.len() != KW_ATTACH.spec_bytes().len());
            lemma_ascii_str_bytes(KW_CATEGORIES);
            assert(b.len() != KW_CATEGORIES.spec_bytes().len());
            lemma_ascii_str_bytes(KW_CLASS);
            assert(b.len() != KW_CLASS.spec_bytes().len());
            lemma_ascii_str_bytes(KW_COMMENT);
            assert(b.len() != KW_COMMENT.spec_bytes().len());
            lemma_ascii_str_bytes(KW_DESCRIPTION);
            assert(b.len() != KW_DESCRIPTION.spec_bytes().len());
            lemma_ascii_str_bytes(KW_GEO);
            assert(ascii_lower(b[0]) != ascii_lower(KW_GEO.spec_bytes()[0]));
            lemma_ascii_str_bytes(KW_LOCATION);
            assert(b.len() != KW_LOCATION.spec_bytes().len());
            lemma_ascii_str_bytes(KW_PERCENT_COMPLETE);
            assert(b.len() != KW_PERCENT_COMPLETE.spec_bytes().len());
            lemma_ascii_str_bytes(KW_PRIORITY);
            assert(b.len() != KW_PRIORITY.spec_bytes().len());
            lemma_ascii_str_bytes(KW_RESOURCES);
            assert(b.len() != KW_RESOURCES.spec_bytes().len());
            lemma_ascii_str_bytes(KW_STATUS);
            assert(b.len() != KW_STATUS.spec_bytes().len());
            lemma_ascii_str_bytes(KW_SUMMARY);
            assert(b.len() != KW_SUMMARY.spec_bytes().len());
            lemma_ascii_str_bytes(KW_COMPLETED);
            assert(b.len() != KW_COMPLETED.spec_bytes().len());
            lemma_ascii_str_bytes(KW_DTEND);
            assert(b.len() != KW_DTEND.spec_bytes().len());
        }
        PropertyKind::DtStart => {
            reveal_strlit("CALSCALE");
            reveal_strlit("METHOD");
            reveal_strlit("PRODID");
            reveal_strlit("VERSION");
            reveal_strlit("ATTACH");
            reveal_strlit("CATEGORIES");
            reveal_strlit("CLASS");
            reveal_strlit("COMMENT");
            reveal_strlit("DESCRIPTION");
            reveal_strlit("GEO");
            reveal_strlit("LOCATION");
            reveal_strlit("PERCENT-COMPLETE");
            reveal_strlit("PRIORITY");
            reveal_strlit("RESOURCES");
            reveal_strlit("STATUS");
            reveal_strlit("SUMMARY");
            reveal_strlit("COMPLETED");
            reveal_strlit("DTEND");
            reveal_strlit("DUE");
            reveal_strlit("DTSTART");
            lemma_ascii_str_bytes(KW_DTSTART);
            lemma_ascii_str_bytes(KW_CALSCALE);
            assert(b.len() != KW_CALSCALE.spec_bytes().len());
            lemma_ascii_str_bytes(KW_METHOD);
            assert(b.len() != KW_METHOD.spec_bytes().len());
            lemma_ascii_str_bytes(KW_PRODID);
            assert(b.len() != KW_PRODID.spec_bytes().len());
            lemma_ascii_str_bytes(KW_VERSION);
            assert(ascii_lower(b[0]) != ascii_lower(KW_VERSION.spec_bytes()[0]));
            lemma_ascii_str_bytes(KW_ATTACH);
            assert(b.len() != KW_ATTACH.spec_bytes().len());
            lemma_ascii_str_bytes(KW_CATEGORIES);
            assert(b.len() != KW_CATEGORIES.spec_bytes().len());
            lemma_ascii_str_bytes(KW_CLASS);
            assert(b.len() != KW_CLASS.spec_bytes().len());
            lemma_ascii_str_bytes(KW_COMMENT);
            assert(ascii_lower(b[0]) != ascii_lower(KW_COMMENT.spec_bytes()[0]));
            lemma_ascii_str_bytes(KW_DESCRIPTION);
            assert(b.len() != KW_DESCRIPTION.spec_bytes().len());
            lemma_ascii_str_bytes(KW_GEO);
            assert(b.len() != KW_GEO.spec_bytes().len());
            lemma_ascii_str_bytes(KW_LOCATION);
            assert(b.len() != KW_LOCATION.spec_bytes().len());
            lemma_ascii_str_bytes(KW_PERCENT_COMPLETE);
            assert(b.len() != KW_PERCENT_COMPLETE.spec_bytes().len());
            lemma_ascii_str_bytes(KW_PRIORITY);
            assert(b.len() != KW_PRIORITY.spec_bytes().len());
            lemma_ascii_str_bytes(KW_RESOURCES);
            assert(b.len() != KW_RESOURCES.spec_bytes().len());
            lemma_ascii_str_bytes(KW_STATUS);
            assert(b.len() != KW_STATUS.spec_bytes().len());
            lemma_ascii_str_bytes(KW_SUMMARY);
            assert(ascii_lower(b[0]) != ascii_lower(KW_SUMMARY.spec_bytes()[0]));
            lemma_ascii_str_bytes(KW_COMPLETED);
            assert(b.len() != KW_COMPLETED.spec_bytes().len());
            lemma_ascii_str_bytes(KW_DTEND);
            assert(b.len() != KW_DTEND.spec_bytes().len());
            lemma_ascii_str_bytes(KW_DUE);
            assert(b.len() != KW_DUE.spec_bytes().len());
        }
        PropertyKind::Duration => {
            reveal_strlit("CALSCALE");
            reveal_strlit("METHOD");
            reveal_strlit("PRODID");
            reveal_strlit("VERSION");
            reveal_strlit("ATTACH");
            reveal_strlit("CATEGORIES");
            reveal_strlit("CLASS");
            reveal_strlit("COMMENT");
            reveal_strlit("DESCRIPTION");
            reveal_strlit("GEO");
            reveal_strlit("LOCATION");
            reveal_strlit("PERCENT-COMPLETE");
            reveal_strlit("PRIORITY");
            reveal_strlit("RESOURCES");
            reveal_strlit("STATUS");
            reveal_strlit("SUMMARY");
            reveal_strlit("COMPLETED");
            reveal_strlit("DTEND");
            reveal_strlit("DUE");
            reveal_strlit("DTSTART");
            reveal_strlit("DURATION");
            lemma_ascii_str_bytes(KW_DURATION);
            lemma_ascii_str_bytes(KW_CALSCALE);
            assert(ascii_lower(b[0]) != ascii_lower(KW_CALSCALE.spec_bytes()[0]));
            lemma_ascii_str_bytes(KW_METHOD);
            assert(b.len() != KW_METHOD.spec_bytes().len());
            lemma_ascii_str_bytes(KW_PRODID);
            assert(b.len() != KW_PRODID.spec_bytes().len());
            lemma_ascii_str_bytes(KW_VERSION);
            assert(b.len() != KW_VERSION.spec_bytes().len());
            lemma_ascii_str_bytes(KW_ATTACH);
            assert(b.len() != KW_ATTACH.spec_bytes().len());
            lemma_ascii_str_bytes(KW_CATEGORIES);
            assert(b.len() != KW_CATEGORIES.spec_bytes().len());
            lemma_ascii_str_bytes(KW_CLASS);
            assert(b.len() != KW_CLASS.spec_bytes().len());
            lemma_ascii_str_bytes(KW_COMMENT);
            assert(b.len() != KW_COMMENT.spec_bytes().len());
            lemma_ascii_str_bytes(KW_DESCRIPTION);
            assert(b.len() != KW_DESCRIPTION.spec_bytes().len());
            lemma_ascii_str_bytes(KW_GEO);
            assert(b.len() != KW_GEO.spec_bytes().len());
            lemma_ascii_str_bytes(KW_LOCATION);
            assert(ascii_lower(b[0]) != ascii_lower(KW_LOCATION.spec_bytes()[0]));
            lemma_ascii_str_bytes(KW_PERCENT_COMPLETE);
            assert(b.len() != KW_PERCENT_COMPLETE.spec_bytes().len());
            lemma_ascii_str_bytes(KW_PRIORITY);
            assert(ascii_lower(b[0]) != ascii_lower(KW_PRIORITY.spec_bytes()[0]));
            lemma_ascii_str_bytes(KW_RESOURCES);
            assert(b.len() != KW_RESOURCES.spec_bytes().len());
            lemma_ascii_str_bytes(KW_STATUS);
            assert(b.len() != KW_STATUS.spec_bytes().len());
            lemma_ascii_str_bytes(KW_SUMMARY);
            assert(b.len() != KW_SUMMARY.spec_bytes().len());
            lemma_ascii_str_bytes(KW_COMPLETED);
            assert(b.len() != KW_COMPLETED.spec_bytes().len());
            lemma_ascii_str_bytes(KW_DTEND);
            assert(b.len() != KW_DTEND.spec_bytes().len());
            lemma_ascii_str_bytes(KW_DUE);
            assert(b.len() != KW_DUE.spec_bytes().len());
            lemma_ascii_str_bytes(KW_DTSTART);
            assert(b.len() != KW_DTSTART.spec_bytes().len());
        }
        PropertyKind::FreeBusy => {
            reveal_strlit("CALSCALE");
            reveal_strlit("METHOD");
            reveal_strlit("PRODID");
            reveal_strlit("VERSION");
            reveal_strlit("ATTACH");
            reveal_strlit("CATEGORIES");
            reveal_strlit("CLASS");
            reveal_strlit("COMMENT");
            reveal_strlit("DESCRIPTION");
            reveal_strlit("GEO");
            reveal_strlit("LOCATION");
            reveal_strlit("PERCENT-COMPLETE");
            reveal_strlit("PRIORITY");
            reveal_strlit("RESOURCES");
            reveal_strlit("STATUS");
            reveal_strlit("SUMMARY");
            reveal_strlit("COMPLETED");
            reveal_strlit("DTEND");
            reveal_strlit("DUE");
            reveal_strlit("DTSTART");
            reveal_strlit("DURATION");
            reveal_strlit("FREEBUSY");
            lemma_ascii_str_bytes(KW_FREEBUSY);
            lemma_ascii_str_bytes(KW_CALSCALE);
            assert(ascii_lower(b[0]) != ascii_lower(KW_CALSCALE.spec_bytes()[0]));
            lemma_ascii_str_bytes(KW_METHOD);
            assert(b.len() != KW_METHOD.spec_bytes().len());
            lemma_ascii_str_bytes(KW_PRODID);
            assert(b.len() != KW_PRODID.spec_bytes().len());
            lemma_ascii_str_bytes(KW_VERSION);
            assert(b.len() != KW_VERSION.spec_bytes().len());
            lemma_ascii_str_bytes(KW_ATTACH);
            assert(b.len() != KW_ATTACH.spec_bytes().len());
            lemma_ascii_str_bytes(KW_CATEGORIES);
            assert(b.len() != KW_CATEGORIES.spec_bytes().len());
            lemma_ascii_str_bytes(KW_CLASS);
            assert(b.len() != KW_CLASS.spec_bytes().len());
            lemma_ascii_str_bytes(KW_COMMENT);
            assert(b.len() != KW_COMMENT.spec_bytes().len());
            lemma_ascii_str_bytes(KW_DESCRIPTION);
            assert(b.len() != KW_DESCRIPTION.spec_bytes().len());
            lemma_ascii_str_bytes(KW_GEO);
            assert(b.len() != KW_GEO.spec_bytes().len());
            lemma_ascii_str_bytes(KW_LOCATION);
            assert(ascii_lower(b[0]) != ascii_lower(KW_LOCATION.spec_bytes()[0]));
            lemma_ascii_str_bytes(KW_PERCENT_COMPLETE);
            assert(b.len() != KW_PERCENT_COMPLETE.spec_bytes().len());
            lemma_ascii_str_bytes(KW_PRIORITY);
            assert(ascii_lower(b[0]) != ascii_lower(KW_PRIORITY.spec_bytes()[0]));
            lemma_ascii_str_bytes(KW_RESOURCES);
            assert(b.len() != KW_RESOURCES.spec_bytes().len());
            lemma_ascii_str_bytes(KW_STATUS);
            assert(b.len() != KW_STATUS.spec_bytes().len());
            lemma_ascii_str_bytes(KW_SUMMARY);
            assert(b.len() != KW_SUMMARY.spec_bytes().len());
            lemma_ascii_str_bytes(KW_COMPLETED);
            assert(b.len() != KW_COMPLETED.spec_bytes().len());
            lemma_ascii_str_bytes(KW_DTEND);
            assert(b.len() != KW_DTEND.spec_bytes().len());
            lemma_ascii_str_bytes(KW_DUE);
            assert(b.len() != KW_DUE.spec_bytes().len());
            lemma_ascii_str_bytes(KW_DTSTART);
            assert(b.len() != KW_DTSTART.spec_bytes().len());
            lemma_ascii_str_bytes(KW_DURATION);
            assert(ascii_lower(b[0]) != ascii_lower(KW_DURATION.spec_bytes()[0]));
        }
        PropertyKind::Transp => {
            reveal_strlit("CALSCALE");
            reveal_strlit("METHOD");
            reveal_strlit("PRODID");
            reveal_strlit("VERSION");
            reveal_strlit("ATTACH");
            reveal_strlit("CATEGORIES");
            reveal_strlit("CLASS");
            reveal_strlit("COMMENT");
            reveal_strlit("DESCRIPTION");
            reveal_strlit("GEO");
            reveal_strlit("LOCATION");
            reveal_strlit("PERCENT-COMPLETE");
            reveal_strlit("PRIORITY");
            reveal_strlit("RESOURCES");
            reveal_strlit("STATUS");
            reveal_strlit("SUMMARY");
            reveal_strlit("COMPLETED");
            reveal_strlit("DTEND");
            reveal_strlit("DUE");
            reveal_strlit("DTSTART");
            reveal_strlit("DURATION");
            reveal_strlit("FREEBUSY");
            reveal_strlit("TRANSP");
            lemma_ascii_str_bytes(KW_TRANSP);
            lemma_ascii_str_bytes(KW_CALSCALE);
            assert(b.len() != KW_CALSCALE.spec_bytes().len());
            lemma_ascii_str_bytes(KW_METHOD);
            assert(ascii_lower(b[0]) != ascii_lower(KW_METHOD.spec_bytes()[0]));
            lemma_ascii_str_bytes(KW_PRODID);
            assert(ascii_lower(b[0]) != ascii_lower(KW_PRODID.spec_bytes()[0]));
            lemma_ascii_str_bytes(KW_VERSION);
            assert(b.len() != KW_VERSION.spec_bytes().len());
            lemma_ascii_str_bytes(KW_ATTACH);
            assert(ascii_lower(b[0]) != ascii_lower(KW_ATTACH.spec_bytes()[0]));
            lemma_ascii_str_bytes(KW_CATEGORIES);
            assert(b.len() != KW_CATEGORIES.spec_bytes().len());
            lemma_ascii_str_bytes(KW_CLASS);
            assert(b.len() != KW_CLASS.spec_bytes().len());
            lemma_ascii_str_bytes(KW_COMMENT);
            assert(b.len() != KW_COMMENT.spec_bytes().len());
            lemma_ascii_str_bytes(KW_DESCRIPTION);
            assert(b.len() != KW_DESCRIPTION.spec_bytes().len());
            lemma_ascii_str_bytes(KW_GEO);
            assert(b.len() != KW_GEO.spec_bytes().len());
            lemma_ascii_str_bytes(KW_LOCATION);
            assert(b.len() != KW_LOCATION.spec_bytes().len());
            lemma_ascii_str_bytes(KW_PERCENT_COMPLETE);
            assert(b.len() != KW_PERCENT_COMPLETE.spec_bytes().len());
            lemma_ascii_str_bytes(KW_PRIORITY);
            assert(b.len() != KW_PRIORITY.spec_bytes().len());
            lemma_ascii_str_bytes(KW_RESOURCES);
            assert(b.len() != KW_RESOURCES.spec_bytes().len());
            lemma_ascii_str_bytes(KW_STATUS);
            assert(ascii_lower(b[0]) != ascii_lower(KW_STATUS.spec_bytes()[0]));
            lemma_ascii_str_bytes(KW_SUMMARY);
            assert(b.len() != KW_SUMMARY.spec_bytes().len());
            lemma_ascii_str_bytes(KW_COMPLETED);
            assert(b.len() != KW_COMPLETED.spec_bytes().len());
            lemma_ascii_str_bytes(KW_DTEND);
            assert(b.len() != KW_DTEND.spec_bytes().len());
            lemma_ascii_str_bytes(KW_DUE);
            assert(b.len() != KW_DUE.spec_bytes().len());
            lemma_ascii_str_bytes(KW_DTSTART);
            assert(b.len() != KW_DTSTART.spec_bytes().len());
            lemma_ascii_str_bytes(KW_DURATION);
            assert(b.len() != KW_DURATION.spec_bytes().len());
            lemma_ascii_str_bytes(KW_FREEBUSY);
            assert(b.len() != KW_FREEBUSY.spec_bytes().len());
        }
        PropertyKind::TzId => {
            reveal_strlit("CALSCALE");
            reveal_strlit("METHOD");
            reveal_strlit("PRODID");
            reveal_strlit("VERSION");
            reveal_strlit("ATTACH");
            reveal_strlit("CATEGORIES");
            reveal_strlit("CLASS");
            reveal_strlit("COMMENT");
            reveal_strlit("DESCRIPTION");
            reveal_strlit("GEO");
            reveal_strlit("LOCATION");
            reveal_strlit("PERCENT-COMPLETE");
            reveal_strlit("PRIORITY");
            reveal_strlit("RESOURCES");
            reveal_strlit("STATUS");
            reveal_strlit("SUMMARY");
            reveal_strlit("COMPLETED");
            reveal_strlit("DTEND");
            reveal_strlit("DUE");
            reveal_strlit("DTSTART");
            reveal_strlit("DURATION");
            reveal_strlit("FREEBUSY");
            reveal_strlit("TRANSP");
            reveal_strlit("TZID");
            lemma_ascii_str_bytes(KW_TZID);
            lemma_ascii_str_bytes(KW_CALSCALE);
            assert(b.len() != KW_CALSCALE.spec_bytes().len());
            lemma_ascii_str_bytes(KW_METHOD);
            assert(b.len() != KW_METHOD.spec_bytes().len());
            lemma_ascii_str_bytes(KW_PRODID);
            assert(b.len() != KW_PRODID.spec_bytes().len());
            lemma_ascii_str_bytes(KW_VERSION);
            assert(b.len() != KW_VERSION.spec_bytes().len());
            lemma_ascii_str_bytes(KW_ATTACH);
            assert(b.len() != KW_ATTACH.spec_bytes().len());
            lemma_ascii_str_bytes(KW_CATEGORIES);
            assert(b.len() != KW_CATEGORIES.spec_bytes().len());
            lemma_ascii_str_bytes(KW_CLASS);
            assert(b.len() != KW_CLASS.spec_bytes().len());
            lemma_ascii_str_bytes(KW_COMMENT);
            assert(b.len() != KW_COMMENT.spec_bytes().len());
            lemma_ascii_str_bytes(KW_DESCRIPTION);
            assert(b.len() != KW_DESCRIPTION.spec_bytes().len());
            lemma_ascii_str_bytes(KW_GEO);
            assert(b.len() != KW_GEO.spec_bytes().len());
            lemma_ascii_str_bytes(KW_LOCATION);
            assert(b.len() != KW_LOCATION.spec_bytes().len());
            lemma_ascii_str_bytes(KW_PERCENT_COMPLETE);
            assert(b.len() != KW_PERCENT_COMPLETE.spec_bytes().len());
            lemma_ascii_str_bytes(KW_PRIORITY);
            assert(b.len() != KW_PRIORITY.spec_bytes().len());
            lemma_ascii_str_bytes(KW_RESOURCES);
            assert(b.len() != KW_RESOURCES.spec_bytes().len());
            lemma_ascii_str_bytes(KW_STATUS);
            assert(b.len() != KW_STATUS.spec_bytes().len());
            lemma_ascii_str_bytes(KW_SUMMARY);
            assert(b.len() != KW_SUMMARY.spec_bytes().len());
            lemma_ascii_str_bytes(KW_COMPLETED);
            assert(b.len() != KW_COMPLETED.spec_bytes().len());
            lemma_ascii_str_bytes(KW_DTEND);
            assert(b.len() != KW_DTEND.spec_bytes().len());
            lemma_ascii_str_bytes(KW_DUE);
            assert(b.len() != KW_DUE.spec_bytes().len());
            lemma_ascii_str_bytes(KW_DTSTART);
            assert(b.len() != KW_DTSTART.spec_bytes().len());
            lemma_ascii_str_bytes(KW_DURATION);
            assert(b.len() != KW_DURATION.spec_bytes().len());
            lemma_ascii_str_bytes(KW_FREEBUSY);
            assert(b.len() != KW_FREEBUSY.spec_bytes().len());
            lemma_ascii_str_bytes(KW_TRANSP);
            assert(b.len() != KW_TRANSP.spec_bytes().len());
        }
        _ => {}
    }
}

#[verifier::spinoff_prover]
proof fn lemma_kind_name_round_trip_part2<S>(k: PropertyKind<S>)
    ensures
        k is TzName || k is TzOffsetFrom || k is TzOffsetTo || k is TzUrl || k is Attendee || k is Contact || k is Organizer || k is RecurrenceId || k is RelatedTo || k is Url || k is Uid || k is ExDate ==> standard_kind::<S>(kind_keyword(k)->0.spec_bytes()) == Some(k),
{
    reveal(eq_ignore_ascii_case);
    reveal(standard_kind_part0);
    reveal(standard_kind_part1);
    reveal(standard_kind_part2);
    let b = kind_keyword(k)->0.spec_bytes();
    assert(eq_ignore_ascii_case(b, b));
    match k {
        PropertyKind::TzName => {
            reveal_strlit("CALSCALE");
            reveal_strlit("METHOD");
            reveal_strlit("PRODID");
            reveal_strlit("VERSION");
            reveal_strlit("ATTACH");
            reveal_strlit("CATEGORIES");
            reveal_strlit("CLASS");
            reveal_strlit("COMMENT");
            reveal_strlit("DESCRIPTION");
            reveal_strlit("GEO");
            reveal_strlit("LOCATION");
            reveal_strlit("PERCENT-COMPLETE");
            reveal_strlit("PRIORITY");
            reveal_strlit("RESOURCES");
            reveal_strlit("STATUS");
            reveal_strlit("SUMMARY");
            reveal_strlit("COMPLETED");
            reveal_strlit("DTEND");
            reveal_strlit("DUE");
            reveal_strlit("DTSTART");
            reveal_strlit("DURATION");
            reveal_strlit("FREEBUSY");
            reveal_strlit("TRANSP");
            reveal_strlit("TZID");
            reveal_strlit("TZNAME");
            lemma_ascii_str_bytes(KW_TZNAME);
            lemma_ascii_str_bytes(KW_CALSCALE);
            assert(b.len() != KW_CALSCALE.spec_bytes().len());
            lemma_ascii_str_bytes(KW_METHOD);
            assert(ascii_lower(b[0]) != ascii_lower(KW_METHOD.spec_bytes()[0]));
            lemma_ascii_str_bytes(KW_PRODID);
            assert(ascii_lower(b[0]) != ascii_lower(KW_PRODID.spec_bytes()[0]));
            lemma_ascii_str_bytes(KW_VERSION);
            assert(b.len() != KW_VERSION.spec_bytes().len());
            lemma_ascii_str_bytes(KW_ATTACH);
            assert(ascii_lower(b[0]) != ascii_lower(KW_ATTACH.spec_bytes()[0]));
            lemma_ascii_str_bytes(KW_CATEGORIES);
            assert(b.len() != KW_CATEGORIES.spec_bytes().len());
            lemma_ascii_str_bytes(KW_CLASS);
            assert(b.len() != KW_CLASS.spec_bytes().len());
            lemma_ascii_str_bytes(KW_COMMENT);
            assert(b.len() != KW_COMMENT.spec_bytes().len());
            lemma_ascii_str_bytes(KW_DESCRIPTION);
            assert(b.len() != KW_DESCRIPTION.spec_bytes().len());
            lemma_ascii_str_bytes(KW_GEO);
            assert(b.len() != KW_GEO.spec_bytes().len());
            lemma_ascii_str_bytes(KW_LOCATION);
            assert(b.len() != KW_LOCATION.spec_bytes().len());
            lemma_ascii_str_bytes(KW_PERCENT_COMPLETE);
            assert(b.len() != KW_PERCENT_COMPLETE.spec_bytes().len());
            lemma_ascii_str_bytes(KW_PRIORITY);
            assert(b.len() != KW_PRIORITY.spec_bytes().len());
            lemma_ascii_str_bytes(KW_RESOURCES);
            assert(b.len() != KW_RESOURCES.spec_bytes().len());
            lemma_ascii_str_bytes(KW_STATUS);
            assert(ascii_lower(b[0]) != ascii_lower(KW_STATUS.spec_bytes()[0]));
            lemma_ascii_str_bytes(KW_SUMMARY);
            assert(b.len() != KW_SUMMARY.spec_bytes().len());
            lemma_ascii_str_bytes(KW_COMPLETED);
            assert(b.len() != KW_COMPLETED.spec_bytes().len());
            lemma_ascii_str_bytes(KW_DTEND);
            assert(b.len() != KW_DTEND.spec_bytes().len());
            lemma_ascii_str_bytes(KW_DUE);
            assert(b.len() != KW_DUE.spec_bytes().len());
            lemma_ascii_str_bytes(KW_DTSTART);
            assert(b.len() != KW_DTSTART.spec_bytes().len());
            lemma_ascii_str_bytes(KW_DURATION);
            assert(b.len() != KW_DURATION.spec_bytes().len());
            lemma_ascii_str_bytes(KW_FREEBUSY);
            assert(b.len() != KW_FREEBUSY.spec_bytes().len());
            lemma_ascii_str_bytes(KW_TRANSP);
            assert(ascii_lower(b[1]) != ascii_lower(KW_TRANSP.spec_bytes()[1]));
            lemma_ascii_str_bytes(KW_TZID);
            assert(b.len() != KW_TZID.spec_bytes().len());
        }
        PropertyKind::TzOffsetFrom => {
            reveal_strlit("CALSCALE");
            reveal_strlit("METHOD");
            reveal_strlit("PRODID");
            reveal_strlit("VERSION");
            reveal_strlit("ATTACH");
            reveal_strlit("CATEGORIES");
            reveal_strlit("CLASS");
            reveal_strlit("COMMENT");
            reveal_strlit("DESCRIPTION");
            reveal_strlit("GEO");
            reveal_strlit("LOCATION");
            reveal_strlit("PERCENT-COMPLETE");
            reveal_strlit("PRIORITY");
            reveal_strlit("RESOURCES");
            reveal_strlit("STATUS");
            reveal_strlit("SUMMARY");
            reveal_strlit("COMPLETED");
            reveal_strlit("DTEND");
            reveal_strlit("DUE");
            reveal_strlit("DTSTART");
            reveal_strlit("DURATION");
            reveal_strlit("FREEBUSY");
            reveal_strlit("TRANSP");
            reveal_strlit("TZID");
            reveal_strlit("TZNAME");
            reveal_strlit("TZOFFSETFROM");
            lemma_ascii_str_bytes(KW_TZOFFSETFROM);
            lemma_ascii_str_bytes(KW_CALSCALE);
            assert(b.len() != KW_CALSCALE.spec_bytes().len());
            lemma_ascii_str_bytes(KW_METHOD);
            assert(b.len() != KW_METHOD.spec_bytes().len());
            lemma_ascii_str_bytes(KW_PRODID);
            assert(b.len() != KW_PRODID.spec_bytes().len());
            lemma_ascii_str_bytes(KW_VERSION);
            assert(b.len() != KW_VERSION.spec_bytes().len());
            lemma_ascii_str_bytes(KW_ATTACH);
            assert(b.len() != KW_ATTACH.spec_bytes().len());
            lemma_ascii_str_bytes(KW_CATEGORIES);
            assert(b.len() != KW_CATEGORIES.spec_bytes().len());
            lemma_ascii_str_bytes(KW_CLASS);
            assert(b.len() != KW_CLASS.spec_bytes().len());
            lemma_ascii_str_bytes(KW_COMMENT);
            assert(b.len() != KW_COMMENT.spec_bytes().len());
            lemma_ascii_str_bytes(KW_DESCRIPTION);
            assert(b.len() != KW_DESCRIPTION.spec_bytes().len());
            lemma_ascii_str_bytes(KW_GEO);
            assert(b.len() != KW_GEO.spec_bytes().len());
            lemma_ascii_str_bytes(KW_LOCATION);
            assert(b.len() != KW_LOCATION.spec_bytes().len());
            lemma_ascii_str_bytes(KW_PERCENT_COMPLETE);
            assert(b.len() != KW_PERCENT_COMPLETE.spec_bytes().len());
            lemma_ascii_str_bytes(KW_PRIORITY);
            assert(b.len() != KW_PRIORITY.spec_bytes().len());
            lemma_ascii_str_bytes(KW_RESOURCES);
            assert(b.len() != KW_RESOURCES.spec_bytes().len());
            lemma_ascii_str_bytes(KW_STATUS);
            assert(b.len() != KW_STATUS.spec_bytes().len());
            lemma_ascii_str_bytes(KW_SUMMARY);
            assert(b.len() != KW_SUMMARY.spec_bytes().len());
            lemma_ascii_str_bytes(KW_COMPLETED);
            assert(b.len() != KW_COMPLETED.spec_bytes().len());
            lemma_ascii_str_bytes(KW_DTEND);
            assert(b.len() != KW_DTEND.spec_bytes().len());
            lemma_ascii_str_bytes(KW_DUE);
            assert(b.len() != KW_DUE.spec_bytes().len());
            lemma_ascii_str_bytes(KW_DTSTART);
            assert(b.len() != KW_DTSTART.spec_bytes().len());
            lemma_ascii_str_bytes(KW_DURATION);
            assert(b.len() != KW_DURATION.spec_bytes().len());
            lemma_ascii_str_bytes(KW_FREEBUSY);
            assert(b.len() != KW_FREEBUSY.spec_bytes().len());
            lemma_ascii_str_bytes(KW_TRANSP);
            assert(b.len() != KW_TRANSP.spec_bytes().len());
            lemma_ascii_str_bytes(KW_TZID);
            assert(b.len() != KW_TZID.spec_bytes().len());
            lemma_ascii_str_bytes(KW_TZNAME);
            assert(b.len() != KW_TZNAME.spec_bytes().len());
        }
        PropertyKind::TzOffsetTo => {
            reveal_strlit("CALSCALE");
            reveal_strlit("METHOD");
            reveal_strlit("PRODID");
            reveal_strlit("VERSION");
            reveal_strlit("ATTACH");
            reveal_strlit("CATEGORIES");
            reveal_strlit("CLASS");
            reveal_strlit("COMMENT");
            reveal_strlit("DESCRIPTION");
            reveal_strlit("GEO");
            reveal_strlit("LOCATION");
            reveal_strlit("PERCENT-COMPLETE");
            reveal_strlit("PRIORITY");
            reveal_strlit("RESOURCES");
            reveal_strlit("STATUS");
            reveal_strlit("SUMMARY");
            reveal_strlit("COMPLETED");
            reveal_strlit("DTEND");
            reveal_strlit("DUE");
            reveal_strlit("DTSTART");
            reveal_strlit("DURATION");
            reveal_strlit("FREEBUSY");
            reveal_strlit("TRANSP");
            reveal_strlit("TZID");
            reveal_strlit("TZNAME");
            reveal_strlit("TZOFFSETFROM");
            reveal_strlit("TZOFFSETTO");
            lemma_ascii_str_bytes(KW_TZOFFSETTO);
            lemma_ascii_str_bytes(KW_CALSCALE);
            assert(b.len() != KW_CALSCALE.spec_bytes().len());
            lemma_ascii_str_bytes(KW_METHOD);
            assert(b.len() != KW_METHOD.spec_bytes().len());
            lemma_ascii_str_bytes(KW_PRODID);
            assert(b.len() != KW_PRODID.spec_bytes().len());
            lemma_ascii_str_bytes(KW_VERSION);
            assert(b.len() != KW_VERSION.spec_bytes().len());
            lemma_ascii_str_bytes(KW_ATTACH);
            assert(b.len() != KW_ATTACH.spec_bytes().len());
            lemma_ascii_str_bytes(KW_CATEGORIES);
            assert(ascii_lower(b[0]) != ascii_lower(KW_CATEGORIES.spec_bytes()[0]));
            lemma_ascii_str_bytes(KW_CLASS);
            assert(b.len() != KW_CLASS.spec_bytes().len());
            lemma_ascii_str_bytes(KW_COMMENT);
            assert(b.len() != KW_COMMENT.spec_bytes().len());
            lemma_ascii_str_bytes(KW_DESCRIPTION);
            assert(b.len() != KW_DESCRIPTION.spec_bytes().len());
            lemma_ascii_str_bytes(KW_GEO);
            assert(b.len() != KW_GEO.spec_bytes().len());
            lemma_ascii_str_bytes(KW_LOCATION);
            assert(b.len() != KW_LOCATION.spec_bytes().len());
            lemma_ascii_str_bytes(KW_PERCENT_COMPLETE);
            assert(b.len() != KW_PERCENT_COMPLETE.spec_bytes().len());
            lemma_ascii_str_bytes(KW_PRIORITY);
            assert(b.len() != KW_PRIORITY.spec_bytes().len());
            lemma_ascii_str_bytes(KW_RESOURCES);
            assert(b.len() != KW_RESOURCES.spec_bytes().len());
            lemma_ascii_str_bytes(KW_STATUS);
            assert(b.len() != KW_STATUS.spec_bytes().len());
            lemma_ascii_str_bytes(KW_SUMMARY);
            assert(b.len() != KW_SUMMARY.spec_bytes().len());
            lemma_ascii_str_bytes(KW_COMPLETED);
            assert(b.len() != KW_COMPLETED.spec_bytes().len());
            lemma_ascii_str_bytes(KW_DTEND);
            assert(b.len() != KW_DTEND.spec_bytes().len());
            lemma_ascii_str_bytes(KW_DUE);
            assert(b.len() != KW_DUE.spec_bytes().len());
            lemma_ascii_str_bytes(KW_DTSTART);
            assert(b.len() != KW_DTSTART.spec_bytes().len());
            lemma_ascii_str_bytes(KW_DURATION);
            assert(b.len() != KW_DURATION.spec_bytes().len());
            lemma_ascii_str_bytes(KW_FREEBUSY);
            assert(b.len() != KW_FREEBUSY.spec_bytes().len());
            lemma_ascii_str_bytes(KW_TRANSP);
            assert(b.len() != KW_TRANSP.spec_bytes().len());
            lemma_ascii_str_bytes(KW_TZID);
            assert(b.len() != KW_TZID.spec_bytes().len());
            lemma_ascii_str_bytes(KW_TZNAME);
            assert(b.len() != KW_TZNAME.spec_bytes().len());
            lemma_ascii_str_bytes(KW_TZOFFSETFROM);
            assert(b.len() != KW_TZOFFSETFROM.spec_bytes().len());
        }
        PropertyKind::TzUrl => {
            reveal_strlit("CALSCALE");
            reveal_strlit("METHOD");
            reveal_strlit("PRODID");
            reveal_strlit("VERSION");
            reveal_strlit("ATTACH");
            reveal_strlit("CATEGORIES");
            reveal_strlit("CLASS");
            reveal_strlit("COMMENT");
            reveal_strlit("DESCRIPTION");
            reveal_strlit("GEO");
            reveal_strlit("LOCATION");
            reveal_strlit("PERCENT-COMPLETE");
            reveal_strlit("PRIORITY");
            reveal_strlit("RESOURCES");
            reveal_strlit("STATUS");
            reveal_strlit("SUMMARY");
            reveal_strlit("COMPLETED");
            reveal_strlit("DTEND");
            reveal_strlit("DUE");
            reveal_strlit("DTSTART");
            reveal_strlit("DURATION");
            reveal_strlit("FREEBUSY");
            reveal_strlit("TRANSP");
            reveal_strlit("TZID");
            reveal_strlit("TZNAME");
            reveal_strlit("TZOFFSETFROM");
            reveal_strlit("TZOFFSETTO");
            reveal_strlit("TZURL");
            lemma_ascii_str_bytes(KW_TZURL);
            lemma_ascii_str_bytes(KW_CALSCALE);
            assert(b.len() != KW_CALSCALE.spec_bytes().len());
            lemma_ascii_str_bytes(KW_METHOD);
            assert(b.len() != KW_METHOD.spec_bytes().len());
            lemma_ascii_str_bytes(KW_PRODID);
            assert(b.len() != KW_PRODID.spec_bytes().len());
            lemma_ascii_str_bytes(KW_VERSION);
            assert(b.len() != KW_VERSION.spec_bytes().len());
            lemma_ascii_str_bytes(KW_ATTACH);
            assert(b.len() != KW_ATTACH.spec_bytes().len());
            lemma_ascii_str_bytes(KW_CATEGORIES);
            assert(b.len() != KW_CATEGORIES.spec_bytes().len());
            lemma_ascii_str_bytes(KW_CLASS);
            assert(ascii_lower(b[0]) != ascii_lower(KW_CLASS.spec_bytes()[0]));
            lemma_ascii_str_bytes(KW_COMMENT);
            assert(b.len() != KW_COMMENT.spec_bytes().len());
            lemma_ascii_str_bytes(KW_DESCRIPTION);
            assert(b.len() != KW_DESCRIPTION.spec_bytes().len());
            lemma_ascii_str_bytes(KW_GEO);
            assert(b.len() != KW_GEO.spec_bytes().len());
            lemma_ascii_str_bytes(KW_LOCATION);
            assert(b.len() != KW_LOCATION.spec_bytes().len());
            lemma_ascii_str_bytes(KW_PERCENT_COMPLETE);
            assert(b.len() != KW_PERCENT_COMPLETE.spec_bytes().len());
            lemma_ascii_str_bytes(KW_PRIORITY);
            assert(b.len() != KW_PRIORITY.spec_bytes().len());
            lemma_ascii_str_bytes(KW_RESOURCES);
            assert(b.len() != KW_RESOURCES.spec_bytes().len());
            lemma_ascii_str_bytes(KW_STATUS);
            assert(b.len() != KW_STATUS.spec_bytes().len());
            lemma_ascii_str_bytes(KW_SUMMARY);
            assert(b.len() != KW_SUMMARY.spec_bytes().len());
            lemma_ascii_str_bytes(KW_COMPLETED);
            assert(b.len() != KW_COMPLETED.spec_bytes().len());
            lemma_ascii_str_bytes(KW_DTEND);
            assert(ascii_lower(b[0]) != ascii_lower(KW_DTEND.spec_bytes()[0]));
            lemma_ascii_str_bytes(KW_DUE);
            assert(b.len() != KW_DUE.spec_bytes().len());
            lemma_ascii_str_bytes(KW_DTSTART);
            assert(b.len() != KW_DTSTART.spec_bytes().len());
            lemma_ascii_str_bytes(KW_DURATION);
            assert(b.len() != KW_DURATION.spec_bytes().len());
            lemma_ascii_str_bytes(KW_FREEBUSY);
            assert(b.len() != KW_FREEBUSY.spec_bytes().len());
            lemma_ascii_str_bytes(KW_TRANSP);
            assert(b.len() != KW_TRANSP.spec_bytes().len());
            lemma_ascii_str_bytes(KW_TZID);
            assert(b.len() != KW_TZID.spec_bytes().len());
            lemma_ascii_str_bytes(KW_TZNAME);
            assert(b.len() != KW_TZNAME.spec_bytes().len());
            lemma_ascii_str_bytes(KW_TZOFFSETFROM);
            assert(b.len() != KW_TZOFFSETFROM.spec_bytes().len());
            lemma_ascii_str_bytes(KW_TZOFFSETTO);
            assert(b.len() != KW_TZOFFSETTO.spec_bytes().len());
        }
        PropertyKind::Attendee => {
            reveal_strlit("CALSCALE");
            reveal_strlit("METHOD");
            reveal_strlit("PRODID");
            reveal_strlit("VERSION");
            reveal_strlit("ATTACH");
            reveal_strlit("CATEGORIES");
            reveal_strlit("CLASS");
            reveal_strlit("COMMENT");
            reveal_strlit("DESCRIPTION");
            reveal_strlit("GEO");
            reveal_strlit("LOCATION");
            reveal_strlit("PERCENT-COMPLETE");
            reveal_strlit("PRIORITY");
            reveal_strlit("RESOURCES");
            reveal_strlit("STATUS");
            reveal_strlit("SUMMARY");
            reveal_strlit("COMPLETED");
            reveal_strlit("DTEND");
            reveal_strlit("DUE");
            reveal_strlit("DTSTART");
            reveal_strlit("DURATION");
            reveal_strlit("FREEBUSY");
            reveal_strlit("TRANSP");
            reveal_strlit("TZID");
            reveal_strlit("TZNAME");
            reveal_strlit("TZOFFSETFROM");
            reveal_strlit("TZOFFSETTO");
            reveal_strlit("TZURL");
            reveal_strlit("ATTENDEE");
            lemma_ascii_str_bytes(KW_ATTENDEE);
            lemma_ascii_str_bytes(KW_CALSCALE);
            assert(ascii_lower(b[0]) != ascii_lower(KW_CALSCALE.spec_bytes()[0]));
            lemma_ascii_str_bytes(KW_METHOD);
            assert(b.len() != KW_METHOD.spec_bytes().len());
            lemma_ascii_str_bytes(KW_PRODID);
            assert(b.len() != KW_PRODID.spec_bytes().len());
            lemma_ascii_str_bytes(KW_VERSION);
            assert(b.len() != KW_VERSION.spec_bytes().len());
            lemma_ascii_str_bytes(KW_ATTACH);
            assert(b.len() != KW_ATTACH.spec_bytes().len());
            lemma_ascii_str_bytes(KW_CATEGORIES);
            assert(b.len() != KW_CATEGORIES.spec_bytes().len());
            lemma_ascii_str_bytes(KW_CLASS);
            assert(b.len() != KW_CLASS.spec_bytes().len());
            lemma_ascii_str_bytes(KW_COMMENT);
            assert(b.len() != KW_COMMENT.spec_bytes().len());
            lemma_ascii_str_bytes(KW_DESCRIPTION);
            assert(b.len() != KW_DESCRIPTION.spec_bytes().len());
            lemma_ascii_str_bytes(KW_GEO);
            assert(b.len() != KW_GEO.spec_bytes().len());
            lemma_ascii_str_bytes(KW_LOCATION);
            assert(ascii_lower(b[0]) != ascii_lower(KW_LOCATION.spec_bytes()[0]));
            lemma_ascii_str_bytes(KW_PERCENT_COMPLETE);
            assert(b.len() != KW_PERCENT_COMPLETE.spec_bytes().len());
            lemma_ascii_str_bytes(KW_PRIORITY);
            assert(ascii_lower(b[0]) != ascii_lower(KW_PRIORITY.spec_bytes()[0]));
            lemma_ascii_str_bytes(KW_RESOURCES);
            assert(b.len() != KW_RESOURCES.spec_bytes().len());
            lemma_ascii_str_bytes(KW_STATUS);
            assert(b.len() != KW_STATUS.spec_bytes().len());
            lemma_ascii_str_bytes(KW_SUMMARY);
            assert(b.len() != KW_SUMMARY.spec_bytes().len());
            lemma_ascii_str_bytes(KW_COMPLETED);
            assert(b.len() != KW_COMPLETED.spec_bytes().len());
            lemma_ascii_str_bytes(KW_DTEND);
            assert(b.len() != KW_DTEND.spec_bytes().len());
            lemma_ascii_str_bytes(KW_DUE);
            assert(b.len() != KW_DUE.spec_bytes().len());
            lemma_ascii_str_bytes(KW_DTSTART);
            assert(b.len() != KW_DTSTART.spec_bytes().len());
            lemma_ascii_str_bytes(KW_DURATION);
            assert(ascii_lower(b[0]) != ascii_lower(KW_DURATION.spec_bytes()[0]));
            lemma_ascii_str_bytes(KW_FREEBUSY);
            assert(ascii_lower(b[0]) != ascii_lower(KW_FREEBUSY.spec_bytes()[0]));
            lemma_ascii_str_bytes(KW_TRANSP);
            assert(b.len() != KW_TRANSP.spec_bytes().len());
            lemma_ascii_str_bytes(KW_TZID);
            assert(b.len() != KW_TZID.spec_bytes().len());
            lemma_ascii_str_bytes(KW_TZNAME);
            assert(b.len() != KW_TZNAME.spec_bytes().len());
            lemma_ascii_str_bytes(KW_TZOFFSETFROM);
            assert(b.len() != KW_TZOFFSETFROM.spec_bytes().len());
            lemma_ascii_str_bytes(KW_TZOFFSETTO);
            assert(b.len() != KW_TZOFFSETTO.spec_bytes().len());
            lemma_ascii_str_bytes(KW_TZURL);
            assert(b.len() != KW_TZURL.spec_bytes().len());
        }
        PropertyKind::Contact => {
            reveal_strlit("CALSCALE");
            reveal_strlit("METHOD");
            reveal_strlit("PRODID");
            reveal_strlit("VERSION");
            reveal_strlit("ATTACH");
            reveal_strlit("CATEGORIES");
            reveal_strlit("CLASS");
            reveal_strlit("COMMENT");
            reveal_strlit("DESCRIPTION");
            reveal_strlit("GEO");
            reveal_strlit("LOCATION");
            reveal_strlit("PERCENT-COMPLETE");
            reveal_strlit("PRIORITY");
            reveal_strlit("RESOURCES");
            reveal_strlit("STATUS");
            reveal_strlit("SUMMARY");
            reveal_strlit("COMPLETED");
            reveal_strlit("DTEND");
            reveal_strlit("DUE");
            reveal_strlit("DTSTART");
            reveal_strlit("DURATION");
            reveal_strlit("FREEBUSY");
            reveal_strlit("TRANSP");
            reveal_strlit("TZID");
            reveal_strlit("TZNAME");
            reveal_strlit("TZOFFSETFROM");
            reveal_strlit("TZOFFSETTO");
            reveal_strlit("TZURL");
            reveal_strlit("ATTENDEE");
            reveal_strlit("CONTACT");
            lemma_ascii_str_bytes(KW_CONTACT);
            lemma_ascii_str_bytes(KW_CALSCALE);
            assert(b.len() != KW_CALSCALE.spec_bytes().len());
            lemma_ascii_str_bytes(KW_METHOD);
            assert(b.len() != KW_METHOD.spec_bytes().len());
            lemma_ascii_str_bytes(KW_PRODID);
            assert(b.len() != KW_PRODID.spec_bytes().len());
            lemma_ascii_str_bytes(KW_VERSION);
            assert(ascii_lower(b[0]) != ascii_lower(KW_VERSION.spec_bytes()[0]));
            lemma_ascii_str_bytes(KW_ATTACH);
            assert(b.len() != KW_ATTACH.spec_bytes().len());
            lemma_ascii_str_bytes(KW_CATEGORIES);
            assert(b.len() != KW_CATEGORIES.spec_bytes().len());
            lemma_ascii_str_bytes(KW_CLASS);
            assert(b.len() != KW_CLASS.spec_bytes().len());
            lemma_ascii_str_bytes(KW_COMMENT);
            assert(ascii_lower(b[2]) != ascii_lower(KW_COMMENT.spec_bytes()[2]));
            lemma_ascii_str_bytes(KW_DESCRIPTION);
            assert(b.len() != KW_DESCRIPTION.spec_bytes().len());
            lemma_ascii_str_bytes(KW_GEO);
            assert(b.len() != KW_GEO.spec_bytes().len());
            lemma_ascii_str_bytes(KW_LOCATION);
            assert(b.len() != KW_LOCATION.spec_bytes().len());
            lemma_ascii_str_bytes(KW_PERCENT_COMPLETE);
            assert(b.len() != KW_PERCENT_COMPLETE.spec_bytes().len());
            lemma_ascii_str_bytes(KW_PRIORITY);
            assert(b.len() != KW_PRIORITY.spec_bytes().len());
            lemma_ascii_str_bytes(KW_RESOURCES);
            assert(b.len() != KW_RESOURCES.spec_bytes().len());
            lemma_ascii_str_bytes(KW_STATUS);
            assert(b.len() != KW_STATUS.spec_bytes().len());
            lemma_ascii_str_bytes(KW_SUMMARY);
            assert(ascii_lower(b[0]) != ascii_lower(KW_SUMMARY.spec_bytes()[0]));
            lemma_ascii_str_bytes(KW_COMPLETED);
            assert(b.len() != KW_COMPLETED.spec_bytes().len());
            lemma_ascii_str_bytes(KW_DTEND);
            assert(b.len() != KW_DTEND.spec_bytes().len());
            lemma_ascii_str_bytes(KW_DUE);
            assert(b.len() != KW_DUE.spec_bytes().len());
            lemma_ascii_str_bytes(KW_DTSTART);
            assert(ascii_lower(b[0]) != ascii_lower(KW_DTSTART.spec_bytes()[0]));
            lemma_ascii_str_bytes(KW_DURATION);
            assert(b.len() != KW_DURATION.spec_bytes().len());
            lemma_ascii_str_bytes(KW_FREEBUSY);
            assert(b.len() != KW_FREEBUSY.spec_bytes().len());
            lemma_ascii_str_bytes(KW_TRANSP);
            assert(b.len() != KW_TRANSP.spec_bytes().len());
            lemma_ascii_str_bytes(KW_TZID);
            assert(b.len() != KW_TZID.spec_bytes().len());
            lemma_ascii_str_bytes(KW_TZNAME);
            assert(b.len() != KW_TZNAME.spec_bytes().len());
            lemma_ascii_str_bytes(KW_TZOFFSETFROM);
            assert(b.len() != KW_TZOFFSETFROM.spec_bytes().len());
            lemma_ascii_str_bytes(KW_TZOFFSETTO);
            assert(b.len() != KW_TZOFFSETTO.spec_bytes().len());
            lemma_ascii_str_bytes(KW_TZURL);
            assert(b.len() != KW_TZURL.spec_bytes().len());
            lemma_ascii_str_bytes(KW_ATTENDEE);
            assert(b.len() != KW_ATTENDEE.spec_bytes().len());
        }
        PropertyKind::Organizer => {
            reveal_strlit("CALSCALE");
            reveal_strlit("METHOD");
            reveal_strlit("PRODID");
            reveal_strlit("VERSION");
            reveal_strlit("ATTACH");
            reveal_strlit("CATEGORIES");
            reveal_strlit("CLASS");
            reveal_strlit("COMMENT");
            reveal_strlit("DESCRIPTION");
            reveal_strlit("GEO");
            reveal_strlit("LOCATION");
            reveal_strlit("PERCENT-COMPLETE");
            reveal_strlit("PRIORITY");
            reveal_strlit("RESOURCES");
            reveal_strlit("STATUS");
            reveal_strlit("SUMMARY");
            reveal_strlit("COMPLETED");
            reveal_strlit("DTEND");
            reveal_strlit("DUE");
            reveal_strlit("DTSTART");
            reveal_strlit("DURATION");
            reveal_strlit("FREEBUSY");
            reveal_strlit("TRANSP");
            reveal_strlit("TZID");
            reveal_strlit("TZNAME");
            reveal_strlit("TZOFFSETFROM");
            reveal_strlit("TZOFFSETTO");
            reveal_strlit("TZURL");
            reveal_strlit("ATTENDEE");
            reveal_strlit("CONTACT");
            reveal_strlit("ORGANIZER");
            lemma_ascii_str_bytes(KW_ORGANIZER);
            lemma_ascii_str_bytes(KW_CALSCALE);
            assert(b.len() != KW_CALSCALE.spec_bytes().len());
            lemma_ascii_str_bytes(KW_METHOD);
            assert(b.len() != KW_METHOD.spec_bytes().len());
            lemma_ascii_str_bytes(KW_PRODID);
            assert(b.len() != KW_PRODID.spec_bytes().len());
            lemma_ascii_str_bytes(KW_VERSION);
            assert(b.len() != KW_VERSION.spec_bytes().len());
            lemma_ascii_str_bytes(KW_ATTACH);
            assert(b.len() != KW_ATTACH.spec_bytes().len());
            lemma_ascii_str_bytes(KW_CATEGORIES);
            assert(b.len() != KW_CATEGORIES.spec_bytes().len());
            lemma_ascii_str_bytes(KW_CLASS);
            assert(b.len() != KW_CLASS.spec_bytes().len());
            lemma_ascii_str_bytes(KW_COMMENT);
            assert(b.len() != KW_COMMENT.spec_bytes().len());
            lemma_ascii_str_bytes(KW_DESCRIPTION);
            assert(b.len() != KW_DESCRIPTION.spec_bytes().len());
            lemma_ascii_str_bytes(KW_GEO);
            assert(b.len() != KW_GEO.spec_bytes().len());
            lemma_ascii_str_bytes(KW_LOCATION);
            assert(b.len() != KW_LOCATION.spec_bytes().len());
            lemma_ascii_str_bytes(KW_PERCENT_COMPLETE);
            assert(b.len() != KW_PERCENT_COMPLETE.spec_bytes().len());
            lemma_ascii_str_bytes(KW_PRIORITY);
            assert(b.len() != KW_PRIORITY.spec_bytes().len());
            lemma_ascii_str_bytes(KW_RESOURCES);
            assert(ascii_lower(b[0]) != ascii_lower(KW_RESOURCES.spec_bytes()[0]));
            lemma_ascii_str_bytes(KW_STATUS);
            assert(b.len() != KW_STATUS.spec_bytes().len());
            lemma_ascii_str_bytes(KW_SUMMARY);
            assert(b.len() != KW_SUMMARY.spec_bytes().len());
            lemma_ascii_str_bytes(KW_COMPLETED);
            assert(ascii_lower(b[0]) != ascii_lower(KW_COMPLETED.spec_bytes()[0]));
            lemma_ascii_str_bytes(KW_DTEND);
            assert(b.len() != KW_DTEND.spec_bytes().len());
            lemma_ascii_str_bytes(KW_DUE);
            assert(b.len() != KW_DUE.spec_bytes().len());
            lemma_ascii_str_bytes(KW_DTSTART);
            assert(b.len() != KW_DTSTART.spec_bytes().len());
            lemma_ascii_str_bytes(KW_DURATION);
            assert(b.len() != KW_DURATION.spec_bytes().len());
            lemma_ascii_str_bytes(KW_FREEBUSY);
            assert(b.len() != KW_FREEBUSY.spec_bytes().len());
            lemma_ascii_str_bytes(KW_TRANSP);
            assert(b.len() != KW_TRANSP.spec_bytes().len());
            lemma_ascii_str_bytes(KW_TZID);
            assert(b.len() != KW_TZID.spec_bytes().len());
            lemma_ascii_str_bytes(KW_TZNAME);
            assert(b.len() != KW_TZNAME.spec_bytes().len());
            lemma_ascii_str_bytes(KW_TZOFFSETFROM);
            assert(b.len() != KW_TZOFFSETFROM.spec_bytes().len());
            lemma_ascii_str_bytes(KW_TZOFFSETTO);
            assert(b.len() != KW_TZOFFSETTO.spec_bytes().len());
            lemma_ascii_str_bytes(KW_TZURL);
            assert(b.len() != KW_TZURL.spec_bytes().len());
            lemma_ascii_str_bytes(KW_ATTENDEE);
            assert(b.len() != KW_ATTENDEE.spec_bytes().len());
            lemma_ascii_str_bytes(KW_CONTACT);
            assert(b.len() != KW_CONTACT.spec_bytes().len());
        }
        PropertyKind::RecurrenceId => {
            reveal_strlit("CALSCALE");
            reveal_strlit("METHOD");
            reveal_strlit("PRODID");
            reveal_strlit("VERSION");
            reveal_strlit("ATTACH");
            reveal_strlit("CATEGORIES");
            reveal_strlit("CLASS");
            reveal_strlit("COMMENT");
            reveal_strlit("DESCRIPTION");
            reveal_strlit("GEO");
            reveal_strlit("LOCATION");
            reveal_strlit("PERCENT-COMPLETE");
            reveal_strlit("PRIORITY");
            reveal_strlit("RESOURCES");
            reveal_strlit("STATUS");
            reveal_strlit("SUMMARY");
            reveal_strlit("COMPLETED");
            reveal_strlit("DTEND");
            reveal_strlit("DUE");
            reveal_strlit("DTSTART");
            reveal_strlit("DURATION");
            reveal_strlit("FREEBUSY");
            reveal_strlit("TRANSP");
            reveal_strlit("TZID");
            reveal_strlit("TZNAME");
            reveal_strlit("TZOFFSETFROM");
            reveal_strlit("TZOFFSETTO");
            reveal_strlit("TZURL");
            reveal_strlit("ATTENDEE");
            reveal_strlit("CONTACT");
            reveal_strlit("ORGANIZER");
            reveal_strlit("RECURRENCE-ID");
            lemma_ascii_str_bytes(KW_RECURRENCE_ID);
            lemma_ascii_str_bytes(KW_CALSCALE);
            assert(b.len() != KW_CALSCALE.spec_bytes().len());
            lemma_ascii_str_bytes(KW_METHOD);
            assert(b.len() != KW_METHOD.spec_bytes().len());
            lemma_ascii_str_bytes(KW_PRODID);
            assert(b.len() != KW_PRODID.spec_bytes().len());
            lemma_ascii_str_bytes(KW_VERSION);
            assert(b.len() != KW_VERSION.spec_bytes().len());
            lemma_ascii_str_bytes(KW_ATTACH);
            assert(b.len() != KW_ATTACH.spec_bytes().len());
            lemma_ascii_str_bytes(KW_CATEGORIES);
            assert(b.len() != KW_CATEGORIES.spec_bytes().len());
            lemma_ascii_str_bytes(KW_CLASS);
            assert(b.len() != KW_CLASS.spec_bytes().len());
            lemma_ascii_str_bytes(KW_COMMENT);
            assert(b.len() != KW_COMMENT.spec_bytes().len());
            lemma_ascii_str_bytes(KW_DESCRIPTION);
            assert(b.len() != KW_DESCRIPTION.spec_bytes().len());
            lemma_ascii_str_bytes(KW_GEO);
            assert(b.len() != KW_GEO.spec_bytes().len());
            lemma_ascii_str_bytes(KW_LOCATION);
            assert(b.len() != KW_LOCATION.spec_bytes().len());
            lemma_ascii_str_bytes(KW_PERCENT_COMPLETE);
            assert(b.len() != KW_PERCENT_COMPLETE.spec_bytes().len());
            lemma_ascii_str_bytes(KW_PRIORITY);
            assert(b.len() != KW_PRIORITY.spec_bytes().len());
            lemma_ascii_str_bytes(KW_RESOURCES);
            assert(b.len() != KW_RESOURCES.spec_bytes().len());
            lemma_ascii_str_bytes(KW_STATUS);
            assert(b.len() != KW_STATUS.spec_bytes().len());
            lemma_ascii_str_bytes(KW_SUMMARY);
            assert(b.len() != KW_SUMMARY.spec_bytes().len());
            lemma_ascii_str_bytes(KW_COMPLETED);
            assert(b.len() != KW_COMPLETED.spec_bytes().len());
            lemma_ascii_str_bytes(KW_DTEND);
            assert(b.len() != KW_DTEND.spec_bytes().len());
            lemma_ascii_str_bytes(KW_DUE);
            assert(b.len() != KW_DUE.spec_bytes().len());
            lemma_ascii_str_bytes(KW_DTSTART);
            assert(b.len() != KW_DTSTART.spec_bytes().len());
            lemma_ascii_str_bytes(KW_DURATION);
            assert(b.len() != KW_DURATION.spec_bytes().len());
            lemma_ascii_str_bytes(KW_FREEBUSY);
            assert(b.len() != KW_FREEBUSY.spec_bytes().len());
            lemma_ascii_str_bytes(KW_TRANSP);
            assert(b.len() != KW_TRANSP.spec_bytes().len());
            lemma_ascii_str_bytes(KW_TZID);
            assert(b.len() != KW_TZID.spec_bytes().len());
            lemma_ascii_str_bytes(KW_TZNAME);
            assert(b.len() != KW_TZNAME.spec_bytes().len());
            lemma_ascii_str_bytes(KW_TZOFFSETFROM);
            assert(b.len() != KW_TZOFFSETFROM.spec_bytes().len());
            lemma_ascii_str_bytes(KW_TZOFFSETTO);
            assert(b.len() != KW_TZOFFSETTO.spec_bytes().len());
            lemma_ascii_str_bytes(KW_TZURL);
            assert(b.len() != KW_TZURL.spec_bytes().len());
            lemma_ascii_str_bytes(KW_ATTENDEE);
            assert(b.len() != KW_ATTENDEE.spec_bytes().len());
            lemma_ascii_str_bytes(KW_CONTACT);
            assert(b.len() != KW_CONTACT.spec_bytes().len());
            lemma_ascii_str_bytes(KW_ORGANIZER);
            assert(b.len() != KW_ORGANIZER.spec_bytes().len());
        }
        PropertyKind::RelatedTo => {
            reveal_strlit("CALSCALE");
            reveal_strlit("METHOD");
            reveal_strlit("PRODID");
            reveal_strlit("VERSION");
            reveal_strlit("ATTACH");
            reveal_strlit("CATEGORIES");
            reveal_strlit("CLASS");
            reveal_strlit("COMMENT");
            reveal_strlit("DESCRIPTION");
            reveal_strlit("GEO");
            reveal_strlit("LOCATION");
            reveal_strlit("PERCENT-COMPLETE");
            reveal_strlit("PRIORITY");
            reveal_strlit("RESOURCES");
            reveal_strlit("STATUS");
            reveal_strlit("SUMMARY");
            reveal_strlit("COMPLETED");
            reveal_strlit("DTEND");
            reveal_strlit("DUE");
            reveal_strlit("DTSTART");
            reveal_strlit("DURATION");
            reveal_strlit("FREEBUSY");
            reveal_strlit("TRANSP");
            reveal_strlit("TZID");
            reveal_strlit("TZNAME");
            reveal_strlit("TZOFFSETFROM");
            reveal_strlit("TZOFFSETTO");
            reveal_strlit("TZURL");
            reveal_strlit("ATTENDEE");
            reveal_strlit("CONTACT");
            reveal_strlit("ORGANIZER");
            reveal_strlit("RECURRENCE-ID");
            reveal_strlit("RELATED-TO");
            lemma_ascii_str_bytes(KW_RELATED_TO);
            lemma_ascii_str_bytes(KW_CALSCALE);
            assert(b.len() != KW_CALSCALE.spec_bytes().len());
            lemma_ascii_str_bytes(KW_METHOD);
            assert(b.len() != KW_METHOD.spec_bytes().len());
            lemma_ascii_str_bytes(KW_PRODID);
            assert(b.len() != KW_PRODID.spec_bytes().len());
            lemma_ascii_str_bytes(KW_VERSION);
            assert(b.len() != KW_VERSION.spec_bytes().len());
            lemma_ascii_str_bytes(KW_ATTACH);
            assert(b.len() != KW_ATTACH.spec_bytes().len());
            lemma_ascii_str_bytes(KW_CATEGORIES);
            assert(ascii_lower(b[0]) != ascii_lower(KW_CATEGORIES.spec_bytes()[0]));
            lemma_ascii_str_bytes(KW_CLASS);
            assert(b.len() != KW_CLASS.spec_bytes().len());
            lemma_ascii_str_bytes(KW_COMMENT);
            assert(b.len() != KW_COMMENT.spec_bytes().len());
            lemma_ascii_str_bytes(KW_DESCRIPTION);
            assert(b.len() != KW_DESCRIPTION.spec_bytes().len());
            lemma_ascii_str_bytes(KW_GEO);
            assert(b.len() != KW_GEO.spec_bytes().len());
            lemma_ascii_str_bytes(KW_LOCATION);
            assert(b.len() != KW_LOCATION.spec_bytes().len());
            lemma_ascii_str_bytes(KW_PERCENT_COMPLETE);
            assert(b.len() != KW_PERCENT_COMPLETE.spec_bytes().len());
            lemma_ascii_str_bytes(KW_PRIORITY);
            assert(b.len() != KW_PRIORITY.spec_bytes().len());
            lemma_ascii_str_bytes(KW_RESOURCES);
            assert(b.len() != KW_RESOURCES.spec_bytes().len());
            lemma_ascii_str_bytes(KW_STATUS);
            assert(b.len() != KW_STATUS.spec_bytes().len());
            lemma_ascii_str_bytes(KW_SUMMARY);
            assert(b.len() != KW_SUMMARY.spec_bytes().len());
            lemma_ascii_str_bytes(KW_COMPLETED);
            assert(b.len() != KW_COMPLETED.spec_bytes().len());
            lemma_ascii_str_bytes(KW_DTEND);
            assert(b.len() != KW_DTEND.spec_bytes().len());
            lemma_ascii_str_bytes(KW_DUE);
            assert(b.len() != KW_DUE.spec_bytes().len());
            lemma_ascii_str_bytes(KW_DTSTART);
            assert(b.len() != KW_DTSTART.spec_bytes().len());
            lemma_ascii_str_bytes(KW_DURATION);
            assert(b.len() != KW_DURATION.spec_bytes().len());
            lemma_ascii_str_bytes(KW_FREEBUSY);
            assert(b.len() != KW_FREEBUSY.spec_bytes().len());
            lemma_ascii_str_bytes(KW_TRANSP);
            assert(b.len() != KW_TRANSP.spec_bytes().len());
            lemma_ascii_str_bytes(KW_TZID);
            assert(b.len() != KW_TZID.spec_bytes().len());
            lemma_ascii_str_bytes(KW_TZNAME);
            assert(b.len() != KW_TZNAME.spec_bytes().len());
            lemma_ascii_str_bytes(KW_TZOFFSETFROM);
            assert(b.len() != KW_TZOFFSETFROM.spec_bytes().len());
            lemma_ascii_str_bytes(KW_TZOFFSETTO);
            assert(ascii_lower(b[0]) != ascii_lower(KW_TZOFFSETTO.spec_bytes()[0]));
            lemma_ascii_str_bytes(KW_TZURL);
            assert(b.len() != KW_TZURL.spec_bytes().len());
            lemma_ascii_str_bytes(KW_ATTENDEE);
            assert(b.len() != KW_ATTENDEE.spec_bytes().len());
            lemma_ascii_str_bytes(KW_CONTACT);
            assert(b.len() != KW_CONTACT.spec_bytes().len());
            lemma_ascii_str_bytes(KW_ORGANIZER);
            assert(b.len() != KW_ORGANIZER.spec_bytes().len());
            lemma_ascii_str_bytes(KW_RECURRENCE_ID);
            assert(b.len() != KW_RECURRENCE_ID.spec_bytes().len());
        }
        PropertyKind::Url => {
            reveal_strlit("CALSCALE");
            reveal_strlit("METHOD");
            reveal_strlit("PRODID");
            reveal_strlit("VERSION");
            reveal_strlit("ATTACH");
            reveal_strlit("CATEGORIES");
            reveal_strlit("CLASS");
            reveal_strlit("COMMENT");
            reveal_strlit("DESCRIPTION");
            reveal_strlit("GEO");
            reveal_strlit("LOCATION");
            reveal_strlit("PERCENT-COMPLETE");
            reveal_strlit("PRIORITY");
            reveal_strlit("RESOURCES");
            reveal_strlit("STATUS");
            reveal_strlit("SUMMARY");
            reveal_strlit("COMPLETED");
            reveal_strlit("DTEND");
            reveal_strlit("DUE");
            reveal_strlit("DTSTART");
            reveal_strlit("DURATION");
            reveal_strlit("FREEBUSY");
            reveal_strlit("TRANSP");
            reveal_strlit("TZID");
            reveal_strlit("TZNAME");
            reveal_strlit("TZOFFSETFROM");
            reveal_strlit("TZOFFSETTO");
            reveal_strlit("TZURL");
            reveal_strlit("ATTENDEE");
            reveal_strlit("CONTACT");
            reveal_strlit("ORGANIZER");
            reveal_strlit("RECURRENCE-ID");
            reveal_strlit("RELATED-TO");
            reveal_strlit("URL");
            lemma_ascii_str_bytes(KW_URL);
            lemma_ascii_str_bytes(KW_CALSCALE);
            assert(b.len() != KW_CALSCALE.spec_bytes().len());
            lemma_ascii_str_bytes(KW_METHOD);
            assert(b.len() != KW_METHOD.spec_bytes().len());
            lemma_ascii_str_bytes(KW_PRODID);
            assert(b.len() != KW_PRODID.spec_bytes().len());
            lemma_ascii_str_bytes(KW_VERSION);
            assert(b.len() != KW_VERSION.spec_bytes().len());
            lemma_ascii_str_bytes(KW_ATTACH);
            assert(b.len() != KW_ATTACH.spec_bytes().len());
            lemma_ascii_str_bytes(KW_CATEGORIES);
            assert(b.len() != KW_CATEGORIES.spec_bytes().len());
            lemma_ascii_str_bytes(KW_CLASS);
            assert(b.len() != KW_CLASS.spec_bytes().len());
            lemma_ascii_str_bytes(KW_COMMENT);
            assert(b.len() != KW_COMMENT.spec_bytes().len());
            lemma_ascii_str_bytes(KW_DESCRIPTION);
            assert(b.len() != KW_DESCRIPTION.spec_bytes().len());
            lemma_ascii_str_bytes(KW_GEO);
            assert(ascii_lower(b[0]) != ascii_lower(KW_GEO.spec_bytes()[0]));
            lemma_ascii_str_bytes(KW_LOCATION);
            assert(b.len() != KW_LOCATION.spec_bytes().len());
            lemma_ascii_str_bytes(KW_PERCENT_COMPLETE);
            assert(b.len() != KW_PERCENT_COMPLETE.spec_bytes().len());
            lemma_ascii_str_bytes(KW_PRIORITY);
            assert(b.len() != KW_PRIORITY.spec_bytes().len());
            lemma_ascii_str_bytes(KW_RESOURCES);
            assert(b.len() != KW_RESOURCES.spec_bytes().len());
            lemma_ascii_str_bytes(KW_STATUS);
            assert(b.len() != KW_STATUS.spec_bytes().len());
            lemma_ascii_str_bytes(KW_SUMMARY);
            assert(b.len() != KW_SUMMARY.spec_bytes().len());
            lemma_ascii_str_bytes(KW_COMPLETED);
            assert(b.len() != KW_COMPLETED.spec_bytes().len());
            lemma_ascii_str_bytes(KW_DTEND);
            assert(b.len() != KW_DTEND.spec_bytes().len());
            lemma_ascii_str_bytes(KW_DUE);
            assert(ascii_lower(b[0]) != ascii_lower(KW_DUE.spec_bytes()[0]));
            lemma_ascii_str_bytes(KW_DTSTART);
            assert(b.len() != KW_DTSTART.spec_bytes().len());
            lemma_ascii_str_bytes(KW_DURATION);
            assert(b.len() != KW_DURATION.spec_bytes().len());
            lemma_ascii_str_bytes(KW_FREEBUSY);
            assert(b.len() != KW_FREEBUSY.spec_bytes().len());
            lemma_ascii_str_bytes(KW_TRANSP);
            assert(b.len() != KW_TRANSP.spec_bytes().len());
            lemma_ascii_str_bytes(KW_TZID);
            assert(b.len() != KW_TZID.spec_bytes().len());
            lemma_ascii_str_bytes(KW_TZNAME);
            assert(b.len() != KW_TZNAME.spec_bytes().len());
            lemma_ascii_str_bytes(KW_TZOFFSETFROM);
            assert(b.len() != KW_TZOFFSETFROM.spec_bytes().len());
            lemma_ascii_str_bytes(KW_TZOFFSETTO);
            assert(b.len() != KW_TZOFFSETTO.spec_bytes().len());
            lemma_ascii_str_bytes(KW_TZURL);
            assert(b.len() != KW_TZURL.spec_bytes().len());
            lemma_ascii_str_bytes(KW_ATTENDEE);
            assert(b.len() != KW_ATTENDEE.spec_bytes().len());
            lemma_ascii_str_bytes(KW_CONTACT);
            assert(b.len() != KW_CONTACT.spec_bytes().len());
            lemma_ascii_str_bytes(KW_ORGANIZER);
            assert(b.len() != KW_ORGANIZER.spec_bytes().len());
            lemma_ascii_str_bytes(KW_RECURRENCE_ID);
            assert(b.len() != KW_RECURRENCE_ID.spec_bytes().len());
            lemma_ascii_str_bytes(KW_RELATED_TO);
            assert(b.len() != KW_RELATED_TO.spec_bytes().len());
        }
        PropertyKind::Uid => {
            reveal_strlit("CALSCALE");
            reveal_strlit("METHOD");
            reveal_strlit("PRODID");
            reveal_strlit("VERSION");
            reveal_strlit("ATTACH");
            reveal_strlit("CATEGORIES");
            reveal_strlit("CLASS");
            reveal_strlit("COMMENT");
            reveal_strlit("DESCRIPTION");
            reveal_strlit("GEO");
            reveal_strlit("LOCATION");
            reveal_strlit("PERCENT-COMPLETE");
            reveal_strlit("PRIORITY");
            reveal_strlit("RESOURCES");
            reveal_strlit("STATUS");
            reveal_strlit("SUMMARY");
            reveal_strlit("COMPLETED");
            reveal_strlit("DTEND");
            reveal_strlit("DUE");
            reveal_strlit("DTSTART");
            reveal_strlit("DURATION");
            reveal_strlit("FREEBUSY");
            reveal_strlit("TRANSP");
            reveal_strlit("TZID");
            reveal_strlit("TZNAME");
            reveal_strlit("TZOFFSETFROM");
            reveal_strlit("TZOFFSETTO");
            reveal_strlit("TZURL");
            reveal_strlit("ATTENDEE");
            reveal_strlit("CONTACT");
            reveal_strlit("ORGANIZER");
            reveal_strlit("RECURRENCE-ID");
            reveal_strlit("RELATED-TO");
            reveal_strlit("URL");
            reveal_strlit("UID");
            lemma_ascii_str_bytes(KW_UID);
            lemma_ascii_str_bytes(KW_CALSCALE);
            assert(b.len() != KW_CALSCALE.spec_bytes().len());
            lemma_ascii_str_bytes(KW_METHOD);
            assert(b.len() != KW_METHOD.spec_bytes().len());
            lemma_ascii_str_bytes(KW_PRODID);
            assert(b.len() != KW_PRODID.spec_bytes().len());
            lemma_ascii_str_bytes(KW_VERSION);
            assert(b.len() != KW_VERSION.spec_bytes().len());
            lemma_ascii_str_bytes(KW_ATTACH);
            assert(b.len() != KW_ATTACH.spec_bytes().len());
            lemma_ascii_str_bytes(KW_CATEGORIES);
            assert(b.len() != KW_CATEGORIES.spec_bytes().len());
            lemma_ascii_str_bytes(KW_CLASS);
            assert(b.len() != KW_CLASS.spec_bytes().len());
            lemma_ascii_str_bytes(KW_COMMENT);
            assert(b.len() != KW_COMMENT.spec_bytes().len());
            lemma_ascii_str_bytes(KW_DESCRIPTION);
            assert(b.len() != KW_DESCRIPTION.spec_bytes().len());
            lemma_ascii_str_bytes(KW_GEO);
            assert(ascii_lower(b[0]) != ascii_lower(KW_GEO.spec_bytes()[0]));
            lemma_ascii_str_bytes(KW_LOCATION);
            assert(b.len() != KW_LOCATION.spec_bytes().len());
            lemma_ascii_str_bytes(KW_PERCENT_COMPLETE);
            assert(b.len() != KW_PERCENT_COMPLETE.spec_bytes().len());
            lemma_ascii_str_bytes(KW_PRIORITY);
            assert(b.len() != KW_PRIORITY.spec_bytes().len());
            lemma_ascii_str_bytes(KW_RESOURCES);
            assert(b.len() != KW_RESOURCES.spec_bytes().len());
            lemma_ascii_str_bytes(KW_STATUS);
            assert(b.len() != KW_STATUS.spec_bytes().len());
            lemma_ascii_str_bytes(KW_SUMMARY);
            assert(b.len() != KW_SUMMARY.spec_bytes().len());
            lemma_ascii_str_bytes(KW_COMPLETED);
            assert(b.len() != KW_COMPLETED.spec_bytes().len());
            lemma_ascii_str_bytes(KW_DTEND);
            assert(b.len() != KW_DTEND.spec_bytes().len());
            lemma_ascii_str_bytes(KW_DUE);
            assert(ascii_lower(b[0]) != ascii_lower(KW_DUE.spec_bytes()[0]));
            lemma_ascii_str_bytes(KW_DTSTART);
            assert(b.len() != KW_DTSTART.spec_bytes().len());
            lemma_ascii_str_bytes(KW_DURATION);
            assert(b.len() != KW_DURATION.spec_bytes().len());
            lemma_ascii_str_bytes(KW_FREEBUSY);
            assert(b.len() != KW_FREEBUSY.spec_bytes().len());
            lemma_ascii_str_bytes(KW_TRANSP);
            assert(b.len() != KW_TRANSP.spec_bytes().len());
            lemma_ascii_str_bytes(KW_TZID);
            assert(b.len() != KW_TZID.spec_bytes().len());
            lemma_ascii_str_bytes(KW_TZNAME);
            assert(b.len() != KW_TZNAME.spec_bytes().len());
            lemma_ascii_str_bytes(KW_TZOFFSETFROM);
            assert(b.len() != KW_TZOFFSETFROM.spec_bytes().len());
            lemma_ascii_str_bytes(KW_TZOFFSETTO);
            assert(b.len() != KW_TZOFFSETTO.spec_bytes().len());
            lemma_ascii_str_bytes(KW_TZURL);
            assert(b.len() != KW_TZURL.spec_bytes().len());
            lemma_ascii_str_bytes(KW_ATTENDEE);
            assert(b.len() != KW_ATTENDEE.spec_bytes().len());
            lemma_ascii_str_bytes(KW_CONTACT);
            assert(b.len() != KW_CONTACT.spec_bytes().len());
            lemma_ascii_str_bytes(KW_ORGANIZER);
            assert(b.len() != KW_ORGANIZER.spec_bytes().len());
            lemma_ascii_str_bytes(KW_RECURRENCE_ID);
            assert(b.len() != KW_RECURRENCE_ID.spec_bytes().len());
            lemma_ascii_str_bytes(KW_RELATED_TO);
            assert(b.len() != KW_RELATED_TO.spec_bytes().len());
            lemma_ascii_str_bytes(KW_URL);
            assert(ascii_lower(b[1]) != ascii_lower(KW_URL.spec_bytes()[1]));
        }
        PropertyKind::ExDate => {
            reveal_strlit("CALSCALE");
            reveal_strlit("METHOD");
            reveal_strlit("PRODID");
            reveal_strlit("VERSION");
            reveal_strlit("ATTACH");
            reveal_strlit("CATEGORIES");
            reveal_strlit("CLASS");
            reveal_strlit("COMMENT");
            reveal_strlit("DESCRIPTION");
            reveal_strlit("GEO");
            reveal_strlit("LOCATION");
            reveal_strlit("PERCENT-COMPLETE");
            reveal_strlit("PRIORITY");
            reveal_strlit("RESOURCES");
            reveal_strlit("STATUS");
            reveal_strlit("SUMMARY");
            reveal_strlit("COMPLETED");
            reveal_strlit("DTEND");
            reveal_strlit("DUE");
            reveal_strlit("DTSTART");
            reveal_strlit("DURATION");
            reveal_strlit("FREEBUSY");
            reveal_strlit("TRANSP");
            reveal_strlit("TZID");
            reveal_strlit("TZNAME");
            reveal_strlit("TZOFFSETFROM");
            reveal_strlit("TZOFFSETTO");
            reveal_strlit("TZURL");
            reveal_strlit("ATTENDEE");
            reveal_strlit("CONTACT");
            reveal_strlit("ORGANIZER");
            reveal_strlit("RECURRENCE-ID");
            reveal_strlit("RELATED-TO");
            reveal_strlit("URL");
            reveal_strlit("UID");
            reveal_strlit("EXDATE");
            lemma_ascii_str_bytes(KW_EXDATE);
            lemma_ascii_str_bytes(KW_CALSCALE);
            assert(b.len() != KW_CALSCALE.spec_bytes().len());
            lemma_ascii_str_bytes(KW_METHOD);
            assert(ascii_lower(b[0]) != ascii_lower(KW_METHOD.spec_bytes()[0]));
            lemma_ascii_str_bytes(KW_PRODID);
            assert(ascii_lower(b[0]) != ascii_lower(KW_PRODID.spec_bytes()[0]));
            lemma_ascii_str_bytes(KW_VERSION);
            assert(b.len() != KW_VERSION.spec_bytes().len());
            lemma_ascii_str_bytes(KW_ATTACH);
            assert(ascii_lower(b[0]) != ascii_lower(KW_ATTACH.spec_bytes()[0]));
            lemma_ascii_str_bytes(KW_CATEGORIES);
            assert(b.len() != KW_CATEGORIES.spec_bytes().len());
            lemma_ascii_str_bytes(KW_CLASS);
            assert(b.len() != KW_CLASS.spec_bytes().len());
            lemma_ascii_str_bytes(KW_COMMENT);
            assert(b.len() != KW_COMMENT.spec_bytes().len());
            lemma_ascii_str_bytes(KW_DESCRIPTION);
            assert(b.len() != KW_DESCRIPTION.spec_bytes().len());
            lemma_ascii_str_bytes(KW_GEO);
            assert(b.len() != KW_GEO.spec_bytes().len());
            lemma_ascii_str_bytes(KW_LOCATION);
            assert(b.len() != KW_LOCATION.spec_bytes().len());
            lemma_ascii_str_bytes(KW_PERCENT_COMPLETE);
            assert(b.len() != KW_PERCENT_COMPLETE.spec_bytes().len());
            lemma_ascii_str_bytes(KW_PRIORITY);
            assert(b.len() != KW_PRIORITY.spec_bytes().len());
            lemma_ascii_str_bytes(KW_RESOURCES);
            assert(b.len() != KW_RESOURCES.spec_bytes().len());
            lemma_ascii_str_bytes(KW_STATUS);
            assert(ascii_lower(b[0]) != ascii_lower(KW_STATUS.spec_bytes()[0]));
            lemma_ascii_str_bytes(KW_SUMMARY);
            assert(b.len() != KW_SUMMARY.spec_bytes().len());
            lemma_ascii_str_bytes(KW_COMPLETED);
            assert(b.len() != KW_COMPLETED.spec_bytes().len());
            lemma_ascii_str_bytes(KW_DTEND);
            assert(b.len() != KW_DTEND.spec_bytes().len());
            lemma_ascii_str_bytes(KW_DUE);
            assert(b.len() != KW_DUE.spec_bytes().len());
            lemma_ascii_str_bytes(KW_DTSTART);
            assert(b.len() != KW_DTSTART.spec_bytes().len());
            lemma_ascii_str_bytes(KW_DURATION);
            assert(b.len() != KW_DURATION.spec_bytes().len());
            lemma_ascii_str_bytes(KW_FREEBUSY);
            assert(b.len() != KW_FREEBUSY.spec_bytes().len());
            lemma_ascii_str_bytes(KW_TRANSP);
            assert(ascii_lower(b[0]) != ascii_lower(KW_TRANSP.spec_bytes()[0]));
            lemma_ascii_str_bytes(KW_TZID);
            assert(b.len() != KW_TZID.spec_bytes().len());
            lemma_ascii_str_bytes(KW_TZNAME);
            assert(ascii_lower(b[0]) != ascii_lower(KW_TZNAME.spec_bytes()[0]));
            lemma_ascii_str_bytes(KW_TZOFFSETFROM);
            assert(b.len() != KW_TZOFFSETFROM.spec_bytes().len());
            lemma_ascii_str_bytes(KW_TZOFFSETTO);
            assert(b.len() != KW_TZOFFSETTO.spec_bytes().len());
            lemma_ascii_str_bytes(KW_TZURL);
            assert(b.len() != KW_TZURL.spec_bytes().len());
            lemma_ascii_str_bytes(KW_ATTENDEE);
            assert(b.len() != KW_ATTENDEE.spec_bytes().len());
            lemma_ascii_str_bytes(KW_CONTACT);
            assert(b.len() != KW_CONTACT.spec_bytes().len());
            lemma_ascii_str_bytes(KW_ORGANIZER);
            assert(b.len() != KW_ORGANIZER.spec_bytes().len());
            lemma_ascii_str_bytes(KW_RECURRENCE_ID);
            assert(b.len() != KW_RECURRENCE_ID.spec_bytes().len());
            lemma_ascii_str_bytes(KW_RELATED_TO);
            assert(b.len() != KW_RELATED_TO.spec_bytes().len());
            lemma_ascii_str_bytes(KW_URL);
            assert(b.len() != KW_URL.spec_bytes().len());
            lemma_ascii_str_bytes(KW_UID);
            assert(b.len() != KW_UID.spec_bytes().len());
        }
        _ => {}
    }
}

#[verifier::spinoff_prover]
proof fn lemma_kind_name_round_trip_part3<S>(k: PropertyKind<S>)
    ensures
        k is RDate || k is RRule || k is Action || k is Repeat || k is Trigger || k is Created || k is DtStamp || k is LastModified || k is Sequence || k is RequestStatus ==> standard_kind::<S>(kind_keyword(k)->0.spec_bytes()) == Some(k),
{
    reveal(eq_ignore_ascii_case);
    reveal(standard_kind_part0);
    reveal(standard_kind_part1);
    reveal(standard_kind_part2);
    reveal(standard_kind_part3);
    let b = kind_keyword(k)->0.spec_bytes();
    assert(eq_ignore_ascii_case(b, b));
    match k {
        PropertyKind::RDate => {
            reveal_strlit("CALSCALE");
            reveal_strlit("METHOD");
            reveal_strlit("PRODID");
            reveal_strlit("VERSION");
            reveal_strlit("ATTACH");
            reveal_strlit("CATEGORIES");
            reveal_strlit("CLASS");
            reveal_strlit("COMMENT");
            reveal_strlit("DESCRIPTION");
            reveal_strlit("GEO");
            reveal_strlit("LOCATION");
            reveal_strlit("PERCENT-COMPLETE");
            reveal_strlit("PRIORITY");
            reveal_strlit("RESOURCES");
            reveal_strlit("STATUS");
            reveal_strlit("SUMMARY");
            reveal_strlit("COMPLETED");
            reveal_strlit("DTEND");
            reveal_strlit("DUE");
            reveal_strlit("DTSTART");
            reveal_strlit("DURATION");
            reveal_strlit("FREEBUSY");
            reveal_strlit("TRANSP");
            reveal_strlit("TZID");
            reveal_strlit("TZNAME");
            reveal_strlit("TZOFFSETFROM");
            reveal_strlit("TZOFFSETTO");
            reveal_strlit("TZURL");
            reveal_strlit("ATTENDEE");
            reveal_strlit("CONTACT");
            reveal_strlit("ORGANIZER");
            reveal_strlit("RECURRENCE-ID");
            reveal_strlit("RELATED-TO");
            reveal_strlit("URL");
            reveal_strlit("UID");
            reveal_strlit("EXDATE");
            reveal_strlit("RDATE");
            lemma_ascii_str_bytes(KW_RDATE);
            lemma_ascii_str_bytes(KW_CALSCALE);
            assert(b.len() != KW_CALSCALE.spec_bytes().len());
            lemma_ascii_str_bytes(KW_METHOD);
            assert(b.len() != KW_METHOD.spec_bytes().len());
            lemma_ascii_str_bytes(KW_PRODID);
            assert(b.len() != KW_PRODID.spec_bytes().len());
            lemma_ascii_str_bytes(KW_VERSION);
            assert(b.len() != KW_VERSION.spec_bytes().len());
            lemma_ascii_str_bytes(KW_ATTACH);
            assert(b.len() != KW_ATTACH.spec_bytes().len());
            lemma_ascii_str_bytes(KW_CATEGORIES);
            assert(b.len() != KW_CATEGORIES.spec_bytes().len());
            lemma_ascii_str_bytes(KW_CLASS);
            assert(ascii_lower(b[0]) != ascii_lower(KW_CLASS.spec_bytes()[0]));
            lemma_ascii_str_bytes(KW_COMMENT);
            assert(b.len() != KW_COMMENT.spec_bytes().len());
            lemma_ascii_str_bytes(KW_DESCRIPTION);
            assert(b.len() != KW_DESCRIPTION.spec_bytes().len());
            lemma_ascii_str_bytes(KW_GEO);
            assert(b.len() != KW_GEO.spec_bytes().len());
            lemma_ascii_str_bytes(KW_LOCATION);
            assert(b.len() != KW_LOCATION.spec_bytes().len());
            lemma_ascii_str_bytes(KW_PERCENT_COMPLETE);
            assert(b.len() != KW_PERCENT_COMPLETE.spec_bytes().len());
            lemma_ascii_str_bytes(KW_PRIORITY);
            assert(b.len() != KW_PRIORITY.spec_bytes().len());
            lemma_ascii_str_bytes(KW_RESOURCES);
            assert(b.len() != KW_RESOURCES.spec_bytes().len());
            lemma_ascii_str_bytes(KW_STATUS);
            assert(b.len() != KW_STATUS.spec_bytes().len());
            lemma_ascii_str_bytes(KW_SUMMARY);
            assert(b.len() != KW_SUMMARY.spec_bytes().len());
            lemma_ascii_str_bytes(KW_COMPLETED);
            assert(b.len() != KW_COMPLETED.spec_bytes().len());
            lemma_ascii_str_bytes(KW_DTEND);
            assert(ascii_lower(b[0]) != ascii_lower(KW_DTEND.spec_bytes()[0]));
            lemma_ascii_str_bytes(KW_DUE);
            assert(b.len() != KW_DUE.spec_bytes().len());
            lemma_ascii_str_bytes(KW_DTSTART);
            assert(b.len() != KW_DTSTART.spec_bytes().len());
            lemma_ascii_str_bytes(KW_DURATION);
            assert(b.len() != KW_DURATION.spec_bytes().len());
            lemma_ascii_str_bytes(KW_FREEBUSY);
            assert(b.len() != KW_FREEBUSY.spec_bytes().len());
            lemma_ascii_str_bytes(KW_TRANSP);
            assert(b.len() != KW_TRANSP.spec_bytes().len());
            lemma_ascii_str_bytes(KW_TZID);
            assert(b.len() != KW_TZID.spec_bytes().len());
            lemma_ascii_str_bytes(KW_TZNAME);
            assert(b.len() != KW_TZNAME.spec_bytes().len());
            lemma_ascii_str_bytes(KW_TZOFFSETFROM);
            assert(b.len() != KW_TZOFFSETFROM.spec_bytes().len());
            lemma_ascii_str_bytes(KW_TZOFFSETTO);
            assert(b.len() != KW_TZOFFSETTO.spec_bytes().len());
            lemma_ascii_str_bytes(KW_TZURL);
            assert(ascii_lower(b[0]) != ascii_lower(KW_TZURL.spec_bytes()[0]));
            lemma_ascii_str_bytes(KW_ATTENDEE);
            assert(b.len() != KW_ATTENDEE.spec_bytes().len());
            lemma_ascii_str_bytes(KW_CONTACT);
            assert(b.len() != KW_CONTACT.spec_bytes().len());
            lemma_ascii_str_bytes(KW_ORGANIZER);
            assert(b.len() != KW_ORGANIZER.spec_bytes().len());
            lemma_ascii_str_bytes(KW_RECURRENCE_ID);
            assert(b.len() != KW_RECURRENCE_ID.spec_bytes().len());
            lemma_ascii_str_bytes(KW_RELATED_TO);
            assert(b.len() != KW_RELATED_TO.spec_bytes().len());
            lemma_ascii_str_bytes(KW_URL);
            assert(b.len() != KW_URL.spec_bytes().len());
            lemma_ascii_str_bytes(KW_UID);
            assert(b.len() != KW_UID.spec_bytes().len());
            lemma_ascii_str_bytes(KW_EXDATE);
            assert(b.len() != KW_EXDATE.spec_bytes().len());
        }
        PropertyKind::RRule => {
            reveal_strlit("CALSCALE");
            reveal_strlit("METHOD");
            reveal_strlit("PRODID");
            reveal_strlit("VERSION");
            reveal_strlit("ATTACH");
            reveal_strlit("CATEGORIES");
            reveal_strlit("CLASS");
            reveal_strlit("COMMENT");
            reveal_strlit("DESCRIPTION");
            reveal_strlit("GEO");
            reveal_strlit("LOCATION");
            reveal_strlit("PERCENT-COMPLETE");
            reveal_strlit("PRIORITY");
            reveal_strlit("RESOURCES");
            reveal_strlit("STATUS");
            reveal_strlit("SUMMARY");
            reveal_strlit("COMPLETED");
            reveal_strlit("DTEND");
            reveal_strlit("DUE");
            reveal_strlit("DTSTART");
            reveal_strlit("DURATION");
            reveal_strlit("FREEBUSY");
            reveal_strlit("TRANSP");
            reveal_strlit("TZID");
            reveal_strlit("TZNAME");
            reveal_strlit("TZOFFSETFROM");
            reveal_strlit("TZOFFSETTO");
            reveal_strlit("TZURL");
            reveal_strlit("ATTENDEE");
            reveal_strlit("CONTACT");
            reveal_strlit("ORGANIZER");
            reveal_strlit("RECURRENCE-ID");
            reveal_strlit("RELATED-TO");
            reveal_strlit("URL");
            reveal_strlit("UID");
            reveal_strlit("EXDATE");
            reveal_strlit("RDATE");
            reveal_strlit("RRULE");
            lemma_ascii_str_bytes(KW_RRULE);
            lemma_ascii_str_bytes(KW_CALSCALE);
            assert(b.len() != KW_CALSCALE.spec_bytes().len());
            lemma_ascii_str_bytes(KW_METHOD);
            assert(b.len() != KW_METHOD.spec_bytes().len());
            lemma_ascii_str_bytes(KW_PRODID);
            assert(b.len() != KW_PRODID.spec_bytes().len());
            lemma_ascii_str_bytes(KW_VERSION);
            assert(b.len() != KW_VERSION.spec_bytes().len());
            lemma_ascii_str_bytes(KW_ATTACH);
            assert(b.len() != KW_ATTACH.spec_bytes().len());
            lemma_ascii_str_bytes(KW_CATEGORIES);
            assert(b.len() != KW_CATEGORIES.spec_bytes().len());
            lemma_ascii_str_bytes(KW_CLASS);
            assert(ascii_lower(b[0]) != ascii_lower(KW_CLASS.spec_bytes()[0]));
            lemma_ascii_str_bytes(KW_COMMENT);
            assert(b.len() != KW_COMMENT.spec_bytes().len());
            lemma_ascii_str_bytes(KW_DESCRIPTION);
            assert(b.len() != KW_DESCRIPTION.spec_bytes().len());
            lemma_ascii_str_bytes(KW_GEO);
            assert(b.len() != KW_GEO.spec_bytes().len());
            lemma_ascii_str_bytes(KW_LOCATION);
            assert(b.len() != KW_LOCATION.spec_bytes().len());
            lemma_ascii_str_bytes(KW_PERCENT_COMPLETE);
            assert(b.len() != KW_PERCENT_COMPLETE.spec_bytes().len());
            lemma_ascii_str_bytes(KW_PRIORITY);
            assert(b.len() != KW_PRIORITY.spec_bytes().len());
            lemma_ascii_str_bytes(KW_RESOURCES);
            assert(b.len() != KW_RESOURCES.spec_bytes().len());
            lemma_ascii_str_bytes(KW_STATUS);
            assert(b.len() != KW_STATUS.spec_bytes().len());
            lemma_ascii_str_bytes(KW_SUMMARY);
            assert(b.len() != KW_SUMMARY.spec_bytes().len());
            lemma_ascii_str_bytes(KW_COMPLETED);
            assert(b.len() != KW_COMPLETED.spec_bytes().len());
            lemma_ascii_str_bytes(KW_DTEND);
            assert(ascii_lower(b[0]) != ascii_lower(KW_DTEND.spec_bytes()[0]));
            lemma_ascii_str_bytes(KW_DUE);
            assert(b.len() != KW_DUE.spec_bytes().len());
            lemma_ascii_str_bytes(KW_DTSTART);
            assert(b.len() != KW_DTSTART.spec_bytes().len());
            lemma_ascii_str_bytes(KW_DURATION);
            assert(b.len() != KW_DURATION.spec_bytes().len());
            lemma_ascii_str_bytes(KW_FREEBUSY);
            assert(b.len() != KW_FREEBUSY.spec_bytes().len());
            lemma_ascii_str_bytes(KW_TRANSP);
            assert(b.len() != KW_TRANSP.spec_bytes().len());
            lemma_ascii_str_bytes(KW_TZID);
            assert(b.len() != KW_TZID.spec_bytes().len());
            lemma_ascii_str_bytes(KW_TZNAME);
            assert(b.len() != KW_TZNAME.spec_bytes().len());
            lemma_ascii_str_bytes(KW_TZOFFSETFROM);
            assert(b.len() != KW_TZOFFSETFROM.spec_bytes().len());
            lemma_ascii_str_bytes(KW_TZOFFSETTO);
            assert(b.len() != KW_TZOFFSETTO.spec_bytes().len());
            lemma_ascii_str_bytes(KW_TZURL);
            assert(ascii_lower(b[0]) != ascii_lower(KW_TZURL.spec_bytes()[0]));
            lemma_ascii_str_bytes(KW_ATTENDEE);
            assert(b.len() != KW_ATTENDEE.spec_bytes().len());
            lemma_ascii_str_bytes(KW_CONTACT);
            assert(b.len() != KW_CONTACT.spec_bytes().len());
            lemma_ascii_str_bytes(KW_ORGANIZER);
            assert(b.len() != KW_ORGANIZER.spec_bytes().len());
            lemma_ascii_str_bytes(KW_RECURRENCE_ID);
            assert(b.len() != KW_RECURRENCE_ID.spec_bytes().len());
            lemma_ascii_str_bytes(KW_RELATED_TO);
            assert(b.len() != KW_RELATED_TO.spec_bytes().len());
            lemma_ascii_str_bytes(KW_URL);
            assert(b.len() != KW_URL.spec_bytes().len());
            lemma_ascii_str_bytes(KW_UID);
            assert(b.len() != KW_UID.spec_bytes().len());
            lemma_ascii_str_bytes(KW_EXDATE);
            assert(b.len() != KW_EXDATE.spec_bytes().len());
            lemma_ascii_str_bytes(KW_RDATE);
            assert(ascii_lower(b[1]) != ascii_lower(KW_RDATE.spec_bytes()[1]));
        }
        PropertyKind::Action => {
            reveal_strlit("CALSCALE");
            reveal_strlit("METHOD");
            reveal_strlit("PRODID");
            reveal_strlit("VERSION");
            reveal_strlit("ATTACH");
            reveal_strlit("CATEGORIES");
            reveal_strlit("CLASS");
            reveal_strlit("COMMENT");
            reveal_strlit("DESCRIPTION");
            reveal_strlit("GEO");
            reveal_strlit("LOCATION");
            reveal_strlit("PERCENT-COMPLETE");
            reveal_strlit("PRIORITY");
            reveal_strlit("RESOURCES");
            reveal_strlit("STATUS");
            reveal_strlit("SUMMARY");
            reveal_strlit("COMPLETED");
            reveal_strlit("DTEND");
            reveal_strlit("DUE");
            reveal_strlit("DTSTART");
            reveal_strlit("DURATION");
            reveal_strlit("FREEBUSY");
            reveal_strlit("TRANSP");
            reveal_strlit("TZID");
            reveal_strlit("TZNAME");
            reveal_strlit("TZOFFSETFROM");
            reveal_strlit("TZOFFSETTO");
            reveal_strlit("TZURL");
            reveal_strlit("ATTENDEE");
            reveal_strlit("CONTACT");
            reveal_strlit("ORGANIZER");
            reveal_strlit("RECURRENCE-ID");
            reveal_strlit("RELATED-TO");
            reveal_strlit("URL");
            reveal_strlit("UID");
            reveal_strlit("EXDATE");
            reveal_strlit("RDATE");
            reveal_strlit("RRULE");
            reveal_strlit("ACTION");
            lemma_ascii_str_bytes(KW_ACTION);
            lemma_ascii_str_bytes(KW_CALSCALE);
            assert(b.len() != KW_CALSCALE.spec_bytes().len());
            lemma_ascii_str_bytes(KW_METHOD);
            assert(ascii_lower(b[0]) != ascii_lower(KW_METHOD.spec_bytes()[0]));
            lemma_ascii_str_bytes(KW_PRODID);
            assert(ascii_lower(b[0]) != ascii_lower(KW_PRODID.spec_bytes()[0]));
            lemma_ascii_str_bytes(KW_VERSION);
            assert(b.len() != KW_VERSION.spec_bytes().len());
            lemma_ascii_str_bytes(KW_ATTACH);
            assert(ascii_lower(b[1]) != ascii_lower(KW_ATTACH.spec_bytes()[1]));
            lemma_ascii_str_bytes(KW_CATEGORIES);
            assert(b.len() != KW_CATEGORIES.spec_bytes().len());
            lemma_ascii_str_bytes(KW_CLASS);
            assert(b.len() != KW_CLASS.spec_bytes().len());
            lemma_ascii_str_bytes(KW_COMMENT);
            assert(b.len() != KW_COMMENT.spec_bytes().len());
            lemma_ascii_str_bytes(KW_DESCRIPTION);
            assert(b.len() != KW_DESCRIPTION.spec_bytes().len());
            lemma_ascii_str_bytes(KW_GEO);
            assert(b.len() != KW_GEO.spec_bytes().len());
            lemma_ascii_str_bytes(KW_LOCATION);
            assert(b.len() != KW_LOCATION.spec_bytes().len());
            lemma_ascii_str_bytes(KW_PERCENT_COMPLETE);
            assert(b.len() != KW_PERCENT_COMPLETE.spec_bytes().len());
            lemma_ascii_str_bytes(KW_PRIORITY);
            assert(b.len() != KW_PRIORITY.spec_bytes().len());
            lemma_ascii_str_bytes(KW_RESOURCES);
            assert(b.len() != KW_RESOURCES.spec_bytes().len());
            lemma_ascii_str_bytes(KW_STATUS);
            assert(ascii_lower(b[0]) != ascii_lower(KW_STATUS.spec_bytes()[0]));
            lemma_ascii_str_bytes(KW_SUMMARY);
            assert(b.len() != KW_SUMMARY.spec_bytes().len());
            lemma_ascii_str_bytes(KW_COMPLETED);
            assert(b.len() != KW_COMPLETED.spec_bytes().len());
            lemma_ascii_str_bytes(KW_DTEND);
            assert(b.len() != KW_DTEND.spec_bytes().len());
            lemma_ascii_str_bytes(KW_DUE);
            assert(b.len() != KW_DUE.spec_bytes().len());
            lemma_ascii_str_bytes(KW_DTSTART);
            assert(b.len() != KW_DTSTART.spec_bytes().len());
            lemma_ascii_str_bytes(KW_DURATION);
            assert(b.len() != KW_DURATION.spec_bytes().len());
            lemma_ascii_str_bytes(KW_FREEBUSY);
            assert(b.len() != KW_FREEBUSY.spec_bytes().len());
            lemma_ascii_str_bytes(KW_TRANSP);
            assert(ascii_lower(b[0]) != ascii_lower(KW_TRANSP.spec_bytes()[0]));
            lemma_ascii_str_bytes(KW_TZID);
            assert(b.len() != KW_TZID.spec_bytes().len());
            lemma_ascii_str_bytes(KW_TZNAME);
            assert(ascii_lower(b[0]) != ascii_lower(KW_TZNAME.spec_bytes()[0]));
            lemma_ascii_str_bytes(KW_TZOFFSETFROM);
            assert(b.len() != KW_TZOFFSETFROM.spec_bytes().len());
            lemma_ascii_str_bytes(KW_TZOFFSETTO);
            assert(b.len() != KW_TZOFFSETTO.spec_bytes().len());
            lemma_ascii_str_bytes(KW_TZURL);
            assert(b.len() != KW_TZURL.spec_bytes().len());
            lemma_ascii_str_bytes(KW_ATTENDEE);
            assert(b.len() != KW_ATTENDEE.spec_bytes().len());
            lemma_ascii_str_bytes(KW_CONTACT);
            assert(b.len() != KW_CONTACT.spec_bytes().len());
            lemma_ascii_str_bytes(KW_ORGANIZER);
            assert(b.len() != KW_ORGANIZER.spec_bytes().len());
            lemma_ascii_str_bytes(KW_RECURRENCE_ID);
            assert(b.len() != KW_RECURRENCE_ID.spec_bytes().len());
            lemma_ascii_str_bytes(KW_RELATED_TO);
            assert(b.len() != KW_RELATED_TO.spec_bytes().len());
            lemma_ascii_str_bytes(KW_URL);
            assert(b.len() != KW_URL.spec_bytes().len());
            lemma_ascii_str_bytes(KW_UID);
            assert(b.len() != KW_UID.spec_bytes().len());
            lemma_ascii_str_bytes(KW_EXDATE);
            assert(ascii_lower(b[0]) != ascii_lower(KW_EXDATE.spec_bytes()[0]));
            lemma_ascii_str_bytes(KW_RDATE);
            assert(b.len() != KW_RDATE.spec_bytes().len());
            lemma_ascii_str_bytes(KW_RRULE);
            assert(b.len() != KW_RRULE.spec_bytes().len());
        }
        PropertyKind::Repeat => {
            reveal_strlit("CALSCALE");
            reveal_strlit("METHOD");
            reveal_strlit("PRODID");
            reveal_strlit("VERSION");
            reveal_strlit("ATTACH");
            reveal_strlit("CATEGORIES");
            reveal_strlit("CLASS");
            reveal_strlit("COMMENT");
            reveal_strlit("DESCRIPTION");
            reveal_strlit("GEO");
            reveal_strlit("LOCATION");
            reveal_strlit("PERCENT-COMPLETE");
            reveal_strlit("PRIORITY");
            reveal_strlit("RESOURCES");
            reveal_strlit("STATUS");
            reveal_strlit("SUMMARY");
            reveal_strlit("COMPLETED");
            reveal_strlit("DTEND");
            reveal_strlit("DUE");
            reveal_strlit("DTSTART");
            reveal_strlit("DURATION");
            reveal_strlit("FREEBUSY");
            reveal_strlit("TRANSP");
            reveal_strlit("TZID");
            reveal_strlit("TZNAME");
            reveal_strlit("TZOFFSETFROM");
            reveal_strlit("TZOFFSETTO");
            reveal_strlit("TZURL");
            reveal_strlit("ATTENDEE");
            reveal_strlit("CONTACT");
            reveal_strlit("ORGANIZER");
            reveal_strlit("RECURRENCE-ID");
            reveal_strlit("RELATED-TO");
            reveal_strlit("URL");
            reveal_strlit("UID");
            reveal_strlit("EXDATE");
            reveal_strlit("RDATE");
            reveal_strlit("RRULE");
            reveal_strlit("ACTION");
            reveal_strlit("REPEAT");
            lemma_ascii_str_bytes(KW_REPEAT);
            lemma_ascii_str_bytes(KW_CALSCALE);
            assert(b.len() != KW_CALSCALE.spec_bytes().len());
            lemma_ascii_str_bytes(KW_METHOD);
            assert(ascii_lower(b[0]) != ascii_lower(KW_METHOD.spec_bytes()[0]));
            lemma_ascii_str_bytes(KW_PRODID);
            assert(ascii_lower(b[0]) != ascii_lower(KW_PRODID.spec_bytes()[0]));
            lemma_ascii_str_bytes(KW_VERSION);
            assert(b.len() != KW_VERSION.spec_bytes().len());
            lemma_ascii_str_bytes(KW_ATTACH);
            assert(ascii_lower(b[0]) != ascii_lower(KW_ATTACH.spec_bytes()[0]));
            lemma_ascii_str_bytes(KW_CATEGORIES);
            assert(b.len() != KW_CATEGORIES.spec_bytes().len());
            lemma_ascii_str_bytes(KW_CLASS);
            assert(b.len() != KW_CLASS.spec_bytes().len());
            lemma_ascii_str_bytes(KW_COMMENT);
            assert(b.len() != KW_COMMENT.spec_bytes().len());
            lemma_ascii_str_bytes(KW_DESCRIPTION);
            assert(b.len() != KW_DESCRIPTION.spec_bytes().len());
            lemma_ascii_str_bytes(KW_GEO);
            assert(b.len() != KW_GEO.spec_bytes().len());
            lemma_ascii_str_bytes(KW_LOCATION);
            assert(b.len() != KW_LOCATION.spec_bytes().len());
            lemma_ascii_str_bytes(KW_PERCENT_COMPLETE);
            assert(b.len() != KW_PERCENT_COMPLETE.spec_bytes().len());
            lemma_ascii_str_bytes(KW_PRIORITY);
            assert(b.len() != KW_PRIORITY.spec_bytes().len());
            lemma_ascii_str_bytes(KW_RESOURCES);
            assert(b.len() != KW_RESOURCES.spec_bytes().len());
            lemma_ascii_str_bytes(KW_STATUS);
            assert(ascii_lower(b[0]) != ascii_lower(KW_STATUS.spec_bytes()[0]));
            lemma_ascii_str_bytes(KW_SUMMARY);
            assert(b.len() != KW_SUMMARY.spec_bytes().len());
            lemma_ascii_str_bytes(KW_COMPLETED);
            assert(b.len() != KW_COMPLETED.spec_bytes().len());
            lemma_ascii_str_bytes(KW_DTEND);
            assert(b.len() != KW_DTEND.spec_bytes().len());
            lemma_ascii_str_bytes(KW_DUE);
            assert(b.len() != KW_DUE.spec_bytes().len());
            lemma_ascii_str_bytes(KW_DTSTART);
            assert(b.len() != KW_DTSTART.spec_bytes().len());
            lemma_ascii_str_bytes(KW_DURATION);
            assert(b.len() != KW_DURATION.spec_bytes().len());
            lemma_ascii_str_bytes(KW_FREEBUSY);
            assert(b.len() != KW_FREEBUSY.spec_bytes().len());
            lemma_ascii_str_bytes(KW_TRANSP);
            assert(ascii_lower(b[0]) != ascii_lower(KW_TRANSP.spec_bytes()[0]));
            lemma_ascii_str_bytes(KW_TZID);
            assert(b.len() != KW_TZID.spec_bytes().len());
            lemma_ascii_str_bytes(KW_TZNAME);
            assert(ascii_lower(b[0]) != ascii_lower(KW_TZNAME.spec_bytes()[0]));
            lemma_ascii_str_bytes(KW_TZOFFSETFROM);
            assert(b.len() != KW_TZOFFSETFROM.spec_bytes().len());
            lemma_ascii_str_bytes(KW_TZOFFSETTO);
            assert(b.len() != KW_TZOFFSETTO.spec_bytes().len());
            lemma_ascii_str_bytes(KW_TZURL);
            assert(b.len() != KW_TZURL.spec_bytes().len());
            lemma_ascii_str_bytes(KW_ATTENDEE);
            assert(b.len() != KW_ATTENDEE.spec_bytes().len());
            lemma_ascii_str_bytes(KW_CONTACT);
            assert(b.len() != KW_CONTACT.spec_bytes().len());
            lemma_ascii_str_bytes(KW_ORGANIZER);
            assert(b.len() != KW_ORGANIZER.spec_bytes().len());
            lemma_ascii_str_bytes(KW_RECURRENCE_ID);
            assert(b.len() != KW_RECURRENCE_ID.spec_bytes().len());
            lemma_ascii_str_bytes(KW_RELATED_TO);
            assert(b.len() != KW_RELATED_TO.spec_bytes().len());
            lemma_ascii_str_bytes(KW_URL);
            assert(b.len() != KW_URL.spec_bytes().len());
            lemma_ascii_str_bytes(KW_UID);
            assert(b.len() != KW_UID.spec_bytes().len());
            lemma_ascii_str_bytes(KW_EXDATE);
            assert(ascii_lower(b[0]) != ascii_lower(KW_EXDATE.spec_bytes()[0]));
            lemma_ascii_str_bytes(KW_RDATE);
            assert(b.len() != KW_RDATE.spec_bytes().len());
            lemma_ascii_str_bytes(KW_RRULE);
            assert(b.len() != KW_RRULE.spec_bytes().len());
            lemma_ascii_str_bytes(KW_ACTION);
            assert(ascii_lower(b[0]) != ascii_lower(KW_ACTION.spec_bytes()[0]));
        }
        PropertyKind::Trigger => {
            reveal_strlit("CALSCALE");
            reveal_strlit("METHOD");
            reveal_strlit("PRODID");
            reveal_strlit("VERSION");
            reveal_strlit("ATTACH");
            reveal_strlit("CATEGORIES");
            reveal_strlit("CLASS");
            reveal_strlit("COMMENT");
            reveal_strlit("DESCRIPTION");
            reveal_strlit("GEO");
            reveal_strlit("LOCATION");
            reveal_strlit("PERCENT-COMPLETE");
            reveal_strlit("PRIORITY");
            reveal_strlit("RESOURCES");
            reveal_strlit("STATUS");
            reveal_strlit("SUMMARY");
            reveal_strlit("COMPLETED");
            reveal_strlit("DTEND");
            reveal_strlit("DUE");
            reveal_strlit("DTSTART");
            reveal_strlit("DURATION");
            reveal_strlit("FREEBUSY");
            reveal_strlit("TRANSP");
            reveal_strlit("TZID");
            reveal_strlit("TZNAME");
            reveal_strlit("TZOFFSETFROM");
            reveal_strlit("TZOFFSETTO");
            reveal_strlit("TZURL");
            reveal_strlit("ATTENDEE");
            reveal_strlit("CONTACT");
            reveal_strlit("ORGANIZER");
            reveal_strlit("RECURRENCE-ID");
            reveal_strlit("RELATED-TO");
            reveal_strlit("URL");
            reveal_strlit("UID");
            reveal_strlit("EXDATE");
            reveal_strlit("RDATE");
            reveal_strlit("RRULE");
            reveal_strlit("ACTION");
            reveal_strlit("REPEAT");
            reveal_strlit("TRIGGER");
            lemma_ascii_str_bytes(KW_TRIGGER);
            lemma_ascii_str_bytes(KW_CALSCALE);
            assert(b.len() != KW_CALSCALE.spec_bytes().len());
            lemma_ascii_str_bytes(KW_METHOD);
            assert(b.len() != KW_METHOD.spec_bytes().len());
            lemma_ascii_str_bytes(KW_PRODID);
            assert(b.len() != KW_PRODID.spec_bytes().len());
            lemma_ascii_str_bytes(KW_VERSION);
            assert(ascii_lower(b[0]) != ascii_lower(KW_VERSION.spec_bytes()[0]));
            lemma_ascii_str_bytes(KW_ATTACH);
            assert(b.len() != KW_ATTACH.spec_bytes().len());
            lemma_ascii_str_bytes(KW_CATEGORIES);
            assert(b.len() != KW_CATEGORIES.spec_bytes().len());
            lemma_ascii_str_bytes(KW_CLASS);
            assert(b.len() != KW_CLASS.spec_bytes().len());
            lemma_ascii_str_bytes(KW_COMMENT);
            assert(ascii_lower(b[0]) != ascii_lower(KW_COMMENT.spec_bytes()[0]));
            lemma_ascii_str_bytes(KW_DESCRIPTION);
            assert(b.len() != KW_DESCRIPTION.spec_bytes().len());
            lemma_ascii_str_bytes(KW_GEO);
            assert(b.len() != KW_GEO.spec_bytes().len());
            lemma_ascii_str_bytes(KW_LOCATION);
            assert(b.len() != KW_LOCATION.spec_bytes().len());
            lemma_ascii_str_bytes(KW_PERCENT_COMPLETE);
            assert(b.len() != KW_PERCENT_COMPLETE.spec_bytes().len());
            lemma_ascii_str_bytes(KW_PRIORITY);
            assert(b.len() != KW_PRIORITY.spec_bytes().len());
            lemma_ascii_str_bytes(KW_RESOURCES);
            assert(b.len() != KW_RESOURCES.spec_bytes().len());
            lemma_ascii_str_bytes(KW_STATUS);
            assert(b.len() != KW_STATUS.spec_bytes().len());
            lemma_ascii_str_bytes(KW_SUMMARY);
            assert(ascii_lower(b[0]) != ascii_lower(KW_SUMMARY.spec_bytes()[0]));
            lemma_ascii_str_bytes(KW_COMPLETED);
            assert(b.len() != KW_COMPLETED.spec_bytes().len());
            lemma_ascii_str_bytes(KW_DTEND);
            assert(b.len() != KW_DTEND.spec_bytes().len());
            lemma_ascii_str_bytes(KW_DUE);
            assert(b.len() != KW_DUE.spec_bytes().len());
            lemma_ascii_str_bytes(KW_DTSTART);
            assert(ascii_lower(b[0]) != ascii_lower(KW_DTSTART.spec_bytes()[0]));
            lemma_ascii_str_bytes(KW_DURATION);
            assert(b.len() != KW_DURATION.spec_bytes().len());
            lemma_ascii_str_bytes(KW_FREEBUSY);
            assert(b.len() != KW_FREEBUSY.spec_bytes().len());
            lemma_ascii_str_bytes(KW_TRANSP);
            assert(b.len() != KW_TRANSP.spec_bytes().len());
            lemma_ascii_str_bytes(KW_TZID);
            assert(b.len() != KW_TZID.spec_bytes().len());
            lemma_ascii_str_bytes(KW_TZNAME);
            assert(b.len() != KW_TZNAME.spec_bytes().len());
            lemma_ascii_str_bytes(KW_TZOFFSETFROM);
            assert(b.len() != KW_TZOFFSETFROM.spec_bytes().len());
            lemma_ascii_str_bytes(KW_TZOFFSETTO);
            assert(b.len() != KW_TZOFFSETTO.spec_bytes().len());
            lemma_ascii_str_bytes(KW_TZURL);
            assert(b.len() != KW_TZURL.spec_bytes().len());
            lemma_ascii_str_bytes(KW_ATTENDEE);
            assert(b.len() != KW_ATTENDEE.spec_bytes().len());
            lemma_ascii_str_bytes(KW_CONTACT);
            assert(ascii_lower(b[0]) != ascii_lower(KW_CONTACT.spec_bytes()[0]));
            lemma_ascii_str_bytes(KW_ORGANIZER);
            assert(b.len() != KW_ORGANIZER.spec_bytes().len());
            lemma_ascii_str_bytes(KW_RECURRENCE_ID);
            assert(b.len() != KW_RECURRENCE_ID.spec_bytes().len());
            lemma_ascii_str_bytes(KW_RELATED_TO);
            assert(b.len() != KW_RELATED_TO.spec_bytes().len());
            lemma_ascii_str_bytes(KW_URL);
            assert(b.len() != KW_URL.spec_bytes().len());
            lemma_ascii_str_bytes(KW_UID);
            assert(b.len() != KW_UID.spec_bytes().len());
            lemma_ascii_str_bytes(KW_EXDATE);
            assert(b.len() != KW_EXDATE.spec_bytes().len());
            lemma_ascii_str_bytes(KW_RDATE);
            assert(b.len() != KW_RDATE.spec_bytes().len());
            lemma_ascii_str_bytes(KW_RRULE);
            assert(b.len() != KW_RRULE.spec_bytes().len());
            lemma_ascii_str_bytes(KW_ACTION);
            assert(b.len() != KW_ACTION.spec_bytes().len());
            lemma_ascii_str_bytes(KW_REPEAT);
            assert(b.len() != KW_REPEAT.spec_bytes().len());
        }
        PropertyKind::Created => {
            reveal_strlit("CALSCALE");
            reveal_strlit("METHOD");
            reveal_strlit("PRODID");
            reveal_strlit("VERSION");
            reveal_strlit("ATTACH");
            reveal_strlit("CATEGORIES");
            reveal_strlit("CLASS");
            reveal_strlit("COMMENT");
            reveal_strlit("DESCRIPTION");
            reveal_strlit("GEO");
            reveal_strlit("LOCATION");
            reveal_strlit("PERCENT-COMPLETE");
            reveal_strlit("PRIORITY");
            reveal_strlit("RESOURCES");
            reveal_strlit("STATUS");
            reveal_strlit("SUMMARY");
            reveal_strlit("COMPLETED");
            reveal_strlit("DTEND");
            reveal_strlit("DUE");
            reveal_strlit("DTSTART");
            reveal_strlit("DURATION");
            reveal_strlit("FREEBUSY");
            reveal_strlit("TRANSP");
            reveal_strlit("TZID");
            reveal_strlit("TZNAME");
            reveal_strlit("TZOFFSETFROM");
            reveal_strlit("TZOFFSETTO");
            reveal_strlit("TZURL");
            reveal_strlit("ATTENDEE");
            reveal_strlit("CONTACT");
            reveal_strlit("ORGANIZER");
            reveal_strlit("RECURRENCE-ID");
            reveal_strlit("RELATED-TO");
            reveal_strlit("URL");
            reveal_strlit("UID");
            reveal_strlit("EXDATE");
            reveal_strlit("RDATE");
            reveal_strlit("RRULE");
            reveal_strlit("ACTION");
            reveal_strlit("REPEAT");
            reveal_strlit("TRIGGER");
            reveal_strlit("CREATED");
            lemma_ascii_str_bytes(KW_CREATED);
            lemma_ascii_str_bytes(KW_CALSCALE);
            assert(b.len() != KW_CALSCALE.spec_bytes().len());
            lemma_ascii_str_bytes(KW_METHOD);
            assert(b.len() != KW_METHOD.spec_bytes().len());
            lemma_ascii_str_bytes(KW_PRODID);
            assert(b.len() != KW_PRODID.spec_bytes().len());
            lemma_ascii_str_bytes(KW_VERSION);
            assert(ascii_lower(b[0]) != ascii_lower(KW_VERSION.spec_bytes()[0]));
            lemma_ascii_str_bytes(KW_ATTACH);
            assert(b.len() != KW_ATTACH.spec_bytes().len());
            lemma_ascii_str_bytes(KW_CATEGORIES);
            assert(b.len() != KW_CATEGORIES.spec_bytes().len());
            lemma_ascii_str_bytes(KW_CLASS);
            assert(b.len() != KW_CLASS.spec_bytes().len());
            lemma_ascii_str_bytes(KW_COMMENT);
            assert(ascii_lower(b[1]) != ascii_lower(KW_COMMENT.spec_bytes()[1]));
            lemma_ascii_str_bytes(KW_DESCRIPTION);
            assert(b.len() != KW_DESCRIPTION.spec_bytes().len());
            lemma_ascii_str_bytes(KW_GEO);
            assert(b.len() != KW_GEO.spec_bytes().len());
            lemma_ascii_str_bytes(KW_LOCATION);
            assert(b.len() != KW_LOCATION.spec_bytes().len());
            lemma_ascii_str_bytes(KW_PERCENT_COMPLETE);
            assert(b.len() != KW_PERCENT_COMPLETE.spec_bytes().len());
            lemma_ascii_str_bytes(KW_PRIORITY);
            assert(b.len() != KW_PRIORITY.spec_bytes().len());
            lemma_ascii_str_bytes(KW_RESOURCES);
            assert(b.len() != KW_RESOURCES.spec_bytes().len());
            lemma_ascii_str_bytes(KW_STATUS);
            assert(b.len() != KW_STATUS.spec_bytes().len());
            lemma_ascii_str_bytes(KW_SUMMARY);
            assert(ascii_lower(b[0]) != ascii_lower(KW_SUMMARY.spec_bytes()[0]));
            lemma_ascii_str_bytes(KW_COMPLETED);
            assert(b.len() != KW_COMPLETED.spec_bytes().len());
            lemma_ascii_str_bytes(KW_DTEND);
            assert(b.len() != KW_DTEND.spec_bytes().len());
            lemma_ascii_str_bytes(KW_DUE);
            assert(b.len() != KW_DUE.spec_bytes().len());
            lemma_ascii_str_bytes(KW_DTSTART);
            assert(ascii_lower(b[0]) != ascii_lower(KW_DTSTART.spec_bytes()[0]));
            lemma_ascii_str_bytes(KW_DURATION);
            assert(b.len() != KW_DURATION.spec_bytes().len());
            lemma_ascii_str_bytes(KW_FREEBUSY);
            assert(b.len() != KW_FREEBUSY.spec_bytes().len());
            lemma_ascii_str_bytes(KW_TRANSP);
            assert(b.len() != KW_TRANSP.spec_bytes().len());
            lemma_ascii_str_bytes(KW_TZID);
            assert(b.len() != KW_TZID.spec_bytes().len());
            lemma_ascii_str_bytes(KW_TZNAME);
            assert(b.len() != KW_TZNAME.spec_bytes().len());
            lemma_ascii_str_bytes(KW_TZOFFSETFROM);
            assert(b.len() != KW_TZOFFSETFROM.spec_bytes().len());
            lemma_ascii_str_bytes(KW_TZOFFSETTO);
            assert(b.len() != KW_TZOFFSETTO.spec_bytes().len());
            lemma_ascii_str_bytes(KW_TZURL);
            assert(b.len() != KW_TZURL.spec_bytes().len());
            lemma_ascii_str_bytes(KW_ATTENDEE);
            assert(b.len() != KW_ATTENDEE.spec_bytes().len());
            lemma_ascii_str_bytes(KW_CONTACT);
            assert(ascii_lower(b[1]) != ascii_lower(KW_CONTACT.spec_bytes()[1]));
            lemma_ascii_str_bytes(KW_ORGANIZER);
            assert(b.len() != KW_ORGANIZER.spec_bytes().len());
            lemma_ascii_str_bytes(KW_RECURRENCE_ID);
            assert(b.len() != KW_RECURRENCE_ID.spec_bytes().len());
            lemma_ascii_str_bytes(KW_RELATED_TO);
            assert(b.len() != KW_RELATED_TO.spec_bytes().len());
            lemma_ascii_str_bytes(KW_URL);
            assert(b.len() != KW_URL.spec_bytes().len());
            lemma_ascii_str_bytes(KW_UID);
            assert(b.len() != KW_UID.spec_bytes().len());
            lemma_ascii_str_bytes(KW_EXDATE);
            assert(b.len() != KW_EXDATE.spec_bytes().len());
            lemma_ascii_str_bytes(KW_RDATE);
            assert(b.len() != KW_RDATE.spec_bytes().len());
            lemma_ascii_str_bytes(KW_RRULE);
            assert(b.len() != KW_RRULE.spec_bytes().len());
            lemma_ascii_str_bytes(KW_ACTION);
            assert(b.len() != KW_ACTION.spec_bytes().len());
            lemma_ascii_str_bytes(KW_REPEAT);
            assert(b.len() != KW_REPEAT.spec_bytes().len());
            lemma_ascii_str_bytes(KW_TRIGGER);
            assert(ascii_lower(b[0]) != ascii_lower(KW_TRIGGER.spec_bytes()[0]));
        }
        PropertyKind::DtStamp => {
            reveal_strlit("CALSCALE");
            reveal_strlit("METHOD");
            reveal_strlit("PRODID");
            reveal_strlit("VERSION");
            reveal_strlit("ATTACH");
            reveal_strlit("CATEGORIES");
            reveal_strlit("CLASS");
            reveal_strlit("COMMENT");
            reveal_strlit("DESCRIPTION");
            reveal_strlit("GEO");
            reveal_strlit("LOCATION");
            reveal_strlit("PERCENT-COMPLETE");
            reveal_strlit("PRIORITY");
            reveal_strlit("RESOURCES");
            reveal_strlit("STATUS");
            reveal_strlit("SUMMARY");
            reveal_strlit("COMPLETED");
            reveal_strlit("DTEND");
            reveal_strlit("DUE");
            reveal_strlit("DTSTART");
            reveal_strlit("DURATION");
            reveal_strlit("FREEBUSY");
            reveal_strlit("TRANSP");
            reveal_strlit("TZID");
            reveal_strlit("TZNAME");
            reveal_strlit("TZOFFSETFROM");
            reveal_strlit("TZOFFSETTO");
            reveal_strlit("TZURL");
            reveal_strlit("ATTENDEE");
            reveal_strlit("CONTACT");
            reveal_strlit("ORGANIZER");
            reveal_strlit("RECURRENCE-ID");
            reveal_strlit("RELATED-TO");
            reveal_strlit("URL");
            reveal_strlit("UID");
            reveal_strlit("EXDATE");
            reveal_strlit("RDATE");
            reveal_strlit("RRULE");
            reveal_strlit("ACTION");
            reveal_strlit("REPEAT");
            reveal_strlit("TRIGGER");
            reveal_strlit("CREATED");
            reveal_strlit("DTSTAMP");
            lemma_ascii_str_bytes(KW_DTSTAMP);
            lemma_ascii_str_bytes(KW_CALSCALE);
            assert(b.len() != KW_CALSCALE.spec_bytes().len());
            lemma_ascii_str_bytes(KW_METHOD);
            assert(b.len() != KW_METHOD.spec_bytes().len());
            lemma_ascii_str_bytes(KW_PRODID);
            assert(b.len() != KW_PRODID.spec_bytes().len());
            lemma_ascii_str_bytes(KW_VERSION);
            assert(ascii_lower(b[0]) != ascii_lower(KW_VERSION.spec_bytes()[0]));
            lemma_ascii_str_bytes(KW_ATTACH);
            assert(b.len() != KW_ATTACH.spec_bytes().len());
            lemma_ascii_str_bytes(KW_CATEGORIES);
            assert(b.len() != KW_CATEGORIES.spec_bytes().len());
            lemma_ascii_str_bytes(KW_CLASS);
            assert(b.len() != KW_CLASS.spec_bytes().len());
            lemma_ascii_str_bytes(KW_COMMENT);
            assert(ascii_lower(b[0]) != ascii_lower(KW_COMMENT.spec_bytes()[0]));
            lemma_ascii_str_bytes(KW_DESCRIPTION);
            assert(b.len() != KW_DESCRIPTION.spec_bytes().len());
            lemma_ascii_str_bytes(KW_GEO);
            assert(b.len() != KW_GEO.spec_bytes().len());
            lemma_ascii_str_bytes(KW_LOCATION);
            assert(b.len() != KW_LOCATION.spec_bytes().len());
            lemma_ascii_str_bytes(KW_PERCENT_COMPLETE);
            assert(b.len() != KW_PERCENT_COMPLETE.spec_bytes().len());
            lemma_ascii_str_bytes(KW_PRIORITY);
            assert(b.len() != KW_PRIORITY.spec_bytes().len());
            lemma_ascii_str_bytes(KW_RESOURCES);
            assert(b.len() != KW_RESOURCES.spec_bytes().len());
            lemma_ascii_str_bytes(KW_STATUS);
            assert(b.len() != KW_STATUS.spec_bytes().len());
            lemma_ascii_str_bytes(KW_SUMMARY);
            assert(ascii_lower(b[0]) != ascii_lower(KW_SUMMARY.spec_bytes()[0]));
            lemma_ascii_str_bytes(KW_COMPLETED);
            assert(b.len() != KW_COMPLETED.spec_bytes().len());
            lemma_ascii_str_bytes(KW_DTEND);
            assert(b.len() != KW_DTEND.spec_bytes().len());
            lemma_ascii_str_bytes(KW_DUE);
            assert(b.len() != KW_DUE.spec_bytes().len());
            lemma_ascii_str_bytes(KW_DTSTART);
            assert(ascii_lower(b[5]) != ascii_lower(KW_DTSTART.spec_bytes()[5]));
            lemma_ascii_str_bytes(KW_DURATION);
            assert(b.len() != KW_DURATION.spec_bytes().len());
            lemma_ascii_str_bytes(KW_FREEBUSY);
            assert(b.len() != KW_FREEBUSY.spec_bytes().len());
            lemma_ascii_str_bytes(KW_TRANSP);
            assert(b.len() != KW_TRANSP.spec_bytes().len());
            lemma_ascii_str_bytes(KW_TZID);
            assert(b.len() != KW_TZID.spec_bytes().len());
            lemma_ascii_str_bytes(KW_TZNAME);
            assert(b.len() != KW_TZNAME.spec_bytes().len());
            lemma_ascii_str_bytes(KW_TZOFFSETFROM);
            assert(b.len() != KW_TZOFFSETFROM.spec_bytes().len());
            lemma_ascii_str_bytes(KW_TZOFFSETTO);
            assert(b.len() != KW_TZOFFSETTO.spec_bytes().len());
            lemma_ascii_str_bytes(KW_TZURL);
            assert(b.len() != KW_TZURL.spec_bytes().len());
            lemma_ascii_str_bytes(KW_ATTENDEE);
            assert(b.len() != KW_ATTENDEE.spec_bytes().len());
            lemma_ascii_str_bytes(KW_CONTACT);
            assert(ascii_lower(b[0]) != ascii_lower(KW_CONTACT.spec_bytes()[0]));
            lemma_ascii_str_bytes(KW_ORGANIZER);
            assert(b.len() != KW_ORGANIZER.spec_bytes().len());
            lemma_ascii_str_bytes(KW_RECURRENCE_ID);
            assert(b.len() != KW_RECURRENCE_ID.spec_bytes().len());
            lemma_ascii_str_bytes(KW_RELATED_TO);
            assert(b.len() != KW_RELATED_TO.spec_bytes().len());
            lemma_ascii_str_bytes(KW_URL);
            assert(b.len() != KW_URL.spec_bytes().len());
            lemma_ascii_str_bytes(KW_UID);
            assert(b.len() != KW_UID.spec_bytes().len());
            lemma_ascii_str_bytes(KW_EXDATE);
            assert(b.len() != KW_EXDATE.spec_bytes().len());
            lemma_ascii_str_bytes(KW_RDATE);
            assert(b.len() != KW_RDATE.spec_bytes().len());
            lemma_ascii_str_bytes(KW_RRULE);
            assert(b.len() != KW_RRULE.spec_bytes().len());
            lemma_ascii_str_bytes(KW_ACTION);
            assert(b.len() != KW_ACTION.spec_bytes().len());
            lemma_ascii_str_bytes(KW_REPEAT);
            assert(b.len() != KW_REPEAT.spec_bytes().len());
            lemma_ascii_str_bytes(KW_TRIGGER);
            assert(ascii_lower(b[0]) != ascii_lower(KW_TRIGGER.spec_bytes()[0]));
            lemma_ascii_str_bytes(KW_CREATED);
            assert(ascii_lower(b[0]) != ascii_lower(KW_CREATED.spec_bytes()[0]));
        }
        PropertyKind::LastModified => {
            reveal_strlit("CALSCALE");
            reveal_strlit("METHOD");
            reveal_strlit("PRODID");
            reveal_strlit("VERSION");
            reveal_strlit("ATTACH");
            reveal_strlit("CATEGORIES");
            reveal_strlit("CLASS");
            reveal_strlit("COMMENT");
            reveal_strlit("DESCRIPTION");
            reveal_strlit("GEO");
            reveal_strlit("LOCATION");
            reveal_strlit("PERCENT-COMPLETE");
            reveal_strlit("PRIORITY");
            reveal_strlit("RESOURCES");
            reveal_strlit("STATUS");
            reveal_strlit("SUMMARY");
            reveal_strlit("COMPLETED");
            reveal_strlit("DTEND");
            reveal_strlit("DUE");
            reveal_strlit("DTSTART");
            reveal_strlit("DURATION");
            reveal_strlit("FREEBUSY");
            reveal_strlit("TRANSP");
            reveal_strlit("TZID");
            reveal_strlit("TZNAME");
            reveal_strlit("TZOFFSETFROM");
            reveal_strlit("TZOFFSETTO");
            reveal_strlit("TZURL");
            reveal_strlit("ATTENDEE");
            reveal_strlit("CONTACT");
            reveal_strlit("ORGANIZER");
            reveal_strlit("RECURRENCE-ID");
            reveal_strlit("RELATED-TO");
            reveal_strlit("URL");
            reveal_strlit("UID");
            reveal_strlit("EXDATE");
            reveal_strlit("RDATE");
            reveal_strlit("RRULE");
            reveal_strlit("ACTION");
            reveal_strlit("REPEAT");
            reveal_strlit("TRIGGER");
            reveal_strlit("CREATED");
            reveal_strlit("DTSTAMP");
            reveal_strlit("LAST-MODIFIED");
            lemma_ascii_str_bytes(KW_LAST_MODIFIED);
            lemma_ascii_str_bytes(KW_CALSCALE);
            assert(b.len() != KW_CALSCALE.spec_bytes().len());
            lemma_ascii_str_bytes(KW_METHOD);
            assert(b.len() != KW_METHOD.spec_bytes().len());
            lemma_ascii_str_bytes(KW_PRODID);
            assert(b.len() != KW_PRODID.spec_bytes().len());
            lemma_ascii_str_bytes(KW_VERSION);
            assert(b.len() != KW_VERSION.spec_bytes().len());
            lemma_ascii_str_bytes(KW_ATTACH);
            assert(b.len() != KW_ATTACH.spec_bytes().len());
            lemma_ascii_str_bytes(KW_CATEGORIES);
            assert(b.len() != KW_CATEGORIES.spec_bytes().len());
            lemma_ascii_str_bytes(KW_CLASS);
            assert(b.len() != KW_CLASS.spec_bytes().len());
            lemma_ascii_str_bytes(KW_COMMENT);
            assert(b.len() != KW_COMMENT.spec_bytes().len());
            lemma_ascii_str_bytes(KW_DESCRIPTION);
            assert(b.len() != KW_DESCRIPTION.spec_bytes().len());
            lemma_ascii_str_bytes(KW_GEO);
            assert(b.len() != KW_GEO.spec_bytes().len());
            lemma_ascii_str_bytes(KW_LOCATION);
            assert(b.len() != KW_LOCATION.spec_bytes().len());
            lemma_ascii_str_bytes(KW_PERCENT_COMPLETE);
            assert(b.len() != KW_PERCENT_COMPLETE.spec_bytes().len());
            lemma_ascii_str_bytes(KW_PRIORITY);
            assert(b.len() != KW_PRIORITY.spec_bytes().len());
            lemma_ascii_str_bytes(KW_RESOURCES);
            assert(b.len() != KW_RESOURCES.spec_bytes().len());
            lemma_ascii_str_bytes(KW_STATUS);
            assert(b.len() != KW_STATUS.spec_bytes().len());
            lemma_ascii_str_bytes(KW_SUMMARY);
            assert(b.len() != KW_SUMMARY.spec_bytes().len());
            lemma_ascii_str_bytes(KW_COMPLETED);
            assert(b.len() != KW_COMPLETED.spec_bytes().len());
            lemma_ascii_str_bytes(KW_DTEND);
            assert(b.len() != KW_DTEND.spec_bytes().len());
            lemma_ascii_str_bytes(KW_DUE);
            assert(b.len() != KW_DUE.spec_bytes().len());
            lemma_ascii_str_bytes(KW_DTSTART);
            assert(b.len() != KW_DTSTART.spec_bytes().len());
            lemma_ascii_str_bytes(KW_DURATION);
            assert(b.len() != KW_DURATION.spec_bytes().len());
            lemma_ascii_str_bytes(KW_FREEBUSY);
            assert(b.len() != KW_FREEBUSY.spec_bytes().len());
            lemma_ascii_str_bytes(KW_TRANSP);
            assert(b.len() != KW_TRANSP.spec_bytes().len());
            lemma_ascii_str_bytes(KW_TZID);
            assert(b.len() != KW_TZID.spec_bytes().len());
            lemma_ascii_str_bytes(KW_TZNAME);
            assert(b.len() != KW_TZNAME.spec_bytes().len());
            lemma_ascii_str_bytes(KW_TZOFFSETFROM);
            assert(b.len() != KW_TZOFFSETFROM.spec_bytes().len());
            lemma_ascii_str_bytes(KW_TZOFFSETTO);
            assert(b.len() != KW_TZOFFSETTO.spec_bytes().len());
            lemma_ascii_str_bytes(KW_TZURL);
            assert(b.len() != KW_TZURL.spec_bytes().len());
            lemma_ascii_str_bytes(KW_ATTENDEE);
            assert(b.len() != KW_ATTENDEE.spec_bytes().len());
            lemma_ascii_str_bytes(KW_CONTACT);
            assert(b.len() != KW_CONTACT.spec_bytes().len());
            lemma_ascii_str_bytes(KW_ORGANIZER);
            assert(b.len() != KW_ORGANIZER.spec_bytes().len());
            lemma_ascii_str_bytes(KW_RECURRENCE_ID);
            assert(ascii_lower(b[0]) != ascii_lower(KW_RECURRENCE_ID.spec_bytes()[0]));
            lemma_ascii_str_bytes(KW_RELATED_TO);
            assert(b.len() != KW_RELATED_TO.spec_bytes().len());
            lemma_ascii_str_bytes(KW_URL);
            assert(b.len() != KW_URL.spec_bytes().len());
            lemma_ascii_str_bytes(KW_UID);
            assert(b.len() != KW_UID.spec_bytes().len());
            lemma_ascii_str_bytes(KW_EXDATE);
            assert(b.len() != KW_EXDATE.spec_bytes().len());
            lemma_ascii_str_bytes(KW_RDATE);
            assert(b.len() != KW_RDATE.spec_bytes().len());
            lemma_ascii_str_bytes(KW_RRULE);
            assert(b.len() != KW_RRULE.spec_bytes().len());
            lemma_ascii_str_bytes(KW_ACTION);
            assert(b.len() != KW_ACTION.spec_bytes().len());
            lemma_ascii_str_bytes(KW_REPEAT);
            assert(b.len() != KW_REPEAT.spec_bytes().len());
            lemma_ascii_str_bytes(KW_TRIGGER);
            assert(b.len() != KW_TRIGGER.spec_bytes().len());
            lemma_ascii_str_bytes(KW_CREATED);
            assert(b.len() != KW_CREATED.spec_bytes().len());
            lemma_ascii_str_bytes(KW_DTSTAMP);
            assert(b.len() != KW_DTSTAMP.spec_bytes().len());
        }
        PropertyKind::Sequence => {
            reveal_strlit("CALSCALE");
            reveal_strlit("METHOD");
            reveal_strlit("PRODID");
            reveal_strlit("VERSION");
            reveal_strlit("ATTACH");
            reveal_strlit("CATEGORIES");
            reveal_strlit("CLASS");
            reveal_strlit("COMMENT");
            reveal_strlit("DESCRIPTION");
            reveal_strlit("GEO");
            reveal_strlit("LOCATION");
            reveal_strlit("PERCENT-COMPLETE");
            reveal_strlit("PRIORITY");
            reveal_strlit("RESOURCES");
            reveal_strlit("STATUS");
            reveal_strlit("SUMMARY");
            reveal_strlit("COMPLETED");
            reveal_strlit("DTEND");
            reveal_strlit("DUE");
            reveal_strlit("DTSTART");
            reveal_strlit("DURATION");
            reveal_strlit("FREEBUSY");
            reveal_strlit("TRANSP");
            reveal_strlit("TZID");
            reveal_strlit("TZNAME");
            reveal_strlit("TZOFFSETFROM");
            reveal_strlit("TZOFFSETTO");
            reveal_strlit("TZURL");
            reveal_strlit("ATTENDEE");
            reveal_strlit("CONTACT");
            reveal_strlit("ORGANIZER");
            reveal_strlit("RECURRENCE-ID");
            reveal_strlit("RELATED-TO");
            reveal_strlit("URL");
            reveal_strlit("UID");
            reveal_strlit("EXDATE");
            reveal_strlit("RDATE");
            reveal_strlit("RRULE");
            reveal_strlit("ACTION");
            reveal_strlit("REPEAT");
            reveal_strlit("TRIGGER");
            reveal_strlit("CREATED");
            reveal_strlit("DTSTAMP");
            reveal_strlit("LAST-MODIFIED");
            reveal_strlit("SEQUENCE");
            lemma_ascii_str_bytes(KW_SEQUENCE);
            lemma_ascii_str_bytes(KW_CALSCALE);
            assert(ascii_lower(b[0]) != ascii_lower(KW_CALSCALE.spec_bytes()[0]));
            lemma_ascii_str_bytes(KW_METHOD);
            assert(b.len() != KW_METHOD.spec_bytes().len());
            lemma_ascii_str_bytes(KW_PRODID);
            assert(b.len() != KW_PRODID.spec_bytes().len());
            lemma_ascii_str_bytes(KW_VERSION);
            assert(b.len() != KW_VERSION.spec_bytes().len());
            lemma_ascii_str_bytes(KW_ATTACH);
            assert(b.len() != KW_ATTACH.spec_bytes().len());
            lemma_ascii_str_bytes(KW_CATEGORIES);
            assert(b.len() != KW_CATEGORIES.spec_bytes().len());
            lemma_ascii_str_bytes(KW_CLASS);
            assert(b.len() != KW_CLASS.spec_bytes().len());
            lemma_ascii_str_bytes(KW_COMMENT);
            assert(b.len() != KW_COMMENT.spec_bytes().len());
            lemma_ascii_str_bytes(KW_DESCRIPTION);
            assert(b.len() != KW_DESCRIPTION.spec_bytes().len());
            lemma_ascii_str_bytes(KW_GEO);
            assert(b.len() != KW_GEO.spec_bytes().len());
            lemma_ascii_str_bytes(KW_LOCATION);
            assert(ascii_lower(b[0]) != ascii_lower(KW_LOCATION.spec_bytes()[0]));
            lemma_ascii_str_bytes(KW_PERCENT_COMPLETE);
            assert(b.len() != KW_PERCENT_COMPLETE.spec_bytes().len());
            lemma_ascii_str_bytes(KW_PRIORITY);
            assert(ascii_lower(b[0]) != ascii_lower(KW_PRIORITY.spec_bytes()[0]));
            lemma_ascii_str_bytes(KW_RESOURCES);
            assert(b.len() != KW_RESOURCES.spec_bytes().len());
            lemma_ascii_str_bytes(KW_STATUS);
            assert(b.len() != KW_STATUS.spec_bytes().len());
            lemma_ascii_str_bytes(KW_SUMMARY);
            assert(b.len() != KW_SUMMARY.spec_bytes().len());
            lemma_ascii_str_bytes(KW_COMPLETED);
            assert(b.len() != KW_COMPLETED.spec_bytes().len());
            lemma_ascii_str_bytes(KW_DTEND);
            assert(b.len() != KW_DTEND.spec_bytes().len());
            lemma_ascii_str_bytes(KW_DUE);
            assert(b.len() != KW_DUE.spec_bytes().len());
            lemma_ascii_str_bytes(KW_DTSTART);
            assert(b.len() != KW_DTSTART.spec_bytes().len());
            lemma_ascii_str_bytes(KW_DURATION);
            assert(ascii_lower(b[0]) != ascii_lower(KW_DURATION.spec_bytes()[0]));
            lemma_ascii_str_bytes(KW_FREEBUSY);
            assert(ascii_lower(b[0]) != ascii_lower(KW_FREEBUSY.spec_bytes()[0]));
            lemma_ascii_str_bytes(KW_TRANSP);
            assert(b.len() != KW_TRANSP.spec_bytes().len());
            lemma_ascii_str_bytes(KW_TZID);
            assert(b.len() != KW_TZID.spec_bytes().len());
            lemma_ascii_str_bytes(KW_TZNAME);
            assert(b.len() != KW_TZNAME.spec_bytes().len());
            lemma_ascii_str_bytes(KW_TZOFFSETFROM);
            assert(b.len() != KW_TZOFFSETFROM.spec_bytes().len());
            lemma_ascii_str_bytes(KW_TZOFFSETTO);
            assert(b.len() != KW_TZOFFSETTO.spec_bytes().len());
            lemma_ascii_str_bytes(KW_TZURL);
            assert(b.len() != KW_TZURL.spec_bytes().len());
            lemma_ascii_str_bytes(KW_ATTENDEE);
            assert(ascii_lower(b[0]) != ascii_lower(KW_ATTENDEE.spec_bytes()[0]));
            lemma_ascii_str_bytes(KW_CONTACT);
            assert(b.len() != KW_CONTACT.spec_bytes().len());
            lemma_ascii_str_bytes(KW_ORGANIZER);
            assert(b.len() != KW_ORGANIZER.spec_bytes().len());
            lemma_ascii_str_bytes(KW_RECURRENCE_ID);
            assert(b.len() != KW_RECURRENCE_ID.spec_bytes().len());
            lemma_ascii_str_bytes(KW_RELATED_TO);
            assert(b.len() != KW_RELATED_TO.spec_bytes().len());
            lemma_ascii_str_bytes(KW_URL);
            assert(b.len() != KW_URL.spec_bytes().len());
            lemma_ascii_str_bytes(KW_UID);
            assert(b.len() != KW_UID.spec_bytes().len());
            lemma_ascii_str_bytes(KW_EXDATE);
            assert(b.len() != KW_EXDATE.spec_bytes().len());
            lemma_ascii_str_bytes(KW_RDATE);
            assert(b.len() != KW_RDATE.spec_bytes().len());
            lemma_ascii_str_bytes(KW_RRULE);
            assert(b.len() != KW_RRULE.spec_bytes().len());
            lemma_ascii_str_bytes(KW_ACTION);
            assert(b.len() != KW_ACTION.spec_bytes().len());
            lemma_ascii_str_bytes(KW_REPEAT);
            assert(b.len() != KW_REPEAT.spec_bytes().len());
            lemma_ascii_str_bytes(KW_TRIGGER);
            assert(b.len() != KW_TRIGGER.spec_bytes().len());
            lemma_ascii_str_bytes(KW_CREATED);
            assert(b.len() != KW_CREATED.spec_bytes().len());
            lemma_ascii_str_bytes(KW_DTSTAMP);
            assert(b.len() != KW_DTSTAMP.spec_bytes().len());
            lemma_ascii_str_bytes(KW_LAST_MODIFIED);
            assert(b.len() != KW_LAST_MODIFIED.spec_bytes().len());
        }
        PropertyKind::RequestStatus => {
            reveal_strlit("CALSCALE");
            reveal_strlit("METHOD");
            reveal_strlit("PRODID");
            reveal_strlit("VERSION");
            reveal_strlit("ATTACH");
            reveal_strlit("CATEGORIES");
            reveal_strlit("CLASS");
            reveal_strlit("COMMENT");
            reveal_strlit("DESCRIPTION");
            reveal_strlit("GEO");
            reveal_strlit("LOCATION");
            reveal_strlit("PERCENT-COMPLETE");
            reveal_strlit("PRIORITY");
            reveal_strlit("RESOURCES");
            reveal_strlit("STATUS");
            reveal_strlit("SUMMARY");
            reveal_strlit("COMPLETED");
            reveal_strlit("DTEND");
            reveal_strlit("DUE");
            reveal_strlit("DTSTART");
            reveal_strlit("DURATION");
            reveal_strlit("FREEBUSY");
            reveal_strlit("TRANSP");
            reveal_strlit("TZID");
            reveal_strlit("TZNAME");
            reveal_strlit("TZOFFSETFROM");
            reveal_strlit("TZOFFSETTO");
            reveal_strlit("TZURL");
            reveal_strlit("ATTENDEE");
            reveal_strlit("CONTACT");
            reveal_strlit("ORGANIZER");
            reveal_strlit("RECURRENCE-ID");
            reveal_strlit("RELATED-TO");
            reveal_strlit("URL");
            reveal_strlit("UID");
            reveal_strlit("EXDATE");
            reveal_strlit("RDATE");
            reveal_strlit("RRULE");
            reveal_strlit("ACTION");
            reveal_strlit("REPEAT");
            reveal_strlit("TRIGGER");
            reveal_strlit("CREATED");
            reveal_strlit("DTSTAMP");
            reveal_strlit("LAST-MODIFIED");
            reveal_strlit("SEQUENCE");
            reveal_strlit("REQUEST-STATUS");
            lemma_ascii_str_bytes(KW_REQUEST_STATUS);
            lemma_ascii_str_bytes(KW_CALSCALE);
            assert(b.len() != KW_CALSCALE.spec_bytes().len());
            lemma_ascii_str_bytes(KW_METHOD);
            assert(b.len() != KW_METHOD.spec_bytes().len());
            lemma_ascii_str_bytes(KW_PRODID);
            assert(b.len() != KW_PRODID.spec_bytes().len());
            lemma_ascii_str_bytes(KW_VERSION);
            assert(b.len() != KW_VERSION.spec_bytes().len());
            lemma_ascii_str_bytes(KW_ATTACH);
            assert(b.len() != KW_ATTACH.spec_bytes().len());
            lemma_ascii_str_bytes(KW_CATEGORIES);
            assert(b.len() != KW_CATEGORIES.spec_bytes().len());
            lemma_ascii_str_bytes(KW_CLASS);
            assert(b.len() != KW_CLASS.spec_bytes().len());
            lemma_ascii_str_bytes(KW_COMMENT);
            assert(b.len() != KW_COMMENT.spec_bytes().len());
            lemma_ascii_str_bytes(KW_DESCRIPTION);
            assert(b.len() != KW_DESCRIPTION.spec_bytes().len());
            lemma_ascii_str_bytes(KW_GEO);
            assert(b.len() != KW_GEO.spec_bytes().len());
            lemma_ascii_str_bytes(KW_LOCATION);
            assert(b.len() != KW_LOCATION.spec_bytes().len());
            lemma_ascii_str_bytes(KW_PERCENT_COMPLETE);
            assert(b.len() != KW_PERCENT_COMPLETE.spec_bytes().len());
            lemma_ascii_str_bytes(KW_PRIORITY);
            assert(b.len() != KW_PRIORITY.spec_bytes().len());
            lemma_ascii_str_bytes(KW_RESOURCES);
            assert(b.len() != KW_RESOURCES.spec_bytes().len());
            lemma_ascii_str_bytes(KW_STATUS);
            assert(b.len() != KW_STATUS.spec_bytes().len());
            lemma_ascii_str_bytes(KW_SUMMARY);
            assert(b.len() != KW_SUMMARY.spec_bytes().len());
            lemma_ascii_str_bytes(KW_COMPLETED);
            assert(b.len() != KW_COMPLETED.spec_bytes().len());
            lemma_ascii_str_bytes(KW_DTEND);
            assert(b.len() != KW_DTEND.spec_bytes().len());
            lemma_ascii_str_bytes(KW_DUE);
            assert(b.len() != KW_DUE.spec_bytes().len());
            lemma_ascii_str_bytes(KW_DTSTART);
            assert(b.len() != KW_DTSTART.spec_bytes().len());
            lemma_ascii_str_bytes(KW_DURATION);
            assert(b.len() != KW_DURATION.spec_bytes().len());
            lemma_ascii_str_bytes(KW_FREEBUSY);
            assert(b.len() != KW_FREEBUSY.spec_bytes().len());
            lemma_ascii_str_bytes(KW_TRANSP);
            assert(b.len() != KW_TRANSP.spec_bytes().len());
            lemma_ascii_str_bytes(KW_TZID);
            assert(b.len() != KW_TZID.spec_bytes().len());
            lemma_ascii_str_bytes(KW_TZNAME);
            assert(b.len() != KW_TZNAME.spec_bytes().len());
            lemma_ascii_str_bytes(KW_TZOFFSETFROM);
            assert(b.len() != KW_TZOFFSETFROM.spec_bytes().len());
            lemma_ascii_str_bytes(KW_TZOFFSETTO);
            assert(b.len() != KW_TZOFFSETTO.spec_bytes().len());
            lemma_ascii_str_bytes(KW_TZURL);
            assert(b.len() != KW_TZURL.spec_bytes().len());
            lemma_ascii_str_bytes(KW_ATTENDEE);
            assert(b.len() != KW_ATTENDEE.spec_bytes().len());
            lemma_ascii_str_bytes(KW_CONTACT);
            assert(b.len() != KW_CONTACT.spec_bytes().len());
            lemma_ascii_str_bytes(KW_ORGANIZER);
            assert(b.len() != KW_ORGANIZER.spec_bytes().len());
            lemma_ascii_str_bytes(KW_RECURRENCE_ID);
            assert(b.len() != KW_RECURRENCE_ID.spec_bytes().len());
            lemma_ascii_str_bytes(KW_RELATED_TO);
            assert(b.len() != KW_RELATED_TO.spec_bytes().len());
            lemma_ascii_str_bytes(KW_URL);
            assert(b.len() != KW_URL.spec_bytes().len());
            lemma_ascii_str_bytes(KW_UID);
            assert(b.len() != KW_UID.spec_bytes().len());
            lemma_ascii_str_bytes(KW_EXDATE);
            assert(b.len() != KW_EXDATE.spec_bytes().len());
            lemma_ascii_str_bytes(KW_RDATE);
            assert(b.len() != KW_RDATE.spec_bytes().len());
            lemma_ascii_str_bytes(KW_RRULE);
            assert(b.len() != KW_RRULE.spec_bytes().len());
            lemma_ascii_str_bytes(KW_ACTION);
            assert(b.len() != KW_ACTION.spec_bytes().len());
            lemma_ascii_str_bytes(KW_REPEAT);
            assert(b.len() != KW_REPEAT.spec_bytes().len());
            lemma_ascii_str_bytes(KW_TRIGGER);
            assert(b.len() != KW_TRIGGER.spec_bytes().len());
            lemma_ascii_str_bytes(KW_CREATED);
            assert(b.len() != KW_CREATED.spec_bytes().len());
            lemma_ascii_str_bytes(KW_DTSTAMP);
            assert(b.len() != KW_DTSTAMP.spec_bytes().len());
            lemma_ascii_str_bytes(KW_LAST_MODIFIED);
            assert(b.len() != KW_LAST_MODIFIED.spec_bytes().len());
            lemma_ascii_str_bytes(KW_SEQUENCE);
            assert(b.len() != KW_SEQUENCE.spec_bytes().len());
        }
        _ => {}
    }
}

/// Reading the name of a standard property kind gives the kind back: the
/// names of the standard kinds are distinct, even with ASCII case ignored.
pub proof fn lemma_kind_name_round_trip<S>(k: PropertyKind<S>)
    requires
        kind_keyword(k) is Some,
    ensures
        standard_kind::<S>(kind_keyword(k)->0.spec_bytes()) == Some(k),
{
    lemma_kind_name_round_trip_part0(k);
    lemma_kind_name_round_trip_part1(k);
    lemma_kind_name_round_trip_part2(k);
    lemma_kind_name_round_trip_part3(k);
}

/// Dates beside date-times: every property whose value may be a date-time
/// may also be a date, except the four that RFC 5545 requires in UTC
/// (`COMPLETED`, `CREATED`, `DTSTAMP`, `LAST-MODIFIED`) and `TRIGGER`, whose
/// absolute form is a UTC date-time; a date-time is always tried first.
pub proof fn lemma_date_time_kinds_allow_dates<S>(k: PropertyKind<S>)
    requires
        kind_value_types(k) matches Some(ts) && ts.contains(PropertyValueKind::DateTime),
    ensures
        kind_value_types(k)->0.contains(PropertyValueKind::Date) <==> !(k is Completed || k is Created || k is DtStamp
            || k is LastModified || k is Trigger),
        kind_value_types(k)->0.contains(PropertyValueKind::Date) ==> kind_value_types(k)->0.index_of_first(
            PropertyValueKind::DateTime,
        ) is Some,
{
    let ts = kind_value_types(k)->0;
    if ts.len() > 1 {
        assert(ts[1] == PropertyValueKind::Date || !ts.contains(PropertyValueKind::Date) || ts[0]
            == PropertyValueKind::Date);
    }
    match k {
        PropertyKind::DtStart | PropertyKind::DtEnd | PropertyKind::Due | PropertyKind::RecurrenceId
        | PropertyKind::ExDate | PropertyKind::RDate => {
            assert(ts[1] == PropertyValueKind::Date);
            assert(ts[0] == PropertyValueKind::DateTime);
        },
        PropertyKind::Trigger => {
            assert(ts[0] != PropertyValueKind::Date && ts[1] != PropertyValueKind::Date);
            assert(ts.len() == 2);
        },
        _ => {
            assert(ts.len() == 1);
            assert(ts[0] != PropertyValueKind::Date);
        },
    }
    if ts.contains(PropertyValueKind::Date) {
        ts.index_of_first_ensures(PropertyValueKind::DateTime);
    }
}

/// The kind that a property name gives: a standard property when the name
/// is one of RFC 5545 (ASCII case ignored), otherwise an experimental
/// property when it starts with `X-`, otherwise unrecognized.
pub open spec fn kind_from_name<'src>(name: SpannedSegments<'src>) -> PropertyKind<SpannedSegments<'src>> {
    match standard_kind::<SpannedSegments<'src>>(name.bytes()) {
        Some(k) => k,
        None => if "X-".spec_bytes().len() <= name.bytes().len() && eq_ignore_ascii_case(
            name.bytes().take("X-".spec_bytes().len() as int),
            "X-".spec_bytes(),
        ) {
            PropertyKind::XName(name)
        } else {
            PropertyKind::Unrecognized(name)
        },
    }
}

impl<'src> PropertyKind<SpannedSegments<'src>> {
    /// The kind with its name segments, for comparing kinds.
    pub open spec fn view(&self) -> PropertyKind<Seq<char>> {
        match self {
            PropertyKind::CalScale => PropertyKind::CalScale,
            PropertyKind::Method => PropertyKind::Method,
            PropertyKind::ProdId => PropertyKind::ProdId,
            PropertyKind::Version => PropertyKind::Version,
            PropertyKind::Attach => PropertyKind::Attach,
            PropertyKind::Categories => PropertyKind::Categories,
            PropertyKind::Class => PropertyKind::Class,
            PropertyKind::Comment => PropertyKind::Comment,
            PropertyKind::Description => PropertyKind::Description,
            PropertyKind::Geo => PropertyKind::Geo,
            PropertyKind::Location => PropertyKind::Location,
            PropertyKind::PercentComplete => PropertyKind::PercentComplete,
            PropertyKind::Priority => PropertyKind::Priority,
            PropertyKind::Resources => PropertyKind::Resources,
            PropertyKind::Status => PropertyKind::Status,
            PropertyKind::Summary => PropertyKind::Summary,
            PropertyKind::Completed => PropertyKind::Completed,
            PropertyKind::DtEnd => PropertyKind::DtEnd,
            PropertyKind::Due => PropertyKind::Due,
            PropertyKind::DtStart => PropertyKind::DtStart,
            PropertyKind::Duration => PropertyKind::Duration,
            PropertyKind::FreeBusy => PropertyKind::FreeBusy,
            PropertyKind::Transp => PropertyKind::Transp,
            PropertyKind::TzId => PropertyKind::TzId,
            PropertyKind::TzName => PropertyKind::TzName,
            PropertyKind::TzOffsetFrom => PropertyKind::TzOffsetFrom,
            PropertyKind::TzOffsetTo => PropertyKind::TzOffsetTo,
            PropertyKind::TzUrl => PropertyKind::TzUrl,
            PropertyKind::Attendee => PropertyKind::Attendee,
            PropertyKind::Contact => PropertyKind::Contact,
            PropertyKind::Organizer => PropertyKind::Organizer,
            PropertyKind::RecurrenceId => PropertyKind::RecurrenceId,
            PropertyKind::RelatedTo => PropertyKind::RelatedTo,
            PropertyKind::Url => PropertyKind::Url,
            PropertyKind::Uid => PropertyKind::Uid,
            PropertyKind::ExDate => PropertyKind::ExDate,
            PropertyKind::RDate => PropertyKind::RDate,
            PropertyKind::RRule => PropertyKind::RRule,
            PropertyKind::Action => PropertyKind::Action,
            PropertyKind::Repeat => PropertyKind::Repeat,
            PropertyKind::Trigger => PropertyKind::Trigger,
            PropertyKind::Created => PropertyKind::Created,
            PropertyKind::DtStamp => PropertyKind::DtStamp,
            PropertyKind::LastModified => PropertyKind::LastModified,
            PropertyKind::Sequence => PropertyKind::Sequence,
            PropertyKind::RequestStatus => PropertyKind::RequestStatus,
            PropertyKind::XName(s) => PropertyKind::XName(s@),
            PropertyKind::Unrecognized(s) => PropertyKind::Unrecognized(s@),
        }
    }

    /// Determine the property kind from its name: a standard property when
    /// the name is one of RFC 5545 (ASCII case ignored), otherwise an
    /// experimental property when it starts with `X-`, otherwise unrecognized.
    pub fn from_name(name: SpannedSegments<'src>) -> (r: Self)
        ensures
            r == kind_from_name(name),
    {
        if let Some(k) = Self::standard_part0(&name) {
            return k;
        }
        if let Some(k) = Self::standard_part1(&name) {
            return k;
        }
        if let Some(k) = Self::standard_part2(&name) {
            return k;
        }
        if let Some(k) = Self::standard_part3(&name) {
            return k;
        }
        if name.starts_with_str_ignore_ascii_case("X-") {
            PropertyKind::XName(name)
        } else {
            PropertyKind::Unrecognized(name)
        }
    }

    fn standard_part0(name: &SpannedSegments<'src>) -> (r: Option<Self>)
        ensures
            r == standard_kind_part0::<SpannedSegments<'src>>(name.bytes()),
    {
        reveal(standard_kind_part0);
        if name.eq_str_ignore_ascii_case(KW_CALSCALE) {
            Some(PropertyKind::CalScale)
        } else if name.eq_str_ignore_ascii_case(KW_METHOD) {
            Some(PropertyKind::Method)
        } else if name.eq_str_ignore_ascii_case(KW_PRODID) {
            Some(PropertyKind::ProdId)
        } else if name.eq_str_ignore_ascii_case(KW_VERSION) {
            Some(PropertyKind::Version)
        } else if name.eq_str_ignore_ascii_case(KW_ATTACH) {
            Some(PropertyKind::Attach)
        } else if name.eq_str_ignore_ascii_case(KW_CATEGORIES) {
            Some(PropertyKind::Categories)
        } else if name.eq_str_ignore_ascii_case(KW_CLASS) {
            Some(PropertyKind::Class)
        } else if name.eq_str_ignore_ascii_case(KW_COMMENT) {
            Some(PropertyKind::Comment)
        } else if name.eq_str_ignore_ascii_case(KW_DESCRIPTION) {
            Some(PropertyKind::Description)
        } else if name.eq_str_ignore_ascii_case(KW_GEO) {
            Some(PropertyKind::Geo)
        } else if name.eq_str_ignore_ascii_case(KW_LOCATION) {
            Some(PropertyKind::Location)
        } else if name.eq_str_ignore_ascii_case(KW_PERCENT_COMPLETE) {
            Some(PropertyKind::PercentComplete)
        } else {
            None
        }
    }

    fn standard_part1(name: &SpannedSegments<'src>) -> (r: Option<Self>)
        ensures
            r == standard_kind_part1::<SpannedSegments<'src>>(name.bytes()),
    {
        reveal(standard_kind_part1);
        if name.eq_str_ignore_ascii_case(KW_PRIORITY) {
            Some(PropertyKind::Priority)
        } else if name.eq_str_ignore_ascii_case(KW_RESOURCES) {
            Some(PropertyKind::Resources)
        } else if name.eq_str_ignore_ascii_case(KW_STATUS) {
            Some(PropertyKind::Status)
        } else if name.eq_str_ignore_ascii_case(KW_SUMMARY) {
            Some(PropertyKind::Summary)
        } else if name.eq_str_ignore_ascii_case(KW_COMPLETED) {
            Some(PropertyKind::Completed)
        } else if name.eq_str_ignore_ascii_case(KW_DTEND) {
            Some(PropertyKind::DtEnd)
        } else if name.eq_str_ignore_ascii_case(KW_DUE) {
            Some(PropertyKind::Due)
        } else if name.eq_str_ignore_ascii_case(KW_DTSTART) {
            Some(PropertyKind::DtStart)
        } else if name.eq_str_ignore_ascii_case(KW_DURATION) {
            Some(PropertyKind::Duration)
        } else if name.eq_str_ignore_ascii_case(KW_FREEBUSY) {
            Some(PropertyKind::FreeBusy)
        } else if name.eq_str_ignore_ascii_case(KW_TRANSP) {
            Some(PropertyKind::Transp)
        } else if name.eq_str_ignore_ascii_case(KW_TZID) {
            Some(PropertyKind::TzId)
        } else {
            None
        }
    }

    fn standard_part2(name: &SpannedSegments<'src>) -> (r: Option<Self>)
        ensures
            r == standard_kind_part2::<SpannedSegments<'src>>(name.bytes()),
    {
        reveal(standard_kind_part2);
        if name.eq_str_ignore_ascii_case(KW_TZNAME) {
            Some(PropertyKind::TzName)
        } else if name.eq_str_ignore_ascii_case(KW_TZOFFSETFROM) {
            Some(PropertyKind::TzOffsetFrom)
        } else if name.eq_str_ignore_ascii_case(KW_TZOFFSETTO) {
            Some(PropertyKind::TzOffsetTo)
        } else if name.eq_str_ignore_ascii_case(KW_TZURL) {
            Some(PropertyKind::TzUrl)
        } else if name.eq_str_ignore_ascii_case(KW_ATTENDEE) {
            Some(PropertyKind::Attendee)
        } else if name.eq_str_ignore_ascii_case(KW_CONTACT) {
            Some(PropertyKind::Contact)
        } else if name.eq_str_ignore_ascii_case(KW_ORGANIZER) {
            Some(PropertyKind::Organizer)
        } else if name.eq_str_ignore_ascii_case(KW_RECURRENCE_ID) {
            Some(PropertyKind::RecurrenceId)
        } else if name.eq_str_ignore_ascii_case(KW_RELATED_TO) {
            Some(PropertyKind::RelatedTo)
        } else if name.eq_str_ignore_ascii_case(KW_URL) {
            Some(PropertyKind::Url)
        } else if name.eq_str_ignore_ascii_case(KW_UID) {
            Some(PropertyKind::Uid)
        } else if name.eq_str_ignore_ascii_case(KW_EXDATE) {
            Some(PropertyKind::ExDate)
        } else {
            None
        }
    }

    fn standard_part3(name: &SpannedSegments<'src>) -> (r: Option<Self>)
        ensures
            r == standard_kind_part3::<SpannedSegments<'src>>(name.bytes()),
    {
        reveal(standard_kind_part3);
        if name.eq_str_ignore_ascii_case(KW_RDATE) {
            Some(PropertyKind::RDate)
        } else if name.eq_str_ignore_ascii_case(KW_RRULE) {
            Some(PropertyKind::RRule)
        } else if name.eq_str_ignore_ascii_case(KW_ACTION) {
            Some(PropertyKind::Action)
        } else if name.eq_str_ignore_ascii_case(KW_REPEAT) {
            Some(PropertyKind::Repeat)
        } else if name.eq_str_ignore_ascii_case(KW_TRIGGER) {
            Some(PropertyKind::Trigger)
        } else if name.eq_str_ignore_ascii_case(KW_CREATED) {
            Some(PropertyKind::Created)
        } else if name.eq_str_ignore_ascii_case(KW_DTSTAMP) {
            Some(PropertyKind::DtStamp)
        } else if name.eq_str_ignore_ascii_case(KW_LAST_MODIFIED) {
            Some(PropertyKind::LastModified)
        } else if name.eq_str_ignore_ascii_case(KW_SEQUENCE) {
            Some(PropertyKind::Sequence)
        } else if name.eq_str_ignore_ascii_case(KW_REQUEST_STATUS) {
            Some(PropertyKind::RequestStatus)
        } else {
            None
        }
    }

    /// Convert borrowed type to owned type
    pub fn to_owned(&self) -> (r: PropertyKindOwned)
        ensures
            r.view() == self.view(),
    {
        match self {
            PropertyKind::CalScale => PropertyKind::CalScale,
            PropertyKind::Method => PropertyKind::Method,
            PropertyKind::ProdId => PropertyKind::ProdId,
            PropertyKind::Version => PropertyKind::Version,
            PropertyKind::Attach => PropertyKind::Attach,
            PropertyKind::Categories => PropertyKind::Categories,
            PropertyKind::Class => PropertyKind::Class,
            PropertyKind::Comment => PropertyKind::Comment,
            PropertyKind::Description => PropertyKind::Description,
            PropertyKind::Geo => PropertyKind::Geo,
            PropertyKind::Location => PropertyKind::Location,
            PropertyKind::PercentComplete => PropertyKind::PercentComplete,
            PropertyKind::Priority => PropertyKind::Priority,
            PropertyKind::Resources => PropertyKind::Resources,
            PropertyKind::Status => PropertyKind::Status,
            PropertyKind::Summary => PropertyKind::Summary,
            PropertyKind::Completed => PropertyKind::Completed,
            PropertyKind::DtEnd => PropertyKind::DtEnd,
            PropertyKind::Due => PropertyKind::Due,
            PropertyKind::DtStart => PropertyKind::DtStart,
            PropertyKind::Duration => PropertyKind::Duration,
            PropertyKind::FreeBusy => PropertyKind::FreeBusy,
            PropertyKind::Transp => PropertyKind::Transp,
            PropertyKind::TzId => PropertyKind::TzId,
            PropertyKind::TzName => PropertyKind::TzName,
            PropertyKind::TzOffsetFrom => PropertyKind::TzOffsetFrom,
            PropertyKind::TzOffsetTo => PropertyKind::TzOffsetTo,
            PropertyKind::TzUrl => PropertyKind::TzUrl,
            PropertyKind::Attendee => PropertyKind::Attendee,
            PropertyKind::Contact => PropertyKind::Contact,
            PropertyKind::Organizer => PropertyKind::Organizer,
            PropertyKind::RecurrenceId => PropertyKind::RecurrenceId,
            PropertyKind::RelatedTo => PropertyKind::RelatedTo,
            PropertyKind::Url => PropertyKind::Url,
            PropertyKind::Uid => PropertyKind::Uid,
            PropertyKind::ExDate => PropertyKind::ExDate,
            PropertyKind::RDate => PropertyKind::RDate,
            PropertyKind::RRule => PropertyKind::RRule,
            PropertyKind::Action => PropertyKind::Action,
            PropertyKind::Repeat => PropertyKind::Repeat,
            PropertyKind::Trigger => PropertyKind::Trigger,
            PropertyKind::Created => PropertyKind::Created,
            PropertyKind::DtStamp => PropertyKind::DtStamp,
            PropertyKind::LastModified => PropertyKind::LastModified,
            PropertyKind::Sequence => PropertyKind::Sequence,
            PropertyKind::RequestStatus => PropertyKind::RequestStatus,
            PropertyKind::XName(s) => PropertyKind::XName(s.to_owned()),
            PropertyKind::Unrecognized(s) => PropertyKind::Unrecognized(s.to_owned()),
        }
    }
}

impl<'src> Clone for PropertyKind<SpannedSegments<'src>> {
    fn clone(&self) -> (r: Self)
        ensures
            r.view() == self.view(),
    {
        match self {
            PropertyKind::CalScale => PropertyKind::CalScale,
            PropertyKind::Method => PropertyKind::Method,
            PropertyKind::ProdId => PropertyKind::ProdId,
            PropertyKind::Version => PropertyKind::Version,
            PropertyKind::Attach => PropertyKind::Attach,
            PropertyKind::Categories => PropertyKind::Categories,
            PropertyKind::Class => PropertyKind::Class,
            PropertyKind::Comment => PropertyKind::Comment,
            PropertyKind::Description => PropertyKind::Description,
            PropertyKind::Geo => PropertyKind::Geo,
            PropertyKind::Location => PropertyKind::Location,
            PropertyKind::PercentComplete => PropertyKind::PercentComplete,
            PropertyKind::Priority => PropertyKind::Priority,
            PropertyKind::Resources => PropertyKind::Resources,
            PropertyKind::Status => PropertyKind::Status,
            PropertyKind::Summary => PropertyKind::Summary,
            PropertyKind::Completed => PropertyKind::Completed,
            PropertyKind::DtEnd => PropertyKind::DtEnd,
            PropertyKind::Due => PropertyKind::Due,
            PropertyKind::DtStart => PropertyKind::DtStart,
            PropertyKind::Duration => PropertyKind::Duration,
            PropertyKind::FreeBusy => PropertyKind::FreeBusy,
            PropertyKind::Transp => PropertyKind::Transp,
            PropertyKind::TzId => PropertyKind::TzId,
            PropertyKind::TzName => PropertyKind::TzName,
            PropertyKind::TzOffsetFrom => PropertyKind::TzOffsetFrom,
            PropertyKind::TzOffsetTo => PropertyKind::TzOffsetTo,
            PropertyKind::TzUrl => PropertyKind::TzUrl,
            PropertyKind::Attendee => PropertyKind::Attendee,
            PropertyKind::Contact => PropertyKind::Contact,
            PropertyKind::Organizer => PropertyKind::Organizer,
            PropertyKind::RecurrenceId => PropertyKind::RecurrenceId,
            PropertyKind::RelatedTo => PropertyKind::RelatedTo,
            PropertyKind::Url => PropertyKind::Url,
            PropertyKind::Uid => PropertyKind::Uid,
            PropertyKind::ExDate => PropertyKind::ExDate,
            PropertyKind::RDate => PropertyKind::RDate,
            PropertyKind::RRule => PropertyKind::RRule,
            PropertyKind::Action => PropertyKind::Action,
            PropertyKind::Repeat => PropertyKind::Repeat,
            PropertyKind::Trigger => PropertyKind::Trigger,
            PropertyKind::Created => PropertyKind::Created,
            PropertyKind::DtStamp => PropertyKind::DtStamp,
            PropertyKind::LastModified => PropertyKind::LastModified,
            PropertyKind::Sequence => PropertyKind::Sequence,
            PropertyKind::RequestStatus => PropertyKind::RequestStatus,
            PropertyKind::XName(s) => PropertyKind::XName(s.clone()),
            PropertyKind::Unrecognized(s) => PropertyKind::Unrecognized(s.clone()),
        }
    }
}

impl PropertyKind<String> {
    /// The kind with its name characters, for comparing kinds.
    pub open spec fn view(&self) -> PropertyKind<Seq<char>> {
        match self {
            PropertyKind::CalScale => PropertyKind::CalScale,
            PropertyKind::Method => PropertyKind::Method,
            PropertyKind::ProdId => PropertyKind::ProdId,
            PropertyKind::Version => PropertyKind::Version,
            PropertyKind::Attach => PropertyKind::Attach,
            PropertyKind::Categories => PropertyKind::Categories,
            PropertyKind::Class => PropertyKind::Class,
            PropertyKind::Comment => PropertyKind::Comment,
            PropertyKind::Description => PropertyKind::Description,
            PropertyKind::Geo => PropertyKind::Geo,
            PropertyKind::Location => PropertyKind::Location,
            PropertyKind::PercentComplete => PropertyKind::PercentComplete,
            PropertyKind::Priority => PropertyKind::Priority,
            PropertyKind::Resources => PropertyKind::Resources,
            PropertyKind::Status => PropertyKind::Status,
            PropertyKind::Summary => PropertyKind::Summary,
            PropertyKind::Completed => PropertyKind::Completed,
            PropertyKind::DtEnd => PropertyKind::DtEnd,
            PropertyKind::Due => PropertyKind::Due,
            PropertyKind::DtStart => PropertyKind::DtStart,
            PropertyKind::Duration => PropertyKind::Duration,
            PropertyKind::FreeBusy => PropertyKind::FreeBusy,
            PropertyKind::Transp => PropertyKind::Transp,
            PropertyKind::TzId => PropertyKind::TzId,
            PropertyKind::TzName => PropertyKind::TzName,
            PropertyKind::TzOffsetFrom => PropertyKind::TzOffsetFrom,
            PropertyKind::TzOffsetTo => PropertyKind::TzOffsetTo,
            PropertyKind::TzUrl => PropertyKind::TzUrl,
            PropertyKind::Attendee => PropertyKind::Attendee,
            PropertyKind::Contact => PropertyKind::Contact,
            PropertyKind::Organizer => PropertyKind::Organizer,
            PropertyKind::RecurrenceId => PropertyKind::RecurrenceId,
            PropertyKind::RelatedTo => PropertyKind::RelatedTo,
            PropertyKind::Url => PropertyKind::Url,
            PropertyKind::Uid => PropertyKind::Uid,
            PropertyKind::ExDate => PropertyKind::ExDate,
            PropertyKind::RDate => PropertyKind::RDate,
            PropertyKind::RRule => PropertyKind::RRule,
            PropertyKind::Action => PropertyKind::Action,
            PropertyKind::Repeat => PropertyKind::Repeat,
            PropertyKind::Trigger => PropertyKind::Trigger,
            PropertyKind::Created => PropertyKind::Created,
            PropertyKind::DtStamp => PropertyKind::DtStamp,
            PropertyKind::LastModified => PropertyKind::LastModified,
            PropertyKind::Sequence => PropertyKind::Sequence,
            PropertyKind::RequestStatus => PropertyKind::RequestStatus,
            PropertyKind::XName(s) => PropertyKind::XName(s@),
            PropertyKind::Unrecognized(s) => PropertyKind::Unrecognized(s@),
        }
    }
}

impl<S> PropertyKind<S> {
    /// Returns the allowed value types for this property kind, if known.
    /// Returns `None` for unrecognized or x-name properties.
    pub fn value_types(&self) -> (r: Option<Vec<PropertyValueKind>>)
        ensures
            match r {
                Some(v) => kind_value_types(*self) == Some(v@),
                None => kind_value_types(*self) is None,
            },
    {
        let v = match self {
            PropertyKind::CalScale => vec![PropertyValueKind::Text],
            PropertyKind::Method => vec![PropertyValueKind::Text],
            PropertyKind::ProdId => vec![PropertyValueKind::Text],
            PropertyKind::Version => vec![PropertyValueKind::Text],
            PropertyKind::Attach => vec![PropertyValueKind::Uri, PropertyValueKind::Binary],
            PropertyKind::Categories => vec![PropertyValueKind::Text],
            PropertyKind::Class => vec![PropertyValueKind::Text],
            PropertyKind::Comment => vec![PropertyValueKind::Text],
            PropertyKind::Description => vec![PropertyValueKind::Text],
            PropertyKind::Geo => vec![PropertyValueKind::Text],
            PropertyKind::Location => vec![PropertyValueKind::Text],
            PropertyKind::PercentComplete => vec![PropertyValueKind::Integer],
            PropertyKind::Priority => vec![PropertyValueKind::Integer],
            PropertyKind::Resources => vec![PropertyValueKind::Text],
            PropertyKind::Status => vec![PropertyValueKind::Text],
            PropertyKind::Summary => vec![PropertyValueKind::Text],
            PropertyKind::Completed => vec![PropertyValueKind::DateTime],
            PropertyKind::DtEnd => vec![PropertyValueKind::DateTime, PropertyValueKind::Date],
            PropertyKind::Due => vec![PropertyValueKind::DateTime, PropertyValueKind::Date],
            PropertyKind::DtStart => vec![PropertyValueKind::DateTime, PropertyValueKind::Date],
            PropertyKind::Duration => vec![PropertyValueKind::Duration],
            PropertyKind::FreeBusy => vec![PropertyValueKind::Period],
            PropertyKind::Transp => vec![PropertyValueKind::Text],
            PropertyKind::TzId => vec![PropertyValueKind::Text],
            PropertyKind::TzName => vec![PropertyValueKind::Text],
            PropertyKind::TzOffsetFrom => vec![PropertyValueKind::UtcOffset],
            PropertyKind::TzOffsetTo => vec![PropertyValueKind::UtcOffset],
            PropertyKind::TzUrl => vec![PropertyValueKind::Uri],
            PropertyKind::Attendee => vec![PropertyValueKind::CalendarUserAddress],
            PropertyKind::Contact => vec![PropertyValueKind::Text],
            PropertyKind::Organizer => vec![PropertyValueKind::CalendarUserAddress],
            PropertyKind::RecurrenceId => vec![PropertyValueKind::DateTime, PropertyValueKind::Date],
            PropertyKind::RelatedTo => vec![PropertyValueKind::Text],
            PropertyKind::Url => vec![PropertyValueKind::Uri],
            PropertyKind::Uid => vec![PropertyValueKind::Text],
            PropertyKind::ExDate => vec![PropertyValueKind::DateTime, PropertyValueKind::Date],
            PropertyKind::RDate => vec![PropertyValueKind::DateTime, PropertyValueKind::Date, PropertyValueKind::Period],
            PropertyKind::RRule => vec![PropertyValueKind::RecurrenceRule],
            PropertyKind::Action => vec![PropertyValueKind::Text],
            PropertyKind::Repeat => vec![PropertyValueKind::Integer],
            PropertyKind::Trigger => vec![PropertyValueKind::Duration, PropertyValueKind::DateTime],
            PropertyKind::Created => vec![PropertyValueKind::DateTime],
            PropertyKind::DtStamp => vec![PropertyValueKind::DateTime],
            PropertyKind::LastModified => vec![PropertyValueKind::DateTime],
            PropertyKind::Sequence => vec![PropertyValueKind::Integer],
            PropertyKind::RequestStatus => vec![PropertyValueKind::Text],
            PropertyKind::XName(_) => return None,
            PropertyKind::Unrecognized(_) => return None,
        };
        assert(kind_value_types(*self) == Some(v@));
        Some(v)
    }

    /// The keyword of a standard kind; `None` for experimental and
    /// unrecognized properties.
    pub fn keyword(&self) -> (r: Option<&'static str>)
        ensures
            r == kind_keyword(*self),
    {
        match self {
            PropertyKind::CalScale => Some(KW_CALSCALE),
            PropertyKind::Method => Some(KW_METHOD),
            PropertyKind::ProdId => Some(KW_PRODID),
            PropertyKind::Version => Some(KW_VERSION),
            PropertyKind::Attach => Some(KW_ATTACH),
            PropertyKind::Categories => Some(KW_CATEGORIES),
            PropertyKind::Class => Some(KW_CLASS),
            PropertyKind::Comment => Some(KW_COMMENT),
            PropertyKind::Description => Some(KW_DESCRIPTION),
            PropertyKind::Geo => Some(KW_GEO),
            PropertyKind::Location => Some(KW_LOCATION),
            PropertyKind::PercentComplete => Some(KW_PERCENT_COMPLETE),
            PropertyKind::Priority => Some(KW_PRIORITY),
            PropertyKind::Resources => Some(KW_RESOURCES),
            PropertyKind::Status => Some(KW_STATUS),
            PropertyKind::Summary => Some(KW_SUMMARY),
            PropertyKind::Completed => Some(KW_COMPLETED),
            PropertyKind::DtEnd => Some(KW_DTEND),
            PropertyKind::Due => Some(KW_DUE),
            PropertyKind::DtStart => Some(KW_DTSTART),
            PropertyKind::Duration => Some(KW_DURATION),
            PropertyKind::FreeBusy => Some(KW_FREEBUSY),
            PropertyKind::Transp => Some(KW_TRANSP),
            PropertyKind::TzId => Some(KW_TZID),
            PropertyKind::TzName => Some(KW_TZNAME),
            PropertyKind::TzOffsetFrom => Some(KW_TZOFFSETFROM),
            PropertyKind::TzOffsetTo => Some(KW_TZOFFSETTO),
            PropertyKind::TzUrl => Some(KW_TZURL),
            PropertyKind::Attendee => Some(KW_ATTENDEE),
            PropertyKind::Contact => Some(KW_CONTACT),
            PropertyKind::Organizer => Some(KW_ORGANIZER),
            PropertyKind::RecurrenceId => Some(KW_RECURRENCE_ID),
            PropertyKind::RelatedTo => Some(KW_RELATED_TO),
            PropertyKind::Url => Some(KW_URL),
            PropertyKind::Uid => Some(KW_UID),
            PropertyKind::ExDate => Some(KW_EXDATE),
            PropertyKind::RDate => Some(KW_RDATE),
            PropertyKind::RRule => Some(KW_RRULE),
            PropertyKind::Action => Some(KW_ACTION),
            PropertyKind::Repeat => Some(KW_REPEAT),
            PropertyKind::Trigger => Some(KW_TRIGGER),
            PropertyKind::Created => Some(KW_CREATED),
            PropertyKind::DtStamp => Some(KW_DTSTAMP),
            PropertyKind::LastModified => Some(KW_LAST_MODIFIED),
            PropertyKind::Sequence => Some(KW_SEQUENCE),
            PropertyKind::RequestStatus => Some(KW_REQUEST_STATUS),
            PropertyKind::XName(_) => None,
            PropertyKind::Unrecognized(_) => None,
        }
    }
}

/// Every standard property kind allows at least one value type.
pub proof fn lemma_standard_kinds_have_value_types<S>(k: PropertyKind<S>)
    requires
        !(k is XName),
        !(k is Unrecognized),
    ensures
        kind_value_types(k) matches Some(ts) && ts.len() > 0,
{
}

} // verus!
