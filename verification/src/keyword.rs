//! Keywords of RFC 5545.

use vstd::prelude::*;

verus! {

/// `BEGIN` of a component
pub const KW_BEGIN: &'static str = "BEGIN";

/// `END` of a component
pub const KW_END: &'static str = "END";

/// The calendar component
pub const KW_VCALENDAR: &'static str = "VCALENDAR";

/// Property name `CALSCALE`
pub const KW_CALSCALE: &'static str = "CALSCALE";

/// Property name `METHOD`
pub const KW_METHOD: &'static str = "METHOD";

/// Property name `PRODID`
pub const KW_PRODID: &'static str = "PRODID";

/// Property name `VERSION`
pub const KW_VERSION: &'static str = "VERSION";

/// Property name `ATTACH`
pub const KW_ATTACH: &'static str = "ATTACH";

/// Property name `CATEGORIES`
pub const KW_CATEGORIES: &'static str = "CATEGORIES";

/// Property name `CLASS`
pub const KW_CLASS: &'static str = "CLASS";

/// Property name `COMMENT`
pub const KW_COMMENT: &'static str = "COMMENT";

/// Property name `DESCRIPTION`
pub const KW_DESCRIPTION: &'static str = "DESCRIPTION";

/// Property name `GEO`
pub const KW_GEO: &'static str = "GEO";

/// Property name `LOCATION`
pub const KW_LOCATION: &'static str = "LOCATION";

/// Property name `PERCENT-COMPLETE`
pub const KW_PERCENT_COMPLETE: &'static str = "PERCENT-COMPLETE";

/// Property name `PRIORITY`
pub const KW_PRIORITY: &'static str = "PRIORITY";

/// Property name `RESOURCES`
pub const KW_RESOURCES: &'static str = "RESOURCES";

/// Property name `STATUS`
pub const KW_STATUS: &'static str = "STATUS";

/// Property name `SUMMARY`
pub const KW_SUMMARY: &'static str = "SUMMARY";

/// Property name `COMPLETED`
pub const KW_COMPLETED: &'static str = "COMPLETED";

/// Property name `DTEND`
pub const KW_DTEND: &'static str = "DTEND";

/// Property name `DUE`
pub const KW_DUE: &'static str = "DUE";

/// Property name `DTSTART`
pub const KW_DTSTART: &'static str = "DTSTART";

/// Property name `DURATION`
pub const KW_DURATION: &'static str = "DURATION";

/// Property name `FREEBUSY`
pub const KW_FREEBUSY: &'static str = "FREEBUSY";

/// Property name `TRANSP`
pub const KW_TRANSP: &'static str = "TRANSP";

/// Property name `TZID`
pub const KW_TZID: &'static str = "TZID";

/// Property name `TZNAME`
pub const KW_TZNAME: &'static str = "TZNAME";

/// Property name `TZOFFSETFROM`
pub const KW_TZOFFSETFROM: &'static str = "TZOFFSETFROM";

/// Property name `TZOFFSETTO`
pub const KW_TZOFFSETTO: &'static str = "TZOFFSETTO";

/// Property name `TZURL`
pub const KW_TZURL: &'static str = "TZURL";

/// Property name `ATTENDEE`
pub const KW_ATTENDEE: &'static str = "ATTENDEE";

/// Property name `CONTACT`
pub const KW_CONTACT: &'static str = "CONTACT";

/// Property name `ORGANIZER`
pub const KW_ORGANIZER: &'static str = "ORGANIZER";

/// Property name `RECURRENCE-ID`
pub const KW_RECURRENCE_ID: &'static str = "RECURRENCE-ID";

/// Property name `RELATED-TO`
pub const KW_RELATED_TO: &'static str = "RELATED-TO";

/// Property name `URL`
pub const KW_URL: &'static str = "URL";

/// Property name `UID`
pub const KW_UID: &'static str = "UID";

/// Property name `EXDATE`
pub const KW_EXDATE: &'static str = "EXDATE";

/// Property name `RDATE`
pub const KW_RDATE: &'static str = "RDATE";

/// Property name `RRULE`
pub const KW_RRULE: &'static str = "RRULE";

/// Property name `ACTION`
pub const KW_ACTION: &'static str = "ACTION";

/// Property name `REPEAT`
pub const KW_REPEAT: &'static str = "REPEAT";

/// Property name `TRIGGER`
pub const KW_TRIGGER: &'static str = "TRIGGER";

/// Property name `CREATED`
pub const KW_CREATED: &'static str = "CREATED";

/// Property name `DTSTAMP`
pub const KW_DTSTAMP: &'static str = "DTSTAMP";

/// Property name `LAST-MODIFIED`
pub const KW_LAST_MODIFIED: &'static str = "LAST-MODIFIED";

/// Property name `SEQUENCE`
pub const KW_SEQUENCE: &'static str = "SEQUENCE";

/// Property name `REQUEST-STATUS`
pub const KW_REQUEST_STATUS: &'static str = "REQUEST-STATUS";

/// Value type name `BINARY`
pub const KW_BINARY: &'static str = "BINARY";

/// Value type name `BOOLEAN`
pub const KW_BOOLEAN: &'static str = "BOOLEAN";

/// Value type name `CAL-ADDRESS`
pub const KW_CAL_ADDRESS: &'static str = "CAL-ADDRESS";

/// Value type name `DATE`
pub const KW_DATE: &'static str = "DATE";

/// Value type name `DATE-TIME`
pub const KW_DATETIME: &'static str = "DATE-TIME";

/// Value type name `DURATION`
pub const KW_DURATION_TYPE: &'static str = "DURATION";

/// Value type name `FLOAT`
pub const KW_FLOAT: &'static str = "FLOAT";

/// Value type name `INTEGER`
pub const KW_INTEGER: &'static str = "INTEGER";

/// Value type name `PERIOD`
pub const KW_PERIOD: &'static str = "PERIOD";

/// Value type name `RECUR`
pub const KW_RECUR: &'static str = "RECUR";

/// Value type name `TEXT`
pub const KW_TEXT: &'static str = "TEXT";

/// Value type name `TIME`
pub const KW_TIME: &'static str = "TIME";

/// Value type name `URI`
pub const KW_URI: &'static str = "URI";

/// Value type name `UTC-OFFSET`
pub const KW_UTC_OFFSET: &'static str = "UTC-OFFSET";

/// Component `VEVENT`
pub const KW_VEVENT: &'static str = "VEVENT";

/// Component `VTODO`
pub const KW_VTODO: &'static str = "VTODO";

/// Component `VJOURNAL`
pub const KW_VJOURNAL: &'static str = "VJOURNAL";

/// Component `VFREEBUSY`
pub const KW_VFREEBUSY: &'static str = "VFREEBUSY";

/// Component `VTIMEZONE`
pub const KW_VTIMEZONE: &'static str = "VTIMEZONE";

/// Component `VALARM`
pub const KW_VALARM: &'static str = "VALARM";

/// Time zone observance `STANDARD`
pub const KW_STANDARD: &'static str = "STANDARD";

/// Time zone observance `DAYLIGHT`
pub const KW_DAYLIGHT: &'static str = "DAYLIGHT";

/// Calendar scale `GREGORIAN`
pub const KW_CALSCALE_GREGORIAN: &'static str = "GREGORIAN";

/// Method `PUBLISH`
pub const KW_METHOD_PUBLISH: &'static str = "PUBLISH";

/// Method `REQUEST`
pub const KW_METHOD_REQUEST: &'static str = "REQUEST";

/// Method `REPLY`
pub const KW_METHOD_REPLY: &'static str = "REPLY";

/// Method `ADD`
pub const KW_METHOD_ADD: &'static str = "ADD";

/// Method `CANCEL`
pub const KW_METHOD_CANCEL: &'static str = "CANCEL";

/// Method `REFRESH`
pub const KW_METHOD_REFRESH: &'static str = "REFRESH";

/// Method `COUNTER`
pub const KW_METHOD_COUNTER: &'static str = "COUNTER";

/// Method `DECLINECOUNTER`
pub const KW_METHOD_DECLINECOUNTER: &'static str = "DECLINECOUNTER";

/// Version `2.0`
pub const KW_VERSION_2_0: &'static str = "2.0";

/// Alarm action `AUDIO`
pub const KW_ACTION_AUDIO: &'static str = "AUDIO";

/// Alarm action `DISPLAY`
pub const KW_ACTION_DISPLAY: &'static str = "DISPLAY";

/// Alarm action `EMAIL`
pub const KW_ACTION_EMAIL: &'static str = "EMAIL";

/// Deprecated alarm action `PROCEDURE`
pub const KW_ACTION_PROCEDURE: &'static str = "PROCEDURE";

/// Classification `PUBLIC`
pub const KW_CLASS_PUBLIC: &'static str = "PUBLIC";

/// Classification `PRIVATE`
pub const KW_CLASS_PRIVATE: &'static str = "PRIVATE";

/// Classification `CONFIDENTIAL`
pub const KW_CLASS_CONFIDENTIAL: &'static str = "CONFIDENTIAL";

/// Status `TENTATIVE`
pub const KW_STATUS_TENTATIVE: &'static str = "TENTATIVE";

/// Status `CONFIRMED`
pub const KW_STATUS_CONFIRMED: &'static str = "CONFIRMED";

/// Status `CANCELLED`
pub const KW_STATUS_CANCELLED: &'static str = "CANCELLED";

/// Status `NEEDS-ACTION`
pub const KW_STATUS_NEEDS_ACTION: &'static str = "NEEDS-ACTION";

/// Status `COMPLETED`
pub const KW_STATUS_COMPLETED: &'static str = "COMPLETED";

/// Status `IN-PROCESS`
pub const KW_STATUS_IN_PROCESS: &'static str = "IN-PROCESS";

/// Status `DRAFT`
pub const KW_STATUS_DRAFT: &'static str = "DRAFT";

/// Status `FINAL`
pub const KW_STATUS_FINAL: &'static str = "FINAL";

/// Time transparency `OPAQUE`
pub const KW_TRANSP_OPAQUE: &'static str = "OPAQUE";

/// Time transparency `TRANSPARENT`
pub const KW_TRANSP_TRANSPARENT: &'static str = "TRANSPARENT";

/// Parameter name `ALTREP`
pub const KW_ALTREP: &'static str = "ALTREP";

/// Parameter name `CN`
pub const KW_CN: &'static str = "CN";

/// Parameter name `CUTYPE`
pub const KW_CUTYPE: &'static str = "CUTYPE";

/// Parameter name `DELEGATED-FROM`
pub const KW_DELEGATED_FROM: &'static str = "DELEGATED-FROM";

/// Parameter name `DELEGATED-TO`
pub const KW_DELEGATED_TO: &'static str = "DELEGATED-TO";

/// Parameter name `DIR`
pub const KW_DIR: &'static str = "DIR";

/// Parameter name `LANGUAGE`
pub const KW_LANGUAGE: &'static str = "LANGUAGE";

/// Parameter name `MEMBER`
pub const KW_MEMBER: &'static str = "MEMBER";

/// Parameter name `PARTSTAT`
pub const KW_PARTSTAT: &'static str = "PARTSTAT";

/// Parameter name `RELTYPE`
pub const KW_RELTYPE: &'static str = "RELTYPE";

/// Parameter name `ROLE`
pub const KW_ROLE: &'static str = "ROLE";

/// Parameter name `RSVP`
pub const KW_RSVP: &'static str = "RSVP";

/// Parameter name `SENT-BY`
pub const KW_SENT_BY: &'static str = "SENT-BY";

/// Parameter name `VALUE`
pub const KW_VALUE: &'static str = "VALUE";
/// Parameter name `RELATED`
pub const KW_RELATED: &'static str = "RELATED";
/// `RELATED` value `START`
pub const KW_RELATED_START: &'static str = "START";
/// `RELATED` value `END`
pub const KW_RELATED_END: &'static str = "END";
/// Parameter name `ENCODING`
pub const KW_ENCODING: &'static str = "ENCODING";
/// `ENCODING` value `8BIT`
pub const KW_ENCODING_8BIT: &'static str = "8BIT";
/// `ENCODING` value `BASE64`
pub const KW_ENCODING_BASE64: &'static str = "BASE64";
/// Parameter name `FMTTYPE`
pub const KW_FMTTYPE: &'static str = "FMTTYPE";
/// Parameter name `FBTYPE`
pub const KW_FBTYPE: &'static str = "FBTYPE";
/// `FBTYPE` value `FREE`
pub const KW_FBTYPE_FREE: &'static str = "FREE";
/// `FBTYPE` value `BUSY`
pub const KW_FBTYPE_BUSY: &'static str = "BUSY";
/// `FBTYPE` value `BUSY-UNAVAILABLE`
pub const KW_FBTYPE_BUSY_UNAVAILABLE: &'static str = "BUSY-UNAVAILABLE";
/// `FBTYPE` value `BUSY-TENTATIVE`
pub const KW_FBTYPE_BUSY_TENTATIVE: &'static str = "BUSY-TENTATIVE";

/// Calendar user type `INDIVIDUAL`
pub const KW_CUTYPE_INDIVIDUAL: &'static str = "INDIVIDUAL";

/// Calendar user type `GROUP`
pub const KW_CUTYPE_GROUP: &'static str = "GROUP";

/// Calendar user type `RESOURCE`
pub const KW_CUTYPE_RESOURCE: &'static str = "RESOURCE";

/// Calendar user type `ROOM`
pub const KW_CUTYPE_ROOM: &'static str = "ROOM";

/// Calendar user type `UNKNOWN`
pub const KW_CUTYPE_UNKNOWN: &'static str = "UNKNOWN";

/// Participation role `CHAIR`
pub const KW_ROLE_CHAIR: &'static str = "CHAIR";

/// Participation role `REQ-PARTICIPANT`
pub const KW_ROLE_REQ_PARTICIPANT: &'static str = "REQ-PARTICIPANT";

/// Participation role `OPT-PARTICIPANT`
pub const KW_ROLE_OPT_PARTICIPANT: &'static str = "OPT-PARTICIPANT";

/// Participation role `NON-PARTICIPANT`
pub const KW_ROLE_NON_PARTICIPANT: &'static str = "NON-PARTICIPANT";

/// Participation status `NEEDS-ACTION`
pub const KW_PARTSTAT_NEEDS_ACTION: &'static str = "NEEDS-ACTION";

/// Participation status `ACCEPTED`
pub const KW_PARTSTAT_ACCEPTED: &'static str = "ACCEPTED";

/// Participation status `DECLINED`
pub const KW_PARTSTAT_DECLINED: &'static str = "DECLINED";

/// Participation status `TENTATIVE`
pub const KW_PARTSTAT_TENTATIVE: &'static str = "TENTATIVE";

/// Participation status `DELEGATED`
pub const KW_PARTSTAT_DELEGATED: &'static str = "DELEGATED";

/// Participation status `COMPLETED`
pub const KW_PARTSTAT_COMPLETED: &'static str = "COMPLETED";

/// Participation status `IN-PROCESS`
pub const KW_PARTSTAT_IN_PROCESS: &'static str = "IN-PROCESS";

/// Relationship type `PARENT`
pub const KW_RELTYPE_PARENT: &'static str = "PARENT";

/// Relationship type `CHILD`
pub const KW_RELTYPE_CHILD: &'static str = "CHILD";

/// Relationship type `SIBLING`
pub const KW_RELTYPE_SIBLING: &'static str = "SIBLING";

/// Boolean `TRUE`
pub const KW_TRUE: &'static str = "TRUE";

/// Boolean `FALSE`
pub const KW_FALSE: &'static str = "FALSE";

} // verus!
