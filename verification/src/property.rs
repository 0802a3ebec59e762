//! Typed properties of RFC 5545 (Section 3.7 and 3.8).

pub mod alarm;
pub mod ast;
pub mod calendar;
pub mod changemgmt;
pub mod common;
pub mod datetime;
pub mod descriptive;
pub mod kind;
pub mod recurrence;
pub mod relationship;
pub mod timezone;

pub use common::{take_single_cal_address, take_single_text, take_single_uri, take_single_value};
pub use kind::{PropertyKind, PropertyKindOwned, PropertyKindRef, PropertyValueKind};
pub use ast::{Property, property_kind, property_result};
