//! Reading iCalendar (RFC 5545) data: a verified lexer, content-line scanner
//! and component-tree builder, with the byte-level string storage they share.

pub mod keyword;
pub mod parameter;
pub mod property;
pub mod property_spec;
pub mod property_value;
pub mod semantic;
pub mod string_storage;
pub mod syntax;
pub mod typed;
pub mod value;

pub use string_storage::{Span, SpannedSegments, StringStorage};
