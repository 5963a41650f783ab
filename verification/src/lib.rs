//! A zero-copy, sans-io decoder for IPFIX (RFC 7011) messages.
//!
//! Parsed views borrow from the caller's byte buffer. Every decoding step
//! is specified over byte sequences, and the executable code is proved to
//! follow those specifications.
//!
//! The pull API goes message header, then [`SetIter`], then
//! [`TemplateSetIter`] or [`DataRecordIter`], then [`FieldIter`]. Templates
//! are kept by the caller, in a [`TemplateStore`] such as
//! [`SessionTemplateStore`], and supplied when decoding data records.

pub mod decode;
pub mod error;
pub mod field;
pub mod header;
pub mod ie;
pub mod record;
pub mod set;
pub mod store;
pub mod template;
pub mod util;

pub use decode::{DecodePlan, Mapping};
pub use error::{Error, Result};
pub use field::FieldValue;
pub use header::MessageHeader;
pub use record::{DataRecord, DataRecordIter, FieldIter};
pub use set::{IpfixSet, SetIter, SetKind};
pub use store::{InsertOutcome, SessionTemplateStore, SessionView, TemplateRef, TemplateStore, DEFAULT_CAPACITY};
pub use template::{FieldSpecifier, TemplateId, TemplateRecord, TemplateSetIter, TemplateSetKind};
