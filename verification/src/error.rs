//! Error type for the IPFIX decoder.

use vstd::prelude::*;

verus! {

/// Errors returned by the IPFIX decoder.
#[derive(Debug, Clone, Copy, PartialEq, Eq, Structural)]
#[non_exhaustive]
pub enum Error {
    /// The input buffer was shorter than required.
    UnexpectedEof,
    /// A length field in the message is invalid (e.g. smaller than the
    /// minimum header size, or larger than the enclosing buffer).
    InvalidLength,
    /// The IPFIX version field was not 0x000a (10).
    InvalidVersion,
    /// A Set ID was in the reserved range: 0, 1, or 4 to 255.
    ReservedSetId,
    /// A template record declared a Template ID below 256; IDs 0 to 255 are
    /// reserved (RFC 7011 3.4.1).
    InvalidTemplateId,
    /// A data set referenced a template that the caller's store lacks.
    UnknownTemplate,
    /// A variable-length field's encoded length exceeds the enclosing record.
    VariableLengthOverflow,
    /// The caller-supplied field specifier buffer is smaller than the field
    /// count declared by the template being decoded.
    FieldBufferTooSmall,
    /// A decode plan was requested for a template that contains a
    /// variable-length field.
    VariableLengthInPlan,
    /// A decode plan mapping references the same Information Element twice.
    DuplicateMapping,
    /// A decode plan mapping references an Information Element that does
    /// not appear in the template.
    MappingNotFound,
    /// The destination buffer is shorter than the decode plan requires.
    DestinationBufferTooSmall,
}

/// The fixed sentence that describes each error.
pub open spec fn error_text(e: Error) -> &'static str {
    match e {
        Error::UnexpectedEof => "unexpected end of input",
        Error::InvalidLength => "invalid length field",
        Error::InvalidVersion => "invalid IPFIX version (expected 0x000a)",
        Error::ReservedSetId => "set ID is in the reserved range (0, 1, 4-255)",
        Error::InvalidTemplateId => "template ID is in the reserved range (0-255)",
        Error::UnknownTemplate => "template ID not found in store",
        Error::VariableLengthOverflow => "variable-length field exceeds enclosing record",
        Error::FieldBufferTooSmall => "caller-supplied field specifier buffer is too small",
        Error::VariableLengthInPlan => "template contains a variable-length field; not supported by DecodePlan",
        Error::DuplicateMapping => "DecodePlan mapping list contains the same IE twice",
        Error::MappingNotFound => "DecodePlan mapping references an IE not present in the template",
        Error::DestinationBufferTooSmall => "destination buffer is shorter than the DecodePlan requires",
    }
}

impl Error {
    /// A human-readable description of the error: one fixed sentence per
    /// variant.
    pub fn message(&self) -> (r: &'static str)
        ensures
            r == error_text(*self),
    {
        match self {
            Error::UnexpectedEof => "unexpected end of input",
            Error::InvalidLength => "invalid length field",
            Error::InvalidVersion => "invalid IPFIX version (expected 0x000a)",
            Error::ReservedSetId => "set ID is in the reserved range (0, 1, 4-255)",
            Error::InvalidTemplateId => "template ID is in the reserved range (0-255)",
            Error::UnknownTemplate => "template ID not found in store",
            Error::VariableLengthOverflow => "variable-length field exceeds enclosing record",
            Error::FieldBufferTooSmall => "caller-supplied field specifier buffer is too small",
            Error::VariableLengthInPlan => "template contains a variable-length field; not supported by DecodePlan",
            Error::DuplicateMapping => "DecodePlan mapping list contains the same IE twice",
            Error::MappingNotFound => "DecodePlan mapping references an IE not present in the template",
            Error::DestinationBufferTooSmall => "destination buffer is shorter than the DecodePlan requires",
        }
    }
}

/// Convenience alias for `Result<T, Error>`.
pub type Result<T> = core::result::Result<T, Error>;

} // verus!
