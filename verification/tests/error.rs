use ipfix_parser::Error;

#[test]
fn error_messages_match_variants() {
    assert_eq!(Error::UnexpectedEof.message(), "unexpected end of input");
    assert_eq!(Error::InvalidLength.message(), "invalid length field");
    assert_eq!(Error::InvalidVersion.message(), "invalid IPFIX version (expected 0x000a)");
    assert_eq!(Error::ReservedSetId.message(), "set ID is in the reserved range (0, 1, 4-255)");
    assert_eq!(Error::InvalidTemplateId.message(), "template ID is in the reserved range (0-255)");
    assert_eq!(Error::UnknownTemplate.message(), "template ID not found in store");
    assert_eq!(Error::VariableLengthOverflow.message(), "variable-length field exceeds enclosing record");
    assert_eq!(Error::FieldBufferTooSmall.message(), "caller-supplied field specifier buffer is too small");
    assert_eq!(
        Error::VariableLengthInPlan.message(),
        "template contains a variable-length field; not supported by DecodePlan"
    );
    assert_eq!(Error::DuplicateMapping.message(), "DecodePlan mapping list contains the same IE twice");
    assert_eq!(
        Error::MappingNotFound.message(),
        "DecodePlan mapping references an IE not present in the template"
    );
    assert_eq!(
        Error::DestinationBufferTooSmall.message(),
        "destination buffer is shorter than the DecodePlan requires"
    );
}
