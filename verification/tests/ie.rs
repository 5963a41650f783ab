use ipfix_parser::ie::{id, lookup, lookup_field, registry_len, DataType, IeId, Semantic};
use ipfix_parser::FieldValue;

#[test]
fn registry_is_sorted_and_unique() {
    // Walking every ID in order visits each registered element exactly
    // once, under its own ID.
    let mut last: Option<u16> = None;
    let mut count = 0usize;
    for i in 0..=u16::MAX {
        if let Some(e) = lookup(i) {
            assert_eq!(e.id, i);
            if let Some(prev) = last {
                assert!(prev < e.id, "registry not strictly sorted by id");
            }
            last = Some(e.id);
            count += 1;
        }
    }
    assert_eq!(count, registry_len());
}

#[test]
fn registry_is_nontrivial() {
    assert!(registry_len() > 100, "registry suspiciously small");
}

#[test]
fn lookup_known_elements() {
    let octet_delta = lookup(1).expect("octetDeltaCount");
    assert_eq!(octet_delta.name, "octetDeltaCount");
    assert_eq!(octet_delta.data_type, DataType::Unsigned64);

    let packet_delta = lookup(2).expect("packetDeltaCount");
    assert_eq!(packet_delta.name, "packetDeltaCount");
    assert_eq!(packet_delta.data_type, DataType::Unsigned64);

    let proto = lookup(4).expect("protocolIdentifier");
    assert_eq!(proto.name, "protocolIdentifier");
    assert_eq!(proto.data_type, DataType::Unsigned8);
    assert_eq!(proto.semantic, Some(Semantic::Identifier));

    let src_v4 = lookup(8).expect("sourceIPv4Address");
    assert_eq!(src_v4.name, "sourceIPv4Address");
    assert_eq!(src_v4.data_type, DataType::Ipv4Address);

    let dst_v6 = lookup(28).expect("destinationIPv6Address");
    assert_eq!(dst_v6.name, "destinationIPv6Address");
    assert_eq!(dst_v6.data_type, DataType::Ipv6Address);
}

#[test]
fn lookup_unknown_returns_none() {
    assert!(lookup(0).is_none());
    assert!(lookup(u16::MAX).is_none());
}

#[test]
fn lookup_field_skips_enterprise() {
    let f = FieldValue::new(1, Some(9), &[]);
    assert!(lookup_field(&f).is_none());

    let g = FieldValue::new(1, None, &[]);
    assert_eq!(lookup_field(&g).map(|e| e.name), Some("octetDeltaCount"));
}

#[test]
fn id_constants_match_registry() {
    assert_eq!(id::OCTET_DELTA_COUNT, 1);
    assert_eq!(id::PACKET_DELTA_COUNT, 2);
    assert_eq!(id::PROTOCOL_IDENTIFIER, 4);
    assert_eq!(id::TCP_CONTROL_BITS, 6);
    assert_eq!(id::SOURCE_IPV4_ADDRESS, 8);
    assert_eq!(id::DESTINATION_IPV4_ADDRESS, 12);
    assert_eq!(id::SOURCE_IPV6_ADDRESS, 27);
    assert_eq!(id::DESTINATION_IPV6_ADDRESS, 28);
    assert_eq!(id::FLOW_START_MILLISECONDS, 152);
    assert_eq!(id::FLOW_END_MILLISECONDS, 153);

    assert_eq!(lookup(id::SOURCE_IPV4_ADDRESS).map(|e| e.name), Some("sourceIPv4Address"));
    assert_eq!(lookup(id::DESTINATION_IPV6_ADDRESS).map(|e| e.name), Some("destinationIPv6Address"));
}

#[test]
fn lookup_semantics_and_gaps() {
    assert_eq!(lookup(6).unwrap().semantic, Some(Semantic::Flags));
    assert_eq!(lookup(85).unwrap().semantic, Some(Semantic::TotalCounter));
    assert_eq!(lookup(9).unwrap().semantic, None);
    assert_eq!(lookup(152).unwrap().data_type, DataType::DateTimeMilliseconds);
    assert_eq!(lookup(82).unwrap().data_type, DataType::String);
    assert_eq!(lookup(56).unwrap().data_type, DataType::MacAddress);
    // Unassigned IDs between the registered ranges.
    assert!(lookup(65).is_none());
    assert!(lookup(97).is_none());
    assert!(lookup(105).is_none());
    assert!(lookup(127).is_none());
}

#[test]
fn ie_id_orders_by_number() {
    assert!(IeId(1) < IeId(2));
    assert_eq!(IeId(8), IeId(id::SOURCE_IPV4_ADDRESS));
}
