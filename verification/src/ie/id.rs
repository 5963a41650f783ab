//! Named constants for the IDs of the IANA-allocated Information Elements,
//! in SCREAMING_SNAKE_CASE after their registry names.

use vstd::prelude::*;

verus! {

/// `octetDeltaCount`
pub const OCTET_DELTA_COUNT: u16 = 1;

/// `packetDeltaCount`
pub const PACKET_DELTA_COUNT: u16 = 2;

/// `deltaFlowCount`
pub const DELTA_FLOW_COUNT: u16 = 3;

/// `protocolIdentifier`
pub const PROTOCOL_IDENTIFIER: u16 = 4;

/// `ipClassOfService`
pub const IP_CLASS_OF_SERVICE: u16 = 5;

/// `tcpControlBits`
pub const TCP_CONTROL_BITS: u16 = 6;

/// `sourceTransportPort`
pub const SOURCE_TRANSPORT_PORT: u16 = 7;

/// `sourceIPv4Address`
pub const SOURCE_IPV4_ADDRESS: u16 = 8;

/// `sourceIPv4PrefixLength`
pub const SOURCE_IPV4_PREFIX_LENGTH: u16 = 9;

/// `ingressInterface`
pub const INGRESS_INTERFACE: u16 = 10;

/// `destinationTransportPort`
pub const DESTINATION_TRANSPORT_PORT: u16 = 11;

/// `destinationIPv4Address`
pub const DESTINATION_IPV4_ADDRESS: u16 = 12;

/// `destinationIPv4PrefixLength`
pub const DESTINATION_IPV4_PREFIX_LENGTH: u16 = 13;

/// `egressInterface`
pub const EGRESS_INTERFACE: u16 = 14;

/// `ipNextHopIPv4Address`
pub const IP_NEXT_HOP_IPV4_ADDRESS: u16 = 15;

/// `bgpSourceAsNumber`
pub const BGP_SOURCE_AS_NUMBER: u16 = 16;

/// `bgpDestinationAsNumber`
pub const BGP_DESTINATION_AS_NUMBER: u16 = 17;

/// `bgpNextHopIPv4Address`
pub const BGP_NEXT_HOP_IPV4_ADDRESS: u16 = 18;

/// `postMCastPacketDeltaCount`
pub const POST_MCAST_PACKET_DELTA_COUNT: u16 = 19;

/// `postMCastOctetDeltaCount`
pub const POST_MCAST_OCTET_DELTA_COUNT: u16 = 20;

/// `flowEndSysUpTime`
pub const FLOW_END_SYS_UP_TIME: u16 = 21;

/// `flowStartSysUpTime`
pub const FLOW_START_SYS_UP_TIME: u16 = 22;

/// `postOctetDeltaCount`
pub const POST_OCTET_DELTA_COUNT: u16 = 23;

/// `postPacketDeltaCount`
pub const POST_PACKET_DELTA_COUNT: u16 = 24;

/// `minimumIpTotalLength`
pub const MINIMUM_IP_TOTAL_LENGTH: u16 = 25;

/// `maximumIpTotalLength`
pub const MAXIMUM_IP_TOTAL_LENGTH: u16 = 26;

/// `sourceIPv6Address`
pub const SOURCE_IPV6_ADDRESS: u16 = 27;

/// `destinationIPv6Address`
pub const DESTINATION_IPV6_ADDRESS: u16 = 28;

/// `sourceIPv6PrefixLength`
pub const SOURCE_IPV6_PREFIX_LENGTH: u16 = 29;

/// `destinationIPv6PrefixLength`
pub const DESTINATION_IPV6_PREFIX_LENGTH: u16 = 30;

/// `flowLabelIPv6`
pub const FLOW_LABEL_IPV6: u16 = 31;

/// `icmpTypeCodeIPv4`
pub const ICMP_TYPE_CODE_IPV4: u16 = 32;

/// `igmpType`
pub const IGMP_TYPE: u16 = 33;

/// `samplingInterval`
pub const SAMPLING_INTERVAL: u16 = 34;

/// `samplingAlgorithm`
pub const SAMPLING_ALGORITHM: u16 = 35;

/// `flowActiveTimeout`
pub const FLOW_ACTIVE_TIMEOUT: u16 = 36;

/// `flowIdleTimeout`
pub const FLOW_IDLE_TIMEOUT: u16 = 37;

/// `engineType`
pub const ENGINE_TYPE: u16 = 38;

/// `engineId`
pub const ENGINE_ID: u16 = 39;

/// `exportedOctetTotalCount`
pub const EXPORTED_OCTET_TOTAL_COUNT: u16 = 40;

/// `exportedMessageTotalCount`
pub const EXPORTED_MESSAGE_TOTAL_COUNT: u16 = 41;

/// `exportedFlowRecordTotalCount`
pub const EXPORTED_FLOW_RECORD_TOTAL_COUNT: u16 = 42;

/// `ipv4RouterSc`
pub const IPV4_ROUTER_SC: u16 = 43;

/// `sourceIPv4Prefix`
pub const SOURCE_IPV4_PREFIX: u16 = 44;

/// `destinationIPv4Prefix`
pub const DESTINATION_IPV4_PREFIX: u16 = 45;

/// `mplsTopLabelType`
pub const MPLS_TOP_LABEL_TYPE: u16 = 46;

/// `mplsTopLabelIPv4Address`
pub const MPLS_TOP_LABEL_IPV4_ADDRESS: u16 = 47;

/// `samplerId`
pub const SAMPLER_ID: u16 = 48;

/// `samplerMode`
pub const SAMPLER_MODE: u16 = 49;

/// `samplerRandomInterval`
pub const SAMPLER_RANDOM_INTERVAL: u16 = 50;

/// `classId`
pub const CLASS_ID: u16 = 51;

/// `minimumTTL`
pub const MINIMUM_TTL: u16 = 52;

/// `maximumTTL`
pub const MAXIMUM_TTL: u16 = 53;

/// `fragmentIdentification`
pub const FRAGMENT_IDENTIFICATION: u16 = 54;

/// `postIpClassOfService`
pub const POST_IP_CLASS_OF_SERVICE: u16 = 55;

/// `sourceMacAddress`
pub const SOURCE_MAC_ADDRESS: u16 = 56;

/// `postDestinationMacAddress`
pub const POST_DESTINATION_MAC_ADDRESS: u16 = 57;

/// `vlanId`
pub const VLAN_ID: u16 = 58;

/// `postVlanId`
pub const POST_VLAN_ID: u16 = 59;

/// `ipVersion`
pub const IP_VERSION: u16 = 60;

/// `flowDirection`
pub const FLOW_DIRECTION: u16 = 61;

/// `ipNextHopIPv6Address`
pub const IP_NEXT_HOP_IPV6_ADDRESS: u16 = 62;

/// `bgpNextHopIPv6Address`
pub const BGP_NEXT_HOP_IPV6_ADDRESS: u16 = 63;

/// `ipv6ExtensionHeaders`
pub const IPV6_EXTENSION_HEADERS: u16 = 64;

/// `mplsTopLabelStackSection`
pub const MPLS_TOP_LABEL_STACK_SECTION: u16 = 70;

/// `mplsLabelStackSection2`
pub const MPLS_LABEL_STACK_SECTION2: u16 = 71;

/// `mplsLabelStackSection3`
pub const MPLS_LABEL_STACK_SECTION3: u16 = 72;

/// `mplsLabelStackSection4`
pub const MPLS_LABEL_STACK_SECTION4: u16 = 73;

/// `mplsLabelStackSection5`
pub const MPLS_LABEL_STACK_SECTION5: u16 = 74;

/// `mplsLabelStackSection6`
pub const MPLS_LABEL_STACK_SECTION6: u16 = 75;

/// `mplsLabelStackSection7`
pub const MPLS_LABEL_STACK_SECTION7: u16 = 76;

/// `mplsLabelStackSection8`
pub const MPLS_LABEL_STACK_SECTION8: u16 = 77;

/// `mplsLabelStackSection9`
pub const MPLS_LABEL_STACK_SECTION9: u16 = 78;

/// `mplsLabelStackSection10`
pub const MPLS_LABEL_STACK_SECTION10: u16 = 79;

/// `destinationMacAddress`
pub const DESTINATION_MAC_ADDRESS: u16 = 80;

/// `postSourceMacAddress`
pub const POST_SOURCE_MAC_ADDRESS: u16 = 81;

/// `interfaceName`
pub const INTERFACE_NAME: u16 = 82;

/// `interfaceDescription`
pub const INTERFACE_DESCRIPTION: u16 = 83;

/// `samplerName`
pub const SAMPLER_NAME: u16 = 84;

/// `octetTotalCount`
pub const OCTET_TOTAL_COUNT: u16 = 85;

/// `packetTotalCount`
pub const PACKET_TOTAL_COUNT: u16 = 86;

/// `flagsAndSamplerId`
pub const FLAGS_AND_SAMPLER_ID: u16 = 87;

/// `fragmentOffset`
pub const FRAGMENT_OFFSET: u16 = 88;

/// `forwardingStatus`
pub const FORWARDING_STATUS: u16 = 89;

/// `mplsVpnRouteDistinguisher`
pub const MPLS_VPN_ROUTE_DISTINGUISHER: u16 = 90;

/// `mplsTopLabelPrefixLength`
pub const MPLS_TOP_LABEL_PREFIX_LENGTH: u16 = 91;

/// `srcTrafficIndex`
pub const SRC_TRAFFIC_INDEX: u16 = 92;

/// `dstTrafficIndex`
pub const DST_TRAFFIC_INDEX: u16 = 93;

/// `applicationDescription`
pub const APPLICATION_DESCRIPTION: u16 = 94;

/// `applicationId`
pub const APPLICATION_ID: u16 = 95;

/// `applicationName`
pub const APPLICATION_NAME: u16 = 96;

/// `postIpDiffServCodePoint`
pub const POST_IP_DIFF_SERV_CODE_POINT: u16 = 98;

/// `multicastReplicationFactor`
pub const MULTICAST_REPLICATION_FACTOR: u16 = 99;

/// `className`
pub const CLASS_NAME: u16 = 100;

/// `classificationEngineId`
pub const CLASSIFICATION_ENGINE_ID: u16 = 101;

/// `layer2packetSectionOffset`
pub const LAYER2PACKET_SECTION_OFFSET: u16 = 102;

/// `layer2packetSectionSize`
pub const LAYER2PACKET_SECTION_SIZE: u16 = 103;

/// `layer2packetSectionData`
pub const LAYER2PACKET_SECTION_DATA: u16 = 104;

/// `bgpNextAdjacentAsNumber`
pub const BGP_NEXT_ADJACENT_AS_NUMBER: u16 = 128;

/// `bgpPrevAdjacentAsNumber`
pub const BGP_PREV_ADJACENT_AS_NUMBER: u16 = 129;

/// `exporterIPv4Address`
pub const EXPORTER_IPV4_ADDRESS: u16 = 130;

/// `exporterIPv6Address`
pub const EXPORTER_IPV6_ADDRESS: u16 = 131;

/// `droppedOctetDeltaCount`
pub const DROPPED_OCTET_DELTA_COUNT: u16 = 132;

/// `droppedPacketDeltaCount`
pub const DROPPED_PACKET_DELTA_COUNT: u16 = 133;

/// `droppedOctetTotalCount`
pub const DROPPED_OCTET_TOTAL_COUNT: u16 = 134;

/// `droppedPacketTotalCount`
pub const DROPPED_PACKET_TOTAL_COUNT: u16 = 135;

/// `flowEndReason`
pub const FLOW_END_REASON: u16 = 136;

/// `commonPropertiesId`
pub const COMMON_PROPERTIES_ID: u16 = 137;

/// `observationPointId`
pub const OBSERVATION_POINT_ID: u16 = 138;

/// `icmpTypeCodeIPv6`
pub const ICMP_TYPE_CODE_IPV6: u16 = 139;

/// `mplsTopLabelIPv6Address`
pub const MPLS_TOP_LABEL_IPV6_ADDRESS: u16 = 140;

/// `lineCardId`
pub const LINE_CARD_ID: u16 = 141;

/// `portId`
pub const PORT_ID: u16 = 142;

/// `meteringProcessId`
pub const METERING_PROCESS_ID: u16 = 143;

/// `exportingProcessId`
pub const EXPORTING_PROCESS_ID: u16 = 144;

/// `templateId`
pub const TEMPLATE_ID: u16 = 145;

/// `wlanChannelId`
pub const WLAN_CHANNEL_ID: u16 = 146;

/// `wlanSSID`
pub const WLAN_SSID: u16 = 147;

/// `flowId`
pub const FLOW_ID: u16 = 148;

/// `observationDomainId`
pub const OBSERVATION_DOMAIN_ID: u16 = 149;

/// `flowStartSeconds`
pub const FLOW_START_SECONDS: u16 = 150;

/// `flowEndSeconds`
pub const FLOW_END_SECONDS: u16 = 151;

/// `flowStartMilliseconds`
pub const FLOW_START_MILLISECONDS: u16 = 152;

/// `flowEndMilliseconds`
pub const FLOW_END_MILLISECONDS: u16 = 153;

/// `flowStartMicroseconds`
pub const FLOW_START_MICROSECONDS: u16 = 154;

/// `flowEndMicroseconds`
pub const FLOW_END_MICROSECONDS: u16 = 155;

/// `flowStartNanoseconds`
pub const FLOW_START_NANOSECONDS: u16 = 156;

/// `flowEndNanoseconds`
pub const FLOW_END_NANOSECONDS: u16 = 157;

/// `flowStartDeltaMicroseconds`
pub const FLOW_START_DELTA_MICROSECONDS: u16 = 158;

/// `flowEndDeltaMicroseconds`
pub const FLOW_END_DELTA_MICROSECONDS: u16 = 159;

/// `systemInitTimeMilliseconds`
pub const SYSTEM_INIT_TIME_MILLISECONDS: u16 = 160;

/// `flowDurationMilliseconds`
pub const FLOW_DURATION_MILLISECONDS: u16 = 161;

/// `flowDurationMicroseconds`
pub const FLOW_DURATION_MICROSECONDS: u16 = 162;

/// `observedFlowTotalCount`
pub const OBSERVED_FLOW_TOTAL_COUNT: u16 = 163;

/// `ignoredPacketTotalCount`
pub const IGNORED_PACKET_TOTAL_COUNT: u16 = 164;

/// `ignoredOctetTotalCount`
pub const IGNORED_OCTET_TOTAL_COUNT: u16 = 165;

/// `notSentFlowTotalCount`
pub const NOT_SENT_FLOW_TOTAL_COUNT: u16 = 166;

/// `notSentPacketTotalCount`
pub const NOT_SENT_PACKET_TOTAL_COUNT: u16 = 167;

/// `notSentOctetTotalCount`
pub const NOT_SENT_OCTET_TOTAL_COUNT: u16 = 168;

/// `destinationIPv6Prefix`
pub const DESTINATION_IPV6_PREFIX: u16 = 169;

/// `sourceIPv6Prefix`
pub const SOURCE_IPV6_PREFIX: u16 = 170;

/// `postOctetTotalCount`
pub const POST_OCTET_TOTAL_COUNT: u16 = 171;

/// `postPacketTotalCount`
pub const POST_PACKET_TOTAL_COUNT: u16 = 172;

/// `flowKeyIndicator`
pub const FLOW_KEY_INDICATOR: u16 = 173;

/// `postMCastPacketTotalCount`
pub const POST_MCAST_PACKET_TOTAL_COUNT: u16 = 174;

/// `postMCastOctetTotalCount`
pub const POST_MCAST_OCTET_TOTAL_COUNT: u16 = 175;

/// `icmpTypeIPv4`
pub const ICMP_TYPE_IPV4: u16 = 176;

/// `icmpCodeIPv4`
pub const ICMP_CODE_IPV4: u16 = 177;

/// `icmpTypeIPv6`
pub const ICMP_TYPE_IPV6: u16 = 178;

/// `icmpCodeIPv6`
pub const ICMP_CODE_IPV6: u16 = 179;

/// `udpSourcePort`
pub const UDP_SOURCE_PORT: u16 = 180;

/// `udpDestinationPort`
pub const UDP_DESTINATION_PORT: u16 = 181;

/// `tcpSourcePort`
pub const TCP_SOURCE_PORT: u16 = 182;

/// `tcpDestinationPort`
pub const TCP_DESTINATION_PORT: u16 = 183;

/// `tcpSequenceNumber`
pub const TCP_SEQUENCE_NUMBER: u16 = 184;

/// `tcpAcknowledgementNumber`
pub const TCP_ACKNOWLEDGEMENT_NUMBER: u16 = 185;

/// `tcpWindowSize`
pub const TCP_WINDOW_SIZE: u16 = 186;

/// `tcpUrgentPointer`
pub const TCP_URGENT_POINTER: u16 = 187;

/// `tcpHeaderLength`
pub const TCP_HEADER_LENGTH: u16 = 188;

/// `ipHeaderLength`
pub const IP_HEADER_LENGTH: u16 = 189;

/// `totalLengthIPv4`
pub const TOTAL_LENGTH_IPV4: u16 = 190;

/// `payloadLengthIPv6`
pub const PAYLOAD_LENGTH_IPV6: u16 = 191;

/// `ipTTL`
pub const IP_TTL: u16 = 192;

/// `nextHeaderIPv6`
pub const NEXT_HEADER_IPV6: u16 = 193;

/// `mplsPayloadLength`
pub const MPLS_PAYLOAD_LENGTH: u16 = 194;

/// `ipDiffServCodePoint`
pub const IP_DIFF_SERV_CODE_POINT: u16 = 195;

/// `ipPrecedence`
pub const IP_PRECEDENCE: u16 = 196;

/// `fragmentFlags`
pub const FRAGMENT_FLAGS: u16 = 197;

/// `octetDeltaSumOfSquares`
pub const OCTET_DELTA_SUM_OF_SQUARES: u16 = 198;

/// `octetTotalSumOfSquares`
pub const OCTET_TOTAL_SUM_OF_SQUARES: u16 = 199;

/// `mplsTopLabelTTL`
pub const MPLS_TOP_LABEL_TTL: u16 = 200;

/// `mplsLabelStackLength`
pub const MPLS_LABEL_STACK_LENGTH: u16 = 201;

/// `mplsLabelStackDepth`
pub const MPLS_LABEL_STACK_DEPTH: u16 = 202;

/// `mplsTopLabelExp`
pub const MPLS_TOP_LABEL_EXP: u16 = 203;

/// `ipPayloadLength`
pub const IP_PAYLOAD_LENGTH: u16 = 204;

/// `udpMessageLength`
pub const UDP_MESSAGE_LENGTH: u16 = 205;

/// `isMulticast`
pub const IS_MULTICAST: u16 = 206;

/// `ipv4IHL`
pub const IPV4_IHL: u16 = 207;

/// `ipv4Options`
pub const IPV4_OPTIONS: u16 = 208;

/// `tcpOptions`
pub const TCP_OPTIONS: u16 = 209;

/// `paddingOctets`
pub const PADDING_OCTETS: u16 = 210;

/// `collectorIPv4Address`
pub const COLLECTOR_IPV4_ADDRESS: u16 = 211;

/// `collectorIPv6Address`
pub const COLLECTOR_IPV6_ADDRESS: u16 = 212;

/// `exportInterface`
pub const EXPORT_INTERFACE: u16 = 213;

/// `exportProtocolVersion`
pub const EXPORT_PROTOCOL_VERSION: u16 = 214;

/// `exportTransportProtocol`
pub const EXPORT_TRANSPORT_PROTOCOL: u16 = 215;

/// `collectorTransportPort`
pub const COLLECTOR_TRANSPORT_PORT: u16 = 216;

/// `exporterTransportPort`
pub const EXPORTER_TRANSPORT_PORT: u16 = 217;

/// `tcpSynTotalCount`
pub const TCP_SYN_TOTAL_COUNT: u16 = 218;

/// `tcpFinTotalCount`
pub const TCP_FIN_TOTAL_COUNT: u16 = 219;

/// `tcpRstTotalCount`
pub const TCP_RST_TOTAL_COUNT: u16 = 220;

/// `tcpPshTotalCount`
pub const TCP_PSH_TOTAL_COUNT: u16 = 221;

/// `tcpAckTotalCount`
pub const TCP_ACK_TOTAL_COUNT: u16 = 222;

/// `tcpUrgTotalCount`
pub const TCP_URG_TOTAL_COUNT: u16 = 223;

/// `ipTotalLength`
pub const IP_TOTAL_LENGTH: u16 = 224;

/// `postNATSourceIPv4Address`
pub const POST_NATSOURCE_IPV4_ADDRESS: u16 = 225;

/// `postNATDestinationIPv4Address`
pub const POST_NATDESTINATION_IPV4_ADDRESS: u16 = 226;

/// `postNAPTSourceTransportPort`
pub const POST_NAPTSOURCE_TRANSPORT_PORT: u16 = 227;

/// `postNAPTDestinationTransportPort`
pub const POST_NAPTDESTINATION_TRANSPORT_PORT: u16 = 228;

/// `natOriginatingAddressRealm`
pub const NAT_ORIGINATING_ADDRESS_REALM: u16 = 229;

/// `natEvent`
pub const NAT_EVENT: u16 = 230;

/// `initiatorOctets`
pub const INITIATOR_OCTETS: u16 = 231;

/// `responderOctets`
pub const RESPONDER_OCTETS: u16 = 232;

/// `firewallEvent`
pub const FIREWALL_EVENT: u16 = 233;

/// `ingressVRFID`
pub const INGRESS_VRFID: u16 = 234;

/// `egressVRFID`
pub const EGRESS_VRFID: u16 = 235;

/// `VRFname`
pub const VRFNAME: u16 = 236;

} // verus!
