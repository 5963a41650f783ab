//! IANA IPFIX Information Element registry (RFC 7012).
//!
//! The registry maps IANA-allocated (non-enterprise) element IDs to their
//! name, abstract data type and data-type semantic. It is a fixed table:
//! lookups allocate nothing. Enterprise-specific elements are not described
//! here and must be interpreted by the caller.

use vstd::prelude::*;
use vstd::set_lib::{lemma_int_range, lemma_set_disjoint_lens, set_int_range};
use crate::field::FieldValue;

pub mod id;

verus! {

/// Numeric identifier of an IANA-allocated Information Element.
///
/// This is the low 15 bits of the IE ID word in a template field specifier
/// (RFC 7011 3.2). Enterprise-specific IEs are not represented by this type.
#[derive(Debug, Clone, Copy, PartialEq, Eq, Structural, PartialOrd, Ord, Hash)]
pub struct IeId(pub u16);

/// Abstract data type of an Information Element (RFC 7012 3.1).
///
/// Types whose IANA spelling this crate does not recognise (such as
/// `unsigned256`) are not enumerated; such elements are left out of the
/// registry.
#[derive(Debug, Clone, Copy, PartialEq, Eq, Structural)]
#[non_exhaustive]
pub enum DataType {
    /// `octetArray`
    OctetArray,
    /// `unsigned8`
    Unsigned8,
    /// `unsigned16`
    Unsigned16,
    /// `unsigned32`
    Unsigned32,
    /// `unsigned64`
    Unsigned64,
    /// `signed8`
    Signed8,
    /// `signed16`
    Signed16,
    /// `signed32`
    Signed32,
    /// `signed64`
    Signed64,
    /// `float32`
    Float32,
    /// `float64`
    Float64,
    /// `boolean`
    Boolean,
    /// `macAddress` (6 octets)
    MacAddress,
    /// `string` (UTF-8)
    String,
    /// `dateTimeSeconds`
    DateTimeSeconds,
    /// `dateTimeMilliseconds`
    DateTimeMilliseconds,
    /// `dateTimeMicroseconds`
    DateTimeMicroseconds,
    /// `dateTimeNanoseconds`
    DateTimeNanoseconds,
    /// `ipv4Address` (4 octets)
    Ipv4Address,
    /// `ipv6Address` (16 octets)
    Ipv6Address,
    /// `basicList` (RFC 6313)
    BasicList,
    /// `subTemplateList` (RFC 6313)
    SubTemplateList,
    /// `subTemplateMultiList` (RFC 6313)
    SubTemplateMultiList,
}

/// Data-type semantic of an Information Element (RFC 7012 3.2).
#[derive(Debug, Clone, Copy, PartialEq, Eq, Structural)]
#[non_exhaustive]
pub enum Semantic {
    /// `default`: the value has no special meaning beyond its type.
    Default,
    /// `quantity`: a measured value.
    Quantity,
    /// `totalCounter`: a counter reporting the total since flow start.
    TotalCounter,
    /// `deltaCounter`: a counter reporting the delta since the last report.
    DeltaCounter,
    /// `identifier`: an opaque identifier; arithmetic is not meaningful.
    Identifier,
    /// `flags`: a bitfield.
    Flags,
    /// `list`: a structured-data list (RFC 6313).
    List,
    /// `snmpCounter`: an SNMP-style counter.
    SnmpCounter,
    /// `snmpGauge`: an SNMP-style gauge.
    SnmpGauge,
}

/// Static description of one IANA-allocated Information Element.
#[derive(Debug, Clone, Copy)]
#[non_exhaustive]
pub struct InfoElement {
    /// IANA element ID.
    pub id: u16,
    /// IANA element name (e.g. `"octetDeltaCount"`).
    pub name: &'static str,
    /// Abstract data type.
    pub data_type: DataType,
    /// Data-type semantic, when one is registered.
    pub semantic: Option<Semantic>,
}

/// The registry: the description of element `id`, or `None` for IDs that
/// are unassigned, reserved, or of a data type this crate does not
/// recognise.
pub open spec fn registry_entry(id: u16) -> Option<InfoElement> {
    match id {
        1u16 => Some(InfoElement { id: 1, name: "octetDeltaCount", data_type: DataType::Unsigned64, semantic: Some(Semantic::DeltaCounter) }),
        2u16 => Some(InfoElement { id: 2, name: "packetDeltaCount", data_type: DataType::Unsigned64, semantic: Some(Semantic::DeltaCounter) }),
        3u16 => Some(InfoElement { id: 3, name: "deltaFlowCount", data_type: DataType::Unsigned64, semantic: Some(Semantic::DeltaCounter) }),
        4u16 => Some(InfoElement { id: 4, name: "protocolIdentifier", data_type: DataType::Unsigned8, semantic: Some(Semantic::Identifier) }),
        5u16 => Some(InfoElement { id: 5, name: "ipClassOfService", data_type: DataType::Unsigned8, semantic: Some(Semantic::Identifier) }),
        6u16 => Some(InfoElement { id: 6, name: "tcpControlBits", data_type: DataType::Unsigned16, semantic: Some(Semantic::Flags) }),
        7u16 => Some(InfoElement { id: 7, name: "sourceTransportPort", data_type: DataType::Unsigned16, semantic: Some(Semantic::Identifier) }),
        8u16 => Some(InfoElement { id: 8, name: "sourceIPv4Address", data_type: DataType::Ipv4Address, semantic: Some(Semantic::Default) }),
        9u16 => Some(InfoElement { id: 9, name: "sourceIPv4PrefixLength", data_type: DataType::Unsigned8, semantic: None }),
        10u16 => Some(InfoElement { id: 10, name: "ingressInterface", data_type: DataType::Unsigned32, semantic: Some(Semantic::Identifier) }),
        11u16 => Some(InfoElement { id: 11, name: "destinationTransportPort", data_type: DataType::Unsigned16, semantic: Some(Semantic::Identifier) }),
        12u16 => Some(InfoElement { id: 12, name: "destinationIPv4Address", data_type: DataType::Ipv4Address, semantic: Some(Semantic::Default) }),
        13u16 => Some(InfoElement { id: 13, name: "destinationIPv4PrefixLength", data_type: DataType::Unsigned8, semantic: None }),
        14u16 => Some(InfoElement { id: 14, name: "egressInterface", data_type: DataType::Unsigned32, semantic: Some(Semantic::Identifier) }),
        15u16 => Some(InfoElement { id: 15, name: "ipNextHopIPv4Address", data_type: DataType::Ipv4Address, semantic: Some(Semantic::Default) }),
        16u16 => Some(InfoElement { id: 16, name: "bgpSourceAsNumber", data_type: DataType::Unsigned32, semantic: Some(Semantic::Identifier) }),
        17u16 => Some(InfoElement { id: 17, name: "bgpDestinationAsNumber", data_type: DataType::Unsigned32, semantic: Some(Semantic::Identifier) }),
        18u16 => Some(InfoElement { id: 18, name: "bgpNextHopIPv4Address", data_type: DataType::Ipv4Address, semantic: Some(Semantic::Default) }),
        19u16 => Some(InfoElement { id: 19, name: "postMCastPacketDeltaCount", data_type: DataType::Unsigned64, semantic: Some(Semantic::DeltaCounter) }),
        20u16 => Some(InfoElement { id: 20, name: "postMCastOctetDeltaCount", data_type: DataType::Unsigned64, semantic: Some(Semantic::DeltaCounter) }),
        21u16 => Some(InfoElement { id: 21, name: "flowEndSysUpTime", data_type: DataType::Unsigned32, semantic: None }),
        22u16 => Some(InfoElement { id: 22, name: "flowStartSysUpTime", data_type: DataType::Unsigned32, semantic: None }),
        23u16 => Some(InfoElement { id: 23, name: "postOctetDeltaCount", data_type: DataType::Unsigned64, semantic: Some(Semantic::DeltaCounter) }),
        24u16 => Some(InfoElement { id: 24, name: "postPacketDeltaCount", data_type: DataType::Unsigned64, semantic: Some(Semantic::DeltaCounter) }),
        25u16 => Some(InfoElement { id: 25, name: "minimumIpTotalLength", data_type: DataType::Unsigned64, semantic: None }),
        26u16 => Some(InfoElement { id: 26, name: "maximumIpTotalLength", data_type: DataType::Unsigned64, semantic: None }),
        27u16 => Some(InfoElement { id: 27, name: "sourceIPv6Address", data_type: DataType::Ipv6Address, semantic: Some(Semantic::Default) }),
        28u16 => Some(InfoElement { id: 28, name: "destinationIPv6Address", data_type: DataType::Ipv6Address, semantic: Some(Semantic::Default) }),
        29u16 => Some(InfoElement { id: 29, name: "sourceIPv6PrefixLength", data_type: DataType::Unsigned8, semantic: None }),
        30u16 => Some(InfoElement { id: 30, name: "destinationIPv6PrefixLength", data_type: DataType::Unsigned8, semantic: None }),
        31u16 => Some(InfoElement { id: 31, name: "flowLabelIPv6", data_type: DataType::Unsigned32, semantic: Some(Semantic::Identifier) }),
        32u16 => Some(InfoElement { id: 32, name: "icmpTypeCodeIPv4", data_type: DataType::Unsigned16, semantic: Some(Semantic::Identifier) }),
        33u16 => Some(InfoElement { id: 33, name: "igmpType", data_type: DataType::Unsigned8, semantic: Some(Semantic::Identifier) }),
        34u16 => Some(InfoElement { id: 34, name: "samplingInterval", data_type: DataType::Unsigned32, semantic: Some(Semantic::Quantity) }),
        35u16 => Some(InfoElement { id: 35, name: "samplingAlgorithm", data_type: DataType::Unsigned8, semantic: Some(Semantic::Identifier) }),
        36u16 => Some(InfoElement { id: 36, name: "flowActiveTimeout", data_type: DataType::Unsigned16, semantic: None }),
        37u16 => Some(InfoElement { id: 37, name: "flowIdleTimeout", data_type: DataType::Unsigned16, semantic: None }),
        38u16 => Some(InfoElement { id: 38, name: "engineType", data_type: DataType::Unsigned8, semantic: Some(Semantic::Identifier) }),
        39u16 => Some(InfoElement { id: 39, name: "engineId", data_type: DataType::Unsigned8, semantic: Some(Semantic::Identifier) }),
        40u16 => Some(InfoElement { id: 40, name: "exportedOctetTotalCount", data_type: DataType::Unsigned64, semantic: Some(Semantic::TotalCounter) }),
        41u16 => Some(InfoElement { id: 41, name: "exportedMessageTotalCount", data_type: DataType::Unsigned64, semantic: Some(Semantic::TotalCounter) }),
        42u16 => Some(InfoElement { id: 42, name: "exportedFlowRecordTotalCount", data_type: DataType::Unsigned64, semantic: Some(Semantic::TotalCounter) }),
        43u16 => Some(InfoElement { id: 43, name: "ipv4RouterSc", data_type: DataType::Ipv4Address, semantic: Some(Semantic::Default) }),
        44u16 => Some(InfoElement { id: 44, name: "sourceIPv4Prefix", data_type: DataType::Ipv4Address, semantic: Some(Semantic::Default) }),
        45u16 => Some(InfoElement { id: 45, name: "destinationIPv4Prefix", data_type: DataType::Ipv4Address, semantic: Some(Semantic::Default) }),
        46u16 => Some(InfoElement { id: 46, name: "mplsTopLabelType", data_type: DataType::Unsigned8, semantic: Some(Semantic::Identifier) }),
        47u16 => Some(InfoElement { id: 47, name: "mplsTopLabelIPv4Address", data_type: DataType::Ipv4Address, semantic: Some(Semantic::Default) }),
        48u16 => Some(InfoElement { id: 48, name: "samplerId", data_type: DataType::Unsigned8, semantic: Some(Semantic::Identifier) }),
        49u16 => Some(InfoElement { id: 49, name: "samplerMode", data_type: DataType::Unsigned8, semantic: Some(Semantic::Identifier) }),
        50u16 => Some(InfoElement { id: 50, name: "samplerRandomInterval", data_type: DataType::Unsigned32, semantic: Some(Semantic::Quantity) }),
        51u16 => Some(InfoElement { id: 51, name: "classId", data_type: DataType::Unsigned8, semantic: Some(Semantic::Identifier) }),
        52u16 => Some(InfoElement { id: 52, name: "minimumTTL", data_type: DataType::Unsigned8, semantic: None }),
        53u16 => Some(InfoElement { id: 53, name: "maximumTTL", data_type: DataType::Unsigned8, semantic: None }),
        54u16 => Some(InfoElement { id: 54, name: "fragmentIdentification", data_type: DataType::Unsigned32, semantic: Some(Semantic::Identifier) }),
        55u16 => Some(InfoElement { id: 55, name: "postIpClassOfService", data_type: DataType::Unsigned8, semantic: Some(Semantic::Identifier) }),
        56u16 => Some(InfoElement { id: 56, name: "sourceMacAddress", data_type: DataType::MacAddress, semantic: Some(Semantic::Default) }),
        57u16 => Some(InfoElement { id: 57, name: "postDestinationMacAddress", data_type: DataType::MacAddress, semantic: Some(Semantic::Default) }),
        58u16 => Some(InfoElement { id: 58, name: "vlanId", data_type: DataType::Unsigned16, semantic: Some(Semantic::Identifier) }),
        59u16 => Some(InfoElement { id: 59, name: "postVlanId", data_type: DataType::Unsigned16, semantic: Some(Semantic::Identifier) }),
        60u16 => Some(InfoElement { id: 60, name: "ipVersion", data_type: DataType::Unsigned8, semantic: Some(Semantic::Identifier) }),
        61u16 => Some(InfoElement { id: 61, name: "flowDirection", data_type: DataType::Unsigned8, semantic: Some(Semantic::Identifier) }),
        62u16 => Some(InfoElement { id: 62, name: "ipNextHopIPv6Address", data_type: DataType::Ipv6Address, semantic: Some(Semantic::Default) }),
        63u16 => Some(InfoElement { id: 63, name: "bgpNextHopIPv6Address", data_type: DataType::Ipv6Address, semantic: Some(Semantic::Default) }),
        64u16 => Some(InfoElement { id: 64, name: "ipv6ExtensionHeaders", data_type: DataType::Unsigned32, semantic: Some(Semantic::Flags) }),
        70u16 => Some(InfoElement { id: 70, name: "mplsTopLabelStackSection", data_type: DataType::OctetArray, semantic: Some(Semantic::Default) }),
        71u16 => Some(InfoElement { id: 71, name: "mplsLabelStackSection2", data_type: DataType::OctetArray, semantic: Some(Semantic::Default) }),
        72u16 => Some(InfoElement { id: 72, name: "mplsLabelStackSection3", data_type: DataType::OctetArray, semantic: Some(Semantic::Default) }),
        73u16 => Some(InfoElement { id: 73, name: "mplsLabelStackSection4", data_type: DataType::OctetArray, semantic: Some(Semantic::Default) }),
        74u16 => Some(InfoElement { id: 74, name: "mplsLabelStackSection5", data_type: DataType::OctetArray, semantic: Some(Semantic::Default) }),
        75u16 => Some(InfoElement { id: 75, name: "mplsLabelStackSection6", data_type: DataType::OctetArray, semantic: Some(Semantic::Default) }),
        76u16 => Some(InfoElement { id: 76, name: "mplsLabelStackSection7", data_type: DataType::OctetArray, semantic: Some(Semantic::Default) }),
        77u16 => Some(InfoElement { id: 77, name: "mplsLabelStackSection8", data_type: DataType::OctetArray, semantic: Some(Semantic::Default) }),
        78u16 => Some(InfoElement { id: 78, name: "mplsLabelStackSection9", data_type: DataType::OctetArray, semantic: Some(Semantic::Default) }),
        79u16 => Some(InfoElement { id: 79, name: "mplsLabelStackSection10", data_type: DataType::OctetArray, semantic: Some(Semantic::Default) }),
        80u16 => Some(InfoElement { id: 80, name: "destinationMacAddress", data_type: DataType::MacAddress, semantic: Some(Semantic::Default) }),
        81u16 => Some(InfoElement { id: 81, name: "postSourceMacAddress", data_type: DataType::MacAddress, semantic: Some(Semantic::Default) }),
        82u16 => Some(InfoElement { id: 82, name: "interfaceName", data_type: DataType::String, semantic: Some(Semantic::Default) }),
        83u16 => Some(InfoElement { id: 83, name: "interfaceDescription", data_type: DataType::String, semantic: Some(Semantic::Default) }),
        84u16 => Some(InfoElement { id: 84, name: "samplerName", data_type: DataType::String, semantic: Some(Semantic::Default) }),
        85u16 => Some(InfoElement { id: 85, name: "octetTotalCount", data_type: DataType::Unsigned64, semantic: Some(Semantic::TotalCounter) }),
        86u16 => Some(InfoElement { id: 86, name: "packetTotalCount", data_type: DataType::Unsigned64, semantic: Some(Semantic::TotalCounter) }),
        87u16 => Some(InfoElement { id: 87, name: "flagsAndSamplerId", data_type: DataType::Unsigned32, semantic: Some(Semantic::Identifier) }),
        88u16 => Some(InfoElement { id: 88, name: "fragmentOffset", data_type: DataType::Unsigned16, semantic: None }),
        89u16 => Some(InfoElement { id: 89, name: "forwardingStatus", data_type: DataType::Unsigned32, semantic: Some(Semantic::Identifier) }),
        90u16 => Some(InfoElement { id: 90, name: "mplsVpnRouteDistinguisher", data_type: DataType::OctetArray, semantic: Some(Semantic::Default) }),
        91u16 => Some(InfoElement { id: 91, name: "mplsTopLabelPrefixLength", data_type: DataType::Unsigned8, semantic: None }),
        92u16 => Some(InfoElement { id: 92, name: "srcTrafficIndex", data_type: DataType::Unsigned32, semantic: Some(Semantic::Identifier) }),
        93u16 => Some(InfoElement { id: 93, name: "dstTrafficIndex", data_type: DataType::Unsigned32, semantic: Some(Semantic::Identifier) }),
        94u16 => Some(InfoElement { id: 94, name: "applicationDescription", data_type: DataType::String, semantic: Some(Semantic::Default) }),
        95u16 => Some(InfoElement { id: 95, name: "applicationId", data_type: DataType::OctetArray, semantic: Some(Semantic::Default) }),
        96u16 => Some(InfoElement { id: 96, name: "applicationName", data_type: DataType::String, semantic: Some(Semantic::Default) }),
        98u16 => Some(InfoElement { id: 98, name: "postIpDiffServCodePoint", data_type: DataType::Unsigned8, semantic: Some(Semantic::Identifier) }),
        99u16 => Some(InfoElement { id: 99, name: "multicastReplicationFactor", data_type: DataType::Unsigned32, semantic: Some(Semantic::Quantity) }),
        100u16 => Some(InfoElement { id: 100, name: "className", data_type: DataType::String, semantic: Some(Semantic::Default) }),
        101u16 => Some(InfoElement { id: 101, name: "classificationEngineId", data_type: DataType::Unsigned8, semantic: Some(Semantic::Identifier) }),
        102u16 => Some(InfoElement { id: 102, name: "layer2packetSectionOffset", data_type: DataType::Unsigned16, semantic: Some(Semantic::Quantity) }),
        103u16 => Some(InfoElement { id: 103, name: "layer2packetSectionSize", data_type: DataType::Unsigned16, semantic: Some(Semantic::Quantity) }),
        104u16 => Some(InfoElement { id: 104, name: "layer2packetSectionData", data_type: DataType::OctetArray, semantic: Some(Semantic::Default) }),
        128u16 => Some(InfoElement { id: 128, name: "bgpNextAdjacentAsNumber", data_type: DataType::Unsigned32, semantic: Some(Semantic::Identifier) }),
        129u16 => Some(InfoElement { id: 129, name: "bgpPrevAdjacentAsNumber", data_type: DataType::Unsigned32, semantic: Some(Semantic::Identifier) }),
        130u16 => Some(InfoElement { id: 130, name: "exporterIPv4Address", data_type: DataType::Ipv4Address, semantic: Some(Semantic::Default) }),
        131u16 => Some(InfoElement { id: 131, name: "exporterIPv6Address", data_type: DataType::Ipv6Address, semantic: Some(Semantic::Default) }),
        132u16 => Some(InfoElement { id: 132, name: "droppedOctetDeltaCount", data_type: DataType::Unsigned64, semantic: Some(Semantic::DeltaCounter) }),
        133u16 => Some(InfoElement { id: 133, name: "droppedPacketDeltaCount", data_type: DataType::Unsigned64, semantic: Some(Semantic::DeltaCounter) }),
        134u16 => Some(InfoElement { id: 134, name: "droppedOctetTotalCount", data_type: DataType::Unsigned64, semantic: Some(Semantic::TotalCounter) }),
        135u16 => Some(InfoElement { id: 135, name: "droppedPacketTotalCount", data_type: DataType::Unsigned64, semantic: Some(Semantic::TotalCounter) }),
        136u16 => Some(InfoElement { id: 136, name: "flowEndReason", data_type: DataType::Unsigned8, semantic: Some(Semantic::Identifier) }),
        137u16 => Some(InfoElement { id: 137, name: "commonPropertiesId", data_type: DataType::Unsigned64, semantic: Some(Semantic::Identifier) }),
        138u16 => Some(InfoElement { id: 138, name: "observationPointId", data_type: DataType::Unsigned64, semantic: Some(Semantic::Identifier) }),
        139u16 => Some(InfoElement { id: 139, name: "icmpTypeCodeIPv6", data_type: DataType::Unsigned16, semantic: Some(Semantic::Identifier) }),
        140u16 => Some(InfoElement { id: 140, name: "mplsTopLabelIPv6Address", data_type: DataType::Ipv6Address, semantic: Some(Semantic::Default) }),
        141u16 => Some(InfoElement { id: 141, name: "lineCardId", data_type: DataType::Unsigned32, semantic: Some(Semantic::Identifier) }),
        142u16 => Some(InfoElement { id: 142, name: "portId", data_type: DataType::Unsigned32, semantic: Some(Semantic::Identifier) }),
        143u16 => Some(InfoElement { id: 143, name: "meteringProcessId", data_type: DataType::Unsigned32, semantic: Some(Semantic::Identifier) }),
        144u16 => Some(InfoElement { id: 144, name: "exportingProcessId", data_type: DataType::Unsigned32, semantic: Some(Semantic::Identifier) }),
        145u16 => Some(InfoElement { id: 145, name: "templateId", data_type: DataType::Unsigned16, semantic: Some(Semantic::Identifier) }),
        146u16 => Some(InfoElement { id: 146, name: "wlanChannelId", data_type: DataType::Unsigned8, semantic: Some(Semantic::Identifier) }),
        147u16 => Some(InfoElement { id: 147, name: "wlanSSID", data_type: DataType::String, semantic: Some(Semantic::Default) }),
        148u16 => Some(InfoElement { id: 148, name: "flowId", data_type: DataType::Unsigned64, semantic: Some(Semantic::Identifier) }),
        149u16 => Some(InfoElement { id: 149, name: "observationDomainId", data_type: DataType::Unsigned32, semantic: Some(Semantic::Identifier) }),
        150u16 => Some(InfoElement { id: 150, name: "flowStartSeconds", data_type: DataType::DateTimeSeconds, semantic: Some(Semantic::Default) }),
        151u16 => Some(InfoElement { id: 151, name: "flowEndSeconds", data_type: DataType::DateTimeSeconds, semantic: Some(Semantic::Default) }),
        152u16 => Some(InfoElement { id: 152, name: "flowStartMilliseconds", data_type: DataType::DateTimeMilliseconds, semantic: Some(Semantic::Default) }),
        153u16 => Some(InfoElement { id: 153, name: "flowEndMilliseconds", data_type: DataType::DateTimeMilliseconds, semantic: Some(Semantic::Default) }),
        154u16 => Some(InfoElement { id: 154, name: "flowStartMicroseconds", data_type: DataType::DateTimeMicroseconds, semantic: Some(Semantic::Default) }),
        155u16 => Some(InfoElement { id: 155, name: "flowEndMicroseconds", data_type: DataType::DateTimeMicroseconds, semantic: Some(Semantic::Default) }),
        156u16 => Some(InfoElement { id: 156, name: "flowStartNanoseconds", data_type: DataType::DateTimeNanoseconds, semantic: Some(Semantic::Default) }),
        157u16 => Some(InfoElement { id: 157, name: "flowEndNanoseconds", data_type: DataType::DateTimeNanoseconds, semantic: Some(Semantic::Default) }),
        158u16 => Some(InfoElement { id: 158, name: "flowStartDeltaMicroseconds", data_type: DataType::Unsigned32, semantic: None }),
        159u16 => Some(InfoElement { id: 159, name: "flowEndDeltaMicroseconds", data_type: DataType::Unsigned32, semantic: None }),
        160u16 => Some(InfoElement { id: 160, name: "systemInitTimeMilliseconds", data_type: DataType::DateTimeMilliseconds, semantic: Some(Semantic::Default) }),
        161u16 => Some(InfoElement { id: 161, name: "flowDurationMilliseconds", data_type: DataType::Unsigned32, semantic: None }),
        162u16 => Some(InfoElement { id: 162, name: "flowDurationMicroseconds", data_type: DataType::Unsigned32, semantic: None }),
        163u16 => Some(InfoElement { id: 163, name: "observedFlowTotalCount", data_type: DataType::Unsigned64, semantic: Some(Semantic::TotalCounter) }),
        164u16 => Some(InfoElement { id: 164, name: "ignoredPacketTotalCount", data_type: DataType::Unsigned64, semantic: Some(Semantic::TotalCounter) }),
        165u16 => Some(InfoElement { id: 165, name: "ignoredOctetTotalCount", data_type: DataType::Unsigned64, semantic: Some(Semantic::TotalCounter) }),
        166u16 => Some(InfoElement { id: 166, name: "notSentFlowTotalCount", data_type: DataType::Unsigned64, semantic: Some(Semantic::TotalCounter) }),
        167u16 => Some(InfoElement { id: 167, name: "notSentPacketTotalCount", data_type: DataType::Unsigned64, semantic: Some(Semantic::TotalCounter) }),
        168u16 => Some(InfoElement { id: 168, name: "notSentOctetTotalCount", data_type: DataType::Unsigned64, semantic: Some(Semantic::TotalCounter) }),
        169u16 => Some(InfoElement { id: 169, name: "destinationIPv6Prefix", data_type: DataType::Ipv6Address, semantic: Some(Semantic::Default) }),
        170u16 => Some(InfoElement { id: 170, name: "sourceIPv6Prefix", data_type: DataType::Ipv6Address, semantic: Some(Semantic::Default) }),
        171u16 => Some(InfoElement { id: 171, name: "postOctetTotalCount", data_type: DataType::Unsigned64, semantic: Some(Semantic::TotalCounter) }),
        172u16 => Some(InfoElement { id: 172, name: "postPacketTotalCount", data_type: DataType::Unsigned64, semantic: Some(Semantic::TotalCounter) }),
        173u16 => Some(InfoElement { id: 173, name: "flowKeyIndicator", data_type: DataType::Unsigned64, semantic: Some(Semantic::Flags) }),
        174u16 => Some(InfoElement { id: 174, name: "postMCastPacketTotalCount", data_type: DataType::Unsigned64, semantic: Some(Semantic::TotalCounter) }),
        175u16 => Some(InfoElement { id: 175, name: "postMCastOctetTotalCount", data_type: DataType::Unsigned64, semantic: Some(Semantic::TotalCounter) }),
        176u16 => Some(InfoElement { id: 176, name: "icmpTypeIPv4", data_type: DataType::Unsigned8, semantic: Some(Semantic::Identifier) }),
        177u16 => Some(InfoElement { id: 177, name: "icmpCodeIPv4", data_type: DataType::Unsigned8, semantic: Some(Semantic::Identifier) }),
        178u16 => Some(InfoElement { id: 178, name: "icmpTypeIPv6", data_type: DataType::Unsigned8, semantic: Some(Semantic::Identifier) }),
        179u16 => Some(InfoElement { id: 179, name: "icmpCodeIPv6", data_type: DataType::Unsigned8, semantic: Some(Semantic::Identifier) }),
        180u16 => Some(InfoElement { id: 180, name: "udpSourcePort", data_type: DataType::Unsigned16, semantic: Some(Semantic::Identifier) }),
        181u16 => Some(InfoElement { id: 181, name: "udpDestinationPort", data_type: DataType::Unsigned16, semantic: Some(Semantic::Identifier) }),
        182u16 => Some(InfoElement { id: 182, name: "tcpSourcePort", data_type: DataType::Unsigned16, semantic: Some(Semantic::Identifier) }),
        183u16 => Some(InfoElement { id: 183, name: "tcpDestinationPort", data_type: DataType::Unsigned16, semantic: Some(Semantic::Identifier) }),
        184u16 => Some(InfoElement { id: 184, name: "tcpSequenceNumber", data_type: DataType::Unsigned32, semantic: None }),
        185u16 => Some(InfoElement { id: 185, name: "tcpAcknowledgementNumber", data_type: DataType::Unsigned32, semantic: None }),
        186u16 => Some(InfoElement { id: 186, name: "tcpWindowSize", data_type: DataType::Unsigned16, semantic: None }),
        187u16 => Some(InfoElement { id: 187, name: "tcpUrgentPointer", data_type: DataType::Unsigned16, semantic: None }),
        188u16 => Some(InfoElement { id: 188, name: "tcpHeaderLength", data_type: DataType::Unsigned8, semantic: None }),
        189u16 => Some(InfoElement { id: 189, name: "ipHeaderLength", data_type: DataType::Unsigned8, semantic: None }),
        190u16 => Some(InfoElement { id: 190, name: "totalLengthIPv4", data_type: DataType::Unsigned16, semantic: None }),
        191u16 => Some(InfoElement { id: 191, name: "payloadLengthIPv6", data_type: DataType::Unsigned16, semantic: None }),
        192u16 => Some(InfoElement { id: 192, name: "ipTTL", data_type: DataType::Unsigned8, semantic: None }),
        193u16 => Some(InfoElement { id: 193, name: "nextHeaderIPv6", data_type: DataType::Unsigned8, semantic: None }),
        194u16 => Some(InfoElement { id: 194, name: "mplsPayloadLength", data_type: DataType::Unsigned32, semantic: None }),
        195u16 => Some(InfoElement { id: 195, name: "ipDiffServCodePoint", data_type: DataType::Unsigned8, semantic: Some(Semantic::Identifier) }),
        196u16 => Some(InfoElement { id: 196, name: "ipPrecedence", data_type: DataType::Unsigned8, semantic: Some(Semantic::Identifier) }),
        197u16 => Some(InfoElement { id: 197, name: "fragmentFlags", data_type: DataType::Unsigned8, semantic: Some(Semantic::Flags) }),
        198u16 => Some(InfoElement { id: 198, name: "octetDeltaSumOfSquares", data_type: DataType::Unsigned64, semantic: None }),
        199u16 => Some(InfoElement { id: 199, name: "octetTotalSumOfSquares", data_type: DataType::Unsigned64, semantic: None }),
        200u16 => Some(InfoElement { id: 200, name: "mplsTopLabelTTL", data_type: DataType::Unsigned8, semantic: None }),
        201u16 => Some(InfoElement { id: 201, name: "mplsLabelStackLength", data_type: DataType::Unsigned32, semantic: None }),
        202u16 => Some(InfoElement { id: 202, name: "mplsLabelStackDepth", data_type: DataType::Unsigned32, semantic: None }),
        203u16 => Some(InfoElement { id: 203, name: "mplsTopLabelExp", data_type: DataType::Unsigned8, semantic: Some(Semantic::Flags) }),
        204u16 => Some(InfoElement { id: 204, name: "ipPayloadLength", data_type: DataType::Unsigned32, semantic: None }),
        205u16 => Some(InfoElement { id: 205, name: "udpMessageLength", data_type: DataType::Unsigned16, semantic: None }),
        206u16 => Some(InfoElement { id: 206, name: "isMulticast", data_type: DataType::Unsigned8, semantic: Some(Semantic::Flags) }),
        207u16 => Some(InfoElement { id: 207, name: "ipv4IHL", data_type: DataType::Unsigned8, semantic: None }),
        208u16 => Some(InfoElement { id: 208, name: "ipv4Options", data_type: DataType::Unsigned32, semantic: Some(Semantic::Flags) }),
        209u16 => Some(InfoElement { id: 209, name: "tcpOptions", data_type: DataType::Unsigned64, semantic: Some(Semantic::Flags) }),
        210u16 => Some(InfoElement { id: 210, name: "paddingOctets", data_type: DataType::OctetArray, semantic: Some(Semantic::Default) }),
        211u16 => Some(InfoElement { id: 211, name: "collectorIPv4Address", data_type: DataType::Ipv4Address, semantic: Some(Semantic::Default) }),
        212u16 => Some(InfoElement { id: 212, name: "collectorIPv6Address", data_type: DataType::Ipv6Address, semantic: Some(Semantic::Default) }),
        213u16 => Some(InfoElement { id: 213, name: "exportInterface", data_type: DataType::Unsigned32, semantic: Some(Semantic::Identifier) }),
        214u16 => Some(InfoElement { id: 214, name: "exportProtocolVersion", data_type: DataType::Unsigned8, semantic: Some(Semantic::Identifier) }),
        215u16 => Some(InfoElement { id: 215, name: "exportTransportProtocol", data_type: DataType::Unsigned8, semantic: Some(Semantic::Identifier) }),
        216u16 => Some(InfoElement { id: 216, name: "collectorTransportPort", data_type: DataType::Unsigned16, semantic: Some(Semantic::Identifier) }),
        217u16 => Some(InfoElement { id: 217, name: "exporterTransportPort", data_type: DataType::Unsigned16, semantic: Some(Semantic::Identifier) }),
        218u16 => Some(InfoElement { id: 218, name: "tcpSynTotalCount", data_type: DataType::Unsigned64, semantic: Some(Semantic::TotalCounter) }),
        219u16 => Some(InfoElement { id: 219, name: "tcpFinTotalCount", data_type: DataType::Unsigned64, semantic: Some(Semantic::TotalCounter) }),
        220u16 => Some(InfoElement { id: 220, name: "tcpRstTotalCount", data_type: DataType::Unsigned64, semantic: Some(Semantic::TotalCounter) }),
        221u16 => Some(InfoElement { id: 221, name: "tcpPshTotalCount", data_type: DataType::Unsigned64, semantic: Some(Semantic::TotalCounter) }),
        222u16 => Some(InfoElement { id: 222, name: "tcpAckTotalCount", data_type: DataType::Unsigned64, semantic: Some(Semantic::TotalCounter) }),
        223u16 => Some(InfoElement { id: 223, name: "tcpUrgTotalCount", data_type: DataType::Unsigned64, semantic: Some(Semantic::TotalCounter) }),
        224u16 => Some(InfoElement { id: 224, name: "ipTotalLength", data_type: DataType::Unsigned64, semantic: None }),
        225u16 => Some(InfoElement { id: 225, name: "postNATSourceIPv4Address", data_type: DataType::Ipv4Address, semantic: Some(Semantic::Default) }),
        226u16 => Some(InfoElement { id: 226, name: "postNATDestinationIPv4Address", data_type: DataType::Ipv4Address, semantic: Some(Semantic::Default) }),
        227u16 => Some(InfoElement { id: 227, name: "postNAPTSourceTransportPort", data_type: DataType::Unsigned16, semantic: Some(Semantic::Identifier) }),
        228u16 => Some(InfoElement { id: 228, name: "postNAPTDestinationTransportPort", data_type: DataType::Unsigned16, semantic: Some(Semantic::Identifier) }),
        229u16 => Some(InfoElement { id: 229, name: "natOriginatingAddressRealm", data_type: DataType::Unsigned8, semantic: Some(Semantic::Flags) }),
        230u16 => Some(InfoElement { id: 230, name: "natEvent", data_type: DataType::Unsigned8, semantic: Some(Semantic::Identifier) }),
        231u16 => Some(InfoElement { id: 231, name: "initiatorOctets", data_type: DataType::Unsigned64, semantic: Some(Semantic::DeltaCounter) }),
        232u16 => Some(InfoElement { id: 232, name: "responderOctets", data_type: DataType::Unsigned64, semantic: Some(Semantic::DeltaCounter) }),
        233u16 => Some(InfoElement { id: 233, name: "firewallEvent", data_type: DataType::Unsigned8, semantic: Some(Semantic::Identifier) }),
        234u16 => Some(InfoElement { id: 234, name: "ingressVRFID", data_type: DataType::Unsigned32, semantic: Some(Semantic::Identifier) }),
        235u16 => Some(InfoElement { id: 235, name: "egressVRFID", data_type: DataType::Unsigned32, semantic: Some(Semantic::Identifier) }),
        236u16 => Some(InfoElement { id: 236, name: "VRFname", data_type: DataType::String, semantic: Some(Semantic::Default) }),
        _ => None,
    }
}

/// The IDs that the registry describes.
pub open spec fn is_registered(id: u16) -> bool {
    1 <= id <= 64 || 70 <= id <= 96 || 98 <= id <= 104 || 128 <= id <= 236
}

/// The IDs that the registry describes, as integers.
pub open spec fn registered_ids() -> Set<int> {
    Set::new(|i: int| 0 <= i <= 65535 && registry_entry(i as u16) is Some)
}

/// The registry describes exactly the IDs of `is_registered`.
proof fn lemma_registry_domain(id: u16)
    ensures
        registry_entry(id) is Some <==> is_registered(id),
{
}

/// The registry describes `REGISTRY_LEN` elements.
pub proof fn lemma_registry_count()
    ensures
        registered_ids().finite(),
        registered_ids().len() == REGISTRY_LEN,
{
    let a = set_int_range(1, 65);
    let b = set_int_range(70, 97);
    let c = set_int_range(98, 105);
    let d = set_int_range(128, 237);
    assert forall|i: int| #[trigger] registered_ids().contains(i) == (a + b + c + d).contains(i) by {
        if 0 <= i <= 65535 {
            lemma_registry_domain(i as u16);
        }
    }
    assert(registered_ids() =~= a + b + c + d);
    lemma_int_range(1, 65);
    lemma_int_range(70, 97);
    lemma_int_range(98, 105);
    lemma_int_range(128, 237);
    assert(a.disjoint(b));
    lemma_set_disjoint_lens(a, b);
    assert((a + b).disjoint(c));
    lemma_set_disjoint_lens(a + b, c);
    assert((a + b + c).disjoint(d));
    lemma_set_disjoint_lens(a + b + c, d);
}

/// Number of elements that the registry describes.
pub const REGISTRY_LEN: usize = 207;

/// Look up the IANA description of an Information Element by numeric ID.
///
/// Returns `None` for IDs that are unassigned, reserved, or that use an
/// abstract data type this crate does not recognise.
pub fn lookup(id: u16) -> (r: Option<InfoElement>)
    ensures
        r == registry_entry(id),
        r is Some <==> is_registered(id),
        r matches Some(e) ==> e.id == id,
{
    match id {
        1u16 => Some(InfoElement { id: 1, name: "octetDeltaCount", data_type: DataType::Unsigned64, semantic: Some(Semantic::DeltaCounter) }),
        2u16 => Some(InfoElement { id: 2, name: "packetDeltaCount", data_type: DataType::Unsigned64, semantic: Some(Semantic::DeltaCounter) }),
        3u16 => Some(InfoElement { id: 3, name: "deltaFlowCount", data_type: DataType::Unsigned64, semantic: Some(Semantic::DeltaCounter) }),
        4u16 => Some(InfoElement { id: 4, name: "protocolIdentifier", data_type: DataType::Unsigned8, semantic: Some(Semantic::Identifier) }),
        5u16 => Some(InfoElement { id: 5, name: "ipClassOfService", data_type: DataType::Unsigned8, semantic: Some(Semantic::Identifier) }),
        6u16 => Some(InfoElement { id: 6, name: "tcpControlBits", data_type: DataType::Unsigned16, semantic: Some(Semantic::Flags) }),
        7u16 => Some(InfoElement { id: 7, name: "sourceTransportPort", data_type: DataType::Unsigned16, semantic: Some(Semantic::Identifier) }),
        8u16 => Some(InfoElement { id: 8, name: "sourceIPv4Address", data_type: DataType::Ipv4Address, semantic: Some(Semantic::Default) }),
        9u16 => Some(InfoElement { id: 9, name: "sourceIPv4PrefixLength", data_type: DataType::Unsigned8, semantic: None }),
        10u16 => Some(InfoElement { id: 10, name: "ingressInterface", data_type: DataType::Unsigned32, semantic: Some(Semantic::Identifier) }),
        11u16 => Some(InfoElement { id: 11, name: "destinationTransportPort", data_type: DataType::Unsigned16, semantic: Some(Semantic::Identifier) }),
        12u16 => Some(InfoElement { id: 12, name: "destinationIPv4Address", data_type: DataType::Ipv4Address, semantic: Some(Semantic::Default) }),
        13u16 => Some(InfoElement { id: 13, name: "destinationIPv4PrefixLength", data_type: DataType::Unsigned8, semantic: None }),
        14u16 => Some(InfoElement { id: 14, name: "egressInterface", data_type: DataType::Unsigned32, semantic: Some(Semantic::Identifier) }),
        15u16 => Some(InfoElement { id: 15, name: "ipNextHopIPv4Address", data_type: DataType::Ipv4Address, semantic: Some(Semantic::Default) }),
        16u16 => Some(InfoElement { id: 16, name: "bgpSourceAsNumber", data_type: DataType::Unsigned32, semantic: Some(Semantic::Identifier) }),
        17u16 => Some(InfoElement { id: 17, name: "bgpDestinationAsNumber", data_type: DataType::Unsigned32, semantic: Some(Semantic::Identifier) }),
        18u16 => Some(InfoElement { id: 18, name: "bgpNextHopIPv4Address", data_type: DataType::Ipv4Address, semantic: Some(Semantic::Default) }),
        19u16 => Some(InfoElement { id: 19, name: "postMCastPacketDeltaCount", data_type: DataType::Unsigned64, semantic: Some(Semantic::DeltaCounter) }),
        20u16 => Some(InfoElement { id: 20, name: "postMCastOctetDeltaCount", data_type: DataType::Unsigned64, semantic: Some(Semantic::DeltaCounter) }),
        21u16 => Some(InfoElement { id: 21, name: "flowEndSysUpTime", data_type: DataType::Unsigned32, semantic: None }),
        22u16 => Some(InfoElement { id: 22, name: "flowStartSysUpTime", data_type: DataType::Unsigned32, semantic: None }),
        23u16 => Some(InfoElement { id: 23, name: "postOctetDeltaCount", data_type: DataType::Unsigned64, semantic: Some(Semantic::DeltaCounter) }),
        24u16 => Some(InfoElement { id: 24, name: "postPacketDeltaCount", data_type: DataType::Unsigned64, semantic: Some(Semantic::DeltaCounter) }),
        25u16 => Some(InfoElement { id: 25, name: "minimumIpTotalLength", data_type: DataType::Unsigned64, semantic: None }),
        26u16 => Some(InfoElement { id: 26, name: "maximumIpTotalLength", data_type: DataType::Unsigned64, semantic: None }),
        27u16 => Some(InfoElement { id: 27, name: "sourceIPv6Address", data_type: DataType::Ipv6Address, semantic: Some(Semantic::Default) }),
        28u16 => Some(InfoElement { id: 28, name: "destinationIPv6Address", data_type: DataType::Ipv6Address, semantic: Some(Semantic::Default) }),
        29u16 => Some(InfoElement { id: 29, name: "sourceIPv6PrefixLength", data_type: DataType::Unsigned8, semantic: None }),
        30u16 => Some(InfoElement { id: 30, name: "destinationIPv6PrefixLength", data_type: DataType::Unsigned8, semantic: None }),
        31u16 => Some(InfoElement { id: 31, name: "flowLabelIPv6", data_type: DataType::Unsigned32, semantic: Some(Semantic::Identifier) }),
        32u16 => Some(InfoElement { id: 32, name: "icmpTypeCodeIPv4", data_type: DataType::Unsigned16, semantic: Some(Semantic::Identifier) }),
        33u16 => Some(InfoElement { id: 33, name: "igmpType", data_type: DataType::Unsigned8, semantic: Some(Semantic::Identifier) }),
        34u16 => Some(InfoElement { id: 34, name: "samplingInterval", data_type: DataType::Unsigned32, semantic: Some(Semantic::Quantity) }),
        35u16 => Some(InfoElement { id: 35, name: "samplingAlgorithm", data_type: DataType::Unsigned8, semantic: Some(Semantic::Identifier) }),
        36u16 => Some(InfoElement { id: 36, name: "flowActiveTimeout", data_type: DataType::Unsigned16, semantic: None }),
        37u16 => Some(InfoElement { id: 37, name: "flowIdleTimeout", data_type: DataType::Unsigned16, semantic: None }),
        38u16 => Some(InfoElement { id: 38, name: "engineType", data_type: DataType::Unsigned8, semantic: Some(Semantic::Identifier) }),
        39u16 => Some(InfoElement { id: 39, name: "engineId", data_type: DataType::Unsigned8, semantic: Some(Semantic::Identifier) }),
        40u16 => Some(InfoElement { id: 40, name: "exportedOctetTotalCount", data_type: DataType::Unsigned64, semantic: Some(Semantic::TotalCounter) }),
        41u16 => Some(InfoElement { id: 41, name: "exportedMessageTotalCount", data_type: DataType::Unsigned64, semantic: Some(Semantic::TotalCounter) }),
        42u16 => Some(InfoElement { id: 42, name: "exportedFlowRecordTotalCount", data_type: DataType::Unsigned64, semantic: Some(Semantic::TotalCounter) }),
        43u16 => Some(InfoElement { id: 43, name: "ipv4RouterSc", data_type: DataType::Ipv4Address, semantic: Some(Semantic::Default) }),
        44u16 => Some(InfoElement { id: 44, name: "sourceIPv4Prefix", data_type: DataType::Ipv4Address, semantic: Some(Semantic::Default) }),
        45u16 => Some(InfoElement { id: 45, name: "destinationIPv4Prefix", data_type: DataType::Ipv4Address, semantic: Some(Semantic::Default) }),
        46u16 => Some(InfoElement { id: 46, name: "mplsTopLabelType", data_type: DataType::Unsigned8, semantic: Some(Semantic::Identifier) }),
        47u16 => Some(InfoElement { id: 47, name: "mplsTopLabelIPv4Address", data_type: DataType::Ipv4Address, semantic: Some(Semantic::Default) }),
        48u16 => Some(InfoElement { id: 48, name: "samplerId", data_type: DataType::Unsigned8, semantic: Some(Semantic::Identifier) }),
        49u16 => Some(InfoElement { id: 49, name: "samplerMode", data_type: DataType::Unsigned8, semantic: Some(Semantic::Identifier) }),
        50u16 => Some(InfoElement { id: 50, name: "samplerRandomInterval", data_type: DataType::Unsigned32, semantic: Some(Semantic::Quantity) }),
        51u16 => Some(InfoElement { id: 51, name: "classId", data_type: DataType::Unsigned8, semantic: Some(Semantic::Identifier) }),
        52u16 => Some(InfoElement { id: 52, name: "minimumTTL", data_type: DataType::Unsigned8, semantic: None }),
        53u16 => Some(InfoElement { id: 53, name: "maximumTTL", data_type: DataType::Unsigned8, semantic: None }),
        54u16 => Some(InfoElement { id: 54, name: "fragmentIdentification", data_type: DataType::Unsigned32, semantic: Some(Semantic::Identifier) }),
        55u16 => Some(InfoElement { id: 55, name: "postIpClassOfService", data_type: DataType::Unsigned8, semantic: Some(Semantic::Identifier) }),
        56u16 => Some(InfoElement { id: 56, name: "sourceMacAddress", data_type: DataType::MacAddress, semantic: Some(Semantic::Default) }),
        57u16 => Some(InfoElement { id: 57, name: "postDestinationMacAddress", data_type: DataType::MacAddress, semantic: Some(Semantic::Default) }),
        58u16 => Some(InfoElement { id: 58, name: "vlanId", data_type: DataType::Unsigned16, semantic: Some(Semantic::Identifier) }),
        59u16 => Some(InfoElement { id: 59, name: "postVlanId", data_type: DataType::Unsigned16, semantic: Some(Semantic::Identifier) }),
        60u16 => Some(InfoElement { id: 60, name: "ipVersion", data_type: DataType::Unsigned8, semantic: Some(Semantic::Identifier) }),
        61u16 => Some(InfoElement { id: 61, name: "flowDirection", data_type: DataType::Unsigned8, semantic: Some(Semantic::Identifier) }),
        62u16 => Some(InfoElement { id: 62, name: "ipNextHopIPv6Address", data_type: DataType::Ipv6Address, semantic: Some(Semantic::Default) }),
        63u16 => Some(InfoElement { id: 63, name: "bgpNextHopIPv6Address", data_type: DataType::Ipv6Address, semantic: Some(Semantic::Default) }),
        64u16 => Some(InfoElement { id: 64, name: "ipv6ExtensionHeaders", data_type: DataType::Unsigned32, semantic: Some(Semantic::Flags) }),
        70u16 => Some(InfoElement { id: 70, name: "mplsTopLabelStackSection", data_type: DataType::OctetArray, semantic: Some(Semantic::Default) }),
        71u16 => Some(InfoElement { id: 71, name: "mplsLabelStackSection2", data_type: DataType::OctetArray, semantic: Some(Semantic::Default) }),
        72u16 => Some(InfoElement { id: 72, name: "mplsLabelStackSection3", data_type: DataType::OctetArray, semantic: Some(Semantic::Default) }),
        73u16 => Some(InfoElement { id: 73, name: "mplsLabelStackSection4", data_type: DataType::OctetArray, semantic: Some(Semantic::Default) }),
        74u16 => Some(InfoElement { id: 74, name: "mplsLabelStackSection5", data_type: DataType::OctetArray, semantic: Some(Semantic::Default) }),
        75u16 => Some(InfoElement { id: 75, name: "mplsLabelStackSection6", data_type: DataType::OctetArray, semantic: Some(Semantic::Default) }),
        76u16 => Some(InfoElement { id: 76, name: "mplsLabelStackSection7", data_type: DataType::OctetArray, semantic: Some(Semantic::Default) }),
        77u16 => Some(InfoElement { id: 77, name: "mplsLabelStackSection8", data_type: DataType::OctetArray, semantic: Some(Semantic::Default) }),
        78u16 => Some(InfoElement { id: 78, name: "mplsLabelStackSection9", data_type: DataType::OctetArray, semantic: Some(Semantic::Default) }),
        79u16 => Some(InfoElement { id: 79, name: "mplsLabelStackSection10", data_type: DataType::OctetArray, semantic: Some(Semantic::Default) }),
        80u16 => Some(InfoElement { id: 80, name: "destinationMacAddress", data_type: DataType::MacAddress, semantic: Some(Semantic::Default) }),
        81u16 => Some(InfoElement { id: 81, name: "postSourceMacAddress", data_type: DataType::MacAddress, semantic: Some(Semantic::Default) }),
        82u16 => Some(InfoElement { id: 82, name: "interfaceName", data_type: DataType::String, semantic: Some(Semantic::Default) }),
        83u16 => Some(InfoElement { id: 83, name: "interfaceDescription", data_type: DataType::String, semantic: Some(Semantic::Default) }),
        84u16 => Some(InfoElement { id: 84, name: "samplerName", data_type: DataType::String, semantic: Some(Semantic::Default) }),
        85u16 => Some(InfoElement { id: 85, name: "octetTotalCount", data_type: DataType::Unsigned64, semantic: Some(Semantic::TotalCounter) }),
        86u16 => Some(InfoElement { id: 86, name: "packetTotalCount", data_type: DataType::Unsigned64, semantic: Some(Semantic::TotalCounter) }),
        87u16 => Some(InfoElement { id: 87, name: "flagsAndSamplerId", data_type: DataType::Unsigned32, semantic: Some(Semantic::Identifier) }),
        88u16 => Some(InfoElement { id: 88, name: "fragmentOffset", data_type: DataType::Unsigned16, semantic: None }),
        89u16 => Some(InfoElement { id: 89, name: "forwardingStatus", data_type: DataType::Unsigned32, semantic: Some(Semantic::Identifier) }),
        90u16 => Some(InfoElement { id: 90, name: "mplsVpnRouteDistinguisher", data_type: DataType::OctetArray, semantic: Some(Semantic::Default) }),
        91u16 => Some(InfoElement { id: 91, name: "mplsTopLabelPrefixLength", data_type: DataType::Unsigned8, semantic: None }),
        92u16 => Some(InfoElement { id: 92, name: "srcTrafficIndex", data_type: DataType::Unsigned32, semantic: Some(Semantic::Identifier) }),
        93u16 => Some(InfoElement { id: 93, name: "dstTrafficIndex", data_type: DataType::Unsigned32, semantic: Some(Semantic::Identifier) }),
        94u16 => Some(InfoElement { id: 94, name: "applicationDescription", data_type: DataType::String, semantic: Some(Semantic::Default) }),
        95u16 => Some(InfoElement { id: 95, name: "applicationId", data_type: DataType::OctetArray, semantic: Some(Semantic::Default) }),
        96u16 => Some(InfoElement { id: 96, name: "applicationName", data_type: DataType::String, semantic: Some(Semantic::Default) }),
        98u16 => Some(InfoElement { id: 98, name: "postIpDiffServCodePoint", data_type: DataType::Unsigned8, semantic: Some(Semantic::Identifier) }),
        99u16 => Some(InfoElement { id: 99, name: "multicastReplicationFactor", data_type: DataType::Unsigned32, semantic: Some(Semantic::Quantity) }),
        100u16 => Some(InfoElement { id: 100, name: "className", data_type: DataType::String, semantic: Some(Semantic::Default) }),
        101u16 => Some(InfoElement { id: 101, name: "classificationEngineId", data_type: DataType::Unsigned8, semantic: Some(Semantic::Identifier) }),
        102u16 => Some(InfoElement { id: 102, name: "layer2packetSectionOffset", data_type: DataType::Unsigned16, semantic: Some(Semantic::Quantity) }),
        103u16 => Some(InfoElement { id: 103, name: "layer2packetSectionSize", data_type: DataType::Unsigned16, semantic: Some(Semantic::Quantity) }),
        104u16 => Some(InfoElement { id: 104, name: "layer2packetSectionData", data_type: DataType::OctetArray, semantic: Some(Semantic::Default) }),
        128u16 => Some(InfoElement { id: 128, name: "bgpNextAdjacentAsNumber", data_type: DataType::Unsigned32, semantic: Some(Semantic::Identifier) }),
        129u16 => Some(InfoElement { id: 129, name: "bgpPrevAdjacentAsNumber", data_type: DataType::Unsigned32, semantic: Some(Semantic::Identifier) }),
        130u16 => Some(InfoElement { id: 130, name: "exporterIPv4Address", data_type: DataType::Ipv4Address, semantic: Some(Semantic::Default) }),
        131u16 => Some(InfoElement { id: 131, name: "exporterIPv6Address", data_type: DataType::Ipv6Address, semantic: Some(Semantic::Default) }),
        132u16 => Some(InfoElement { id: 132, name: "droppedOctetDeltaCount", data_type: DataType::Unsigned64, semantic: Some(Semantic::DeltaCounter) }),
        133u16 => Some(InfoElement { id: 133, name: "droppedPacketDeltaCount", data_type: DataType::Unsigned64, semantic: Some(Semantic::DeltaCounter) }),
        134u16 => Some(InfoElement { id: 134, name: "droppedOctetTotalCount", data_type: DataType::Unsigned64, semantic: Some(Semantic::TotalCounter) }),
        135u16 => Some(InfoElement { id: 135, name: "droppedPacketTotalCount", data_type: DataType::Unsigned64, semantic: Some(Semantic::TotalCounter) }),
        136u16 => Some(InfoElement { id: 136, name: "flowEndReason", data_type: DataType::Unsigned8, semantic: Some(Semantic::Identifier) }),
        137u16 => Some(InfoElement { id: 137, name: "commonPropertiesId", data_type: DataType::Unsigned64, semantic: Some(Semantic::Identifier) }),
        138u16 => Some(InfoElement { id: 138, name: "observationPointId", data_type: DataType::Unsigned64, semantic: Some(Semantic::Identifier) }),
        139u16 => Some(InfoElement { id: 139, name: "icmpTypeCodeIPv6", data_type: DataType::Unsigned16, semantic: Some(Semantic::Identifier) }),
        140u16 => Some(InfoElement { id: 140, name: "mplsTopLabelIPv6Address", data_type: DataType::Ipv6Address, semantic: Some(Semantic::Default) }),
        141u16 => Some(InfoElement { id: 141, name: "lineCardId", data_type: DataType::Unsigned32, semantic: Some(Semantic::Identifier) }),
        142u16 => Some(InfoElement { id: 142, name: "portId", data_type: DataType::Unsigned32, semantic: Some(Semantic::Identifier) }),
        143u16 => Some(InfoElement { id: 143, name: "meteringProcessId", data_type: DataType::Unsigned32, semantic: Some(Semantic::Identifier) }),
        144u16 => Some(InfoElement { id: 144, name: "exportingProcessId", data_type: DataType::Unsigned32, semantic: Some(Semantic::Identifier) }),
        145u16 => Some(InfoElement { id: 145, name: "templateId", data_type: DataType::Unsigned16, semantic: Some(Semantic::Identifier) }),
        146u16 => Some(InfoElement { id: 146, name: "wlanChannelId", data_type: DataType::Unsigned8, semantic: Some(Semantic::Identifier) }),
        147u16 => Some(InfoElement { id: 147, name: "wlanSSID", data_type: DataType::String, semantic: Some(Semantic::Default) }),
        148u16 => Some(InfoElement { id: 148, name: "flowId", data_type: DataType::Unsigned64, semantic: Some(Semantic::Identifier) }),
        149u16 => Some(InfoElement { id: 149, name: "observationDomainId", data_type: DataType::Unsigned32, semantic: Some(Semantic::Identifier) }),
        150u16 => Some(InfoElement { id: 150, name: "flowStartSeconds", data_type: DataType::DateTimeSeconds, semantic: Some(Semantic::Default) }),
        151u16 => Some(InfoElement { id: 151, name: "flowEndSeconds", data_type: DataType::DateTimeSeconds, semantic: Some(Semantic::Default) }),
        152u16 => Some(InfoElement { id: 152, name: "flowStartMilliseconds", data_type: DataType::DateTimeMilliseconds, semantic: Some(Semantic::Default) }),
        153u16 => Some(InfoElement { id: 153, name: "flowEndMilliseconds", data_type: DataType::DateTimeMilliseconds, semantic: Some(Semantic::Default) }),
        154u16 => Some(InfoElement { id: 154, name: "flowStartMicroseconds", data_type: DataType::DateTimeMicroseconds, semantic: Some(Semantic::Default) }),
        155u16 => Some(InfoElement { id: 155, name: "flowEndMicroseconds", data_type: DataType::DateTimeMicroseconds, semantic: Some(Semantic::Default) }),
        156u16 => Some(InfoElement { id: 156, name: "flowStartNanoseconds", data_type: DataType::DateTimeNanoseconds, semantic: Some(Semantic::Default) }),
        157u16 => Some(InfoElement { id: 157, name: "flowEndNanoseconds", data_type: DataType::DateTimeNanoseconds, semantic: Some(Semantic::Default) }),
        158u16 => Some(InfoElement { id: 158, name: "flowStartDeltaMicroseconds", data_type: DataType::Unsigned32, semantic: None }),
        159u16 => Some(InfoElement { id: 159, name: "flowEndDeltaMicroseconds", data_type: DataType::Unsigned32, semantic: None }),
        160u16 => Some(InfoElement { id: 160, name: "systemInitTimeMilliseconds", data_type: DataType::DateTimeMilliseconds, semantic: Some(Semantic::Default) }),
        161u16 => Some(InfoElement { id: 161, name: "flowDurationMilliseconds", data_type: DataType::Unsigned32, semantic: None }),
        162u16 => Some(InfoElement { id: 162, name: "flowDurationMicroseconds", data_type: DataType::Unsigned32, semantic: None }),
        163u16 => Some(InfoElement { id: 163, name: "observedFlowTotalCount", data_type: DataType::Unsigned64, semantic: Some(Semantic::TotalCounter) }),
        164u16 => Some(InfoElement { id: 164, name: "ignoredPacketTotalCount", data_type: DataType::Unsigned64, semantic: Some(Semantic::TotalCounter) }),
        165u16 => Some(InfoElement { id: 165, name: "ignoredOctetTotalCount", data_type: DataType::Unsigned64, semantic: Some(Semantic::TotalCounter) }),
        166u16 => Some(InfoElement { id: 166, name: "notSentFlowTotalCount", data_type: DataType::Unsigned64, semantic: Some(Semantic::TotalCounter) }),
        167u16 => Some(InfoElement { id: 167, name: "notSentPacketTotalCount", data_type: DataType::Unsigned64, semantic: Some(Semantic::TotalCounter) }),
        168u16 => Some(InfoElement { id: 168, name: "notSentOctetTotalCount", data_type: DataType::Unsigned64, semantic: Some(Semantic::TotalCounter) }),
        169u16 => Some(InfoElement { id: 169, name: "destinationIPv6Prefix", data_type: DataType::Ipv6Address, semantic: Some(Semantic::Default) }),
        170u16 => Some(InfoElement { id: 170, name: "sourceIPv6Prefix", data_type: DataType::Ipv6Address, semantic: Some(Semantic::Default) }),
        171u16 => Some(InfoElement { id: 171, name: "postOctetTotalCount", data_type: DataType::Unsigned64, semantic: Some(Semantic::TotalCounter) }),
        172u16 => Some(InfoElement { id: 172, name: "postPacketTotalCount", data_type: DataType::Unsigned64, semantic: Some(Semantic::TotalCounter) }),
        173u16 => Some(InfoElement { id: 173, name: "flowKeyIndicator", data_type: DataType::Unsigned64, semantic: Some(Semantic::Flags) }),
        174u16 => Some(InfoElement { id: 174, name: "postMCastPacketTotalCount", data_type: DataType::Unsigned64, semantic: Some(Semantic::TotalCounter) }),
        175u16 => Some(InfoElement { id: 175, name: "postMCastOctetTotalCount", data_type: DataType::Unsigned64, semantic: Some(Semantic::TotalCounter) }),
        176u16 => Some(InfoElement { id: 176, name: "icmpTypeIPv4", data_type: DataType::Unsigned8, semantic: Some(Semantic::Identifier) }),
        177u16 => Some(InfoElement { id: 177, name: "icmpCodeIPv4", data_type: DataType::Unsigned8, semantic: Some(Semantic::Identifier) }),
        178u16 => Some(InfoElement { id: 178, name: "icmpTypeIPv6", data_type: DataType::Unsigned8, semantic: Some(Semantic::Identifier) }),
        179u16 => Some(InfoElement { id: 179, name: "icmpCodeIPv6", data_type: DataType::Unsigned8, semantic: Some(Semantic::Identifier) }),
        180u16 => Some(InfoElement { id: 180, name: "udpSourcePort", data_type: DataType::Unsigned16, semantic: Some(Semantic::Identifier) }),
        181u16 => Some(InfoElement { id: 181, name: "udpDestinationPort", data_type: DataType::Unsigned16, semantic: Some(Semantic::Identifier) }),
        182u16 => Some(InfoElement { id: 182, name: "tcpSourcePort", data_type: DataType::Unsigned16, semantic: Some(Semantic::Identifier) }),
        183u16 => Some(InfoElement { id: 183, name: "tcpDestinationPort", data_type: DataType::Unsigned16, semantic: Some(Semantic::Identifier) }),
        184u16 => Some(InfoElement { id: 184, name: "tcpSequenceNumber", data_type: DataType::Unsigned32, semantic: None }),
        185u16 => Some(InfoElement { id: 185, name: "tcpAcknowledgementNumber", data_type: DataType::Unsigned32, semantic: None }),
        186u16 => Some(InfoElement { id: 186, name: "tcpWindowSize", data_type: DataType::Unsigned16, semantic: None }),
        187u16 => Some(InfoElement { id: 187, name: "tcpUrgentPointer", data_type: DataType::Unsigned16, semantic: None }),
        188u16 => Some(InfoElement { id: 188, name: "tcpHeaderLength", data_type: DataType::Unsigned8, semantic: None }),
        189u16 => Some(InfoElement { id: 189, name: "ipHeaderLength", data_type: DataType::Unsigned8, semantic: None }),
        190u16 => Some(InfoElement { id: 190, name: "totalLengthIPv4", data_type: DataType::Unsigned16, semantic: None }),
        191u16 => Some(InfoElement { id: 191, name: "payloadLengthIPv6", data_type: DataType::Unsigned16, semantic: None }),
        192u16 => Some(InfoElement { id: 192, name: "ipTTL", data_type: DataType::Unsigned8, semantic: None }),
        193u16 => Some(InfoElement { id: 193, name: "nextHeaderIPv6", data_type: DataType::Unsigned8, semantic: None }),
        194u16 => Some(InfoElement { id: 194, name: "mplsPayloadLength", data_type: DataType::Unsigned32, semantic: None }),
        195u16 => Some(InfoElement { id: 195, name: "ipDiffServCodePoint", data_type: DataType::Unsigned8, semantic: Some(Semantic::Identifier) }),
        196u16 => Some(InfoElement { id: 196, name: "ipPrecedence", data_type: DataType::Unsigned8, semantic: Some(Semantic::Identifier) }),
        197u16 => Some(InfoElement { id: 197, name: "fragmentFlags", data_type: DataType::Unsigned8, semantic: Some(Semantic::Flags) }),
        198u16 => Some(InfoElement { id: 198, name: "octetDeltaSumOfSquares", data_type: DataType::Unsigned64, semantic: None }),
        199u16 => Some(InfoElement { id: 199, name: "octetTotalSumOfSquares", data_type: DataType::Unsigned64, semantic: None }),
        200u16 => Some(InfoElement { id: 200, name: "mplsTopLabelTTL", data_type: DataType::Unsigned8, semantic: None }),
        201u16 => Some(InfoElement { id: 201, name: "mplsLabelStackLength", data_type: DataType::Unsigned32, semantic: None }),
        202u16 => Some(InfoElement { id: 202, name: "mplsLabelStackDepth", data_type: DataType::Unsigned32, semantic: None }),
        203u16 => Some(InfoElement { id: 203, name: "mplsTopLabelExp", data_type: DataType::Unsigned8, semantic: Some(Semantic::Flags) }),
        204u16 => Some(InfoElement { id: 204, name: "ipPayloadLength", data_type: DataType::Unsigned32, semantic: None }),
        205u16 => Some(InfoElement { id: 205, name: "udpMessageLength", data_type: DataType::Unsigned16, semantic: None }),
        206u16 => Some(InfoElement { id: 206, name: "isMulticast", data_type: DataType::Unsigned8, semantic: Some(Semantic::Flags) }),
        207u16 => Some(InfoElement { id: 207, name: "ipv4IHL", data_type: DataType::Unsigned8, semantic: None }),
        208u16 => Some(InfoElement { id: 208, name: "ipv4Options", data_type: DataType::Unsigned32, semantic: Some(Semantic::Flags) }),
        209u16 => Some(InfoElement { id: 209, name: "tcpOptions", data_type: DataType::Unsigned64, semantic: Some(Semantic::Flags) }),
        210u16 => Some(InfoElement { id: 210, name: "paddingOctets", data_type: DataType::OctetArray, semantic: Some(Semantic::Default) }),
        211u16 => Some(InfoElement { id: 211, name: "collectorIPv4Address", data_type: DataType::Ipv4Address, semantic: Some(Semantic::Default) }),
        212u16 => Some(InfoElement { id: 212, name: "collectorIPv6Address", data_type: DataType::Ipv6Address, semantic: Some(Semantic::Default) }),
        213u16 => Some(InfoElement { id: 213, name: "exportInterface", data_type: DataType::Unsigned32, semantic: Some(Semantic::Identifier) }),
        214u16 => Some(InfoElement { id: 214, name: "exportProtocolVersion", data_type: DataType::Unsigned8, semantic: Some(Semantic::Identifier) }),
        215u16 => Some(InfoElement { id: 215, name: "exportTransportProtocol", data_type: DataType::Unsigned8, semantic: Some(Semantic::Identifier) }),
        216u16 => Some(InfoElement { id: 216, name: "collectorTransportPort", data_type: DataType::Unsigned16, semantic: Some(Semantic::Identifier) }),
        217u16 => Some(InfoElement { id: 217, name: "exporterTransportPort", data_type: DataType::Unsigned16, semantic: Some(Semantic::Identifier) }),
        218u16 => Some(InfoElement { id: 218, name: "tcpSynTotalCount", data_type: DataType::Unsigned64, semantic: Some(Semantic::TotalCounter) }),
        219u16 => Some(InfoElement { id: 219, name: "tcpFinTotalCount", data_type: DataType::Unsigned64, semantic: Some(Semantic::TotalCounter) }),
        220u16 => Some(InfoElement { id: 220, name: "tcpRstTotalCount", data_type: DataType::Unsigned64, semantic: Some(Semantic::TotalCounter) }),
        221u16 => Some(InfoElement { id: 221, name: "tcpPshTotalCount", data_type: DataType::Unsigned64, semantic: Some(Semantic::TotalCounter) }),
        222u16 => Some(InfoElement { id: 222, name: "tcpAckTotalCount", data_type: DataType::Unsigned64, semantic: Some(Semantic::TotalCounter) }),
        223u16 => Some(InfoElement { id: 223, name: "tcpUrgTotalCount", data_type: DataType::Unsigned64, semantic: Some(Semantic::TotalCounter) }),
        224u16 => Some(InfoElement { id: 224, name: "ipTotalLength", data_type: DataType::Unsigned64, semantic: None }),
        225u16 => Some(InfoElement { id: 225, name: "postNATSourceIPv4Address", data_type: DataType::Ipv4Address, semantic: Some(Semantic::Default) }),
        226u16 => Some(InfoElement { id: 226, name: "postNATDestinationIPv4Address", data_type: DataType::Ipv4Address, semantic: Some(Semantic::Default) }),
        227u16 => Some(InfoElement { id: 227, name: "postNAPTSourceTransportPort", data_type: DataType::Unsigned16, semantic: Some(Semantic::Identifier) }),
        228u16 => Some(InfoElement { id: 228, name: "postNAPTDestinationTransportPort", data_type: DataType::Unsigned16, semantic: Some(Semantic::Identifier) }),
        229u16 => Some(InfoElement { id: 229, name: "natOriginatingAddressRealm", data_type: DataType::Unsigned8, semantic: Some(Semantic::Flags) }),
        230u16 => Some(InfoElement { id: 230, name: "natEvent", data_type: DataType::Unsigned8, semantic: Some(Semantic::Identifier) }),
        231u16 => Some(InfoElement { id: 231, name: "initiatorOctets", data_type: DataType::Unsigned64, semantic: Some(Semantic::DeltaCounter) }),
        232u16 => Some(InfoElement { id: 232, name: "responderOctets", data_type: DataType::Unsigned64, semantic: Some(Semantic::DeltaCounter) }),
        233u16 => Some(InfoElement { id: 233, name: "firewallEvent", data_type: DataType::Unsigned8, semantic: Some(Semantic::Identifier) }),
        234u16 => Some(InfoElement { id: 234, name: "ingressVRFID", data_type: DataType::Unsigned32, semantic: Some(Semantic::Identifier) }),
        235u16 => Some(InfoElement { id: 235, name: "egressVRFID", data_type: DataType::Unsigned32, semantic: Some(Semantic::Identifier) }),
        236u16 => Some(InfoElement { id: 236, name: "VRFname", data_type: DataType::String, semantic: Some(Semantic::Default) }),
        _ => None,
    }
}

/// Look up the IANA description for a [`FieldValue`], if it is
/// non-enterprise.
///
/// Returns `None` for enterprise-specific fields and for unknown IDs.
pub fn lookup_field(field: &FieldValue<'_>) -> (r: Option<InfoElement>)
    ensures
        r == (if field.enterprise_number is Some {
            None
        } else {
            registry_entry(field.information_element_id)
        }),
{
    if field.enterprise_number.is_some() {
        return None;
    }
    lookup(field.information_element_id)
}

/// Number of IANA-allocated Information Elements known to this crate.
pub fn registry_len() -> (r: usize)
    ensures
        r == REGISTRY_LEN,
        r == registered_ids().len(),
{
    proof {
        lemma_registry_count();
    }
    REGISTRY_LEN
}

} // verus!
