use ipfix_parser::header::VERSION;
use ipfix_parser::{Error, MessageHeader};

fn make_header(length: u16, export_time: u32, seq: u32, odid: u32) -> [u8; 16] {
    let mut b = [0u8; 16];
    b[0..2].copy_from_slice(&VERSION.to_be_bytes());
    b[2..4].copy_from_slice(&length.to_be_bytes());
    b[4..8].copy_from_slice(&export_time.to_be_bytes());
    b[8..12].copy_from_slice(&seq.to_be_bytes());
    b[12..16].copy_from_slice(&odid.to_be_bytes());
    b
}

#[test]
fn decode_minimal() {
    let buf = make_header(16, 1_700_000_000, 42, 1);
    let (hdr, rest) = MessageHeader::decode(&buf).unwrap();
    assert_eq!(hdr.version, 10);
    assert_eq!(hdr.length, 16);
    assert_eq!(hdr.export_time, 1_700_000_000);
    assert_eq!(hdr.sequence_number, 42);
    assert_eq!(hdr.observation_domain_id, 1);
    assert!(rest.is_empty());
}

#[test]
fn decode_with_trailing_payload() {
    let mut buf = [0u8; 20];
    buf[0..16].copy_from_slice(&make_header(20, 0, 0, 0));
    buf[16..20].copy_from_slice(&[0xde, 0xad, 0xbe, 0xef]);
    let (_, rest) = MessageHeader::decode(&buf).unwrap();
    assert_eq!(rest, &[0xde, 0xad, 0xbe, 0xef]);
}

#[test]
fn header_err_unexpected_eof() {
    let buf = [0u8; 10];
    assert_eq!(MessageHeader::decode(&buf).unwrap_err(), Error::UnexpectedEof);
}

#[test]
fn err_invalid_version() {
    let mut buf = make_header(16, 0, 0, 0);
    buf[0] = 0x00;
    buf[1] = 0x09; // version 9 (NetFlow)
    assert_eq!(MessageHeader::decode(&buf).unwrap_err(), Error::InvalidVersion);
}

#[test]
fn header_err_length_too_small() {
    let buf = make_header(15, 0, 0, 0);
    assert_eq!(MessageHeader::decode(&buf).unwrap_err(), Error::InvalidLength);
}

#[test]
fn header_err_length_exceeds_buf() {
    let buf = make_header(32, 0, 0, 0);
    assert_eq!(MessageHeader::decode(&buf).unwrap_err(), Error::InvalidLength);
}

#[test]
fn err_version_zero() {
    let mut buf = make_header(16, 0, 0, 0);
    buf[0] = 0x00;
    buf[1] = 0x00;
    assert_eq!(MessageHeader::decode(&buf).unwrap_err(), Error::InvalidVersion);
}

#[test]
fn err_version_eight() {
    let mut buf = make_header(16, 0, 0, 0);
    buf[0] = 0x00;
    buf[1] = 0x08;
    assert_eq!(MessageHeader::decode(&buf).unwrap_err(), Error::InvalidVersion);
}

#[test]
fn err_length_zero() {
    let buf = make_header(0, 0, 0, 0);
    assert_eq!(MessageHeader::decode(&buf).unwrap_err(), Error::InvalidLength);
}

#[test]
fn err_empty_buf() {
    assert_eq!(MessageHeader::decode(&[]).unwrap_err(), Error::UnexpectedEof);
}

#[test]
fn length_clips_sets_buf() {
    let mut buf = [0u8; 20];
    buf[0..16].copy_from_slice(&make_header(16, 0, 0, 0));
    buf[16..20].copy_from_slice(&[0xde, 0xad, 0xbe, 0xef]);
    let (_, rest) = MessageHeader::decode(&buf).unwrap();
    assert!(rest.is_empty());
}

#[test]
fn version_checked_before_length() {
    // A 16-byte buffer with a bad version and a bad length reports the version.
    let mut buf = make_header(0, 0, 0, 0);
    buf[1] = 0x09;
    assert_eq!(MessageHeader::decode(&buf).unwrap_err(), Error::InvalidVersion);
}

#[test]
fn length_equal_to_buffer_keeps_all_sets() {
    let mut buf = [0u8; 18];
    buf[0..16].copy_from_slice(&make_header(18, 7, 8, 9));
    buf[16] = 0xaa;
    buf[17] = 0xbb;
    let (hdr, rest) = MessageHeader::decode(&buf).unwrap();
    assert_eq!(hdr.length, 18);
    assert_eq!(hdr.export_time, 7);
    assert_eq!(hdr.sequence_number, 8);
    assert_eq!(hdr.observation_domain_id, 9);
    assert_eq!(rest, &[0xaa, 0xbb]);
}
