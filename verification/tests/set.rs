use ipfix_parser::set::{is_reserved_set_id, SET_HEADER_LEN, SET_ID_OPTIONS_TEMPLATE, SET_ID_TEMPLATE};
use ipfix_parser::{Error, IpfixSet, Result, SetIter, SetKind};

fn make_set(set_id: u16, records: &[u8]) -> Vec<u8> {
    let length = u16::try_from(SET_HEADER_LEN + records.len()).unwrap();
    let mut buf = Vec::new();
    buf.extend_from_slice(&set_id.to_be_bytes());
    buf.extend_from_slice(&length.to_be_bytes());
    buf.extend_from_slice(records);
    buf
}

/// Drain a set iterator into a vector of its results.
fn collect_sets(buf: &[u8]) -> Vec<Result<IpfixSet<'_>>> {
    let mut iter = SetIter::new(buf);
    let mut out = Vec::new();
    while let Some(r) = iter.next() {
        out.push(r);
    }
    out
}

#[test]
fn decode_template_set() {
    let records = [0x01, 0x02];
    let buf = make_set(SET_ID_TEMPLATE, &records);
    let (set, rest) = IpfixSet::decode(&buf).unwrap();
    assert_eq!(set.set_id, 2);
    assert_eq!(set.kind, SetKind::Template);
    assert_eq!(set.records, &records);
    assert!(rest.is_empty());
}

#[test]
fn decode_data_set() {
    let records = [0xde, 0xad];
    let buf = make_set(300, &records);
    let (set, _) = IpfixSet::decode(&buf).unwrap();
    assert_eq!(set.kind, SetKind::Data(300));
}

#[test]
fn err_reserved_set_id() {
    let buf = make_set(5, &[]);
    assert_eq!(IpfixSet::decode(&buf).unwrap_err(), Error::ReservedSetId);
}

#[test]
fn set_err_length_too_small() {
    let buf = [0x00, 0x02, 0x00, 0x03];
    assert_eq!(IpfixSet::decode(&buf).unwrap_err(), Error::InvalidLength);
}

#[test]
fn set_err_length_exceeds_buf() {
    let buf = make_set(SET_ID_TEMPLATE, &[0x00; 4]);
    assert_eq!(IpfixSet::decode(&buf[..buf.len() - 2]).unwrap_err(), Error::InvalidLength);
}

#[test]
fn set_err_unexpected_eof() {
    assert_eq!(IpfixSet::decode(&[0x00, 0x02]).unwrap_err(), Error::UnexpectedEof);
}

#[test]
fn set_iter_multiple() {
    let s1 = make_set(SET_ID_TEMPLATE, &[0x01]);
    let s2 = make_set(300, &[0x02, 0x03]);
    let mut combined = s1;
    combined.extend(s2);

    let sets: Vec<IpfixSet<'_>> = collect_sets(&combined).into_iter().collect::<Result<Vec<_>>>().unwrap();
    assert_eq!(sets.len(), 2);
    assert_eq!(sets[0].kind, SetKind::Template);
    assert_eq!(sets[1].kind, SetKind::Data(300));
}

#[test]
fn set_iter_empty() {
    let iter = SetIter::new(&[]);
    assert!(iter.is_empty());
    assert_eq!(collect_sets(&[]).len(), 0);
}

#[test]
fn set_iter_stops_on_error() {
    let s1 = make_set(SET_ID_TEMPLATE, &[]);
    let s2 = make_set(5, &[]);
    let mut buf = s1;
    buf.extend(s2);

    let results = collect_sets(&buf);
    assert_eq!(results.len(), 2);
    assert!(results[0].is_ok());
    assert_eq!(results[1].unwrap_err(), Error::ReservedSetId);
}

#[test]
fn err_reserved_set_id_boundary_low() {
    let buf = make_set(4, &[]);
    assert_eq!(IpfixSet::decode(&buf).unwrap_err(), Error::ReservedSetId);
}

#[test]
fn err_reserved_set_id_boundary_high() {
    let buf = make_set(255, &[]);
    assert_eq!(IpfixSet::decode(&buf).unwrap_err(), Error::ReservedSetId);
}

#[test]
fn err_reserved_set_id_zero() {
    let buf = make_set(0, &[]);
    assert_eq!(IpfixSet::decode(&buf).unwrap_err(), Error::ReservedSetId);
}

#[test]
fn err_reserved_set_id_one() {
    let buf = make_set(1, &[]);
    assert_eq!(IpfixSet::decode(&buf).unwrap_err(), Error::ReservedSetId);
}

#[test]
fn ok_empty_records() {
    let buf = [0x00, 0x02, 0x00, 0x04];
    let (set, rest) = IpfixSet::decode(&buf).unwrap();
    assert_eq!(set.kind, SetKind::Template);
    assert!(set.records.is_empty());
    assert!(rest.is_empty());
}

#[test]
fn err_length_exactly_3() {
    let buf = [0x00, 0x02, 0x00, 0x03];
    assert_eq!(IpfixSet::decode(&buf).unwrap_err(), Error::InvalidLength);
}

#[test]
fn set_iter_returns_none_after_error() {
    let s1 = make_set(5, &[]);
    let s2 = make_set(SET_ID_TEMPLATE, &[]);
    let mut buf = s1;
    buf.extend(s2);

    let mut iter = SetIter::new(&buf);
    assert!(iter.next().unwrap().is_err());
    assert!(iter.next().is_none());
}

#[test]
fn set_iter_short_trailing_bytes_stop_cleanly() {
    let s = make_set(SET_ID_TEMPLATE, &[0x01, 0x02]);
    let mut buf = s;
    buf.extend_from_slice(&[0x00, 0x00]);
    let sets: Vec<IpfixSet<'_>> = collect_sets(&buf).into_iter().collect::<Result<Vec<_>>>().unwrap();
    assert_eq!(sets.len(), 1);
}

#[test]
fn reserved_set_id_predicate() {
    assert!(is_reserved_set_id(0));
    assert!(is_reserved_set_id(1));
    assert!(!is_reserved_set_id(2));
    assert!(!is_reserved_set_id(3));
    assert!(is_reserved_set_id(4));
    assert!(is_reserved_set_id(255));
    assert!(!is_reserved_set_id(256));
    assert!(!is_reserved_set_id(u16::MAX));
}

#[test]
fn decode_options_template_set_and_rest() {
    let mut buf = make_set(SET_ID_OPTIONS_TEMPLATE, &[9, 9]);
    buf.extend_from_slice(&[1, 2, 3]);
    let (set, rest) = IpfixSet::decode(&buf).unwrap();
    assert_eq!(set.set_id, 3);
    assert_eq!(set.kind, SetKind::OptionsTemplate);
    assert_eq!(set.records, &[9, 9]);
    assert_eq!(rest, &[1, 2, 3]);
}

#[test]
fn set_iter_error_on_truncated_set() {
    // A header that claims more bytes than remain is an error, then the end.
    let buf = [0x01, 0x00, 0x00, 0x08, 0xaa];
    let mut iter = SetIter::new(&buf);
    assert_eq!(iter.next().unwrap().unwrap_err(), Error::InvalidLength);
    assert!(iter.is_empty());
    assert!(iter.next().is_none());
}
