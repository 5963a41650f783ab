use ipfix_parser::util::{read_u16, read_u32, split};
use ipfix_parser::Error;

#[test]
fn read_u16_ok() {
    assert_eq!(read_u16(&[0x00, 0x0a, 0xff]).unwrap(), 10);
}

#[test]
fn read_u16_eof() {
    assert_eq!(read_u16(&[0x00]).unwrap_err(), Error::UnexpectedEof);
}

#[test]
fn read_u32_ok() {
    assert_eq!(read_u32(&[0x00, 0x00, 0x00, 0x01]).unwrap(), 1);
}

#[test]
fn read_u32_eof() {
    assert_eq!(read_u32(&[0x00, 0x00]).unwrap_err(), Error::UnexpectedEof);
}

#[test]
fn split_ok() {
    let (head, tail) = split(&[1, 2, 3, 4], 2).unwrap();
    assert_eq!(head, &[1, 2]);
    assert_eq!(tail, &[3, 4]);
}

#[test]
fn split_eof() {
    assert_eq!(split(&[1], 2).unwrap_err(), Error::UnexpectedEof);
}

#[test]
fn read_u16_multibyte_value() {
    assert_eq!(read_u16(&[0x12, 0x34]).unwrap(), 0x1234);
}

#[test]
fn read_u32_multibyte_value() {
    assert_eq!(read_u32(&[0xde, 0xad, 0xbe, 0xef, 0x00]).unwrap(), 0xdead_beef);
}

#[test]
fn split_whole_and_empty() {
    let (head, tail) = split(&[7, 8], 2).unwrap();
    assert_eq!(head, &[7, 8]);
    assert!(tail.is_empty());
    let (head, tail) = split(&[7, 8], 0).unwrap();
    assert!(head.is_empty());
    assert_eq!(tail, &[7, 8]);
}
