use ipfix_parser::template::VARIABLE_LENGTH;
use ipfix_parser::{Error, FieldSpecifier, TemplateRecord, TemplateSetIter, TemplateSetKind};

fn field_bytes(ie_id: u16, len: u16) -> [u8; 4] {
    let mut b = [0u8; 4];
    b[0..2].copy_from_slice(&ie_id.to_be_bytes());
    b[2..4].copy_from_slice(&len.to_be_bytes());
    b
}

fn enterprise_field_bytes(ie_id: u16, len: u16, enterprise: u32) -> [u8; 8] {
    let mut b = [0u8; 8];
    let ie_word = ie_id | 0x8000;
    b[0..2].copy_from_slice(&ie_word.to_be_bytes());
    b[2..4].copy_from_slice(&len.to_be_bytes());
    b[4..8].copy_from_slice(&enterprise.to_be_bytes());
    b
}

fn make_template(id: u16, fields: &[u8]) -> Vec<u8> {
    let field_count = u16::try_from(fields.len() / 4).unwrap();
    let mut buf = Vec::new();
    buf.extend_from_slice(&id.to_be_bytes());
    buf.extend_from_slice(&field_count.to_be_bytes());
    buf.extend_from_slice(fields);
    buf
}

#[test]
fn decode_simple_template() {
    let f1 = field_bytes(1, 4);
    let f2 = field_bytes(2, 8);
    let mut fields = f1.to_vec();
    fields.extend_from_slice(&f2);
    let buf = make_template(256, &fields);

    let mut fbuf = [FieldSpecifier::new(0, None, 0); 16];
    let (tmpl, rest) = TemplateRecord::decode_into(&buf, &mut fbuf).unwrap();

    assert_eq!(tmpl.id, 256);
    assert_eq!(tmpl.fields.len(), 2);
    assert_eq!(tmpl.fields[0].information_element_id, 1);
    assert_eq!(tmpl.fields[0].field_length, 4);
    assert_eq!(tmpl.fields[1].information_element_id, 2);
    assert_eq!(tmpl.fields[1].field_length, 8);
    assert!(rest.is_empty());
}

#[test]
fn decode_enterprise_field() {
    let ef = enterprise_field_bytes(42, 4, 0xAABB_CCDD);
    let mut buf = Vec::new();
    buf.extend_from_slice(&300u16.to_be_bytes());
    buf.extend_from_slice(&1u16.to_be_bytes());
    buf.extend_from_slice(&ef);

    let mut fbuf = [FieldSpecifier::new(0, None, 0); 4];
    let (tmpl, _) = TemplateRecord::decode_into(&buf, &mut fbuf).unwrap();

    assert_eq!(tmpl.fields[0].information_element_id, 42);
    assert_eq!(tmpl.fields[0].enterprise_number, Some(0xAABB_CCDD));
    assert_eq!(tmpl.fields[0].field_length, 4);
}

#[test]
fn decode_variable_length_field() {
    let f = field_bytes(8, VARIABLE_LENGTH);
    let buf = make_template(257, &f);
    let mut fbuf = [FieldSpecifier::new(0, None, 0); 4];
    let (tmpl, _) = TemplateRecord::decode_into(&buf, &mut fbuf).unwrap();
    assert!(tmpl.fields[0].is_variable_length());
}

#[test]
fn decode_options_template() {
    let f1 = field_bytes(1, 4);
    let f2 = field_bytes(2, 4);
    let mut buf = Vec::new();
    buf.extend_from_slice(&256u16.to_be_bytes());
    buf.extend_from_slice(&2u16.to_be_bytes());
    buf.extend_from_slice(&1u16.to_be_bytes());
    buf.extend_from_slice(&f1);
    buf.extend_from_slice(&f2);

    let mut fbuf = [FieldSpecifier::new(0, None, 0); 4];
    let (tmpl, _) = TemplateRecord::decode_options_into(&buf, &mut fbuf).unwrap();
    assert_eq!(tmpl.scope_field_count, 1);
    assert_eq!(tmpl.fields.len(), 2);
}

#[test]
fn err_zero_field_count() {
    let buf = [0x01, 0x00, 0x00, 0x00];
    let mut fbuf = [FieldSpecifier::new(0, None, 0); 4];
    assert_eq!(TemplateRecord::decode_into(&buf, &mut fbuf).unwrap_err(), Error::InvalidLength);
}

#[test]
fn err_truncated_field() {
    let f = field_bytes(1, 4);
    let mut buf = make_template(256, &f);
    buf.truncate(buf.len() - 2);
    let mut fbuf = [FieldSpecifier::new(0, None, 0); 4];
    assert_eq!(TemplateRecord::decode_into(&buf, &mut fbuf).unwrap_err(), Error::UnexpectedEof);
}

#[test]
fn err_regular_header_truncated() {
    let buf = [0x01, 0x00, 0x00];
    let mut fbuf = [FieldSpecifier::new(0, None, 0); 4];
    assert_eq!(TemplateRecord::decode_into(&buf, &mut fbuf).unwrap_err(), Error::UnexpectedEof);
}

#[test]
fn err_options_header_truncated() {
    let buf = [0x01, 0x00, 0x00, 0x01, 0x00];
    let mut fbuf = [FieldSpecifier::new(0, None, 0); 4];
    assert_eq!(TemplateRecord::decode_options_into(&buf, &mut fbuf).unwrap_err(), Error::UnexpectedEof);
}

#[test]
fn err_options_scope_exceeds_field_count() {
    let f1 = field_bytes(1, 4);
    let f2 = field_bytes(2, 4);
    let mut buf = Vec::new();
    buf.extend_from_slice(&256u16.to_be_bytes());
    buf.extend_from_slice(&2u16.to_be_bytes());
    buf.extend_from_slice(&3u16.to_be_bytes());
    buf.extend_from_slice(&f1);
    buf.extend_from_slice(&f2);
    let mut fbuf = [FieldSpecifier::new(0, None, 0); 4];
    assert_eq!(TemplateRecord::decode_options_into(&buf, &mut fbuf).unwrap_err(), Error::InvalidLength);
}

#[test]
fn err_enterprise_field_truncated() {
    let mut buf = Vec::new();
    buf.extend_from_slice(&256u16.to_be_bytes());
    buf.extend_from_slice(&1u16.to_be_bytes());
    let ie_word: u16 = 0x8000 | 0x002a;
    buf.extend_from_slice(&ie_word.to_be_bytes());
    buf.extend_from_slice(&4u16.to_be_bytes());
    let mut fbuf = [FieldSpecifier::new(0, None, 0); 4];
    assert_eq!(TemplateRecord::decode_into(&buf, &mut fbuf).unwrap_err(), Error::UnexpectedEof);
}

#[test]
fn err_field_count_exceeds_fields_buf() {
    let f1 = field_bytes(1, 4);
    let f2 = field_bytes(2, 4);
    let f3 = field_bytes(3, 4);
    let mut fields = f1.to_vec();
    fields.extend_from_slice(&f2);
    fields.extend_from_slice(&f3);
    let buf = make_template(256, &fields);
    let mut fbuf = [FieldSpecifier::new(0, None, 0); 2];
    assert_eq!(TemplateRecord::decode_into(&buf, &mut fbuf).unwrap_err(), Error::FieldBufferTooSmall);
}

#[test]
fn err_field_count_exceeds_fields_buf_options() {
    let f1 = field_bytes(1, 4);
    let f2 = field_bytes(2, 4);
    let mut buf = Vec::new();
    buf.extend_from_slice(&256u16.to_be_bytes());
    buf.extend_from_slice(&2u16.to_be_bytes());
    buf.extend_from_slice(&1u16.to_be_bytes());
    buf.extend_from_slice(&f1);
    buf.extend_from_slice(&f2);
    let mut fbuf = [FieldSpecifier::new(0, None, 0); 1];
    assert_eq!(TemplateRecord::decode_options_into(&buf, &mut fbuf).unwrap_err(), Error::FieldBufferTooSmall);
}

#[test]
fn err_options_scope_zero() {
    let f1 = field_bytes(1, 4);
    let mut buf = Vec::new();
    buf.extend_from_slice(&256u16.to_be_bytes());
    buf.extend_from_slice(&1u16.to_be_bytes());
    buf.extend_from_slice(&0u16.to_be_bytes());
    buf.extend_from_slice(&f1);
    let mut fbuf = [FieldSpecifier::new(0, None, 0); 4];
    assert_eq!(TemplateRecord::decode_options_into(&buf, &mut fbuf).unwrap_err(), Error::InvalidLength);
}

#[test]
fn err_zero_field_count_options() {
    let buf = [0x01, 0x00, 0x00, 0x00, 0x00, 0x00];
    let mut fbuf = [FieldSpecifier::new(0, None, 0); 4];
    assert_eq!(TemplateRecord::decode_options_into(&buf, &mut fbuf).unwrap_err(), Error::InvalidLength);
}

#[test]
fn template_set_iter_yields_multiple() {
    let f1 = field_bytes(1, 4);
    let f2 = field_bytes(2, 4);
    let mut t1 = Vec::new();
    t1.extend_from_slice(&256u16.to_be_bytes());
    t1.extend_from_slice(&1u16.to_be_bytes());
    t1.extend_from_slice(&f1);

    let mut t2 = Vec::new();
    t2.extend_from_slice(&257u16.to_be_bytes());
    t2.extend_from_slice(&1u16.to_be_bytes());
    t2.extend_from_slice(&f2);

    let mut buf = t1;
    buf.extend(t2);

    let mut fbuf = [FieldSpecifier::new(0, None, 0); 4];
    let mut iter = TemplateSetIter::new(&buf, &mut fbuf, TemplateSetKind::Template);

    let r1 = iter.next().unwrap().unwrap();
    assert_eq!(r1.id, 256);
    assert_eq!(r1.fields[0].information_element_id, 1);

    let r2 = iter.next().unwrap().unwrap();
    assert_eq!(r2.id, 257);
    assert_eq!(r2.fields[0].information_element_id, 2);

    assert!(iter.next().is_none());
}

#[test]
fn template_set_iter_padding_treated_as_padding() {
    let f = field_bytes(1, 4);
    let mut buf = Vec::new();
    buf.extend_from_slice(&256u16.to_be_bytes());
    buf.extend_from_slice(&1u16.to_be_bytes());
    buf.extend_from_slice(&f);
    buf.extend_from_slice(&[0x00, 0x00, 0x00]);

    let mut fbuf = [FieldSpecifier::new(0, None, 0); 4];
    let mut iter = TemplateSetIter::new(&buf, &mut fbuf, TemplateSetKind::Template);
    assert!(iter.next().unwrap().is_ok());
    assert!(iter.next().is_none());
}

#[test]
fn template_set_iter_options_kind() {
    let f1 = field_bytes(1, 4);
    let mut buf = Vec::new();
    buf.extend_from_slice(&256u16.to_be_bytes());
    buf.extend_from_slice(&1u16.to_be_bytes());
    buf.extend_from_slice(&1u16.to_be_bytes());
    buf.extend_from_slice(&f1);

    let mut fbuf = [FieldSpecifier::new(0, None, 0); 4];
    let mut iter = TemplateSetIter::new(&buf, &mut fbuf, TemplateSetKind::OptionsTemplate);
    let r = iter.next().unwrap().unwrap();
    assert_eq!(r.id, 256);
    assert_eq!(r.scope_field_count, 1);
    assert!(iter.next().is_none());
}

#[test]
fn template_set_iter_latches_on_error() {
    let f = field_bytes(1, 4);
    let mut buf = Vec::new();
    buf.extend_from_slice(&256u16.to_be_bytes());
    buf.extend_from_slice(&1u16.to_be_bytes());
    buf.extend_from_slice(&f);
    buf.extend_from_slice(&257u16.to_be_bytes());
    buf.extend_from_slice(&0u16.to_be_bytes());

    let mut fbuf = [FieldSpecifier::new(0, None, 0); 4];
    let mut iter = TemplateSetIter::new(&buf, &mut fbuf, TemplateSetKind::Template);
    assert!(iter.next().unwrap().is_ok());
    assert_eq!(iter.next().unwrap().unwrap_err(), Error::InvalidLength);
    assert!(iter.next().is_none());
}

#[test]
fn field_specifier_decode_plain_and_enterprise() {
    let (f, rest) = FieldSpecifier::decode(&[0x00, 0x08, 0x00, 0x04, 0xee]).unwrap();
    assert_eq!(f, FieldSpecifier::new(8, None, 4));
    assert_eq!(rest, &[0xee]);
    let eb = enterprise_field_bytes(7, VARIABLE_LENGTH, 29305);
    let (g, rest) = FieldSpecifier::decode(&eb).unwrap();
    assert_eq!(g, FieldSpecifier::new(7, Some(29305), VARIABLE_LENGTH));
    assert!(g.is_enterprise());
    assert!(g.is_variable_length());
    assert!(rest.is_empty());
    assert_eq!(FieldSpecifier::decode(&[0x00, 0x08, 0x00]).unwrap_err(), Error::UnexpectedEof);
}

#[test]
fn empty_field_specifier_is_all_zero() {
    let e = FieldSpecifier::empty();
    assert_eq!(e, FieldSpecifier::new(0, None, 0));
    assert!(!e.is_enterprise());
    assert!(!e.is_variable_length());
}

#[test]
fn template_record_decode_leaves_rest() {
    let mut buf = make_template(300, &field_bytes(4, 1));
    buf.extend_from_slice(&[0xaa, 0xbb]);
    let mut fbuf = [FieldSpecifier::empty(); 2];
    let (tmpl, rest) = TemplateRecord::decode_into(&buf, &mut fbuf).unwrap();
    assert_eq!(tmpl.id, 300);
    assert_eq!(tmpl.scope_field_count, 0);
    assert_eq!(tmpl.fields, &[FieldSpecifier::new(4, None, 1)]);
    assert_eq!(rest, &[0xaa, 0xbb]);
}

#[test]
fn err_reserved_template_id() {
    let buf = [0, 5, 0, 1, 0, 1, 0, 4];
    let mut fbuf = [FieldSpecifier::empty(); 2];
    assert_eq!(TemplateRecord::decode_into(&buf, &mut fbuf).unwrap_err(), Error::InvalidTemplateId);
    let obuf = [0, 255, 0, 1, 0, 1, 0, 1, 0, 4];
    assert_eq!(TemplateRecord::decode_options_into(&obuf, &mut fbuf).unwrap_err(), Error::InvalidTemplateId);
    // 256 is the first valid template ID.
    let ok = [1, 0, 0, 1, 0, 1, 0, 4];
    assert_eq!(TemplateRecord::decode_into(&ok, &mut fbuf).unwrap().0.id, 256);
}

#[test]
fn decode_leaves_slots_beyond_field_count() {
    let buf = make_template(256, &field_bytes(1, 4));
    let marker = FieldSpecifier::new(9, Some(9), 9);
    let mut fbuf = [marker; 3];
    let (tmpl, _) = TemplateRecord::decode_into(&buf, &mut fbuf).unwrap();
    assert_eq!(tmpl.fields, &[FieldSpecifier::new(1, None, 4)]);
    assert_eq!(fbuf[1], marker);
    assert_eq!(fbuf[2], marker);
}

#[test]
fn template_set_iter_reserved_id_latches() {
    let mut buf = Vec::new();
    buf.extend_from_slice(&2u16.to_be_bytes());
    buf.extend_from_slice(&1u16.to_be_bytes());
    buf.extend_from_slice(&field_bytes(1, 4));
    let mut fbuf = [FieldSpecifier::empty(); 4];
    let mut iter = TemplateSetIter::new(&buf, &mut fbuf, TemplateSetKind::Template);
    assert_eq!(iter.next().unwrap().unwrap_err(), Error::InvalidTemplateId);
    assert!(iter.next().is_none());
}

#[test]
fn template_set_iter_leaves_fields_in_scratch() {
    let mut buf = make_template(256, &field_bytes(1, 4));
    let mut two = field_bytes(2, 2).to_vec();
    two.extend_from_slice(&field_bytes(3, 1));
    buf.extend(make_template(257, &two));
    let marker = FieldSpecifier::new(9, None, 9);
    let mut fbuf = [marker; 3];
    {
        let mut iter = TemplateSetIter::new(&buf, &mut fbuf, TemplateSetKind::Template);
        assert_eq!(iter.next().unwrap().unwrap().id, 256);
        assert_eq!(iter.next().unwrap().unwrap().id, 257);
        assert!(iter.next().is_none());
    }
    assert_eq!(fbuf[0], FieldSpecifier::new(2, None, 2));
    assert_eq!(fbuf[1], FieldSpecifier::new(3, None, 1));
    assert_eq!(fbuf[2], marker);
}
