use ipfix_parser::template::VARIABLE_LENGTH;
use ipfix_parser::{DataRecord, DataRecordIter, Error, FieldIter, FieldSpecifier, FieldValue, Result, TemplateRef};

fn make_template_ref(fields: &[FieldSpecifier]) -> TemplateRef<'_> {
    TemplateRef::new(256, 0, fields)
}

/// Drain a record iterator.
fn collect_records<'a>(mut iter: DataRecordIter<'a>) -> Vec<Result<DataRecord<'a>>> {
    let mut out = Vec::new();
    while let Some(r) = iter.next() {
        out.push(r);
    }
    out
}

/// Drain a field iterator.
fn collect_fields(mut iter: FieldIter<'_>) -> Vec<Result<FieldValue<'_>>> {
    let mut out = Vec::new();
    while let Some(r) = iter.next() {
        out.push(r);
    }
    out
}

#[test]
fn single_fixed_record() {
    let fields = [FieldSpecifier::new(1, None, 4), FieldSpecifier::new(2, None, 2)];
    let template = make_template_ref(&fields);
    let buf = [0x01, 0x02, 0x03, 0x04, 0x00, 0x50];
    let mut iter = DataRecordIter::new(&buf, template);

    let record = iter.next().unwrap().unwrap();
    assert_eq!(record.field_count(), 2);

    let fvs: Vec<_> = collect_fields(record.fields()).into_iter().collect::<Result<Vec<_>>>().unwrap();
    assert_eq!(fvs[0].data, &[0x01, 0x02, 0x03, 0x04]);
    assert_eq!(fvs[1].data, &[0x00, 0x50]);

    assert!(iter.next().is_none());
}

#[test]
fn multiple_records() {
    let fields = [FieldSpecifier::new(1, None, 2)];
    let template = make_template_ref(&fields);
    let buf = [0x00, 0x01, 0x00, 0x02, 0x00, 0x03];
    let records: Vec<_> =
        collect_records(DataRecordIter::new(&buf, template)).into_iter().collect::<Result<Vec<_>>>().unwrap();
    assert_eq!(records.len(), 3);
}

#[test]
fn variable_length_record() {
    let fields = [FieldSpecifier::new(82, None, VARIABLE_LENGTH)];
    let template = make_template_ref(&fields);
    let buf = [0x03, b'f', b'o', b'o'];
    let mut iter = DataRecordIter::new(&buf, template);
    let record = iter.next().unwrap().unwrap();
    let fvs: Vec<_> = collect_fields(record.fields()).into_iter().collect::<Result<Vec<_>>>().unwrap();
    assert_eq!(fvs[0].data, b"foo");
}

#[test]
fn err_truncated_variable_length() {
    let fields = [FieldSpecifier::new(82, None, VARIABLE_LENGTH)];
    let template = make_template_ref(&fields);
    let buf = [0x0a, b'f', b'o', b'o'];
    let mut iter = DataRecordIter::new(&buf, template);
    assert_eq!(iter.next().unwrap().unwrap_err(), Error::UnexpectedEof);
}

#[test]
fn padding_bytes_treated_as_padding() {
    let fields = [FieldSpecifier::new(1, None, 4)];
    let template = make_template_ref(&fields);
    let buf = [0x01, 0x02, 0x03, 0x04, 0x00, 0x00, 0x00];
    let records: Vec<_> =
        collect_records(DataRecordIter::new(&buf, template)).into_iter().collect::<Result<Vec<_>>>().unwrap();
    assert_eq!(records.len(), 1);
}

#[test]
fn variable_length_field_carries_ie_id() {
    let fields = [FieldSpecifier::new(82, Some(0xAABB_CCDD), VARIABLE_LENGTH)];
    let template = make_template_ref(&fields);
    let buf = [0x03, b'b', b'a', b'r'];
    let mut iter = DataRecordIter::new(&buf, template);
    let record = iter.next().unwrap().unwrap();
    let fv = record.fields().next().unwrap().unwrap();
    assert_eq!(fv.information_element_id, 82);
    assert_eq!(fv.enterprise_number, Some(0xAABB_CCDD));
    assert_eq!(fv.data, b"bar");
}

#[test]
fn err_varlen_3byte_prefix_truncated() {
    let fields = [FieldSpecifier::new(82, None, VARIABLE_LENGTH)];
    let template = make_template_ref(&fields);
    let buf = [0xFF, 0x00];
    let mut iter = DataRecordIter::new(&buf, template);
    assert_eq!(iter.next().unwrap().unwrap_err(), Error::UnexpectedEof);
}

#[test]
fn err_varlen_3byte_overflow() {
    let fields = [FieldSpecifier::new(82, None, VARIABLE_LENGTH)];
    let template = make_template_ref(&fields);
    let buf = [0xFF, 0x00, 0x0A, b'f', b'o', b'o'];
    let mut iter = DataRecordIter::new(&buf, template);
    assert_eq!(iter.next().unwrap().unwrap_err(), Error::UnexpectedEof);
}

#[test]
fn err_varlen_3byte_exact_length() {
    let fields = [FieldSpecifier::new(82, None, VARIABLE_LENGTH)];
    let template = make_template_ref(&fields);
    let buf = [0xFF, 0x00, 0x03, b'a', b'b', b'c'];
    let mut iter = DataRecordIter::new(&buf, template);
    let record = iter.next().unwrap().unwrap();
    let fv = record.fields().next().unwrap().unwrap();
    assert_eq!(fv.data, b"abc");
    assert!(iter.next().is_none());
}

#[test]
fn err_field_iter_varlen_overflow() {
    let fields = [FieldSpecifier::new(82, None, VARIABLE_LENGTH)];
    let template = make_template_ref(&fields);
    let raw: &[u8] = &[0x0A, b'h', b'i', b'!'];
    let record = DataRecord::new(raw, template);
    assert_eq!(record.fields().next().unwrap().unwrap_err(), Error::VariableLengthOverflow);
}

#[test]
fn empty_buf_returns_none() {
    let fields = [FieldSpecifier::new(1, None, 4)];
    let template = make_template_ref(&fields);
    let mut iter = DataRecordIter::new(&[], template);
    assert!(iter.next().is_none());
}

#[test]
fn mixed_fixed_and_varlen_records() {
    // Template: u16, varlen, u8. Two records of different lengths.
    let fields = [
        FieldSpecifier::new(7, None, 2),
        FieldSpecifier::new(82, None, VARIABLE_LENGTH),
        FieldSpecifier::new(4, None, 1),
    ];
    let template = make_template_ref(&fields);
    let buf = [
        0x00, 0x50, 0x02, b'h', b'i', 0x06, // record 1
        0x01, 0xbb, 0xFF, 0x00, 0x01, b'x', 0x11, // record 2 (3-byte prefix)
    ];
    let records: Vec<_> =
        collect_records(DataRecordIter::new(&buf, template)).into_iter().collect::<Result<Vec<_>>>().unwrap();
    assert_eq!(records.len(), 2);
    assert_eq!(records[0].raw(), &buf[0..6]);
    assert_eq!(records[1].raw(), &buf[6..13]);
    let f1: Vec<_> = collect_fields(records[1].fields()).into_iter().collect::<Result<Vec<_>>>().unwrap();
    assert_eq!(f1[0].as_u16(), Some(443));
    assert_eq!(f1[1].data, b"x");
    assert_eq!(f1[2].as_u8(), Some(0x11));
}

#[test]
fn field_iter_moves_on_after_error() {
    // A fixed field longer than the raw bytes fails; the iterator then
    // yields nothing more once the template's fields are exhausted.
    let fields = [FieldSpecifier::new(1, None, 8)];
    let template = make_template_ref(&fields);
    let raw: &[u8] = &[1, 2, 3];
    let record = DataRecord::new(raw, template);
    let mut it = record.fields();
    assert_eq!(it.next().unwrap().unwrap_err(), Error::UnexpectedEof);
    assert!(it.next().is_none());
}

#[test]
fn record_iter_discards_rest_after_error() {
    let fields = [FieldSpecifier::new(82, None, VARIABLE_LENGTH)];
    let template = make_template_ref(&fields);
    let buf = [0x05, b'a', 0x01, b'b'];
    let mut iter = DataRecordIter::new(&buf, template);
    assert_eq!(iter.next().unwrap().unwrap_err(), Error::UnexpectedEof);
    assert!(iter.next().is_none());
}

#[test]
fn many_varlen_fields_use_general_walk() {
    // More variable-length fields than the inline layout holds: the extent
    // is still computed exactly.
    let mut fields = Vec::new();
    for i in 0..12u16 {
        fields.push(FieldSpecifier::new(100 + i, None, VARIABLE_LENGTH));
    }
    let template = make_template_ref(&fields);
    let mut buf = Vec::new();
    for i in 0..12u8 {
        buf.push(1);
        buf.push(i);
    }
    buf.push(0); // trailing byte: shorter than a record, so padding
    let records: Vec<_> =
        collect_records(DataRecordIter::new(&buf, template)).into_iter().collect::<Result<Vec<_>>>().unwrap();
    assert_eq!(records.len(), 1);
    assert_eq!(records[0].raw().len(), 24);
    let fs: Vec<_> = collect_fields(records[0].fields()).into_iter().collect::<Result<Vec<_>>>().unwrap();
    assert_eq!(fs.len(), 12);
    assert_eq!(fs[11].data, &[11]);
    assert_eq!(fs[11].information_element_id, 111);
}
