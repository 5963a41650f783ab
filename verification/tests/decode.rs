use ipfix_parser::template::VARIABLE_LENGTH;
use ipfix_parser::{DataRecordIter, DecodePlan, Error, FieldSpecifier, Mapping, TemplateRef};

fn template_ref(fields: &[FieldSpecifier]) -> TemplateRef<'_> {
    TemplateRef::new(256, 0, fields)
}

fn tight_flow_template() -> [FieldSpecifier; 6] {
    [
        FieldSpecifier::new(8, None, 4),
        FieldSpecifier::new(12, None, 4),
        FieldSpecifier::new(7, None, 2),
        FieldSpecifier::new(11, None, 2),
        FieldSpecifier::new(4, None, 1),
        FieldSpecifier::new(6, None, 1),
    ]
}

fn tight_flow_mappings() -> [Mapping; 6] {
    [
        Mapping::new(8, 0),
        Mapping::new(12, 4),
        Mapping::new(7, 8),
        Mapping::new(11, 10),
        Mapping::new(4, 12),
        Mapping::new(6, 13),
    ]
}

#[test]
fn build_and_apply_tight_flow() {
    let fields = tight_flow_template();
    let mappings = tight_flow_mappings();
    let plan = DecodePlan::build(template_ref(&fields), &mappings).unwrap();

    let mut wire = [0u8; 14];
    wire[0..4].copy_from_slice(&[10, 0, 0, 1]);
    wire[4..8].copy_from_slice(&[10, 0, 0, 2]);
    wire[8..10].copy_from_slice(&1234u16.to_be_bytes());
    wire[10..12].copy_from_slice(&80u16.to_be_bytes());
    wire[12] = 6;
    wire[13] = 0x18;

    assert_eq!(plan.src_record_len(), 14);
    assert_eq!(plan.dst_buf_len(), 14);

    let mut out = [0u8; 14];
    plan.apply(&wire, &mut out).unwrap();

    let src_ip = u32::from_ne_bytes(out[0..4].try_into().unwrap());
    let dst_ip = u32::from_ne_bytes(out[4..8].try_into().unwrap());
    let sport = u16::from_ne_bytes(out[8..10].try_into().unwrap());
    let dport = u16::from_ne_bytes(out[10..12].try_into().unwrap());
    assert_eq!(src_ip, 0x0A00_0001);
    assert_eq!(dst_ip, 0x0A00_0002);
    assert_eq!(sport, 1234);
    assert_eq!(dport, 80);
    assert_eq!(out[12], 6);
    assert_eq!(out[13], 0x18);
}

#[test]
fn coalesces_adjacent_runs() {
    let fields = tight_flow_template();
    let plan = DecodePlan::build(template_ref(&fields), &tight_flow_mappings()).unwrap();
    assert_eq!(plan.op_count(), 3);
}

#[test]
fn skips_unmapped_fields_advances_offsets() {
    let fields = [FieldSpecifier::new(8, None, 4), FieldSpecifier::new(12, None, 4)];
    let plan = DecodePlan::build(template_ref(&fields), &[Mapping::new(12, 0)]).unwrap();
    let mut wire = [0u8; 8];
    wire[4..8].copy_from_slice(&[1, 2, 3, 4]);
    let mut out = [0u8; 4];
    plan.apply(&wire, &mut out).unwrap();
    assert_eq!(u32::from_ne_bytes(out), 0x0102_0304);
}

#[test]
fn err_variable_length_template() {
    let fields = [FieldSpecifier::new(82, None, VARIABLE_LENGTH)];
    let err = DecodePlan::build(template_ref(&fields), &[]).unwrap_err();
    assert_eq!(err, Error::VariableLengthInPlan);
}

#[test]
fn err_duplicate_mapping() {
    let fields = [FieldSpecifier::new(8, None, 4)];
    let err = DecodePlan::build(template_ref(&fields), &[Mapping::new(8, 0), Mapping::new(8, 4)]).unwrap_err();
    assert_eq!(err, Error::DuplicateMapping);
}

#[test]
fn err_mapping_not_found() {
    let fields = [FieldSpecifier::new(8, None, 4)];
    let err = DecodePlan::build(template_ref(&fields), &[Mapping::new(99, 0)]).unwrap_err();
    assert_eq!(err, Error::MappingNotFound);
}

#[test]
fn err_dst_too_small() {
    let fields = [FieldSpecifier::new(8, None, 4)];
    let plan = DecodePlan::build(template_ref(&fields), &[Mapping::new(8, 0)]).unwrap();
    let mut out = [0u8; 2];
    let wire = [0u8; 4];
    assert_eq!(plan.apply(&wire, &mut out).unwrap_err(), Error::DestinationBufferTooSmall);
}

#[test]
fn err_src_too_small() {
    let fields = [FieldSpecifier::new(8, None, 4)];
    let plan = DecodePlan::build(template_ref(&fields), &[Mapping::new(8, 0)]).unwrap();
    let mut out = [0u8; 4];
    let wire = [0u8; 2];
    assert_eq!(plan.apply(&wire, &mut out).unwrap_err(), Error::UnexpectedEof);
}

#[test]
fn enterprise_mapping_round_trips() {
    let fields = [FieldSpecifier::new(42, Some(0xAABB_CCDD), 4)];
    let plan = DecodePlan::build(template_ref(&fields), &[Mapping::enterprise(0xAABB_CCDD, 42, 0)]).unwrap();
    let mut out = [0u8; 4];
    plan.apply(&[0xDE, 0xAD, 0xBE, 0xEF], &mut out).unwrap();
    assert_eq!(u32::from_ne_bytes(out), 0xDEAD_BEEFu32);
}

#[test]
fn long_u32_run_chunked() {
    let fields: Vec<FieldSpecifier> = (0..9).map(|i| FieldSpecifier::new(100 + i, None, 4)).collect();
    let mappings: Vec<Mapping> = (0..9).map(|i| Mapping::new(100 + i, u32::from(i) * 4)).collect();
    let plan = DecodePlan::build(template_ref(&fields), &mappings).unwrap();
    assert_eq!(plan.op_count(), 1);

    let mut wire = [0u8; 36];
    for i in 0..9u32 {
        let i_us = i as usize;
        wire[i_us * 4..(i_us + 1) * 4].copy_from_slice(&i.to_be_bytes());
    }
    let mut out = [0u8; 36];
    plan.apply(&wire, &mut out).unwrap();
    for i in 0..9u32 {
        let i_us = i as usize;
        let v = u32::from_ne_bytes(out[i_us * 4..(i_us + 1) * 4].try_into().unwrap());
        assert_eq!(v, i);
    }
}

#[test]
fn long_u64_run_chunked() {
    let fields: Vec<FieldSpecifier> = (0..5).map(|i| FieldSpecifier::new(200 + i, None, 8)).collect();
    let mappings: Vec<Mapping> = (0..5).map(|i| Mapping::new(200 + i, u32::from(i) * 8)).collect();
    let plan = DecodePlan::build(template_ref(&fields), &mappings).unwrap();
    assert_eq!(plan.op_count(), 1);

    let mut wire = [0u8; 40];
    for i in 0..5usize {
        wire[i * 8..(i + 1) * 8].copy_from_slice(&(i as u64).to_be_bytes());
    }
    let mut out = [0u8; 40];
    plan.apply(&wire, &mut out).unwrap();
    for i in 0..5usize {
        let v = u64::from_ne_bytes(out[i * 8..(i + 1) * 8].try_into().unwrap());
        assert_eq!(v, i as u64);
    }
}

#[test]
fn uncovered_destination_bytes_are_kept() {
    // One u16 field mapped to dst[2..4] of a 6-byte buffer.
    let fields = [FieldSpecifier::new(7, None, 2)];
    let plan = DecodePlan::build(template_ref(&fields), &[Mapping::new(7, 2)]).unwrap();
    assert_eq!(plan.dst_buf_len(), 4);
    let mut out = [0xEEu8; 6];
    plan.apply(&[0x12, 0x34], &mut out).unwrap();
    assert_eq!(u16::from_ne_bytes([out[2], out[3]]), 0x1234);
    assert_eq!(out[0], 0xEE);
    assert_eq!(out[1], 0xEE);
    assert_eq!(out[4], 0xEE);
    assert_eq!(out[5], 0xEE);
}

#[test]
fn apply_in_order_both_byte_orders() {
    let fields = [FieldSpecifier::new(8, None, 4), FieldSpecifier::new(4, None, 1)];
    let plan = DecodePlan::build(template_ref(&fields), &[Mapping::new(8, 0), Mapping::new(4, 4)]).unwrap();
    let wire = [1, 2, 3, 4, 9];
    let mut le = [0u8; 5];
    plan.apply_in_order(&wire, &mut le, true).unwrap();
    assert_eq!(le, [4, 3, 2, 1, 9]);
    let mut be = [0u8; 5];
    plan.apply_in_order(&wire, &mut be, false).unwrap();
    assert_eq!(be, [1, 2, 3, 4, 9]);
}

#[test]
fn overlapping_mappings_later_field_wins() {
    // Two 1-byte fields mapped to the same destination byte.
    let fields = [FieldSpecifier::new(4, None, 1), FieldSpecifier::new(5, None, 1)];
    let plan = DecodePlan::build(template_ref(&fields), &[Mapping::new(4, 0), Mapping::new(5, 0)]).unwrap();
    let mut out = [0u8; 1];
    plan.apply(&[0xAA, 0xBB], &mut out).unwrap();
    assert_eq!(out[0], 0xBB);
}

#[test]
fn odd_width_field_is_copied_unswapped() {
    // A 6-byte MAC address is copied as-is.
    let fields = [FieldSpecifier::new(56, None, 6)];
    let plan = DecodePlan::build(template_ref(&fields), &[Mapping::new(56, 0)]).unwrap();
    let mut out = [0u8; 6];
    plan.apply(&[1, 2, 3, 4, 5, 6], &mut out).unwrap();
    assert_eq!(out, [1, 2, 3, 4, 5, 6]);
}

#[test]
fn err_dst_offset_overflows_u32() {
    let fields = [FieldSpecifier::new(8, None, 4)];
    let err = DecodePlan::build(template_ref(&fields), &[Mapping::new(8, u32::MAX - 1)]).unwrap_err();
    assert_eq!(err, Error::InvalidLength);
}

#[test]
fn record_decode_into_uses_plan() {
    let fields = [FieldSpecifier::new(7, None, 2), FieldSpecifier::new(4, None, 1)];
    let template = template_ref(&fields);
    let plan = DecodePlan::build(template, &[Mapping::new(7, 0), Mapping::new(4, 2)]).unwrap();
    let buf = [0x01, 0xbb, 17, 0x00, 0x35, 6];
    let mut iter = DataRecordIter::new(&buf, template);
    let mut seen = Vec::new();
    while let Some(rec) = iter.next() {
        let rec = rec.unwrap();
        let mut out = [0u8; 3];
        rec.decode_into(&plan, &mut out).unwrap();
        seen.push((u16::from_ne_bytes([out[0], out[1]]), out[2]));
    }
    assert_eq!(seen, vec![(443, 17), (53, 6)]);
}

#[test]
fn mapping_constructors() {
    let m = Mapping::new(8, 12);
    assert_eq!(m.ie_id, 8);
    assert_eq!(m.enterprise, None);
    assert_eq!(m.dst_offset, 12);
    let e = Mapping::enterprise(29305, 3, 4);
    assert_eq!(e.ie_id, 3);
    assert_eq!(e.enterprise, Some(29305));
    assert_eq!(e.dst_offset, 4);
}

#[test]
fn reordered_mappings_give_same_plan() {
    let fields = tight_flow_template();
    let mut mappings = tight_flow_mappings();
    let plan_a = DecodePlan::build(template_ref(&fields), &mappings).unwrap();
    mappings.reverse();
    let plan_b = DecodePlan::build(template_ref(&fields), &mappings).unwrap();
    assert_eq!(plan_a.src_record_len(), plan_b.src_record_len());
    assert_eq!(plan_a.dst_buf_len(), plan_b.dst_buf_len());
    assert_eq!(plan_a.op_count(), plan_b.op_count());
    let wire = [10, 0, 0, 1, 10, 0, 0, 2, 4, 210, 0, 80, 6, 0x18];
    let mut out_a = [0u8; 14];
    let mut out_b = [0u8; 14];
    plan_a.apply(&wire, &mut out_a).unwrap();
    plan_b.apply(&wire, &mut out_b).unwrap();
    assert_eq!(out_a, out_b);
}

#[test]
fn iterated_records_fit_their_plan() {
    let fields = [FieldSpecifier::new(8, None, 4), FieldSpecifier::new(4, None, 1)];
    let template = template_ref(&fields);
    let plan = DecodePlan::build(template, &[Mapping::new(4, 0)]).unwrap();
    let buf = [1, 2, 3, 4, 6, 5, 6, 7, 8, 17];
    let mut iter = DataRecordIter::new(&buf, template);
    let mut protos = Vec::new();
    while let Some(rec) = iter.next() {
        let rec = rec.unwrap();
        assert_eq!(rec.raw().len(), plan.src_record_len());
        let mut out = [0u8; 1];
        rec.decode_into(&plan, &mut out).unwrap();
        protos.push(out[0]);
        let mut short: [u8; 0] = [];
        assert_eq!(rec.decode_into(&plan, &mut short).unwrap_err(), Error::DestinationBufferTooSmall);
    }
    assert_eq!(protos, vec![6, 17]);
}

#[test]
fn non_adjacent_fields_are_not_merged() {
    // Two u16 fields with a gap on the destination side stay two runs.
    let fields = [FieldSpecifier::new(7, None, 2), FieldSpecifier::new(11, None, 2)];
    let plan = DecodePlan::build(template_ref(&fields), &[Mapping::new(7, 0), Mapping::new(11, 4)]).unwrap();
    assert_eq!(plan.op_count(), 2);
    let merged = DecodePlan::build(template_ref(&fields), &[Mapping::new(7, 0), Mapping::new(11, 2)]).unwrap();
    assert_eq!(merged.op_count(), 1);
}
