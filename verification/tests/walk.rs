use ipfix_parser::{
    DataRecordIter, FieldSpecifier, InsertOutcome, MessageHeader, SessionTemplateStore, SetIter, SetKind,
    TemplateSetIter, TemplateSetKind, TemplateStore,
};

fn set(set_id: u16, body: &[u8]) -> Vec<u8> {
    let mut v = Vec::new();
    v.extend_from_slice(&set_id.to_be_bytes());
    v.extend_from_slice(&u16::try_from(body.len() + 4).unwrap().to_be_bytes());
    v.extend_from_slice(body);
    v
}

/// A message with one template (258: sourceIPv4Address u32, protocol u8,
/// interfaceName varlen) and a data set of two records, plus padding.
fn message() -> Vec<u8> {
    let mut tmpl = Vec::new();
    tmpl.extend_from_slice(&258u16.to_be_bytes());
    tmpl.extend_from_slice(&3u16.to_be_bytes());
    for (ie, len) in [(8u16, 4u16), (4, 1), (82, 0xFFFF)] {
        tmpl.extend_from_slice(&ie.to_be_bytes());
        tmpl.extend_from_slice(&len.to_be_bytes());
    }
    let data = [
        10, 0, 0, 1, 6, 3, b'e', b't', b'h', // record 1
        10, 0, 0, 2, 17, 0, // record 2, empty name
        0, 0, // padding
    ];
    let mut sets = set(2, &tmpl);
    sets.extend(set(258, &data));
    let mut msg = Vec::new();
    msg.extend_from_slice(&10u16.to_be_bytes());
    msg.extend_from_slice(&u16::try_from(16 + sets.len()).unwrap().to_be_bytes());
    msg.extend_from_slice(&1_700_000_000u32.to_be_bytes());
    msg.extend_from_slice(&5u32.to_be_bytes());
    msg.extend_from_slice(&0u32.to_be_bytes());
    msg.extend(sets);
    msg
}

#[test]
fn walks_synthesized_message() {
    let buf = message();
    let mut store = SessionTemplateStore::new();
    let (header, sets_buf) = MessageHeader::decode(&buf).unwrap();
    assert_eq!(header.version, 10);
    assert_eq!(header.sequence_number, 5);

    let mut template_records = 0usize;
    let mut rows: Vec<(u32, u8, Vec<u8>)> = Vec::new();
    let mut sets = SetIter::new(sets_buf);
    while let Some(s) = sets.next() {
        let s = s.unwrap();
        match s.kind {
            SetKind::Template => {
                let mut fbuf = [FieldSpecifier::empty(); 8];
                let mut iter = TemplateSetIter::new(s.records, &mut fbuf, TemplateSetKind::Template);
                while let Some(rec) = iter.next() {
                    let rec = rec.unwrap();
                    assert_eq!(store.insert(&0, header.observation_domain_id, &rec), InsertOutcome::Inserted);
                    template_records += 1;
                }
            }
            SetKind::Data(tid) => {
                let view = store.view(0);
                let template = view.get(header.observation_domain_id, tid).unwrap();
                let mut records = DataRecordIter::new(s.records, template);
                while let Some(rec) = records.next() {
                    let rec = rec.unwrap();
                    let mut fields = rec.fields();
                    let a = fields.next().unwrap().unwrap().as_u32().unwrap();
                    let p = fields.next().unwrap().unwrap().as_u8().unwrap();
                    let n = fields.next().unwrap().unwrap().data.to_vec();
                    assert!(fields.next().is_none());
                    rows.push((a, p, n));
                }
            }
            _ => {}
        }
    }
    assert_eq!(template_records, 1);
    assert_eq!(rows, vec![(0x0a00_0001, 6, b"eth".to_vec()), (0x0a00_0002, 17, Vec::new())]);
}
