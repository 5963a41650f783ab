use ipfix_parser::template::VARIABLE_LENGTH;
use ipfix_parser::{
    FieldSpecifier, InsertOutcome, SessionTemplateStore, TemplateId, TemplateRecord, TemplateRef, TemplateStore,
    DEFAULT_CAPACITY,
};

fn make_fields(count: usize) -> Vec<FieldSpecifier> {
    (0..count).map(|i| FieldSpecifier::new(u16::try_from(i).unwrap() + 1, None, 4)).collect()
}

fn record_with(id: TemplateId, fields: &[FieldSpecifier]) -> TemplateRecord<'_> {
    TemplateRecord::new(id, 0, fields)
}

#[test]
fn insert_and_get() {
    let mut store = SessionTemplateStore::new();
    let fields = make_fields(2);
    assert_eq!(store.insert(&0, 1, &record_with(256, &fields)), InsertOutcome::Inserted);

    let view = store.view(0);
    let t = view.get(1, 256).unwrap();
    assert_eq!(t.id, 256);
    assert_eq!(t.fields.len(), 2);
}

#[test]
fn get_unknown_returns_none() {
    let store = SessionTemplateStore::new();
    assert!(store.view(0).get(1, 256).is_none());
}

#[test]
fn remove() {
    let mut store = SessionTemplateStore::new();
    let fields = make_fields(1);
    let _ = store.insert(&0, 1, &record_with(256, &fields));
    store.remove(&0, 1, 256);
    assert!(store.view(0).get(1, 256).is_none());
}

#[test]
fn different_odids_are_independent() {
    let mut store = SessionTemplateStore::new();
    let fields = make_fields(1);
    let _ = store.insert(&0, 1, &record_with(256, &fields));
    assert!(store.view(0).get(2, 256).is_none());
}

#[test]
fn variable_length_field_round_trips() {
    let mut store = SessionTemplateStore::new();
    let fields = vec![FieldSpecifier::new(82, None, VARIABLE_LENGTH)];
    let _ = store.insert(&0, 0, &record_with(257, &fields));
    let view = store.view(0);
    let t = view.get(0, 257).unwrap();
    assert!(t.fields[0].is_variable_length());
}

#[test]
fn identical_re_insert_is_no_op() {
    let mut store = SessionTemplateStore::new();
    let fields = make_fields(3);
    assert_eq!(store.insert(&0, 1, &record_with(300, &fields)), InsertOutcome::Inserted);
    assert_eq!(store.insert(&0, 1, &record_with(300, &fields)), InsertOutcome::AlreadyPresent);
    assert_eq!(store.view(0).get(1, 300).unwrap().fields.len(), 3);
}

#[test]
fn redefinition_with_different_fields_is_collision() {
    let mut store = SessionTemplateStore::new();
    let fields_a = make_fields(2);
    let fields_b = make_fields(3);
    assert_eq!(store.insert(&0, 7, &record_with(256, &fields_a)), InsertOutcome::Inserted);
    assert_eq!(store.insert(&0, 7, &record_with(256, &fields_b)), InsertOutcome::Collision);
    assert_eq!(store.view(0).get(7, 256).unwrap().fields.len(), 2);
}

#[test]
fn redefinition_with_different_scope_count_is_collision() {
    let mut store = SessionTemplateStore::new();
    let fields = make_fields(2);
    let record_a = TemplateRecord::new(256, 0, &fields);
    let record_b = TemplateRecord::new(256, 1, &fields);
    assert_eq!(store.insert(&0, 0, &record_a), InsertOutcome::Inserted);
    assert_eq!(store.insert(&0, 0, &record_b), InsertOutcome::Collision);
    assert_eq!(store.view(0).get(0, 256).unwrap().scope_field_count, 0);
}

#[test]
fn remove_then_redefine_succeeds() {
    let mut store = SessionTemplateStore::new();
    let fields_a = make_fields(2);
    let fields_b = make_fields(4);
    assert_eq!(store.insert(&0, 0, &record_with(256, &fields_a)), InsertOutcome::Inserted);
    store.remove(&0, 0, 256);
    assert_eq!(store.insert(&0, 0, &record_with(256, &fields_b)), InsertOutcome::Inserted);
    assert_eq!(store.view(0).get(0, 256).unwrap().fields.len(), 4);
}

#[test]
fn session_store_isolates_by_key() {
    // Two exporters, 10.0.0.1 and 10.0.0.2, as IPv4-mapped IPv6 numbers.
    let peer_a: u128 = 0xffff_0a00_0001;
    let peer_b: u128 = 0xffff_0a00_0002;

    let fields_a = make_fields(2);
    let fields_b = make_fields(3);

    let mut store = SessionTemplateStore::new();
    assert_eq!(store.insert(&peer_a, 0, &record_with(256, &fields_a)), InsertOutcome::Inserted);
    assert_eq!(store.insert(&peer_b, 0, &record_with(256, &fields_b)), InsertOutcome::Inserted);
    assert_eq!(store.len(), 2);

    assert_eq!(store.view(peer_a).get(0, 256).unwrap().fields.len(), 2);
    assert_eq!(store.view(peer_b).get(0, 256).unwrap().fields.len(), 3);
}

#[test]
fn session_store_collision_within_one_session() {
    let fields_a = make_fields(2);
    let fields_b = make_fields(3);
    let mut store = SessionTemplateStore::new();
    assert_eq!(store.insert(&7, 0, &record_with(256, &fields_a)), InsertOutcome::Inserted);
    assert_eq!(store.insert(&7, 0, &record_with(256, &fields_b)), InsertOutcome::Collision);
    assert_eq!(store.view(7).get(0, 256).unwrap().fields.len(), 2);
}

#[test]
fn session_store_remove_session_drops_only_that_key() {
    let fields = make_fields(1);
    let mut store = SessionTemplateStore::new();
    assert_eq!(store.insert(&1, 0, &record_with(256, &fields)), InsertOutcome::Inserted);
    assert_eq!(store.insert(&2, 0, &record_with(256, &fields)), InsertOutcome::Inserted);
    store.remove_session(&1);
    assert!(store.view(1).get(0, 256).is_none());
    assert!(store.view(2).get(0, 256).is_some());
}

#[test]
fn session_store_view_is_a_template_store() {
    fn takes_store<S: TemplateStore>(_s: &S) {}

    let store = SessionTemplateStore::new();
    let view = store.view(0);
    takes_store(&view);
}

#[test]
fn lru_evicts_oldest_when_full() {
    let mut store = SessionTemplateStore::with_capacity(2);
    let fields = make_fields(1);

    let _ = store.insert(&1, 0, &record_with(256, &fields));
    let _ = store.insert(&2, 0, &record_with(256, &fields));
    assert_eq!(store.len(), 2);

    let _ = store.insert(&3, 0, &record_with(256, &fields));
    assert_eq!(store.len(), 2);
    assert!(store.view(1).get(0, 256).is_none());
    assert!(store.view(2).get(0, 256).is_some());
    assert!(store.view(3).get(0, 256).is_some());
}

#[test]
fn lru_refresh_promotes_entry() {
    let mut store = SessionTemplateStore::with_capacity(2);
    let fields = make_fields(1);
    let rec = record_with(256, &fields);

    let _ = store.insert(&1, 0, &rec);
    let _ = store.insert(&2, 0, &rec);
    assert_eq!(store.insert(&1, 0, &rec), InsertOutcome::AlreadyPresent);
    let _ = store.insert(&3, 0, &rec);
    assert!(store.view(1).get(0, 256).is_some());
    assert!(store.view(2).get(0, 256).is_none());
    assert!(store.view(3).get(0, 256).is_some());
}

#[test]
fn capacity_reports_configured_limit() {
    let store = SessionTemplateStore::with_capacity(17);
    assert_eq!(store.capacity(), 17);
}

#[test]
fn new_store_is_empty_with_default_capacity() {
    let store = SessionTemplateStore::new();
    assert!(store.is_empty());
    assert_eq!(store.len(), 0);
    assert_eq!(store.capacity(), DEFAULT_CAPACITY);
    let d = SessionTemplateStore::default();
    assert_eq!(d.capacity(), DEFAULT_CAPACITY);
    assert!(d.is_empty());
}

#[test]
fn zero_capacity_store_keeps_nothing() {
    let mut store = SessionTemplateStore::with_capacity(0);
    let fields = make_fields(1);
    assert_eq!(store.insert(&1, 0, &record_with(256, &fields)), InsertOutcome::Inserted);
    assert_eq!(store.len(), 0);
    assert!(store.view(1).get(0, 256).is_none());
}

#[test]
fn lookup_returns_stored_fields_exactly() {
    let mut store = SessionTemplateStore::new();
    let fields = vec![FieldSpecifier::new(8, None, 4), FieldSpecifier::new(42, Some(29305), 2)];
    let rec = TemplateRecord::new(400, 1, &fields);
    assert_eq!(store.insert(&5, 9, &rec), InsertOutcome::Inserted);
    let view = store.view(5);
    let t: TemplateRef<'_> = view.get(9, 400).unwrap();
    assert_eq!(t.id, 400);
    assert_eq!(t.scope_field_count, 1);
    assert_eq!(t.fields, fields.as_slice());
}

#[test]
fn remove_session_keeps_other_sessions_templates() {
    let mut store = SessionTemplateStore::new();
    let fields = make_fields(1);
    for odid in 0..3u32 {
        let _ = store.insert(&1, odid, &record_with(256, &fields));
        let _ = store.insert(&2, odid, &record_with(257, &fields));
    }
    assert_eq!(store.len(), 6);
    store.remove_session(&2);
    assert_eq!(store.len(), 3);
    for odid in 0..3u32 {
        assert!(store.view(1).get(odid, 256).is_some());
        assert!(store.view(2).get(odid, 257).is_none());
    }
}

#[test]
fn template_ref_from_record() {
    let fields = make_fields(2);
    let rec = TemplateRecord::new(260, 1, &fields);
    let t = TemplateRef::from(rec);
    assert_eq!(t.id, 260);
    assert_eq!(t.scope_field_count, 1);
    assert_eq!(t.fields.len(), 2);
}
