//! Template views and stores.
//!
//! The decoder itself is stateless: callers keep templates between messages
//! and supply them when decoding data records.

use vstd::prelude::*;
use schnellru::{ByLength, LruMap};
use crate::template::{FieldSpecifier, TemplateId, TemplateRecord};

verus! {

/// A read-only view of a template sufficient for decoding data records.
#[derive(Debug, Clone, Copy)]
#[non_exhaustive]
pub struct TemplateRef<'a> {
    /// The template ID.
    pub id: TemplateId,
    /// Number of scope fields (0 for regular templates).
    pub scope_field_count: u16,
    /// Field specifiers in declaration order.
    pub fields: &'a [FieldSpecifier],
}

impl<'a> TemplateRef<'a> {
    /// Construct a template view from its components.
    pub fn new(id: TemplateId, scope_field_count: u16, fields: &'a [FieldSpecifier]) -> (r: Self)
        ensures
            r.id == id,
            r.scope_field_count == scope_field_count,
            r.fields@ == fields@,
    {
        TemplateRef { id, scope_field_count, fields }
    }
}

impl<'a> From<TemplateRecord<'a>> for TemplateRef<'a> {
    fn from(r: TemplateRecord<'a>) -> (t: Self) {
        TemplateRef { id: r.id, scope_field_count: r.scope_field_count, fields: r.fields }
    }
}

impl<'a> vstd::std_specs::convert::FromSpecImpl<TemplateRecord<'a>> for TemplateRef<'a> {
    open spec fn obeys_from_spec() -> bool {
        true
    }

    open spec fn from_spec(r: TemplateRecord<'a>) -> Self {
        TemplateRef { id: r.id, scope_field_count: r.scope_field_count, fields: r.fields }
    }
}

/// Types that store and retrieve IPFIX templates, scoped by Observation
/// Domain ID and Template ID.
pub trait TemplateStore {
    /// Look up a template by Observation Domain ID and Template ID; `None`
    /// if it is not known.
    fn get(&self, odid: u32, id: TemplateId) -> Option<TemplateRef<'_>>;
}

// ---------------------------------------------------------------------------
// The LRU map of the schnellru crate
// ---------------------------------------------------------------------------

/// The key of a stored template: session, Observation Domain ID and
/// Template ID.
pub type TemplateKey = (u128, u32, TemplateId);

/// A template as the store holds it: ID, scope field count and fields.
pub type TemplateValue = (TemplateId, u16, Seq<FieldSpecifier>);

/// A template owned by the store.
#[derive(Debug, Clone)]
pub struct OwnedTemplate {
    /// The template ID.
    pub id: TemplateId,
    /// Number of scope fields (0 for regular templates).
    pub scope_field_count: u16,
    /// Field specifiers in declaration order.
    pub fields: Vec<FieldSpecifier>,
}

impl View for OwnedTemplate {
    type V = TemplateValue;

    open spec fn view(&self) -> TemplateValue {
        (self.id, self.scope_field_count, self.fields@)
    }
}

/// A `schnellru::LruMap` from template keys to templates, limited by
/// length. Verus does not read the map; its contents are known through
/// `lru_entries` and `lru_limit`.
#[verifier::external_body]
#[derive(Debug)]
pub struct TemplateLru {
    map: LruMap<TemplateKey, OwnedTemplate>,
}

/// The entries of an LRU map, least recently used first.
pub uninterp spec fn lru_entries(map: TemplateLru) -> Seq<(TemplateKey, TemplateValue)>;

/// The maximum number of entries an LRU map was made with.
pub uninterp spec fn lru_limit(map: TemplateLru) -> u32;

/// The position of the entry for `k` (the last one, should there be
/// several).
pub open spec fn spec_key_index(es: Seq<(TemplateKey, TemplateValue)>, k: TemplateKey) -> Option<int>
    decreases es.len(),
{
    if es.len() == 0 {
        None
    } else if es.last().0 == k {
        Some(es.len() - 1)
    } else {
        spec_key_index(es.drop_last(), k)
    }
}

/// The value stored for `k`.
pub open spec fn spec_lookup(es: Seq<(TemplateKey, TemplateValue)>, k: TemplateKey) -> Option<TemplateValue> {
    match spec_key_index(es, k) {
        Some(i) => Some(es[i].1),
        None => None,
    }
}

/// The entries without the one for `k`.
pub open spec fn spec_remove_key(es: Seq<(TemplateKey, TemplateValue)>, k: TemplateKey) -> Seq<(TemplateKey, TemplateValue)> {
    match spec_key_index(es, k) {
        Some(i) => es.remove(i),
        None => es,
    }
}

/// The entries with the one for `k` moved to the most recently used end.
pub open spec fn spec_promote(es: Seq<(TemplateKey, TemplateValue)>, k: TemplateKey) -> Seq<(TemplateKey, TemplateValue)> {
    match spec_key_index(es, k) {
        Some(i) => es.remove(i).push(es[i]),
        None => es,
    }
}

/// The entries after storing `v` for `k` in a map holding at most `limit`
/// entries: an existing entry is replaced and becomes the most recently
/// used; a new entry is appended, first evicting the least recently used
/// entry when the map is full; with a limit of 0 nothing is stored.
pub open spec fn spec_lru_insert(
    es: Seq<(TemplateKey, TemplateValue)>,
    limit: int,
    k: TemplateKey,
    v: TemplateValue,
) -> Seq<(TemplateKey, TemplateValue)> {
    match spec_key_index(es, k) {
        Some(i) => es.remove(i).push((k, v)),
        None => if limit == 0 {
            es
        } else if es.len() >= limit {
            es.drop_first().push((k, v))
        } else {
            es.push((k, v))
        },
    }
}

/// No two entries share a key.
pub open spec fn spec_keys_distinct(es: Seq<(TemplateKey, TemplateValue)>) -> bool {
    forall|i: int, j: int| 0 <= i < j < es.len() ==> #[trigger] es[i].0 != #[trigger] es[j].0
}

/// `LruMap::new(ByLength::new(capacity))`: an empty map holding at most
/// `capacity` entries.
#[verifier::external_body]
fn lru_new(capacity: u32) -> (r: TemplateLru)
    ensures
        lru_entries(r) == Seq::<(TemplateKey, TemplateValue)>::empty(),
        lru_limit(r) == capacity,
{
    TemplateLru { map: LruMap::new(ByLength::new(capacity)) }
}

/// `LruMap::len`: the number of entries.
#[verifier::external_body]
fn lru_len(map: &TemplateLru) -> (r: usize)
    ensures
        r == lru_entries(*map).len(),
{
    map.map.len()
}

/// `LruMap::limiter` then `ByLength::max_length`: the entry limit.
#[verifier::external_body]
fn lru_capacity(map: &TemplateLru) -> (r: u32)
    ensures
        r == lru_limit(*map),
{
    map.map.limiter().max_length()
}

/// `LruMap::peek`: the value stored for `key`, without changing the order
/// of the entries.
#[verifier::external_body]
fn lru_peek<'a>(map: &'a TemplateLru, key: &TemplateKey) -> (r: Option<&'a OwnedTemplate>)
    ensures
        r is None <==> spec_lookup(lru_entries(*map), *key) is None,
        r matches Some(t) ==> spec_lookup(lru_entries(*map), *key) == Some(t@),
{
    map.map.peek(key)
}

/// `LruMap::get`, used for its effect: the entry for `key`, if any, becomes
/// the most recently used. Returns whether there was one.
#[verifier::external_body]
fn lru_promote(map: &mut TemplateLru, key: &TemplateKey) -> (r: bool)
    ensures
        lru_limit(*final(map)) == lru_limit(*old(map)),
        lru_entries(*final(map)) == spec_promote(lru_entries(*old(map)), *key),
        r == spec_lookup(lru_entries(*old(map)), *key) is Some,
{
    map.map.get(key).is_some()
}

/// `LruMap::insert`: store `value` for `key` under the `ByLength` limiter
/// (see `spec_lru_insert`). Returns whether the map holds the entry.
#[verifier::external_body]
fn lru_insert(map: &mut TemplateLru, key: TemplateKey, value: OwnedTemplate) -> (r: bool)
    requires
        lru_entries(*old(map)).len() <= lru_limit(*old(map)),
    ensures
        lru_limit(*final(map)) == lru_limit(*old(map)),
        lru_entries(*final(map)) == spec_lru_insert(lru_entries(*old(map)), lru_limit(*old(map)) as int, key, value@),
        r == (lru_limit(*old(map)) > 0),
{
    map.map.insert(key, value)
}

/// `LruMap::remove`: drop the entry for `key`, if any.
#[verifier::external_body]
fn lru_remove(map: &mut TemplateLru, key: &TemplateKey)
    ensures
        lru_limit(*final(map)) == lru_limit(*old(map)),
        lru_entries(*final(map)) == spec_remove_key(lru_entries(*old(map)), *key),
{
    let _ = map.map.remove(key);
}

/// `LruMap::iter`, keeping each entry's key: the keys from the most
/// recently used to the least.
#[verifier::external_body]
fn lru_keys(map: &TemplateLru) -> (r: Vec<TemplateKey>)
    ensures
        r@ == lru_entries(*map).map_values(|e: (TemplateKey, TemplateValue)| e.0).reverse(),
{
    map.map.iter().map(|(k, _)| *k).collect()
}

/// Each entry's template ID is its key's.
pub open spec fn spec_ids_consistent(es: Seq<(TemplateKey, TemplateValue)>) -> bool {
    forall|i: int| 0 <= i < es.len() ==> (#[trigger] es[i]).1.0 == es[i].0.2
}

/// `spec_key_index` finds the entry for `k` exactly when there is one, and
/// finds the last.
pub proof fn lemma_key_index(es: Seq<(TemplateKey, TemplateValue)>, k: TemplateKey)
    ensures
        spec_key_index(es, k) is None <==> forall|j: int| 0 <= j < es.len() ==> #[trigger] es[j].0 != k,
        spec_key_index(es, k) matches Some(i) ==> 0 <= i < es.len() && es[i].0 == k
            && forall|j: int| i < j < es.len() ==> #[trigger] es[j].0 != k,
    decreases es.len(),
{
    if es.len() > 0 {
        lemma_key_index(es.drop_last(), k);
        if es.last().0 != k {
            assert forall|j: int| 0 <= j < es.len() - 1 implies #[trigger] es[j] == es.drop_last()[j] by {}
        }
    }
}

proof fn lemma_remove_keeps(es: Seq<(TemplateKey, TemplateValue)>, i: int)
    requires
        0 <= i < es.len(),
        spec_keys_distinct(es),
        spec_ids_consistent(es),
    ensures
        spec_keys_distinct(es.remove(i)),
        spec_ids_consistent(es.remove(i)),
        es.remove(i).len() == es.len() - 1,
        forall|j: int| 0 <= j < es.remove(i).len() ==> #[trigger] es.remove(i)[j].0 != es[i].0,
{
    let r = es.remove(i);
    assert forall|j: int| 0 <= j < r.len() implies #[trigger] r[j] == (if j < i { es[j] } else { es[j + 1] }) by {}
    assert forall|a: int, b: int| 0 <= a < b < r.len() implies #[trigger] r[a].0 != #[trigger] r[b].0 by {
        let a2 = if a < i { a } else { a + 1 };
        let b2 = if b < i { b } else { b + 1 };
        assert(es[a2].0 != es[b2].0);
    }
    assert forall|j: int| 0 <= j < r.len() implies #[trigger] r[j].0 != es[i].0 by {
        let j2 = if j < i { j } else { j + 1 };
        assert(es[j2].0 != es[i].0);
    }
    assert forall|j: int| 0 <= j < r.len() implies (#[trigger] r[j]).1.0 == r[j].0.2 by {
        let j2 = if j < i { j } else { j + 1 };
        assert(es[j2].1.0 == es[j2].0.2);
    }
}

proof fn lemma_push_keeps(es: Seq<(TemplateKey, TemplateValue)>, e: (TemplateKey, TemplateValue))
    requires
        spec_keys_distinct(es),
        spec_ids_consistent(es),
        forall|j: int| 0 <= j < es.len() ==> #[trigger] es[j].0 != e.0,
        e.1.0 == e.0.2,
    ensures
        spec_keys_distinct(es.push(e)),
        spec_ids_consistent(es.push(e)),
{
    let r = es.push(e);
    assert forall|a: int, b: int| 0 <= a < b < r.len() implies #[trigger] r[a].0 != #[trigger] r[b].0 by {
        if b < es.len() {
            assert(es[a].0 != es[b].0);
        } else {
            assert(es[a].0 != e.0);
        }
    }
    assert forall|j: int| 0 <= j < r.len() implies (#[trigger] r[j]).1.0 == r[j].0.2 by {
        if j < es.len() {
            assert(es[j].1.0 == es[j].0.2);
        }
    }
}

/// The entries without those whose key is in `ks`, in their order.
pub open spec fn spec_drop_keys(es: Seq<(TemplateKey, TemplateValue)>, ks: Set<TemplateKey>) -> Seq<(TemplateKey, TemplateValue)>
    decreases es.len(),
{
    if es.len() == 0 {
        es
    } else {
        let sub = spec_drop_keys(es.drop_last(), ks);
        if ks.contains(es.last().0) {
            sub
        } else {
            sub.push(es.last())
        }
    }
}

/// Dropping no keys keeps every entry.
proof fn lemma_drop_keys_none(es: Seq<(TemplateKey, TemplateValue)>)
    ensures
        spec_drop_keys(es, Set::empty()) == es,
    decreases es.len(),
{
    if es.len() > 0 {
        lemma_drop_keys_none(es.drop_last());
        assert(es.drop_last().push(es.last()) =~= es);
    }
}

/// Whether `s.push(x)` contains `y`.
proof fn lemma_push_contains(s: Seq<TemplateKey>, x: TemplateKey, y: TemplateKey)
    ensures
        s.push(x).contains(y) == (s.contains(y) || y == x),
{
    if s.contains(y) {
        let i = choose|i: int| 0 <= i < s.len() && s[i] == y;
        assert(s.push(x)[i] == y);
    }
    if y == x {
        assert(s.push(x)[s.len() as int] == y);
    }
    if s.push(x).contains(y) {
        let i = choose|i: int| 0 <= i < s.push(x).len() && s.push(x)[i] == y;
        if i < s.len() {
            assert(s[i] == y);
        }
    }
}

/// Dropping keys only removes entries: a key found afterwards was there
/// before.
proof fn lemma_drop_keys_subset(es: Seq<(TemplateKey, TemplateValue)>, ks: Set<TemplateKey>, k: TemplateKey)
    ensures
        spec_key_index(spec_drop_keys(es, ks), k) is Some ==> spec_key_index(es, k) is Some,
    decreases es.len(),
{
    if es.len() > 0 {
        lemma_drop_keys_subset(es.drop_last(), ks, k);
        let sub = spec_drop_keys(es.drop_last(), ks);
        if !ks.contains(es.last().0) {
            assert(sub.push(es.last()).drop_last() =~= sub);
        }
    }
}

/// Dropping keys keeps keys distinct and IDs consistent.
proof fn lemma_drop_keys_wf(es: Seq<(TemplateKey, TemplateValue)>, ks: Set<TemplateKey>)
    requires
        spec_keys_distinct(es),
        spec_ids_consistent(es),
    ensures
        spec_keys_distinct(spec_drop_keys(es, ks)),
        spec_ids_consistent(spec_drop_keys(es, ks)),
        spec_drop_keys(es, ks).len() <= es.len(),
    decreases es.len(),
{
    if es.len() > 0 {
        let dl = es.drop_last();
        let last = es.last();
        assert forall|a: int, b: int| 0 <= a < b < dl.len() implies #[trigger] dl[a].0 != #[trigger] dl[b].0 by {
            assert(es[a].0 != es[b].0);
        }
        assert forall|i: int| 0 <= i < dl.len() implies (#[trigger] dl[i]).1.0 == dl[i].0.2 by {
            assert(es[i].1.0 == es[i].0.2);
        }
        lemma_drop_keys_wf(dl, ks);
        let sub = spec_drop_keys(dl, ks);
        if !ks.contains(last.0) {
            assert forall|j: int| 0 <= j < dl.len() implies #[trigger] dl[j].0 != last.0 by {
                assert(es[j].0 != es[es.len() - 1].0);
            }
            lemma_key_index(dl, last.0);
            lemma_drop_keys_subset(dl, ks, last.0);
            lemma_key_index(sub, last.0);
            assert(es[es.len() - 1].1.0 == es[es.len() - 1].0.2);
            lemma_push_keeps(sub, last);
        }
    }
}

/// Removing the entry for `k` from entries with distinct keys is dropping
/// the key `k`.
proof fn lemma_remove_as_drop(es: Seq<(TemplateKey, TemplateValue)>, k: TemplateKey)
    requires
        spec_keys_distinct(es),
    ensures
        spec_remove_key(es, k) == spec_drop_keys(es, set![k]),
    decreases es.len(),
{
    if es.len() > 0 {
        let dl = es.drop_last();
        let last = es.last();
        assert forall|a: int, b: int| 0 <= a < b < dl.len() implies #[trigger] dl[a].0 != #[trigger] dl[b].0 by {
            assert(es[a].0 != es[b].0);
        }
        lemma_remove_as_drop(dl, k);
        if last.0 == k {
            assert forall|j: int| 0 <= j < dl.len() implies #[trigger] dl[j].0 != k by {
                assert(es[j].0 != es[es.len() - 1].0);
            }
            lemma_key_index(dl, k);
            assert(es.remove(es.len() - 1) =~= dl);
        } else {
            match spec_key_index(dl, k) {
                Some(i) => {
                    lemma_key_index(dl, k);
                    assert(es.remove(i) =~= dl.remove(i).push(last));
                },
                None => {
                    assert(dl.push(last) =~= es);
                },
            }
        }
    }
}

/// Dropping two sets of keys in turn is dropping their union.
proof fn lemma_drop_keys_union(es: Seq<(TemplateKey, TemplateValue)>, a: Set<TemplateKey>, b: Set<TemplateKey>)
    ensures
        spec_drop_keys(spec_drop_keys(es, a), b) == spec_drop_keys(es, a.union(b)),
    decreases es.len(),
{
    if es.len() > 0 {
        lemma_drop_keys_union(es.drop_last(), a, b);
        let sub = spec_drop_keys(es.drop_last(), a);
        if !a.contains(es.last().0) {
            assert(sub.push(es.last()).drop_last() =~= sub);
        }
    }
}

/// Dropping exactly the keys of `session` among the entries' keys is
/// removing the session.
proof fn lemma_drop_keys_session(es: Seq<(TemplateKey, TemplateValue)>, ks: Set<TemplateKey>, session: u128)
    requires
        forall|i: int| 0 <= i < es.len() ==> ks.contains(#[trigger] es[i].0) == (es[i].0.0 == session),
    ensures
        spec_drop_keys(es, ks) == spec_remove_session(es, session),
    decreases es.len(),
{
    if es.len() > 0 {
        let dl = es.drop_last();
        assert forall|i: int| 0 <= i < dl.len() implies ks.contains(#[trigger] dl[i].0) == (dl[i].0.0 == session) by {
            assert(dl[i] == es[i]);
        }
        lemma_drop_keys_session(dl, ks, session);
        assert(ks.contains(es[es.len() - 1].0) == (es[es.len() - 1].0.0 == session));
    }
}

/// Removing a session keeps the store's invariant.
proof fn lemma_remove_session_wf(es: Seq<(TemplateKey, TemplateValue)>, session: u128)
    requires
        spec_keys_distinct(es),
        spec_ids_consistent(es),
    ensures
        spec_keys_distinct(spec_remove_session(es, session)),
        spec_ids_consistent(spec_remove_session(es, session)),
        spec_remove_session(es, session).len() <= es.len(),
{
    let ks = Set::new(|k: TemplateKey| k.0 == session);
    lemma_drop_keys_session(es, ks, session);
    lemma_drop_keys_wf(es, ks);
}

/// Refreshing an entry keeps the store's invariant.
proof fn lemma_promote_wf(es: Seq<(TemplateKey, TemplateValue)>, k: TemplateKey)
    requires
        spec_keys_distinct(es),
        spec_ids_consistent(es),
    ensures
        spec_keys_distinct(spec_promote(es, k)),
        spec_ids_consistent(spec_promote(es, k)),
        spec_promote(es, k).len() == es.len(),
{
    lemma_key_index(es, k);
    if let Some(i) = spec_key_index(es, k) {
        lemma_remove_keeps(es, i);
        assert(es[i].1.0 == es[i].0.2);
        lemma_push_keeps(es.remove(i), es[i]);
    }
}

/// Removing an entry keeps the store's invariant.
proof fn lemma_remove_wf(es: Seq<(TemplateKey, TemplateValue)>, k: TemplateKey)
    requires
        spec_keys_distinct(es),
        spec_ids_consistent(es),
    ensures
        spec_keys_distinct(spec_remove_key(es, k)),
        spec_ids_consistent(spec_remove_key(es, k)),
        spec_remove_key(es, k).len() <= es.len(),
{
    lemma_key_index(es, k);
    if let Some(i) = spec_key_index(es, k) {
        lemma_remove_keeps(es, i);
    }
}

/// Storing a template keeps the store's invariant.
proof fn lemma_lru_insert_wf(es: Seq<(TemplateKey, TemplateValue)>, limit: int, k: TemplateKey, v: TemplateValue)
    requires
        spec_keys_distinct(es),
        spec_ids_consistent(es),
        es.len() <= limit,
        v.0 == k.2,
    ensures
        spec_keys_distinct(spec_lru_insert(es, limit, k, v)),
        spec_ids_consistent(spec_lru_insert(es, limit, k, v)),
        spec_lru_insert(es, limit, k, v).len() <= limit,
{
    lemma_key_index(es, k);
    match spec_key_index(es, k) {
        Some(i) => {
            lemma_remove_keeps(es, i);
            lemma_push_keeps(es.remove(i), (k, v));
        },
        None => {
            if limit == 0 {
            } else if es.len() >= limit {
                lemma_remove_keeps(es, 0);
                assert(es.remove(0) =~= es.drop_first());
                assert forall|j: int| 0 <= j < es.drop_first().len() implies #[trigger] es.drop_first()[j].0 != k by {
                    assert(es[j + 1].0 != k);
                }
                lemma_push_keeps(es.drop_first(), (k, v));
            } else {
                lemma_push_keeps(es, (k, v));
            }
        },
    }
}

// ---------------------------------------------------------------------------
// The session template store
// ---------------------------------------------------------------------------

/// Outcome of inserting a template into a [`SessionTemplateStore`].
///
/// A Template ID, once defined within a (Transport Session, Observation
/// Domain ID) scope, must not be redefined with different field specifiers
/// unless first withdrawn (RFC 7011 8); `Collision` reports such a
/// redefinition.
#[derive(Debug, Clone, Copy, PartialEq, Eq, Structural)]
#[non_exhaustive]
#[must_use]
pub enum InsertOutcome {
    /// No template was registered for this (session, odid, tid); the new
    /// template was installed, evicting the least recently refreshed entry
    /// if the store was full.
    Inserted,
    /// An identical template (same scope count and field specifiers) was
    /// already registered; it became the most recently refreshed entry.
    AlreadyPresent,
    /// A different template was already registered for this key; it is
    /// kept and the new one is not installed.
    Collision,
}

/// Outcome of `insert` on a store with the entries `es` and entry limit
/// `limit`: the entries afterwards and the reported outcome.
pub open spec fn spec_store_insert(
    es: Seq<(TemplateKey, TemplateValue)>,
    limit: int,
    k: TemplateKey,
    v: TemplateValue,
) -> (Seq<(TemplateKey, TemplateValue)>, InsertOutcome) {
    match spec_lookup(es, k) {
        Some(old) => if old.1 == v.1 && old.2 == v.2 {
            (spec_promote(es, k), InsertOutcome::AlreadyPresent)
        } else {
            (es, InsertOutcome::Collision)
        },
        None => (spec_lru_insert(es, limit, k, v), InsertOutcome::Inserted),
    }
}

/// The entries without those of `session`, in their order.
pub open spec fn spec_remove_session(es: Seq<(TemplateKey, TemplateValue)>, session: u128) -> Seq<(TemplateKey, TemplateValue)>
    decreases es.len(),
{
    if es.len() == 0 {
        es
    } else {
        let sub = spec_remove_session(es.drop_last(), session);
        if es.last().0.0 == session {
            sub
        } else {
            sub.push(es.last())
        }
    }
}

/// Default capacity for [`SessionTemplateStore::new`].
pub const DEFAULT_CAPACITY: u32 = 4096;

/// A bounded, multi-session [`TemplateStore`] keyed by a caller-chosen
/// session identifier in addition to the Observation Domain ID and
/// Template ID.
///
/// IPFIX templates are unique within a (Transport Session, Observation
/// Domain ID) scope. The session identifier is a `u128`: for UDP
/// collectors typically the exporter's address (an IPv6 address, or an
/// IPv4 address mapped into IPv6), or any application-defined number.
///
/// The store holds at most its capacity of entries; inserting a new entry
/// into a full store evicts the least recently refreshed entry. Inserts
/// (new or identical refresh) refresh an entry; lookups do not.
#[derive(Debug)]
#[non_exhaustive]
pub struct SessionTemplateStore {
    map: TemplateLru,
}

impl SessionTemplateStore {
    /// The stored templates, least recently refreshed first.
    pub closed spec fn entries(&self) -> Seq<(TemplateKey, TemplateValue)> {
        lru_entries(self.map)
    }

    /// The maximum number of templates the store holds.
    pub closed spec fn limit(&self) -> int {
        lru_limit(self.map) as int
    }

    /// The store's invariant: distinct keys, each entry's template ID is its
    /// key's, and no more entries than the capacity.
    pub open spec fn wf(&self) -> bool {
        &&& spec_keys_distinct(self.entries())
        &&& spec_ids_consistent(self.entries())
        &&& self.entries().len() <= self.limit()
    }

    /// Create an empty store with the default capacity.
    pub fn new() -> (r: Self)
        ensures
            r.wf(),
            r.entries().len() == 0,
            r.limit() == DEFAULT_CAPACITY,
    {
        Self::with_capacity(DEFAULT_CAPACITY)
    }

    /// Create an empty store holding at most `capacity` templates. A
    /// capacity of 0 gives a store that keeps nothing.
    pub fn with_capacity(capacity: u32) -> (r: Self)
        ensures
            r.wf(),
            r.entries().len() == 0,
            r.limit() == capacity,
    {
        SessionTemplateStore { map: lru_new(capacity) }
    }

    /// Number of templates currently stored across all sessions.
    pub fn len(&self) -> (r: usize)
        ensures
            r == self.entries().len(),
    {
        lru_len(&self.map)
    }

    /// Returns `true` if the store contains no templates.
    pub fn is_empty(&self) -> (r: bool)
        ensures
            r == (self.entries().len() == 0),
    {
        lru_len(&self.map) == 0
    }

    /// Maximum number of templates the store holds.
    pub fn capacity(&self) -> (r: u32)
        ensures
            r == self.limit(),
    {
        lru_capacity(&self.map)
    }

    /// Insert a template for `(session, odid, record.id)`, detecting
    /// redefinitions (RFC 7011 8) and refreshing the entry.
    pub fn insert(&mut self, session: &u128, odid: u32, record: &TemplateRecord<'_>) -> (r: InsertOutcome)
        requires
            old(self).wf(),
        ensures
            final(self).wf(),
            final(self).limit() == old(self).limit(),
            (final(self).entries(), r) == spec_store_insert(
                old(self).entries(),
                old(self).limit(),
                (*session, odid, record.id),
                (record.id, record.scope_field_count, record.fields@),
            ),
    {
        let key: TemplateKey = (*session, odid, record.id);
        let same = match lru_peek(&self.map, &key) {
            Some(existing) => Some(existing.scope_field_count == record.scope_field_count
                && fields_equal(existing.fields.as_slice(), record.fields)),
            None => None,
        };
        match same {
            Some(false) => {
                return InsertOutcome::Collision;
            }
            Some(true) => {
                let _ = lru_promote(&mut self.map, &key);
                proof {
                    lemma_promote_wf(lru_entries(old(self).map), key);
                }
                return InsertOutcome::AlreadyPresent;
            }
            None => {}
        }
        let value = OwnedTemplate {
            id: record.id,
            scope_field_count: record.scope_field_count,
            fields: vstd::slice::slice_to_vec(record.fields),
        };
        let _ = lru_insert(&mut self.map, key, value);
        proof {
            lemma_lru_insert_wf(lru_entries(old(self).map), lru_limit(old(self).map) as int, key, value@);
        }
        InsertOutcome::Inserted
    }

    /// Remove one template within a session.
    pub fn remove(&mut self, session: &u128, odid: u32, id: TemplateId)
        requires
            old(self).wf(),
        ensures
            final(self).wf(),
            final(self).limit() == old(self).limit(),
            final(self).entries() == spec_remove_key(old(self).entries(), (*session, odid, id)),
    {
        let key: TemplateKey = (*session, odid, id);
        lru_remove(&mut self.map, &key);
        proof {
            lemma_remove_wf(lru_entries(old(self).map), key);
        }
    }

    /// Remove every template of `session` (e.g. when an exporter is
    /// considered gone).
    pub fn remove_session(&mut self, session: &u128)
        requires
            old(self).wf(),
        ensures
            final(self).wf(),
            final(self).limit() == old(self).limit(),
            final(self).entries() == spec_remove_session(old(self).entries(), *session),
    {
        let keys = lru_keys(&self.map);
        let ghost es = lru_entries(self.map);
        let ghost all_keys = keys@;
        let ghost s = *session;
        let n = keys.len();
        let mut j: usize = 0;
        proof {
            assert(Set::new(|k: TemplateKey| all_keys.take(0).contains(k) && k.0 == s) =~= Set::<TemplateKey>::empty());
            lemma_drop_keys_none(es);
        }
        while j < n
            invariant
                n == all_keys.len(),
                keys@ == all_keys,
                j <= n,
                s == *session,
                spec_keys_distinct(es),
                spec_ids_consistent(es),
                es.len() <= lru_limit(self.map),
                lru_limit(self.map) == lru_limit(old(self).map),
                es == lru_entries(old(self).map),
                lru_entries(self.map) == spec_drop_keys(es, Set::new(|k: TemplateKey| all_keys.take(j as int).contains(k) && k.0 == s)),
            decreases n - j,
        {
            let key = keys[j];
            let ghost ks = Set::new(|k: TemplateKey| all_keys.take(j as int).contains(k) && k.0 == s);
            let ghost ks2 = Set::new(|k: TemplateKey| all_keys.take(j + 1).contains(k) && k.0 == s);
            proof {
                assert(all_keys.take(j + 1) =~= all_keys.take(j as int).push(key));
                assert forall|k: TemplateKey| #[trigger] ks2.contains(k) == (ks.contains(k) || (k == key && key.0 == s)) by {
                    lemma_push_contains(all_keys.take(j as int), key, k);
                }
                lemma_drop_keys_wf(es, ks);
            }
            if key.0 == *session {
                let ghost cur = lru_entries(self.map);
                lru_remove(&mut self.map, &key);
                proof {
                    lemma_remove_as_drop(cur, key);
                    lemma_drop_keys_union(es, ks, set![key]);
                    assert(ks.union(set![key]) =~= ks2);
                }
            } else {
                proof {
                    assert(ks =~= ks2);
                }
            }
            j = j + 1;
        }
        proof {
            let ks = Set::new(|k: TemplateKey| all_keys.take(n as int).contains(k) && k.0 == s);
            assert(all_keys.take(n as int) =~= all_keys);
            assert forall|i: int| 0 <= i < es.len() implies ks.contains(#[trigger] es[i].0) == (es[i].0.0 == s) by {
                let m = es.map_values(|e: (TemplateKey, TemplateValue)| e.0);
                assert(m[i] == es[i].0);
                assert(all_keys[es.len() - 1 - i] == es[i].0);
                assert(all_keys.contains(es[i].0));
            }
            lemma_drop_keys_session(es, ks, s);
            lemma_remove_session_wf(es, s);
        }
    }

    /// Return a [`TemplateStore`] view scoped to `session`: lookups through
    /// it find only templates inserted under the same session.
    pub fn view(&self, session: u128) -> (r: SessionView<'_>)
        ensures
            r.store_entries() == self.entries(),
            r.session() == session,
    {
        SessionView { store: self, session }
    }
}

/// Whether two field specifier lists are equal.
fn fields_equal(a: &[FieldSpecifier], b: &[FieldSpecifier]) -> (r: bool)
    ensures
        r == (a@ == b@),
{
    if a.len() != b.len() {
        return false;
    }
    let n = a.len();
    let mut i: usize = 0;
    while i < n
        invariant
            n == a@.len(),
            n == b@.len(),
            i <= n,
            forall|j: int| 0 <= j < i ==> a@[j] == b@[j],
        decreases n - i,
    {
        if a[i] != b[i] {
            return false;
        }
        i = i + 1;
    }
    proof {
        assert(a@ =~= b@);
    }
    true
}

/// A [`TemplateStore`] view of a [`SessionTemplateStore`] scoped to a single
/// session.
#[derive(Debug)]
#[non_exhaustive]
pub struct SessionView<'a> {
    store: &'a SessionTemplateStore,
    session: u128,
}

impl<'a> SessionView<'a> {
    /// The entries of the underlying store.
    pub closed spec fn store_entries(&self) -> Seq<(TemplateKey, TemplateValue)> {
        self.store.entries()
    }

    /// The session this view is scoped to.
    pub closed spec fn session(&self) -> u128 {
        self.session
    }
}

impl<'a> TemplateStore for SessionView<'a> {
    /// Look up the template of this session, `odid` and `id`, without
    /// refreshing it.
    fn get(&self, odid: u32, id: TemplateId) -> (r: Option<TemplateRef<'_>>)
        ensures
            r is None <==> spec_lookup(self.store_entries(), (self.session(), odid, id)) is None,
            r matches Some(t) ==> spec_lookup(self.store_entries(), (self.session(), odid, id))
                == Some((t.id, t.scope_field_count, t.fields@)),
    {
        match lru_peek(&self.store.map, &(self.session, odid, id)) {
            Some(t) => Some(TemplateRef { id: t.id, scope_field_count: t.scope_field_count, fields: t.fields.as_slice() }),
            None => None,
        }
    }
}

impl Default for SessionTemplateStore {
    fn default() -> (r: Self)
        ensures
            r.wf(),
            r.entries().len() == 0,
            r.limit() == DEFAULT_CAPACITY,
    {
        Self::with_capacity(DEFAULT_CAPACITY)
    }
}

// ---------------------------------------------------------------------------
// Laws of the store
// ---------------------------------------------------------------------------

/// What the entries hold after `remove(i)` and `push(e)`, key by key.
proof fn lemma_lookup_remove_push(es: Seq<(TemplateKey, TemplateValue)>, i: int, e: (TemplateKey, TemplateValue), k2: TemplateKey)
    requires
        spec_keys_distinct(es),
        0 <= i < es.len(),
        es[i].0 == e.0 || forall|j: int| 0 <= j < es.len() ==> #[trigger] es[j].0 != e.0,
    ensures
        k2 == e.0 ==> spec_lookup(es.remove(i).push(e), k2) == Some(e.1),
        k2 != e.0 && k2 != es[i].0 ==> spec_lookup(es.remove(i).push(e), k2) == spec_lookup(es, k2),
        k2 != e.0 ==> spec_lookup(es.remove(i), k2) == spec_lookup(es.remove(i).push(e), k2),
        k2 != e.0 && k2 == es[i].0 ==> spec_lookup(es.remove(i).push(e), k2) is None,
{
    let r = es.remove(i);
    assert(r.push(e).drop_last() =~= r);
    lemma_key_index(es, k2);
    lemma_key_index(r, k2);
    assert forall|j: int| 0 <= j < r.len() implies #[trigger] r[j] == (if j < i { es[j] } else { es[j + 1] }) by {}
    if k2 != e.0 && k2 == es[i].0 {
        assert forall|j: int| 0 <= j < r.len() implies #[trigger] r[j].0 != k2 by {
            let j2 = if j < i { j } else { j + 1 };
            if j2 < i {
                assert(es[j2].0 != es[i].0);
            } else {
                assert(es[i].0 != es[j2].0);
            }
        }
        lemma_key_index(r.push(e), k2);
    }
    if k2 != e.0 && k2 != es[i].0 {
        match spec_key_index(es, k2) {
            Some(a) => {
                let a2 = if a < i { a } else { a - 1 };
                assert(r[a2].0 == k2);
                assert forall|j: int| 0 <= j < es.len() && j != a implies #[trigger] es[j].0 != k2 by {
                    if j < a {
                        assert(es[j].0 != es[a].0);
                    }
                }
                lemma_key_index(r, k2);
                assert(spec_key_index(r, k2) == Some(a2)) by {
                    match spec_key_index(r, k2) {
                        Some(b) => {
                            let b2 = if b < i { b } else { b + 1 };
                            assert(es[b2].0 == k2);
                        },
                        None => {},
                    }
                }
            },
            None => {
                assert forall|j: int| 0 <= j < r.len() implies #[trigger] r[j].0 != k2 by {}
            },
        }
    }
}

/// Reading after writing: once `insert` succeeds (`Inserted` into a store
/// that can hold entries, or `AlreadyPresent`), a lookup of the same key
/// gives the inserted template; after `Collision` the store is unchanged
/// and keeps the earlier template. Every other key keeps its template
/// unless the insert evicted it.
pub proof fn lemma_insert_then_lookup(
    es: Seq<(TemplateKey, TemplateValue)>,
    limit: int,
    k: TemplateKey,
    v: TemplateValue,
    k2: TemplateKey,
)
    requires
        spec_keys_distinct(es),
        spec_ids_consistent(es),
        es.len() <= limit,
        v.0 == k.2,
    ensures
        spec_store_insert(es, limit, k, v).1 == InsertOutcome::Collision ==> spec_store_insert(es, limit, k, v).0 == es
            && spec_lookup(es, k) is Some,
        spec_store_insert(es, limit, k, v).1 == InsertOutcome::AlreadyPresent ==> spec_lookup(spec_store_insert(es, limit, k, v).0, k) == Some(v),
        spec_store_insert(es, limit, k, v).1 == InsertOutcome::Inserted && limit > 0 ==> spec_lookup(spec_store_insert(es, limit, k, v).0, k) == Some(v),
        k2 != k && spec_lookup(spec_store_insert(es, limit, k, v).0, k2) is Some ==> spec_lookup(spec_store_insert(es, limit, k, v).0, k2) == spec_lookup(es, k2),
        k2 != k && es.len() < limit ==> spec_lookup(spec_store_insert(es, limit, k, v).0, k2) == spec_lookup(es, k2),
{
    lemma_key_index(es, k);
    lemma_key_index(es, k2);
    match spec_key_index(es, k) {
        Some(i) => {
            let old = es[i].1;
            assert(old.0 == k.2);
            lemma_lookup_remove_push(es, i, es[i], k2);
            lemma_lookup_remove_push(es, i, es[i], k);
            if old.1 == v.1 && old.2 == v.2 {
                assert(old == v);
            }
        },
        None => {
            if limit == 0 {
            } else if es.len() >= limit {
                assert(es.remove(0) =~= es.drop_first());
                lemma_lookup_remove_push(es, 0, (k, v), k2);
                lemma_lookup_remove_push(es, 0, (k, v), k);
            } else {
                let r = es.push((k, v));
                assert(r.drop_last() =~= es);
            }
        },
    }
}

/// Removing a template removes exactly that template.
pub proof fn lemma_remove_then_lookup(es: Seq<(TemplateKey, TemplateValue)>, k: TemplateKey, k2: TemplateKey)
    requires
        spec_keys_distinct(es),
    ensures
        spec_lookup(spec_remove_key(es, k), k) is None,
        k2 != k ==> spec_lookup(spec_remove_key(es, k), k2) == spec_lookup(es, k2),
{
    lemma_key_index(es, k);
    match spec_key_index(es, k) {
        Some(i) => {
            lemma_lookup_remove_push(es, i, es[i], k2);
            let r = es.remove(i);
            lemma_key_index(r, k);
            assert forall|j: int| 0 <= j < r.len() implies #[trigger] r[j].0 != k by {
                let j2 = if j < i { j } else { j + 1 };
                assert(r[j] == es[j2]);
                if j2 != i {
                    if j2 < i {
                        assert(es[j2].0 != es[i].0);
                    } else {
                        assert(es[i].0 != es[j2].0);
                    }
                }
            }
        },
        None => {},
    }
}

} // verus!
