//! Bulk record decoding into a caller-provided destination buffer.
//!
//! A [`DecodePlan`] is built once per (template, destination layout) pair.
//! Applying it copies each mapped field of a fixed-length record to its
//! destination offset, converting multi-byte integer fields (2, 4, 8 or 16
//! bytes) from network byte order to the machine's native byte order; other
//! widths are copied unchanged. Adjacent fields with matching layout are
//! coalesced into a single run, which changes how the work is done but not
//! which bytes are written.
//!
//! The effect of a plan is specified as a sequence of byte writes
//! `(destination index, source index)`, applied in order.

use vstd::prelude::*;
use crate::error::{Error, Result};
use crate::record::is_varlen;
use crate::store::TemplateRef;
use crate::template::{FieldSpecifier, VARIABLE_LENGTH};

verus! {

// ---------------------------------------------------------------------------
// Byte-write semantics
// ---------------------------------------------------------------------------

/// Apply the byte writes `ws` in order: each sets `dst[d]` to `src[s]`.
pub open spec fn apply_writes(ws: Seq<(int, int)>, src: Seq<u8>, dst: Seq<u8>) -> Seq<u8>
    decreases ws.len(),
{
    if ws.len() == 0 {
        dst
    } else {
        apply_writes(ws.drop_last(), src, dst).update(ws.last().0, src[ws.last().1])
    }
}

/// A plain copy of `len` bytes from `src..` to `dst..`.
pub open spec fn copy_writes(src: int, dst: int, len: int) -> Seq<(int, int)> {
    Seq::new(len as nat, |i: int| (dst + i, src + i))
}

/// One integer of `width` bytes moved from network byte order to native
/// byte order: reversed on a little-endian machine, copied on a big-endian
/// one.
pub open spec fn swap_elem_writes(src: int, dst: int, width: int, little_endian: bool) -> Seq<(int, int)> {
    Seq::new(width as nat, |i: int| (dst + i, src + if little_endian { width - 1 - i } else { i }))
}

/// `count` adjacent integers of `width` bytes converted to native byte order.
pub open spec fn swap_writes(src: int, dst: int, width: int, count: nat, little_endian: bool) -> Seq<(int, int)>
    decreases count,
{
    if count == 0 {
        Seq::empty()
    } else {
        swap_writes(src, dst, width, (count - 1) as nat, little_endian)
            + swap_elem_writes(src + (count - 1) * width, dst + (count - 1) * width, width, little_endian)
    }
}

/// Whether a field of `len` bytes is converted as an integer.
pub open spec fn is_swap_width(len: int) -> bool {
    len == 2 || len == 4 || len == 8 || len == 16
}

/// The writes for one mapped field of `len` bytes.
pub open spec fn field_writes(src: int, dst: int, len: int, little_endian: bool) -> Seq<(int, int)> {
    if is_swap_width(len) {
        swap_elem_writes(src, dst, len, little_endian)
    } else {
        copy_writes(src, dst, len)
    }
}

// ---------------------------------------------------------------------------
// Mappings and the meaning of a plan
// ---------------------------------------------------------------------------

/// One IE to destination-offset mapping in a [`DecodePlan`].
#[derive(Debug, Clone, Copy, PartialEq, Eq, Structural)]
#[non_exhaustive]
pub struct Mapping {
    /// IE identifier (low 15 bits of the IE word in a field specifier).
    pub ie_id: u16,
    /// Enterprise number, if this maps an enterprise-specific IE.
    pub enterprise: Option<u32>,
    /// Byte offset within the destination buffer where this field's bytes
    /// (in native byte order) are written.
    pub dst_offset: u32,
}

impl Mapping {
    /// Map an IANA IE (no enterprise number) at `ie_id` to `dst_offset`.
    pub fn new(ie_id: u16, dst_offset: u32) -> (r: Self)
        ensures
            r == (Mapping { ie_id, enterprise: None, dst_offset }),
    {
        Mapping { ie_id, enterprise: None, dst_offset }
    }

    /// Map an enterprise-specific IE at `(enterprise, ie_id)` to
    /// `dst_offset`.
    pub fn enterprise(enterprise: u32, ie_id: u16, dst_offset: u32) -> (r: Self)
        ensures
            r == (Mapping { ie_id, enterprise: Some(enterprise), dst_offset }),
    {
        Mapping { ie_id, enterprise: Some(enterprise), dst_offset }
    }
}

/// Whether mapping `m` refers to the IE that field `f` carries.
pub open spec fn mapping_matches(m: Mapping, f: FieldSpecifier) -> bool {
    m.ie_id == f.information_element_id && m.enterprise == f.enterprise_number
}

/// The first mapping in `ms` that refers to field `f`.
pub open spec fn spec_find_mapping(ms: Seq<Mapping>, f: FieldSpecifier) -> Option<Mapping>
    decreases ms.len(),
{
    if ms.len() == 0 {
        None
    } else if mapping_matches(ms[0], f) {
        Some(ms[0])
    } else {
        spec_find_mapping(ms.drop_first(), f)
    }
}

/// The total wire length of `fields`.
pub open spec fn spec_fields_len(fields: Seq<FieldSpecifier>) -> int
    decreases fields.len(),
{
    if fields.len() == 0 {
        0
    } else {
        spec_fields_len(fields.drop_last()) + fields.last().field_length
    }
}

/// The byte writes that decoding with `mappings` performs on a record of
/// `fields`: each mapped field in template order, unmapped fields skipped.
pub open spec fn spec_plan_writes(fields: Seq<FieldSpecifier>, ms: Seq<Mapping>, little_endian: bool) -> Seq<(int, int)>
    decreases fields.len(),
{
    if fields.len() == 0 {
        Seq::empty()
    } else {
        spec_plan_writes(fields.drop_last(), ms, little_endian) + match spec_find_mapping(ms, fields.last()) {
            Some(m) => field_writes(
                spec_fields_len(fields.drop_last()),
                m.dst_offset as int,
                fields.last().field_length as int,
                little_endian,
            ),
            None => Seq::empty(),
        }
    }
}

/// The source and destination lengths a plan needs, walking the fields in
/// order; `InvalidLength` once a destination end or the source length
/// exceeds `u32`.
pub open spec fn spec_plan_scan(fields: Seq<FieldSpecifier>, ms: Seq<Mapping>) -> Result<(int, int)>
    decreases fields.len(),
{
    if fields.len() == 0 {
        Ok((0, 0))
    } else {
        match spec_plan_scan(fields.drop_last(), ms) {
            Ok((src, dmax)) => {
                let w = fields.last().field_length as int;
                let d = match spec_find_mapping(ms, fields.last()) {
                    Some(m) => if m.dst_offset + w > u32::MAX {
                        Err(Error::InvalidLength)
                    } else if m.dst_offset + w > dmax {
                        Ok(m.dst_offset + w)
                    } else {
                        Ok(dmax)
                    },
                    None => Ok(dmax),
                };
                match d {
                    Ok(d2) => if src + w > u32::MAX {
                        Err(Error::InvalidLength)
                    } else {
                        Ok((src + w, d2))
                    },
                    Err(e) => Err(e),
                }
            },
            Err(e) => Err(e),
        }
    }
}

/// Whether `fields` contains a variable-length field.
pub open spec fn spec_has_varlen(fields: Seq<FieldSpecifier>) -> bool {
    exists|i: int| 0 <= i < fields.len() && is_varlen(#[trigger] fields[i])
}

/// Whether two mappings refer to the same IE.
pub open spec fn spec_has_duplicate(ms: Seq<Mapping>) -> bool {
    exists|i: int, j: int|
        0 <= i < j < ms.len() && #[trigger] ms[i].ie_id == #[trigger] ms[j].ie_id && ms[i].enterprise
            == ms[j].enterprise
}

/// Whether every mapping refers to some field of the template.
pub open spec fn spec_all_found(fields: Seq<FieldSpecifier>, ms: Seq<Mapping>) -> bool {
    forall|j: int| 0 <= j < ms.len() ==> exists|i: int| 0 <= i < fields.len() && mapping_matches(#[trigger] ms[j], #[trigger] fields[i])
}

/// Outcome of building a plan: the source record length and destination
/// buffer length, or the error.
pub open spec fn spec_build(fields: Seq<FieldSpecifier>, ms: Seq<Mapping>) -> Result<(int, int)> {
    if spec_has_varlen(fields) {
        Err(Error::VariableLengthInPlan)
    } else if spec_has_duplicate(ms) {
        Err(Error::DuplicateMapping)
    } else {
        match spec_plan_scan(fields, ms) {
            Ok((src, dst)) => if !spec_all_found(fields, ms) {
                Err(Error::MappingNotFound)
            } else {
                Ok((src, dst))
            },
            Err(e) => Err(e),
        }
    }
}

// ---------------------------------------------------------------------------
// Plan operations
// ---------------------------------------------------------------------------

/// Width of one element in a swap run.
#[derive(Debug, Clone, Copy, PartialEq, Eq, Structural)]
enum SwapWidth {
    U16,
    U32,
    U64,
    U128,
}

impl SwapWidth {
    spec fn spec_bytes(self) -> int {
        match self {
            SwapWidth::U16 => 2,
            SwapWidth::U32 => 4,
            SwapWidth::U64 => 8,
            SwapWidth::U128 => 16,
        }
    }

    /// The element width in bytes.
    fn bytes(self) -> (r: u32)
        ensures
            r == self.spec_bytes(),
    {
        match self {
            SwapWidth::U16 => 2,
            SwapWidth::U32 => 4,
            SwapWidth::U64 => 8,
            SwapWidth::U128 => 16,
        }
    }

    /// The swap width for a field length, if the field is converted as an
    /// integer.
    fn from_field_length(len: u16) -> (r: Option<Self>)
        ensures
            r == spec_swap_width(len),
            is_swap_width(len as int) ==> (r matches Some(w) && w.spec_bytes() == len),
            !is_swap_width(len as int) ==> r is None,
    {
        match len {
            2 => Some(SwapWidth::U16),
            4 => Some(SwapWidth::U32),
            8 => Some(SwapWidth::U64),
            16 => Some(SwapWidth::U128),
            _ => None,
        }
    }
}

/// The swap width of a field of `len` bytes, if it is converted as an
/// integer.
spec fn spec_swap_width(len: u16) -> Option<SwapWidth> {
    if len == 2 {
        Some(SwapWidth::U16)
    } else if len == 4 {
        Some(SwapWidth::U32)
    } else if len == 8 {
        Some(SwapWidth::U64)
    } else if len == 16 {
        Some(SwapWidth::U128)
    } else {
        None
    }
}

/// `a + b` saturated at `u32::MAX`.
spec fn sat_add_u32(a: int, b: int) -> int {
    if a + b > u32::MAX {
        u32::MAX as int
    } else {
        a + b
    }
}

/// One step of a [`DecodePlan`].
#[derive(Debug, Clone, Copy)]
enum Op {
    /// Convert a run of `count` adjacent integers of `width` bytes.
    Swap { width: SwapWidth, count: u16, src: u32, dst: u32 },
    /// Copy `len` bytes unchanged.
    Copy { src: u32, dst: u32, len: u32 },
}

/// The bytes an operation reads and writes.
spec fn op_size(op: Op) -> int {
    match op {
        Op::Swap { width, count, .. } => width.spec_bytes() * count,
        Op::Copy { len, .. } => len as int,
    }
}

spec fn op_writes(op: Op, little_endian: bool) -> Seq<(int, int)> {
    match op {
        Op::Swap { width, count, src, dst } => swap_writes(src as int, dst as int, width.spec_bytes(), count as nat, little_endian),
        Op::Copy { src, dst, len } => copy_writes(src as int, dst as int, len as int),
    }
}

spec fn ops_writes(ops: Seq<Op>, little_endian: bool) -> Seq<(int, int)>
    decreases ops.len(),
{
    if ops.len() == 0 {
        Seq::empty()
    } else {
        ops_writes(ops.drop_last(), little_endian) + op_writes(ops.last(), little_endian)
    }
}

/// Every operation reads within `src_len` bytes and writes within
/// `dst_len` bytes.
spec fn ops_within(ops: Seq<Op>, src_len: int, dst_len: int) -> bool {
    forall|k: int| 0 <= k < ops.len() ==> op_within(#[trigger] ops[k], src_len, dst_len)
}

spec fn op_within(op: Op, src_len: int, dst_len: int) -> bool {
    match op {
        Op::Swap { src, dst, .. } => src + op_size(op) <= src_len && dst + op_size(op) <= dst_len,
        Op::Copy { src, dst, .. } => src + op_size(op) <= src_len && dst + op_size(op) <= dst_len,
    }
}

proof fn lemma_ops_within_mono(ops: Seq<Op>, s1: int, d1: int, s2: int, d2: int)
    requires
        ops_within(ops, s1, d1),
        s1 <= s2,
        d1 <= d2,
    ensures
        ops_within(ops, s2, d2),
{
}

proof fn lemma_swap_writes_one(src: int, dst: int, width: int, le: bool)
    ensures
        swap_writes(src, dst, width, 1, le) == swap_elem_writes(src, dst, width, le),
{
    assert(swap_writes(src, dst, width, 0, le) == Seq::<(int, int)>::empty());
    assert(swap_writes(src, dst, width, 1, le) =~= swap_elem_writes(src, dst, width, le));
}

/// The operations after appending a one-element swap run of `width` from
/// `src` to `dst`: the last run grows by one element when it is a run of the
/// same width, below the maximum count, that ends just at `src` and `dst`;
/// otherwise a new run of one element is appended.
spec fn spec_push_swap(ops: Seq<Op>, width: SwapWidth, src: u32, dst: u32) -> Seq<Op> {
    let w = width.spec_bytes();
    if ops.len() > 0 && (match ops.last() {
        Op::Swap { width: pw, count, src: ps, dst: pd } => pw == width && count < 0xFFFF
            && sat_add_u32(ps as int, count * w) == src && sat_add_u32(pd as int, count * w) == dst,
        Op::Copy { .. } => false,
    }) {
        match ops.last() {
            Op::Swap { width: pw, count, src: ps, dst: pd } => ops.update(
                ops.len() - 1,
                Op::Swap { width: pw, count: (count + 1) as u16, src: ps, dst: pd },
            ),
            Op::Copy { .. } => ops,
        }
    } else {
        ops.push(Op::Swap { width, count: 1, src, dst })
    }
}

/// The operations after appending a copy of `len` bytes from `src` to
/// `dst`: the last copy grows when it ends just at `src` and `dst` and the
/// grown length fits a `u32`; otherwise a new copy is appended.
spec fn spec_push_copy(ops: Seq<Op>, src: u32, dst: u32, len: u32) -> Seq<Op> {
    if ops.len() > 0 && (match ops.last() {
        Op::Copy { src: ps, dst: pd, len: pl } => sat_add_u32(ps as int, pl as int) == src
            && sat_add_u32(pd as int, pl as int) == dst && pl + len <= u32::MAX,
        Op::Swap { .. } => false,
    }) {
        match ops.last() {
            Op::Copy { src: ps, dst: pd, len: pl } => ops.update(
                ops.len() - 1,
                Op::Copy { src: ps, dst: pd, len: (pl + len) as u32 },
            ),
            Op::Swap { .. } => ops,
        }
    } else {
        ops.push(Op::Copy { src, dst, len })
    }
}

/// The operations a plan for `fields` and `ms` holds: one appended (or
/// merged into the previous run) per mapped field, in template order.
spec fn spec_plan_ops(fields: Seq<FieldSpecifier>, ms: Seq<Mapping>) -> Seq<Op>
    decreases fields.len(),
{
    if fields.len() == 0 {
        Seq::empty()
    } else {
        let prev = spec_plan_ops(fields.drop_last(), ms);
        let f = fields.last();
        let src = spec_fields_len(fields.drop_last()) as u32;
        match spec_find_mapping(ms, f) {
            Some(m) => match spec_swap_width(f.field_length) {
                Some(sw) => spec_push_swap(prev, sw, src, m.dst_offset),
                None => spec_push_copy(prev, src, m.dst_offset, f.field_length as u32),
            },
            None => prev,
        }
    }
}

/// The number of operations of the plan for `fields` and `ms`, after
/// merging adjacent runs.
pub closed spec fn spec_op_count(fields: Seq<FieldSpecifier>, ms: Seq<Mapping>) -> int {
    spec_plan_ops(fields, ms).len() as int
}

/// Append a one-element swap run, extending the last run when it is a
/// same-width run that ends just where this element starts on both sides.
fn push_swap(ops: &mut Vec<Op>, width: SwapWidth, src: u32, dst: u32)
    requires
        ops_within(old(ops)@, src as int, dst as int + 0x1_0000_0000),
        dst + width.spec_bytes() <= u32::MAX,
    ensures
        final(ops)@ == spec_push_swap(old(ops)@, width, src, dst),
        forall|le: bool| #[trigger] ops_writes(final(ops)@, le) == ops_writes(old(ops)@, le)
            + swap_elem_writes(src as int, dst as int, width.spec_bytes(), le),
        forall|s2: int, d2: int| ops_within(old(ops)@, s2, d2) && src + width.spec_bytes() <= s2
            && dst + width.spec_bytes() <= d2 ==> ops_within(final(ops)@, s2, d2),
{
    let w = width.bytes();
    let n = ops.len();
    if n > 0 {
        if let Op::Swap { width: pw, count, src: ps, dst: pd } = ops[n - 1] {
            proof {
                assert(op_within(ops@[n - 1], src as int, dst as int + 0x1_0000_0000));
            }
            if pw == width && count < 0xFFFF && ps.saturating_add(count as u32 * w) == src
                && pd.saturating_add(count as u32 * w) == dst
            {
                let ghost before = ops@;
                ops.set(n - 1, Op::Swap { width: pw, count: count + 1, src: ps, dst: pd });
                proof {
                    assert(ops@.drop_last() =~= before.drop_last());
                    assert forall|le: bool| #[trigger] ops_writes(ops@, le) == ops_writes(before, le)
                        + swap_elem_writes(src as int, dst as int, width.spec_bytes(), le) by {
                        assert(ops_writes(ops@, le) =~= ops_writes(before, le)
                            + swap_elem_writes(src as int, dst as int, width.spec_bytes(), le));
                    }
                    assert forall|s2: int, d2: int| ops_within(before, s2, d2) && src + width.spec_bytes() <= s2
                        && dst + width.spec_bytes() <= d2 implies ops_within(ops@, s2, d2) by {
                        assert forall|k: int| 0 <= k < ops@.len() implies op_within(#[trigger] ops@[k], s2, d2) by {
                            if k < n - 1 {
                                assert(op_within(before[k], s2, d2));
                            } else {
                                assert(width.spec_bytes() * (count + 1) == width.spec_bytes() * count + width.spec_bytes()) by (nonlinear_arith);
                            }
                        }
                    }
                }
                return;
            }
        }
    }
    let ghost before = ops@;
    ops.push(Op::Swap { width, count: 1, src, dst });
    proof {
        assert(ops@.drop_last() =~= before);
        lemma_swap_writes_one(src as int, dst as int, width.spec_bytes(), true);
        lemma_swap_writes_one(src as int, dst as int, width.spec_bytes(), false);
        assert forall|s2: int, d2: int| ops_within(before, s2, d2) && src + width.spec_bytes() <= s2
            && dst + width.spec_bytes() <= d2 implies ops_within(ops@, s2, d2) by {
            assert forall|k: int| 0 <= k < ops@.len() implies op_within(#[trigger] ops@[k], s2, d2) by {
                if k < before.len() {
                    assert(op_within(before[k], s2, d2));
                }
            }
        }
    }
}

/// Append a copy, extending the last copy when it ends just where this one
/// starts on both sides.
fn push_copy(ops: &mut Vec<Op>, src: u32, dst: u32, len: u32)
    requires
        ops_within(old(ops)@, src as int, dst as int + 0x1_0000_0000),
        dst + len <= u32::MAX,
    ensures
        final(ops)@ == spec_push_copy(old(ops)@, src, dst, len),
        forall|le: bool| #[trigger] ops_writes(final(ops)@, le) == ops_writes(old(ops)@, le)
            + copy_writes(src as int, dst as int, len as int),
        forall|s2: int, d2: int| ops_within(old(ops)@, s2, d2) && src + len <= s2
            && dst + len <= d2 ==> ops_within(final(ops)@, s2, d2),
{
    let n = ops.len();
    if n > 0 {
        if let Op::Copy { src: ps, dst: pd, len: pl } = ops[n - 1] {
            proof {
                assert(op_within(ops@[n - 1], src as int, dst as int + 0x1_0000_0000));
            }
            if ps.saturating_add(pl) == src && pd.saturating_add(pl) == dst {
                if let Some(new_len) = pl.checked_add(len) {
                    let ghost before = ops@;
                    ops.set(n - 1, Op::Copy { src: ps, dst: pd, len: new_len });
                    proof {
                        assert(ops@.drop_last() =~= before.drop_last());
                        assert forall|le: bool| #[trigger] ops_writes(ops@, le) == ops_writes(before, le)
                            + copy_writes(src as int, dst as int, len as int) by {
                            assert(ops_writes(ops@, le) =~= ops_writes(before, le)
                                + copy_writes(src as int, dst as int, len as int));
                        }
                        assert forall|s2: int, d2: int| ops_within(before, s2, d2) && src + len <= s2
                            && dst + len <= d2 implies ops_within(ops@, s2, d2) by {
                            assert forall|k: int| 0 <= k < ops@.len() implies op_within(#[trigger] ops@[k], s2, d2) by {
                                if k < n - 1 {
                                    assert(op_within(before[k], s2, d2));
                                }
                            }
                        }
                    }
                    return;
                }
            }
        }
    }
    let ghost before = ops@;
    ops.push(Op::Copy { src, dst, len });
    proof {
        assert(ops@.drop_last() =~= before);
        assert forall|s2: int, d2: int| ops_within(before, s2, d2) && src + len <= s2
            && dst + len <= d2 implies ops_within(ops@, s2, d2) by {
            assert forall|k: int| 0 <= k < ops@.len() implies op_within(#[trigger] ops@[k], s2, d2) by {
                if k < before.len() {
                    assert(op_within(before[k], s2, d2));
                }
            }
        }
    }
}

// ---------------------------------------------------------------------------
// Executing byte writes
// ---------------------------------------------------------------------------

/// Applying `a` then `b` is applying their concatenation.
pub proof fn lemma_apply_concat(a: Seq<(int, int)>, b: Seq<(int, int)>, src: Seq<u8>, dst: Seq<u8>)
    ensures
        apply_writes(a + b, src, dst) == apply_writes(b, src, apply_writes(a, src, dst)),
    decreases b.len(),
{
    if b.len() == 0 {
        assert(a + b =~= a);
    } else {
        assert((a + b).drop_last() =~= a + b.drop_last());
        lemma_apply_concat(a, b.drop_last(), src, dst);
    }
}

/// Applying one more write updates one byte.
proof fn lemma_apply_push(ws: Seq<(int, int)>, w: (int, int), src: Seq<u8>, dst: Seq<u8>)
    ensures
        apply_writes(ws.push(w), src, dst) == apply_writes(ws, src, dst).update(w.0, src[w.1]),
{
    assert(ws.push(w).drop_last() =~= ws);
}

// ---------------------------------------------------------------------------
// Where each mapped field lands
// ---------------------------------------------------------------------------

/// The source position of the last write in `ws` to destination `p`, if
/// any write targets `p`.
pub open spec fn last_write(ws: Seq<(int, int)>, p: int) -> Option<int>
    decreases ws.len(),
{
    if ws.len() == 0 {
        None
    } else if ws.last().0 == p {
        Some(ws.last().1)
    } else {
        last_write(ws.drop_last(), p)
    }
}

/// The byte offset of field `i` within a record of `fields`.
pub open spec fn field_offset(fields: Seq<FieldSpecifier>, i: int) -> int {
    spec_fields_len(fields.take(i))
}

/// Whether field `j` of the template is mapped to a destination range that
/// covers byte `p`.
pub open spec fn field_covers(fields: Seq<FieldSpecifier>, ms: Seq<Mapping>, j: int, p: int) -> bool {
    match spec_find_mapping(ms, fields[j]) {
        Some(m) => m.dst_offset <= p < m.dst_offset + fields[j].field_length,
        None => false,
    }
}

/// The destination length that a successful scan yields.
pub open spec fn scan_dst(fields: Seq<FieldSpecifier>, ms: Seq<Mapping>) -> int {
    match spec_plan_scan(fields, ms) {
        Ok((_, d)) => d,
        Err(_) => 0,
    }
}

/// The destination length of the plan that builds from `fields` and `ms`.
pub open spec fn build_dst(fields: Seq<FieldSpecifier>, ms: Seq<Mapping>) -> int {
    match spec_build(fields, ms) {
        Ok((_, d)) => d,
        Err(_) => 0,
    }
}

/// Whether every write in `ws` targets a byte below `n`.
pub open spec fn writes_within(ws: Seq<(int, int)>, n: int) -> bool {
    forall|t: int| 0 <= t < ws.len() ==> 0 <= #[trigger] ws[t].0 < n
}

/// Byte `p` of the result of applying `ws` is the source byte of the last
/// write to `p`, or the old byte if none writes it.
proof fn lemma_apply_last_write(ws: Seq<(int, int)>, src: Seq<u8>, dst: Seq<u8>, p: int)
    requires
        0 <= p < dst.len(),
        writes_within(ws, dst.len() as int),
    ensures
        apply_writes(ws, src, dst).len() == dst.len(),
        apply_writes(ws, src, dst)[p] == match last_write(ws, p) {
            Some(s) => src[s],
            None => dst[p],
        },
    decreases ws.len(),
{
    if ws.len() > 0 {
        assert(0 <= ws[ws.len() - 1].0 < dst.len());
        lemma_apply_last_write(ws.drop_last(), src, dst, p);
    }
}

/// The writes of a plan that scans successfully stay below its destination
/// length.
proof fn lemma_plan_writes_within(fields: Seq<FieldSpecifier>, ms: Seq<Mapping>, le: bool)
    requires
        spec_plan_scan(fields, ms) is Ok,
    ensures
        writes_within(spec_plan_writes(fields, ms, le), scan_dst(fields, ms)),
        scan_dst(fields, ms) >= 0,
    decreases fields.len(),
{
    if fields.len() > 0 {
        let prefix = fields.drop_last();
        lemma_plan_writes_within(prefix, ms, le);
        let d0 = scan_dst(prefix, ms);
        let d = scan_dst(fields, ms);
        let a = spec_plan_writes(prefix, ms, le);
        let b = match spec_find_mapping(ms, fields.last()) {
            Some(m) => field_writes(spec_fields_len(prefix), m.dst_offset as int, fields.last().field_length as int, le),
            None => Seq::<(int, int)>::empty(),
        };
        assert(spec_plan_writes(fields, ms, le) == a + b);
        assert forall|t: int| 0 <= t < (a + b).len() implies 0 <= #[trigger] (a + b)[t].0 < d by {
            if t >= a.len() {
                assert((a + b)[t] == b[t - a.len()]);
            } else {
                assert((a + b)[t] == a[t]);
            }
        }
    }
}

/// The last write to `p` in `a + b` is in `b` if `b` writes `p` at all.
proof fn lemma_last_write_concat(a: Seq<(int, int)>, b: Seq<(int, int)>, p: int)
    ensures
        last_write(a + b, p) == match last_write(b, p) {
            Some(s) => Some(s),
            None => last_write(a, p),
        },
    decreases b.len(),
{
    if b.len() == 0 {
        assert(a + b =~= a);
    } else {
        assert((a + b).drop_last() =~= a + b.drop_last());
        lemma_last_write_concat(a, b.drop_last(), p);
    }
}

/// The writes of one field target exactly its destination range, and the
/// byte at `dst + k` comes from `src + k`, or from `src + len - 1 - k` for an
/// integer on a little-endian machine.
proof fn lemma_field_last_write(src: int, dst: int, len: int, le: bool, p: int)
    requires
        len >= 0,
    ensures
        last_write(field_writes(src, dst, len, le), p) == if dst <= p < dst + len {
            Some(src + if is_swap_width(len) && le { len - 1 - (p - dst) } else { p - dst })
        } else {
            None::<int>
        },
{
    let f = |i: int| (dst + i, src + if is_swap_width(len) && le { len - 1 - i } else { i });
    assert(field_writes(src, dst, len, le) =~= Seq::new(len as nat, f));
    lemma_new_last_write(len as nat, f, dst, p);
}

/// Last write to `p` among writes whose `i`-th entry targets `dst + i`.
proof fn lemma_new_last_write(n: nat, f: spec_fn(int) -> (int, int), dst: int, p: int)
    requires
        forall|i: int| 0 <= i < n ==> (#[trigger] f(i)).0 == dst + i,
    ensures
        last_write(Seq::new(n, f), p) == if dst <= p < dst + n {
            Some(f(p - dst).1)
        } else {
            None::<int>
        },
    decreases n,
{
    if n > 0 {
        assert(Seq::new(n, f).drop_last() =~= Seq::new((n - 1) as nat, f));
        lemma_new_last_write((n - 1) as nat, f, dst, p);
        assert(f((n - 1) as int).0 == dst + n - 1);
    }
}

/// The last write to destination byte `p` when a plan decodes a record of
/// `fields`: from the last mapped field whose range covers `p`.
proof fn lemma_plan_last_write(fields: Seq<FieldSpecifier>, ms: Seq<Mapping>, le: bool, i: int, p: int)
    requires
        0 <= i < fields.len(),
        field_covers(fields, ms, i, p),
        forall|j: int| i < j < fields.len() ==> !#[trigger] field_covers(fields, ms, j, p),
    ensures
        last_write(spec_plan_writes(fields, ms, le), p) == Some(placed_source(fields, ms, le, i, p)),
    decreases fields.len(),
{
    let n = fields.len() - 1;
    let prefix = fields.drop_last();
    lemma_last_write_concat(
        spec_plan_writes(prefix, ms, le),
        match spec_find_mapping(ms, fields.last()) {
            Some(m) => field_writes(spec_fields_len(prefix), m.dst_offset as int, fields.last().field_length as int, le),
            None => Seq::empty(),
        },
        p,
    );
    if let Some(m) = spec_find_mapping(ms, fields.last()) {
        lemma_field_last_write(spec_fields_len(prefix), m.dst_offset as int, fields.last().field_length as int, le, p);
    }
    if i == n {
        assert(fields.take(i) =~= prefix);
    } else {
        assert(!field_covers(fields, ms, n, p));
        assert(prefix[i] == fields[i]);
        assert forall|j: int| i < j < prefix.len() implies !field_covers(prefix, ms, j, p) by {
            assert(prefix[j] == fields[j]);
            assert(!field_covers(fields, ms, j, p));
        }
        lemma_plan_last_write(prefix, ms, le, i, p);
        assert(prefix.take(i) =~= fields.take(i));
    }
}

/// No write of the plan targets a byte that no mapped field covers.
proof fn lemma_plan_no_write(fields: Seq<FieldSpecifier>, ms: Seq<Mapping>, le: bool, p: int)
    requires
        forall|j: int| 0 <= j < fields.len() ==> !#[trigger] field_covers(fields, ms, j, p),
    ensures
        last_write(spec_plan_writes(fields, ms, le), p) is None,
    decreases fields.len(),
{
    if fields.len() > 0 {
        let prefix = fields.drop_last();
        lemma_last_write_concat(
            spec_plan_writes(prefix, ms, le),
            match spec_find_mapping(ms, fields.last()) {
                Some(m) => field_writes(spec_fields_len(prefix), m.dst_offset as int, fields.last().field_length as int, le),
                None => Seq::empty(),
            },
            p,
        );
        if let Some(m) = spec_find_mapping(ms, fields.last()) {
            lemma_field_last_write(spec_fields_len(prefix), m.dst_offset as int, fields.last().field_length as int, le, p);
            assert(!field_covers(fields, ms, fields.len() - 1, p));
        }
        assert forall|j: int| 0 <= j < prefix.len() implies !field_covers(prefix, ms, j, p) by {
            assert(prefix[j] == fields[j]);
            assert(!field_covers(fields, ms, j, p));
        }
        lemma_plan_no_write(prefix, ms, le, p);
    }
}

/// A byte that a mapped field covers lies below the destination length of
/// a plan that scans successfully.
proof fn lemma_plan_covers_within(fields: Seq<FieldSpecifier>, ms: Seq<Mapping>, i: int, p: int)
    requires
        spec_plan_scan(fields, ms) is Ok,
        0 <= i < fields.len(),
        field_covers(fields, ms, i, p),
    ensures
        0 <= p < scan_dst(fields, ms),
    decreases fields.len(),
{
    let prefix = fields.drop_last();
    if i < fields.len() - 1 {
        assert(prefix[i] == fields[i]);
        lemma_plan_covers_within(prefix, ms, i, p);
    }
}

/// The source byte that mapped field `i` puts at destination byte `p` of
/// its range: byte `k = p - dst_offset` of the field, or byte `len - 1 - k`
/// for an integer field (2, 4, 8 or 16 bytes) on a little-endian machine.
pub open spec fn placed_source(fields: Seq<FieldSpecifier>, ms: Seq<Mapping>, le: bool, i: int, p: int) -> int {
    let len = fields[i].field_length as int;
    let k = p - spec_find_mapping(ms, fields[i])->0.dst_offset;
    field_offset(fields, i) + if is_swap_width(len) && le { len - 1 - k } else { k }
}

/// Decoding a record with a plan puts each mapped field at its destination
/// offset, in native byte order: every byte `p` that mapped field `i`
/// covers holds the field's corresponding source byte, unless a later
/// mapped field's destination range also covers `p` (the later field then
/// wins).
pub proof fn lemma_plan_places_field(
    fields: Seq<FieldSpecifier>,
    ms: Seq<Mapping>,
    le: bool,
    src: Seq<u8>,
    dst: Seq<u8>,
    i: int,
    p: int,
)
    requires
        spec_build(fields, ms) is Ok,
        build_dst(fields, ms) <= dst.len(),
        0 <= i < fields.len(),
        field_covers(fields, ms, i, p),
        forall|j: int| i < j < fields.len() ==> !#[trigger] field_covers(fields, ms, j, p),
    ensures
        apply_writes(spec_plan_writes(fields, ms, le), src, dst)[p] == src[placed_source(fields, ms, le, i, p)],
{
    lemma_plan_writes_within(fields, ms, le);
    lemma_plan_covers_within(fields, ms, i, p);
    lemma_plan_last_write(fields, ms, le, i, p);
    lemma_apply_last_write(spec_plan_writes(fields, ms, le), src, dst, p);
}

/// Decoding with a plan writes integer fields in native byte order: on a
/// little-endian machine, byte `k` of the destination of a mapped field of
/// 2, 4, 8 or 16 bytes is byte `len - 1 - k` of the field; every other field,
/// and every field on a big-endian machine, is copied byte for byte (unless
/// a later mapped field also covers that destination byte).
pub proof fn lemma_plan_native_order(
    fields: Seq<FieldSpecifier>,
    ms: Seq<Mapping>,
    le: bool,
    src: Seq<u8>,
    dst: Seq<u8>,
    i: int,
    p: int,
)
    requires
        spec_build(fields, ms) is Ok,
        build_dst(fields, ms) <= dst.len(),
        0 <= i < fields.len(),
        field_covers(fields, ms, i, p),
        forall|j: int| i < j < fields.len() ==> !#[trigger] field_covers(fields, ms, j, p),
    ensures
        le && (fields[i].field_length == 2 || fields[i].field_length == 4 || fields[i].field_length == 8
            || fields[i].field_length == 16) ==> apply_writes(spec_plan_writes(fields, ms, le), src, dst)[p]
            == src[field_offset(fields, i) + fields[i].field_length - 1 - (p - spec_find_mapping(ms, fields[i])->0.dst_offset)],
        !(le && (fields[i].field_length == 2 || fields[i].field_length == 4 || fields[i].field_length == 8
            || fields[i].field_length == 16)) ==> apply_writes(spec_plan_writes(fields, ms, le), src, dst)[p]
            == src[field_offset(fields, i) + (p - spec_find_mapping(ms, fields[i])->0.dst_offset)],
{
    lemma_plan_places_field(fields, ms, le, src, dst, i, p);
}

/// Decoding a record with a plan leaves every destination byte that no
/// mapped field covers unchanged.
pub proof fn lemma_plan_keeps_uncovered(
    fields: Seq<FieldSpecifier>,
    ms: Seq<Mapping>,
    le: bool,
    src: Seq<u8>,
    dst: Seq<u8>,
    p: int,
)
    requires
        spec_build(fields, ms) is Ok,
        build_dst(fields, ms) <= dst.len(),
        0 <= p < dst.len(),
        forall|j: int| 0 <= j < fields.len() ==> !#[trigger] field_covers(fields, ms, j, p),
    ensures
        apply_writes(spec_plan_writes(fields, ms, le), src, dst).len() == dst.len(),
        apply_writes(spec_plan_writes(fields, ms, le), src, dst)[p] == dst[p],
{
    lemma_plan_writes_within(fields, ms, le);
    lemma_plan_no_write(fields, ms, le, p);
    lemma_apply_last_write(spec_plan_writes(fields, ms, le), src, dst, p);
}

/// Copy `len` bytes from `src[s..]` to `dst[d..]`.
fn run_copy(src: &[u8], dst: &mut [u8], s: usize, d: usize, len: usize)
    requires
        s + len <= src.len(),
        d + len <= old(dst).len(),
    ensures
        final(dst)@.len() == old(dst)@.len(),
        final(dst)@ == apply_writes(copy_writes(s as int, d as int, len as int), src@, old(dst)@),
{
    let ghost dst0 = dst@;
    let mut i: usize = 0;
    proof {
        assert(copy_writes(s as int, d as int, len as int).take(0) =~= Seq::<(int, int)>::empty());
    }
    while i < len
        invariant
            i <= len,
            s + len <= src.len(),
            d + len <= dst.len(),
            dst@.len() == dst0.len(),
            dst@ == apply_writes(copy_writes(s as int, d as int, len as int).take(i as int), src@, dst0),
        decreases len - i,
    {
        let ghost ws = copy_writes(s as int, d as int, len as int);
        proof {
            assert(ws.take(i + 1) =~= ws.take(i as int).push((d + i, s + i)));
            lemma_apply_push(ws.take(i as int), (d + i, s + i), src@, dst0);
        }
        dst[d + i] = src[s + i];
        i = i + 1;
    }
    proof {
        assert(copy_writes(s as int, d as int, len as int).take(len as int) =~= copy_writes(s as int, d as int, len as int));
    }
}

/// Convert `count` adjacent integers of `w` bytes from `src[s..]` to
/// `dst[d..]`, reversing each one's bytes when `little_endian` holds.
fn run_swap(src: &[u8], dst: &mut [u8], s: usize, d: usize, w: usize, count: usize, little_endian: bool)
    requires
        s + count * w <= src.len(),
        d + count * w <= old(dst).len(),
    ensures
        final(dst)@.len() == old(dst)@.len(),
        final(dst)@ == apply_writes(swap_writes(s as int, d as int, w as int, count as nat, little_endian), src@, old(dst)@),
{
    let ghost dst0 = dst@;
    let mut k: usize = 0;
    let mut sb: usize = s;
    let mut db: usize = d;
    while k < count
        invariant
            k <= count,
            s + count * w <= src.len(),
            d + count * w <= dst.len(),
            dst@.len() == dst0.len(),
            sb == s + k * w,
            db == d + k * w,
            dst@ == apply_writes(swap_writes(s as int, d as int, w as int, k as nat, little_endian), src@, dst0),
        decreases count - k,
    {
        proof {
            assert(k * w + w <= count * w) by (nonlinear_arith)
                requires
                    k < count,
            ;
        }
        let ghost before = swap_writes(s as int, d as int, w as int, k as nat, little_endian);
        let ghost elem = swap_elem_writes(sb as int, db as int, w as int, little_endian);
        let mut i: usize = 0;
        proof {
            assert(before + elem.take(0) =~= before);
        }
        while i < w
            invariant
                i <= w,
                sb + w <= src.len(),
                db + w <= dst.len(),
                dst@.len() == dst0.len(),
                elem == swap_elem_writes(sb as int, db as int, w as int, little_endian),
                dst@ == apply_writes(before + elem.take(i as int), src@, dst0),
            decreases w - i,
        {
            let j = if little_endian { w - 1 - i } else { i };
            proof {
                assert(before + elem.take(i + 1) =~= (before + elem.take(i as int)).push((db + i, sb + j)));
                lemma_apply_push(before + elem.take(i as int), (db + i, sb + j), src@, dst0);
            }
            dst[db + i] = src[sb + j];
            i = i + 1;
        }
        proof {
            assert(elem.take(w as int) =~= elem);
            assert(s + ((k + 1) - 1) * w == sb) by (nonlinear_arith)
                requires
                    sb == s + k * w,
            ;
            assert(d + ((k + 1) - 1) * w == db) by (nonlinear_arith)
                requires
                    db == d + k * w,
            ;
            assert(swap_writes(s as int, d as int, w as int, (k + 1) as nat, little_endian) == before + elem);
            assert((k + 1) * w == k * w + w) by (nonlinear_arith);
        }
        sb = sb + w;
        db = db + w;
        k = k + 1;
    }
}

/// `u16::from_ne_bytes`: the integer whose native-order representation is
/// `bytes`.
///
/// Claims: the result is the little-endian or the big-endian reading of the
/// two bytes (a machine stores integers in one of these orders). Which one
/// depends on the machine and is not stated.
#[verifier::external_body]
fn u16_from_ne_bytes(bytes: [u8; 2]) -> (r: u16)
    ensures
        r == bytes@[0] + 256 * bytes@[1] || r == 256 * bytes@[0] + bytes@[1],
{
    u16::from_ne_bytes(bytes)
}

/// Whether this machine stores integers least significant byte first.
///
/// The answer depends on the machine the code runs on, so no clause states
/// it: either value is a possible outcome, and `apply` states its result for
/// both.
fn native_little_endian() -> bool {
    u16_from_ne_bytes([1u8, 0u8]) == 1
}

/// Convert a run of big-endian `u16`s in `src` to native byte order in
/// `dst`; `src` and `dst` have the same length, a multiple of 2.
pub fn swap_u16_run(src: &[u8], dst: &mut [u8])
    requires
        src@.len() == old(dst)@.len(),
        src@.len() % 2 == 0,
    ensures
        final(dst)@ == apply_writes(swap_writes(0, 0, 2, src@.len() / 2, true), src@, old(dst)@)
            || final(dst)@ == apply_writes(swap_writes(0, 0, 2, src@.len() / 2, false), src@, old(dst)@),
{
    let le = native_little_endian();
    run_swap(src, dst, 0, 0, 2, src.len() / 2, le);
}

/// Convert a run of big-endian `u32`s in `src` to native byte order in
/// `dst`; `src` and `dst` have the same length, a multiple of 4.
pub fn swap_u32_run(src: &[u8], dst: &mut [u8])
    requires
        src@.len() == old(dst)@.len(),
        src@.len() % 4 == 0,
    ensures
        final(dst)@ == apply_writes(swap_writes(0, 0, 4, src@.len() / 4, true), src@, old(dst)@)
            || final(dst)@ == apply_writes(swap_writes(0, 0, 4, src@.len() / 4, false), src@, old(dst)@),
{
    let le = native_little_endian();
    run_swap(src, dst, 0, 0, 4, src.len() / 4, le);
}

/// Convert a run of big-endian `u64`s in `src` to native byte order in
/// `dst`; `src` and `dst` have the same length, a multiple of 8.
pub fn swap_u64_run(src: &[u8], dst: &mut [u8])
    requires
        src@.len() == old(dst)@.len(),
        src@.len() % 8 == 0,
    ensures
        final(dst)@ == apply_writes(swap_writes(0, 0, 8, src@.len() / 8, true), src@, old(dst)@)
            || final(dst)@ == apply_writes(swap_writes(0, 0, 8, src@.len() / 8, false), src@, old(dst)@),
{
    let le = native_little_endian();
    run_swap(src, dst, 0, 0, 8, src.len() / 8, le);
}

/// Convert a run of big-endian `u128`s in `src` to native byte order in
/// `dst`; `src` and `dst` have the same length, a multiple of 16.
pub fn swap_u128_run(src: &[u8], dst: &mut [u8])
    requires
        src@.len() == old(dst)@.len(),
        src@.len() % 16 == 0,
    ensures
        final(dst)@ == apply_writes(swap_writes(0, 0, 16, src@.len() / 16, true), src@, old(dst)@)
            || final(dst)@ == apply_writes(swap_writes(0, 0, 16, src@.len() / 16, false), src@, old(dst)@),
{
    let le = native_little_endian();
    run_swap(src, dst, 0, 0, 16, src.len() / 16, le);
}

// ---------------------------------------------------------------------------
// The plan
// ---------------------------------------------------------------------------

/// Precomputed plan describing how to copy fields from a wire-format
/// record into a destination buffer in native byte order.
#[derive(Debug, Clone)]
#[non_exhaustive]
pub struct DecodePlan {
    src_record_len: u32,
    dst_buf_len: u32,
    ops: Vec<Op>,
}

/// The source record length of the plan that builds from `fields` and `ms`.
pub open spec fn build_src(fields: Seq<FieldSpecifier>, ms: Seq<Mapping>) -> int {
    match spec_build(fields, ms) {
        Ok((s, _)) => s,
        Err(_) => 0,
    }
}

/// A successful scan reads exactly the template's total field length.
pub proof fn lemma_scan_src(fields: Seq<FieldSpecifier>, ms: Seq<Mapping>)
    requires
        spec_plan_scan(fields, ms) is Ok,
    ensures
        spec_plan_scan(fields, ms) matches Ok((s, _)) && s == spec_fields_len(fields),
    decreases fields.len(),
{
    if fields.len() > 0 {
        lemma_scan_src(fields.drop_last(), ms);
    }
}

/// `ms2` lists the mappings of `ms` in another order: its `i`th entry is
/// entry `p(i)` of `ms`, and `p` is a bijection between their positions.
pub open spec fn is_reordering(ms: Seq<Mapping>, ms2: Seq<Mapping>, p: spec_fn(int) -> int) -> bool {
    &&& ms2.len() == ms.len()
    &&& forall|i: int| 0 <= i < ms2.len() ==> 0 <= #[trigger] p(i) < ms.len() && ms2[i] == ms[p(i)]
    &&& forall|i: int, j: int|
        0 <= i < ms2.len() && 0 <= j < ms2.len() && i != j ==> #[trigger] p(i) != #[trigger] p(j)
    &&& forall|k: int| #![trigger ms[k]] 0 <= k < ms.len() ==> exists|i: int| 0 <= i < ms2.len() && #[trigger] p(i) == k
}

/// Without duplicates, the mapping found for `f` is the one mapping that
/// refers to it.
proof fn lemma_find_unique(ms: Seq<Mapping>, f: FieldSpecifier)
    requires
        !spec_has_duplicate(ms),
    ensures
        forall|i: int| 0 <= i < ms.len() && mapping_matches(#[trigger] ms[i], f) ==> spec_find_mapping(ms, f) == Some(ms[i]),
        spec_find_mapping(ms, f) matches Some(m) ==> exists|i: int| 0 <= i < ms.len() && #[trigger] ms[i] == m && mapping_matches(m, f),
    decreases ms.len(),
{
    if ms.len() > 0 {
        let t = ms.drop_first();
        assert(!spec_has_duplicate(t)) by {
            if spec_has_duplicate(t) {
                let (a, b) = choose|a: int, b: int|
                    0 <= a < b < t.len() && #[trigger] t[a].ie_id == #[trigger] t[b].ie_id && t[a].enterprise == t[b].enterprise;
                assert(ms[a + 1] == t[a] && ms[b + 1] == t[b]);
                assert(ms[a + 1].ie_id == ms[b + 1].ie_id);
            }
        }
        lemma_find_unique(t, f);
        if mapping_matches(ms[0], f) {
            assert forall|i: int| 0 <= i < ms.len() && mapping_matches(#[trigger] ms[i], f) implies spec_find_mapping(ms, f) == Some(ms[i]) by {
                if i > 0 {
                    assert(ms[0].ie_id == ms[i].ie_id);
                }
            }
            assert(ms[0] == ms[0]);
        } else {
            assert forall|i: int| 0 <= i < ms.len() && mapping_matches(#[trigger] ms[i], f) implies spec_find_mapping(ms, f) == Some(ms[i]) by {
                assert(t[i - 1] == ms[i]);
            }
            if let Some(m) = spec_find_mapping(t, f) {
                let i = choose|i: int| 0 <= i < t.len() && #[trigger] t[i] == m && mapping_matches(m, f);
                assert(ms[i + 1] == m);
            }
        }
    }
}

/// Reordering mappings that hold no duplicate finds the same mapping for
/// every field.
proof fn lemma_find_reorder(ms: Seq<Mapping>, ms2: Seq<Mapping>, p: spec_fn(int) -> int, f: FieldSpecifier)
    requires
        is_reordering(ms, ms2, p),
        !spec_has_duplicate(ms),
        !spec_has_duplicate(ms2),
    ensures
        spec_find_mapping(ms2, f) == spec_find_mapping(ms, f),
{
    lemma_find_unique(ms, f);
    lemma_find_unique(ms2, f);
    if let Some(m) = spec_find_mapping(ms, f) {
        let k = choose|k: int| 0 <= k < ms.len() && #[trigger] ms[k] == m && mapping_matches(m, f);
        let i = choose|i: int| 0 <= i < ms2.len() && #[trigger] p(i) == k;
        assert(ms2[i] == ms[k]);
    } else if let Some(m2) = spec_find_mapping(ms2, f) {
        let i = choose|i: int| 0 <= i < ms2.len() && #[trigger] ms2[i] == m2 && mapping_matches(m2, f);
        assert(ms2[i] == ms[p(i)]);
        assert(mapping_matches(ms[p(i)], f));
    }
}

/// When every field finds the same mapping in `ms` and `ms2`, the scan, the
/// writes and the operations of the two plans agree.
proof fn lemma_plan_same_finds(fields: Seq<FieldSpecifier>, ms: Seq<Mapping>, ms2: Seq<Mapping>)
    requires
        forall|k: int| 0 <= k < fields.len() ==> spec_find_mapping(ms2, #[trigger] fields[k]) == spec_find_mapping(ms, fields[k]),
    ensures
        spec_plan_scan(fields, ms2) == spec_plan_scan(fields, ms),
        spec_plan_writes(fields, ms2, true) == spec_plan_writes(fields, ms, true),
        spec_plan_writes(fields, ms2, false) == spec_plan_writes(fields, ms, false),
        spec_plan_ops(fields, ms2) == spec_plan_ops(fields, ms),
    decreases fields.len(),
{
    if fields.len() > 0 {
        let dl = fields.drop_last();
        assert forall|k: int| 0 <= k < dl.len() implies spec_find_mapping(ms2, #[trigger] dl[k]) == spec_find_mapping(ms, dl[k]) by {
            assert(dl[k] == fields[k]);
        }
        assert(spec_find_mapping(ms2, fields[fields.len() - 1]) == spec_find_mapping(ms, fields[fields.len() - 1]));
        lemma_plan_same_finds(dl, ms, ms2);
    }
}

/// Reordering the mappings does not change the plan: a plan that builds
/// from `ms` also builds from any reordering of `ms`, with the same source
/// and destination lengths, the same byte writes on either byte order, and
/// the same number of operations.
pub proof fn lemma_build_reorder(fields: Seq<FieldSpecifier>, ms: Seq<Mapping>, ms2: Seq<Mapping>, p: spec_fn(int) -> int)
    requires
        spec_build(fields, ms) is Ok,
        is_reordering(ms, ms2, p),
    ensures
        spec_build(fields, ms2) == spec_build(fields, ms),
        spec_plan_writes(fields, ms2, true) == spec_plan_writes(fields, ms, true),
        spec_plan_writes(fields, ms2, false) == spec_plan_writes(fields, ms, false),
        spec_op_count(fields, ms2) == spec_op_count(fields, ms),
{
    assert(!spec_has_duplicate(ms2)) by {
        if spec_has_duplicate(ms2) {
            let (i, j) = choose|i: int, j: int|
                0 <= i < j < ms2.len() && #[trigger] ms2[i].ie_id == #[trigger] ms2[j].ie_id && ms2[i].enterprise == ms2[j].enterprise;
            let a = p(i);
            let b = p(j);
            assert(ms2[i] == ms[a] && ms2[j] == ms[b]);
            assert(a != b);
            if a < b {
                assert(ms[a].ie_id == ms[b].ie_id);
            } else {
                assert(ms[b].ie_id == ms[a].ie_id);
            }
        }
    }
    assert forall|k: int| 0 <= k < fields.len() implies spec_find_mapping(ms2, #[trigger] fields[k]) == spec_find_mapping(ms, fields[k]) by {
        lemma_find_reorder(ms, ms2, p, fields[k]);
    }
    lemma_plan_same_finds(fields, ms, ms2);
    assert(spec_all_found(fields, ms2)) by {
        assert forall|j: int| 0 <= j < ms2.len() implies exists|i: int| 0 <= i < fields.len() && mapping_matches(#[trigger] ms2[j], #[trigger] fields[i]) by {
            assert(ms2[j] == ms[p(j)]);
            let i = choose|i: int| 0 <= i < fields.len() && mapping_matches(#[trigger] ms[p(j)], #[trigger] fields[i]);
            assert(mapping_matches(ms2[j], fields[i]));
        }
    }
}

/// A failure of the scan on a prefix of the fields is its failure on the
/// whole template.
proof fn lemma_scan_err(fields: Seq<FieldSpecifier>, ms: Seq<Mapping>, i: int)
    requires
        0 <= i <= fields.len(),
        spec_plan_scan(fields.take(i), ms) is Err,
    ensures
        spec_plan_scan(fields, ms) == spec_plan_scan(fields.take(i), ms),
    decreases fields.len() - i,
{
    if i < fields.len() {
        assert(fields.take(i + 1).drop_last() =~= fields.take(i));
        lemma_scan_err(fields, ms, i + 1);
    } else {
        assert(fields.take(i) =~= fields);
    }
}

/// Find the first mapping that refers to field `f`.
fn find_mapping(mappings: &[Mapping], f: &FieldSpecifier) -> (r: Option<Mapping>)
    ensures
        r == spec_find_mapping(mappings@, *f),
{
    let n = mappings.len();
    let mut i: usize = 0;
    proof {
        assert(mappings@.skip(0) =~= mappings@);
    }
    while i < n
        invariant
            n == mappings@.len(),
            i <= n,
            spec_find_mapping(mappings@, *f) == spec_find_mapping(mappings@.skip(i as int), *f),
        decreases n - i,
    {
        let m = mappings[i];
        proof {
            assert(mappings@.skip(i as int).drop_first() =~= mappings@.skip(i + 1));
        }
        if m.ie_id == f.information_element_id && same_enterprise(m.enterprise, f.enterprise_number) {
            return Some(m);
        }
        i = i + 1;
    }
    None
}

/// Whether two optional enterprise numbers are equal.
fn same_enterprise(a: Option<u32>, b: Option<u32>) -> (r: bool)
    ensures
        r == (a == b),
{
    match (a, b) {
        (None, None) => true,
        (Some(x), Some(y)) => x == y,
        _ => false,
    }
}

impl DecodePlan {
    /// The exact source record length the plan reads.
    pub closed spec fn src_len(&self) -> int {
        self.src_record_len as int
    }

    /// The smallest destination buffer the plan writes within.
    pub closed spec fn dst_len(&self) -> int {
        self.dst_buf_len as int
    }

    /// The byte writes applying the plan performs, on a machine of the given
    /// byte order.
    pub closed spec fn writes(&self, little_endian: bool) -> Seq<(int, int)> {
        ops_writes(self.ops@, little_endian)
    }

    /// The plan's operations read and write within its declared lengths.
    pub closed spec fn wf(&self) -> bool {
        ops_within(self.ops@, self.src_record_len as int, self.dst_buf_len as int)
    }

    /// The number of operations after coalescing.
    pub closed spec fn op_len(&self) -> int {
        self.ops@.len() as int
    }

    /// Build a plan that copies the IEs listed in `mappings` from records
    /// using `template` into a destination buffer.
    ///
    /// IEs of the template that no mapping lists are skipped: their bytes
    /// are walked over but nothing is copied.
    ///
    /// Errors, checked in this order: `VariableLengthInPlan` if the template
    /// has a variable-length field; `DuplicateMapping` if two mappings list
    /// the same IE; `InvalidLength` if a destination end or the record
    /// length overflows `u32`; `MappingNotFound` if a mapping lists an IE
    /// that the template lacks.
    pub fn build(template: TemplateRef<'_>, mappings: &[Mapping]) -> (r: Result<Self>)
        ensures
            match spec_build(template.fields@, mappings@) {
                Ok((src, dst)) => r matches Ok(plan) && plan.wf() && plan.src_len() == src
                    && plan.dst_len() == dst
                    && plan.op_len() == spec_op_count(template.fields@, mappings@)
                    && plan.writes(true) == spec_plan_writes(template.fields@, mappings@, true)
                    && plan.writes(false) == spec_plan_writes(template.fields@, mappings@, false),
                Err(e) => r matches Err(f) && f == e,
            },
    {
        let fields = template.fields;
        let nf = fields.len();
        let nm = mappings.len();

        // Reject any variable-length field: its wire offset is not static.
        let mut i: usize = 0;
        while i < nf
            invariant
                nf == fields@.len(),
                fields@ == template.fields@,
                i <= nf,
                forall|j: int| 0 <= j < i ==> !is_varlen(#[trigger] fields@[j]),
            decreases nf - i,
        {
            if fields[i].field_length == VARIABLE_LENGTH {
                proof {
                    assert(is_varlen(fields@[i as int]));
                    assert(spec_has_varlen(fields@));
                }
                return Err(Error::VariableLengthInPlan);
            }
            i = i + 1;
        }

        // Detect mappings that list the same IE twice.
        let mut i: usize = 0;
        while i < nm
            invariant
                nm == mappings@.len(),
                fields@ == template.fields@,
                i <= nm,
                !spec_has_varlen(fields@),
                forall|a: int, b: int|
                    0 <= a < b < i ==> !(#[trigger] mappings@[a].ie_id == #[trigger] mappings@[b].ie_id
                        && mappings@[a].enterprise == mappings@[b].enterprise),
            decreases nm - i,
        {
            let mut j: usize = 0;
            while j < i
                invariant
                    nm == mappings@.len(),
                    fields@ == template.fields@,
                    j <= i < nm,
                    !spec_has_varlen(fields@),
                    forall|a: int| 0 <= a < j ==> !(#[trigger] mappings@[a].ie_id == mappings@[i as int].ie_id
                        && mappings@[a].enterprise == mappings@[i as int].enterprise),
                decreases i - j,
            {
                if mappings[j].ie_id == mappings[i].ie_id && same_enterprise(mappings[j].enterprise, mappings[i].enterprise) {
                    proof {
                        assert(0 <= j < i < mappings@.len() && mappings@[j as int].ie_id == mappings@[i as int].ie_id
                            && mappings@[j as int].enterprise == mappings@[i as int].enterprise);
                        assert(spec_has_duplicate(mappings@));
                    }
                    return Err(Error::DuplicateMapping);
                }
                j = j + 1;
            }
            i = i + 1;
        }
        proof {
            assert(!spec_has_duplicate(mappings@));
        }

        // Walk the fields, emitting (and coalescing) one operation per
        // mapped field.
        let mut ops: Vec<Op> = Vec::new();
        let mut src_off: u32 = 0;
        let mut dst_max: u32 = 0;
        let mut i: usize = 0;
        while i < nf
            invariant
                nf == fields@.len(),
                fields@ == template.fields@,
                i <= nf,
                !spec_has_varlen(fields@),
                !spec_has_duplicate(mappings@),
                spec_plan_scan(fields@.take(i as int), mappings@) == Ok::<(int, int), Error>((src_off as int, dst_max as int)),
                spec_fields_len(fields@.take(i as int)) == src_off,
                ops_within(ops@, src_off as int, dst_max as int),
                ops@ == spec_plan_ops(fields@.take(i as int), mappings@),
                forall|le: bool| #[trigger] ops_writes(ops@, le) == spec_plan_writes(fields@.take(i as int), mappings@, le),
            decreases nf - i,
        {
            let f = fields[i];
            let width = f.field_length;
            proof {
                assert(fields@.take(i + 1).drop_last() =~= fields@.take(i as int));
                assert(fields@.take(i + 1).last() == f);
            }
            let mapping = find_mapping(mappings, &f);
            let ghost before = ops@;
            let ghost old_dst_max = dst_max;
            if let Some(m) = mapping {
                let dst = m.dst_offset;
                let dst_end = match dst.checked_add(width as u32) {
                    Some(e) => e,
                    None => {
                        proof {
                            assert(spec_plan_scan(fields@.take(i + 1), mappings@) is Err);
                            lemma_scan_err(fields@, mappings@, i + 1);
                                    }
                        return Err(Error::InvalidLength);
                    }
                };
                if dst_end > dst_max {
                    dst_max = dst_end;
                }
                proof {
                    lemma_ops_within_mono(ops@, src_off as int, old_dst_max as int, src_off as int, dst as int + 0x1_0000_0000);
                }
                match SwapWidth::from_field_length(width) {
                    Some(sw) => push_swap(&mut ops, sw, src_off, dst),
                    None => push_copy(&mut ops, src_off, dst, width as u32),
                }
            }
            src_off = match src_off.checked_add(width as u32) {
                Some(o) => o,
                None => {
                    proof {
                        assert(spec_plan_scan(fields@.take(i + 1), mappings@) is Err);
                        lemma_scan_err(fields@, mappings@, i + 1);
                            }
                    return Err(Error::InvalidLength);
                }
            };
            proof {
                if mapping is None {
                    lemma_ops_within_mono(ops@, (src_off - width) as int, dst_max as int, src_off as int, dst_max as int);
                    assert(spec_plan_writes(fields@.take(i + 1), mappings@, true) =~= spec_plan_writes(fields@.take(i as int), mappings@, true));
                    assert(spec_plan_writes(fields@.take(i + 1), mappings@, false) =~= spec_plan_writes(fields@.take(i as int), mappings@, false));
                }
                assert forall|le: bool| #[trigger] ops_writes(ops@, le) == spec_plan_writes(fields@.take(i + 1), mappings@, le) by {
                    if mapping is None {
                        assert(spec_plan_writes(fields@.take(i + 1), mappings@, le) =~= spec_plan_writes(fields@.take(i as int), mappings@, le));
                    }
                }
            }
            i = i + 1;
        }
        proof {
            assert(fields@.take(nf as int) =~= fields@);
        }

        // Every mapping must name a field of the template.
        let mut j: usize = 0;
        while j < nm
            invariant
                nm == mappings@.len(),
                nf == fields@.len(),
                fields@ == template.fields@,
                j <= nm,
                !spec_has_varlen(fields@),
                !spec_has_duplicate(mappings@),
                spec_plan_scan(fields@, mappings@) == Ok::<(int, int), Error>((src_off as int, dst_max as int)),
                ops_within(ops@, src_off as int, dst_max as int),
                ops@ == spec_plan_ops(fields@, mappings@),
                forall|le: bool| #[trigger] ops_writes(ops@, le) == spec_plan_writes(fields@, mappings@, le),
                forall|a: int| 0 <= a < j ==> exists|b: int| 0 <= b < fields@.len() && mapping_matches(#[trigger] mappings@[a], #[trigger] fields@[b]),
            decreases nm - j,
        {
            let m = mappings[j];
            let mut found = false;
            let mut k: usize = 0;
            while k < nf
                invariant
                    nf == fields@.len(),
                fields@ == template.fields@,
                    k <= nf,
                    m == mappings@[j as int],
                    found ==> exists|b: int| 0 <= b < fields@.len() && mapping_matches(m, #[trigger] fields@[b]),
                    !found ==> forall|b: int| 0 <= b < k ==> !mapping_matches(m, #[trigger] fields@[b]),
                decreases nf - k,
            {
                let f = fields[k];
                if f.information_element_id == m.ie_id && same_enterprise(f.enterprise_number, m.enterprise) {
                    found = true;
                }
                k = k + 1;
            }
            if !found {
                proof {
                    assert(!spec_all_found(fields@, mappings@)) by {
                        assert(!(exists|b: int| 0 <= b < fields@.len() && mapping_matches(mappings@[j as int], #[trigger] fields@[b])));
                    }
                }
                return Err(Error::MappingNotFound);
            }
            j = j + 1;
        }
        Ok(DecodePlan { src_record_len: src_off, dst_buf_len: dst_max, ops })
    }

    /// Apply this plan on a machine of the given byte order: read the
    /// record's fields from `src` and write them to `dst`, each integer field
    /// reversed when `little_endian` holds.
    ///
    /// Errors: `UnexpectedEof` if `src` is shorter than the plan's source
    /// length, else `DestinationBufferTooSmall` if `dst` is shorter than its
    /// destination length; `dst` is then left unchanged.
    pub fn apply_in_order(&self, src: &[u8], dst: &mut [u8], little_endian: bool) -> (r: Result<()>)
        requires
            self.wf(),
        ensures
            src@.len() < self.src_len() ==> r == Err::<(), Error>(Error::UnexpectedEof) && final(dst)@ == old(dst)@,
            src@.len() >= self.src_len() && old(dst)@.len() < self.dst_len()
                ==> r == Err::<(), Error>(Error::DestinationBufferTooSmall) && final(dst)@ == old(dst)@,
            src@.len() >= self.src_len() && old(dst)@.len() >= self.dst_len() ==> r is Ok
                && final(dst)@ == apply_writes(self.writes(little_endian), src@, old(dst)@),
    {
        if src.len() < self.src_record_len as usize {
            return Err(Error::UnexpectedEof);
        }
        if dst.len() < self.dst_buf_len as usize {
            return Err(Error::DestinationBufferTooSmall);
        }
        let ghost dst0 = dst@;
        let n = self.ops.len();
        let mut k: usize = 0;
        while k < n
            invariant
                n == self.ops@.len(),
                k <= n,
                self.wf(),
                self.src_record_len <= src.len(),
                self.dst_buf_len <= dst.len(),
                dst@.len() == dst0.len(),
                dst@ == apply_writes(ops_writes(self.ops@.take(k as int), little_endian), src@, dst0),
            decreases n - k,
        {
            let op = self.ops[k];
            proof {
                assert(op_within(self.ops@[k as int], self.src_record_len as int, self.dst_buf_len as int));
                assert(self.ops@.take(k + 1).drop_last() =~= self.ops@.take(k as int));
                lemma_apply_concat(ops_writes(self.ops@.take(k as int), little_endian), op_writes(op, little_endian), src@, dst0);
            }
            match op {
                Op::Copy { src: s, dst: d, len } => {
                    run_copy(src, dst, s as usize, d as usize, len as usize);
                }
                Op::Swap { width, count, src: s, dst: d } => {
                    let w = width.bytes() as usize;
                    proof {
                        assert(width.spec_bytes() * count == count * w) by (nonlinear_arith)
                            requires
                                w == width.spec_bytes(),
                        ;
                    }
                    run_swap(src, dst, s as usize, d as usize, w, count as usize, little_endian);
                }
            }
            k = k + 1;
        }
        proof {
            assert(self.ops@.take(n as int) =~= self.ops@);
        }
        Ok(())
    }

    /// Apply this plan: read the record's fixed-length fields from `src` and
    /// write them to `dst`, each integer field in the machine's native byte
    /// order (the writes of `writes(true)` on a little-endian machine, of
    /// `writes(false)` on a big-endian one).
    ///
    /// Errors: `UnexpectedEof` if `src` is shorter than the plan's source
    /// length, else `DestinationBufferTooSmall` if `dst` is shorter than its
    /// destination length; `dst` is then left unchanged.
    pub fn apply(&self, src: &[u8], dst: &mut [u8]) -> (r: Result<()>)
        requires
            self.wf(),
        ensures
            src@.len() < self.src_len() ==> r == Err::<(), Error>(Error::UnexpectedEof) && final(dst)@ == old(dst)@,
            src@.len() >= self.src_len() && old(dst)@.len() < self.dst_len()
                ==> r == Err::<(), Error>(Error::DestinationBufferTooSmall) && final(dst)@ == old(dst)@,
            src@.len() >= self.src_len() && old(dst)@.len() >= self.dst_len() ==> r is Ok && (
                final(dst)@ == apply_writes(self.writes(true), src@, old(dst)@)
                || final(dst)@ == apply_writes(self.writes(false), src@, old(dst)@)),
    {
        let le = native_little_endian();
        self.apply_in_order(src, dst, le)
    }

    /// Exact source record length required by this plan, in bytes: the sum
    /// of the template's field lengths.
    pub fn src_record_len(&self) -> (r: usize)
        ensures
            r == self.src_len(),
    {
        self.src_record_len as usize
    }

    /// Smallest destination buffer length that satisfies this plan.
    pub fn dst_buf_len(&self) -> (r: usize)
        ensures
            r == self.dst_len(),
    {
        self.dst_buf_len as usize
    }

    /// Number of operations in the plan after coalescing.
    pub fn op_count(&self) -> (r: usize)
        ensures
            r == self.op_len(),
    {
        self.ops.len()
    }
}

} // verus!
