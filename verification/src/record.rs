//! Data record iteration driven by a resolved template (RFC 7011 3.4.3).
//!
//! A Data Set's records are laid out back to back; each record is the
//! sequence of field values its template declares. Variable-length fields
//! carry a one- or three-byte length prefix (RFC 7011 7).

use vstd::prelude::*;
use crate::decode::{apply_writes, build_src, lemma_scan_src, spec_build, spec_fields_len, spec_has_varlen, DecodePlan};
use crate::error::{Error, Result};
use crate::field::FieldValue;
use crate::store::TemplateRef;
use crate::template::{FieldSpecifier, VARIABLE_LENGTH};
use crate::util::{be_u16, read_u16, split};

verus! {

// ---------------------------------------------------------------------------
// Specification of one field and of a record's extent
// ---------------------------------------------------------------------------

/// Whether `f` declares a variable-length field.
pub open spec fn is_varlen(f: FieldSpecifier) -> bool {
    f.field_length == 0xFFFF
}

/// The length prefix of a variable-length field at the front of `s`: the
/// prefix's own size and the data length it declares.
pub open spec fn spec_varlen_prefix(s: Seq<u8>) -> Result<(int, int)> {
    if s.len() == 0 {
        Err(Error::UnexpectedEof)
    } else if s[0] < 255 {
        Ok((1, s[0] as int))
    } else if s.len() < 3 {
        Err(Error::UnexpectedEof)
    } else {
        Ok((3, be_u16(s.skip(1))))
    }
}

/// Decoding one value of field `f` from the front of `s`: the value is
/// `s[start..end]` and `end` bytes are consumed.
pub open spec fn spec_field_step(s: Seq<u8>, f: FieldSpecifier) -> Result<(int, int)> {
    if is_varlen(f) {
        match spec_varlen_prefix(s) {
            Ok((p, n)) => if p + n > s.len() {
                Err(Error::VariableLengthOverflow)
            } else {
                Ok((p, p + n))
            },
            Err(e) => Err(e),
        }
    } else if f.field_length > s.len() {
        Err(Error::UnexpectedEof)
    } else {
        Ok((0, f.field_length as int))
    }
}

/// Decoding the values of `fields`, in order, from the front of `s`: the
/// number of bytes they occupy, or the first error.
pub open spec fn spec_field_walk(s: Seq<u8>, fields: Seq<FieldSpecifier>) -> Result<int>
    decreases fields.len(),
{
    if fields.len() == 0 {
        Ok(0)
    } else {
        match spec_field_walk(s, fields.drop_last()) {
            Ok(off) => match spec_field_step(s.skip(off), fields.last()) {
                Ok((_, end)) => Ok(off + end),
                Err(e) => Err(e),
            },
            Err(e) => Err(e),
        }
    }
}

/// `off + x`, or `InvalidLength` when it does not fit in a `usize`.
pub open spec fn add_checked(off: int, x: int) -> Result<int> {
    if off + x > usize::MAX {
        Err(Error::InvalidLength)
    } else {
        Ok(off + x)
    }
}

/// The offset just past a variable-length field whose prefix is at `off`.
pub open spec fn spec_varlen_extent(buf: Seq<u8>, off: int) -> Result<int> {
    if off >= buf.len() {
        Err(Error::UnexpectedEof)
    } else if buf[off] < 255 {
        add_checked(off, 1 + buf[off])
    } else if off + 3 > buf.len() {
        Err(Error::UnexpectedEof)
    } else {
        add_checked(off, 3 + be_u16(buf.skip(off + 1)))
    }
}

/// The offset just past field `f` when it starts at `off`.
pub open spec fn spec_extent_step(buf: Seq<u8>, off: int, f: FieldSpecifier) -> Result<int> {
    if is_varlen(f) {
        spec_varlen_extent(buf, off)
    } else {
        add_checked(off, f.field_length as int)
    }
}

/// Walk the fields of one record at the front of `buf`, reading only the
/// length prefixes of variable-length fields.
pub open spec fn spec_extent_walk(buf: Seq<u8>, fields: Seq<FieldSpecifier>) -> Result<int>
    decreases fields.len(),
{
    if fields.len() == 0 {
        Ok(0)
    } else {
        match spec_extent_walk(buf, fields.drop_last()) {
            Ok(off) => spec_extent_step(buf, off, fields.last()),
            Err(e) => Err(e),
        }
    }
}

/// The number of bytes the record at the front of `buf` occupies under a
/// template with the given fields.
pub open spec fn spec_record_extent(buf: Seq<u8>, fields: Seq<FieldSpecifier>) -> Result<int> {
    match spec_extent_walk(buf, fields) {
        Ok(off) => if off > buf.len() {
            Err(Error::UnexpectedEof)
        } else {
            Ok(off)
        },
        Err(e) => Err(e),
    }
}

/// The least number of bytes a record of the template can occupy: fixed
/// fields at their length, variable-length fields at one prefix byte.
pub open spec fn spec_min_record_size(fields: Seq<FieldSpecifier>) -> int
    decreases fields.len(),
{
    if fields.len() == 0 {
        0
    } else {
        spec_min_record_size(fields.drop_last()) + if is_varlen(fields.last()) {
            1
        } else {
            fields.last().field_length as int
        }
    }
}

/// The template compressed for extent walks: for each variable-length field,
/// the fixed bytes that precede it since the previous one, and the fixed
/// bytes after the last one.
pub open spec fn spec_layout(fields: Seq<FieldSpecifier>) -> (Seq<int>, int)
    decreases fields.len(),
{
    if fields.len() == 0 {
        (Seq::empty(), 0)
    } else {
        let (skips, trailing) = spec_layout(fields.drop_last());
        if is_varlen(fields.last()) {
            (skips.push(trailing), 0)
        } else {
            (skips, trailing + fields.last().field_length)
        }
    }
}

/// The extent walk over a compressed layout: skip fixed bytes, read a
/// variable-length prefix, and so on.
pub open spec fn spec_skip_walk(buf: Seq<u8>, skips: Seq<int>) -> Result<int>
    decreases skips.len(),
{
    if skips.len() == 0 {
        Ok(0)
    } else {
        match spec_skip_walk(buf, skips.drop_last()) {
            Ok(off) => match add_checked(off, skips.last()) {
                Ok(o) => spec_varlen_extent(buf, o),
                Err(e) => Err(e),
            },
            Err(e) => Err(e),
        }
    }
}

/// Successful walks stay within `usize`.
proof fn lemma_walks_bounded(buf: Seq<u8>, fields: Seq<FieldSpecifier>, skips: Seq<int>)
    ensures
        spec_extent_walk(buf, fields) matches Ok(o) ==> 0 <= o <= usize::MAX,
        spec_skip_walk(buf, skips) matches Ok(o) ==> o <= usize::MAX,
    decreases fields.len() + skips.len(),
{
    if fields.len() > 0 {
        lemma_walks_bounded(buf, fields.drop_last(), skips);
    }
    if skips.len() > 0 {
        lemma_walks_bounded(buf, fields, skips.drop_last());
    }
}

/// The walk over the compressed layout agrees with the walk over the fields.
pub proof fn lemma_layout_walk(buf: Seq<u8>, fields: Seq<FieldSpecifier>)
    ensures
        spec_layout(fields).1 >= 0,
        spec_extent_walk(buf, fields) == match spec_skip_walk(buf, spec_layout(fields).0) {
            Ok(o) => add_checked(o, spec_layout(fields).1),
            Err(e) => Err(e),
        },
    decreases fields.len(),
{
    if fields.len() > 0 {
        let dl = fields.drop_last();
        lemma_layout_walk(buf, dl);
        lemma_walks_bounded(buf, dl, spec_layout(dl).0);
        lemma_walks_bounded(buf, fields, spec_layout(fields).0);
        let (skips, trailing) = spec_layout(dl);
        if is_varlen(fields.last()) {
            assert(skips.push(trailing).drop_last() =~= skips);
        }
    }
}

/// The minimum record size is what the compressed layout adds up to.
pub proof fn lemma_layout_size(fields: Seq<FieldSpecifier>)
    ensures
        spec_layout(fields).0.len() == 0 ==> spec_layout(fields).1 == spec_min_record_size(fields),
        spec_layout(fields).1 <= spec_min_record_size(fields),
        spec_min_record_size(fields) >= 0,
    decreases fields.len(),
{
    if fields.len() > 0 {
        lemma_layout_size(fields.drop_last());
    }
}

/// A prefix of a template needs no more bytes than the whole template.
pub proof fn lemma_min_record_size_prefix(fields: Seq<FieldSpecifier>, i: int)
    requires
        0 <= i <= fields.len(),
    ensures
        0 <= spec_min_record_size(fields.take(i)) <= spec_min_record_size(fields),
    decreases fields.len() - i,
{
    if i < fields.len() {
        lemma_min_record_size_prefix(fields, i + 1);
        assert(fields.take(i + 1).drop_last() =~= fields.take(i));
        lemma_layout_size(fields.take(i));
    } else {
        assert(fields.take(i) =~= fields);
        lemma_layout_size(fields);
    }
}

/// Once a walk fails on a prefix of the fields, it fails with the same
/// error on the whole template.
proof fn lemma_extent_walk_err(buf: Seq<u8>, fields: Seq<FieldSpecifier>, i: int)
    requires
        0 <= i <= fields.len(),
        spec_extent_walk(buf, fields.take(i)) is Err,
    ensures
        spec_extent_walk(buf, fields) == spec_extent_walk(buf, fields.take(i)),
    decreases fields.len() - i,
{
    if i < fields.len() {
        assert(fields.take(i + 1).drop_last() =~= fields.take(i));
        lemma_extent_walk_err(buf, fields, i + 1);
    } else {
        assert(fields.take(i) =~= fields);
    }
}

/// Same for the walk over the compressed layout.
proof fn lemma_skip_walk_err(buf: Seq<u8>, skips: Seq<int>, i: int)
    requires
        0 <= i <= skips.len(),
        spec_skip_walk(buf, skips.take(i)) is Err,
    ensures
        spec_skip_walk(buf, skips) == spec_skip_walk(buf, skips.take(i)),
    decreases skips.len() - i,
{
    if i < skips.len() {
        assert(skips.take(i + 1).drop_last() =~= skips.take(i));
        lemma_skip_walk_err(buf, skips, i + 1);
    } else {
        assert(skips.take(i) =~= skips);
    }
}

/// Walking the fields of a record that fits within the first `n` bytes of
/// `buf` decodes every field value from those bytes, ending where the walk
/// ends.
proof fn lemma_walk_decodes_fields(buf: Seq<u8>, fields: Seq<FieldSpecifier>, n: int)
    requires
        spec_extent_walk(buf, fields) matches Ok(o) && o <= n,
        n <= buf.len(),
    ensures
        spec_field_walk(buf.take(n), fields) == spec_extent_walk(buf, fields),
    decreases fields.len(),
{
    if fields.len() > 0 {
        let dl = fields.drop_last();
        let f = fields.last();
        let o = spec_extent_walk(buf, fields).unwrap();
        lemma_walks_bounded(buf, dl, Seq::empty());
        let prev = spec_extent_walk(buf, dl).unwrap();
        lemma_walk_decodes_fields(buf, dl, n);
        let s = buf.take(n).skip(prev);
        if is_varlen(f) {
            assert(s[0] == buf[prev]);
            if buf[prev] == 255 {
                assert(s.skip(1)[0] == buf.skip(prev + 1)[0]);
                assert(s.skip(1)[1] == buf.skip(prev + 1)[1]);
            }
        }
    }
}

/// Every field of a record whose extent is known decodes without error:
/// the field values of a record that the record iterator yields lie back to
/// back within its bytes and use all of them.
pub proof fn lemma_record_fields_decode(buf: Seq<u8>, fields: Seq<FieldSpecifier>)
    requires
        spec_record_extent(buf, fields) is Ok,
    ensures
        spec_field_walk(buf.take(spec_record_extent(buf, fields).unwrap()), fields)
            == spec_record_extent(buf, fields),
{
    let n = spec_record_extent(buf, fields).unwrap();
    lemma_walk_decodes_fields(buf, fields, n);
}

// ---------------------------------------------------------------------------
// Field values
// ---------------------------------------------------------------------------

/// Decode a variable-length field (RFC 7011 7) and return its data and the
/// bytes after it.
///
/// A first byte below 255 is the length; 255 introduces a two-byte
/// big-endian length.
fn decode_variable_length(buf: &[u8]) -> (r: Result<(&[u8], &[u8])>)
    ensures
        match spec_field_step(buf@, FieldSpecifier { information_element_id: 0, enterprise_number: None, field_length: 0xFFFF }) {
            Ok((start, end)) => r matches Ok((data, rest)) && data@ == buf@.subrange(start, end)
                && rest@ == buf@.skip(end),
            Err(e) => r matches Err(f) && f == e,
        },
{
    if buf.len() == 0 {
        return Err(Error::UnexpectedEof);
    }
    let first = buf[0];
    let (len, rest) = if first < 255 {
        (first as usize, &buf[1..buf.len()])
    } else {
        if buf.len() < 3 {
            return Err(Error::UnexpectedEof);
        }
        let len = read_u16(&buf[1..3])?;
        proof {
            assert(buf@.subrange(1, 3) =~= buf@.skip(1).take(2));
        }
        (len as usize, &buf[3..buf.len()])
    };
    match split(rest, len) {
        Ok((data, tail)) => {
            proof {
                let p: int = if first < 255 { 1 } else { 3 };
                assert(data@ =~= buf@.subrange(p, p + len));
                assert(tail@ =~= buf@.skip(p + len));
            }
            Ok((data, tail))
        }
        Err(_) => Err(Error::VariableLengthOverflow),
    }
}

/// A single decoded data record.
#[derive(Debug, Clone, Copy)]
#[non_exhaustive]
pub struct DataRecord<'a> {
    /// The raw bytes of this record (field values concatenated, no framing).
    pub(crate) raw: &'a [u8],
    /// The template that describes this record's fields.
    pub(crate) template: TemplateRef<'a>,
}

impl<'a> DataRecord<'a> {
    /// The record's bytes.
    pub closed spec fn raw_bytes(&self) -> Seq<u8> {
        self.raw@
    }

    /// The field specifiers of the record's template.
    pub closed spec fn template_fields(&self) -> Seq<FieldSpecifier> {
        self.template.fields@
    }

    /// A record made of the bytes `raw` under `template`.
    pub fn new(raw: &'a [u8], template: TemplateRef<'a>) -> (r: Self)
        ensures
            r.raw_bytes() == raw@,
            r.template_fields() == template.fields@,
    {
        DataRecord { raw, template }
    }

    /// The record's raw bytes.
    pub fn raw(&self) -> (r: &'a [u8])
        ensures
            r@ == self.raw_bytes(),
    {
        self.raw
    }

    /// Returns an iterator over the field values in this record.
    pub fn fields(&self) -> (r: FieldIter<'a>)
        ensures
            r.remaining() == self.raw_bytes(),
            r.template_fields() == self.template_fields(),
            r.index() == 0,
    {
        FieldIter { buf: self.raw, template: self.template, field_idx: 0 }
    }

    /// Copy this record's fixed-length fields into `dst` as `plan` says,
    /// converting integer fields to native byte order.
    ///
    /// `plan` must have been built from a template equivalent to this
    /// record's; the caller is responsible for that pairing.
    pub fn decode_into(&self, plan: &DecodePlan, dst: &mut [u8]) -> (r: Result<()>)
        requires
            plan.wf(),
        ensures
            self.raw_bytes().len() < plan.src_len() ==> r == Err::<(), Error>(Error::UnexpectedEof)
                && final(dst)@ == old(dst)@,
            self.raw_bytes().len() >= plan.src_len() && old(dst)@.len() < plan.dst_len()
                ==> r == Err::<(), Error>(Error::DestinationBufferTooSmall) && final(dst)@ == old(dst)@,
            self.raw_bytes().len() >= plan.src_len() && old(dst)@.len() >= plan.dst_len() ==> r is Ok && (
                final(dst)@ == apply_writes(plan.writes(true), self.raw_bytes(), old(dst)@)
                || final(dst)@ == apply_writes(plan.writes(false), self.raw_bytes(), old(dst)@)),
    {
        plan.apply(self.raw, dst)
    }

    /// Returns the number of fields defined by the template.
    pub fn field_count(&self) -> (r: usize)
        ensures
            r == self.template_fields().len(),
    {
        self.template.fields.len()
    }
}

/// An iterator over the field values within a single [`DataRecord`].
#[derive(Debug, Clone)]
#[non_exhaustive]
pub struct FieldIter<'a> {
    buf: &'a [u8],
    template: TemplateRef<'a>,
    field_idx: usize,
}

impl<'a> FieldIter<'a> {
    /// The bytes not yet decoded.
    pub closed spec fn remaining(&self) -> Seq<u8> {
        self.buf@
    }

    /// The field specifiers of the template.
    pub closed spec fn template_fields(&self) -> Seq<FieldSpecifier> {
        self.template.fields@
    }

    /// The index of the next field to decode.
    pub closed spec fn index(&self) -> int {
        self.field_idx as int
    }

    /// Decode the next field value.
    ///
    /// After an error the iterator moves on to the next field without
    /// consuming any bytes.
    pub fn next(&mut self) -> (r: Option<Result<FieldValue<'a>>>)
        ensures
            final(self).template_fields() == old(self).template_fields(),
            old(self).index() >= old(self).template_fields().len() ==> r is None
                && final(self).index() == old(self).index()
                && final(self).remaining() == old(self).remaining(),
            old(self).index() < old(self).template_fields().len() ==> final(self).index() == old(self).index() + 1
                && match spec_field_step(old(self).remaining(), old(self).template_fields()[old(self).index()]) {
                    Ok((start, end)) => r matches Some(Ok(v))
                        && v.information_element_id == old(self).template_fields()[old(self).index()].information_element_id
                        && v.enterprise_number == old(self).template_fields()[old(self).index()].enterprise_number
                        && v.data@ == old(self).remaining().subrange(start, end)
                        && final(self).remaining() == old(self).remaining().skip(end),
                    Err(e) => r matches Some(Err(f)) && f == e
                        && final(self).remaining() == old(self).remaining(),
                },
    {
        if self.field_idx >= self.template.fields.len() {
            return None;
        }
        let spec = self.template.fields[self.field_idx];
        self.field_idx = self.field_idx + 1;
        if spec.field_length == VARIABLE_LENGTH {
            match decode_variable_length(self.buf) {
                Ok((data, rest)) => {
                    self.buf = rest;
                    Some(Ok(FieldValue::new(spec.information_element_id, spec.enterprise_number, data)))
                }
                Err(e) => Some(Err(e)),
            }
        } else {
            let len = spec.field_length as usize;
            match split(self.buf, len) {
                Ok((data, rest)) => {
                    proof {
                        assert(data@ =~= old(self).remaining().subrange(0, len as int));
                    }
                    self.buf = rest;
                    Some(Ok(FieldValue::new(spec.information_element_id, spec.enterprise_number, data)))
                }
                Err(e) => Some(Err(e)),
            }
        }
    }
}

/// How a variable-length field value is laid out (RFC 7011 7), read
/// straight from the bytes: a first byte below 255 is the data length; a
/// first byte of 255 is followed by the data length as a big-endian 16-bit
/// word, `s[1] * 256 + s[2]`; the data follows the prefix.
pub proof fn lemma_varlen_value_bytes(s: Seq<u8>, f: FieldSpecifier)
    requires
        f.field_length == 0xFFFF,
    ensures
        s.len() == 0 ==> spec_field_step(s, f) == Err::<(int, int), Error>(Error::UnexpectedEof),
        s.len() >= 1 && s[0] < 255 && 1 + s[0] <= s.len() ==> spec_field_step(s, f) == Ok::<(int, int), Error>((1, 1 + s[0])),
        s.len() >= 1 && s[0] < 255 && 1 + s[0] > s.len()
            ==> spec_field_step(s, f) == Err::<(int, int), Error>(Error::VariableLengthOverflow),
        s.len() >= 1 && s[0] == 255 && s.len() < 3 ==> spec_field_step(s, f) == Err::<(int, int), Error>(Error::UnexpectedEof),
        s.len() >= 3 && s[0] == 255 && 3 + s[1] * 256 + s[2] <= s.len()
            ==> spec_field_step(s, f) == Ok::<(int, int), Error>((3, 3 + s[1] * 256 + s[2])),
        s.len() >= 3 && s[0] == 255 && 3 + s[1] * 256 + s[2] > s.len()
            ==> spec_field_step(s, f) == Err::<(int, int), Error>(Error::VariableLengthOverflow),
{
}

/// How the record extent walk steps over a variable-length field whose
/// prefix is at `off`, read straight from the bytes: past a one-byte prefix
/// and `buf[off]` data bytes, or past a three-byte prefix and
/// `buf[off + 1] * 256 + buf[off + 2]` data bytes.
pub proof fn lemma_varlen_extent_bytes(buf: Seq<u8>, off: int, f: FieldSpecifier)
    requires
        f.field_length == 0xFFFF,
        0 <= off,
    ensures
        off >= buf.len() ==> spec_extent_step(buf, off, f) == Err::<int, Error>(Error::UnexpectedEof),
        off < buf.len() && buf[off] < 255 && off + 1 + buf[off] <= usize::MAX
            ==> spec_extent_step(buf, off, f) == Ok::<int, Error>(off + 1 + buf[off]),
        off < buf.len() && buf[off] == 255 && off + 3 > buf.len()
            ==> spec_extent_step(buf, off, f) == Err::<int, Error>(Error::UnexpectedEof),
        off + 3 <= buf.len() && buf[off] == 255 && off + 3 + buf[off + 1] * 256 + buf[off + 2] <= usize::MAX
            ==> spec_extent_step(buf, off, f) == Ok::<int, Error>(off + 3 + buf[off + 1] * 256 + buf[off + 2]),
        off + 3 <= buf.len() && buf[off] == 255 && off + 3 + buf[off + 1] * 256 + buf[off + 2] > usize::MAX
            ==> spec_extent_step(buf, off, f) == Err::<int, Error>(Error::InvalidLength),
{
    if off + 3 <= buf.len() {
        assert(buf.skip(off + 1)[0] == buf[off + 1]);
        assert(buf.skip(off + 1)[1] == buf[off + 2]);
    }
}

/// A record of a template with one variable-length field spans the field's
/// prefix and data, read straight from the bytes.
pub proof fn lemma_single_varlen_record(buf: Seq<u8>, f: FieldSpecifier)
    requires
        f.field_length == 0xFFFF,
        buf.len() <= usize::MAX,
    ensures
        buf.len() >= 3 && buf[0] == 255 && 3 + buf[1] * 256 + buf[2] <= buf.len()
            ==> spec_record_extent(buf, seq![f]) == Ok::<int, Error>(3 + buf[1] * 256 + buf[2]),
        buf.len() >= 1 && buf[0] < 255 && 1 + buf[0] <= buf.len()
            ==> spec_record_extent(buf, seq![f]) == Ok::<int, Error>(1 + buf[0]),
{
    let fs = seq![f];
    assert(fs.len() == 1);
    assert(fs.drop_last() =~= Seq::<FieldSpecifier>::empty());
    assert(fs.last() == f);
    assert(spec_extent_walk(buf, fs.drop_last()) == Ok::<int, Error>(0));
    assert(spec_extent_walk(buf, fs) == spec_extent_step(buf, 0, f));
    lemma_varlen_extent_bytes(buf, 0, f);
}

/// A successful extent walk spans at least the template's minimum record
/// size.
proof fn lemma_extent_min(buf: Seq<u8>, fields: Seq<FieldSpecifier>)
    ensures
        spec_extent_walk(buf, fields) matches Ok(o) ==> o >= spec_min_record_size(fields),
    decreases fields.len(),
{
    if fields.len() > 0 {
        lemma_extent_min(buf, fields.drop_last());
    }
}

/// Each field adds at most 65535 bytes to the minimum record size, so a
/// template of `n` fields needs at most `65535 * n` bytes.
pub proof fn lemma_min_record_size_bound(fields: Seq<FieldSpecifier>)
    ensures
        0 <= spec_min_record_size(fields) <= 65535 * fields.len(),
    decreases fields.len(),
{
    if fields.len() > 0 {
        lemma_min_record_size_bound(fields.drop_last());
    }
}

/// Without variable-length fields, a successful extent walk spans the
/// template's total field length.
proof fn lemma_fixed_extent_walk(buf: Seq<u8>, fields: Seq<FieldSpecifier>)
    requires
        !spec_has_varlen(fields),
        spec_extent_walk(buf, fields) is Ok,
    ensures
        spec_extent_walk(buf, fields) == Ok::<int, Error>(spec_fields_len(fields)),
    decreases fields.len(),
{
    if fields.len() > 0 {
        let dl = fields.drop_last();
        assert forall|i: int| 0 <= i < dl.len() implies !is_varlen(#[trigger] dl[i]) by {
            assert(dl[i] == fields[i]);
        }
        assert(!is_varlen(fields[fields.len() - 1]));
        lemma_fixed_extent_walk(buf, dl);
    }
}

/// A record whose extent is known spans exactly the source record of any
/// plan built from its template: decoding a record that the record iterator
/// yields with such a plan never fails with `UnexpectedEof`, and succeeds
/// exactly when the destination holds the plan's destination length.
pub proof fn lemma_record_fits_plan(buf: Seq<u8>, fields: Seq<FieldSpecifier>, ms: Seq<crate::decode::Mapping>)
    requires
        spec_build(fields, ms) is Ok,
        spec_record_extent(buf, fields) is Ok,
    ensures
        spec_record_extent(buf, fields) == Ok::<int, Error>(build_src(fields, ms)),
{
    lemma_fixed_extent_walk(buf, fields);
    lemma_scan_src(fields, ms);
}

/// The fast extent walk over the compressed layout of a template gives the
/// record extent of the full walk over its fields.
pub proof fn lemma_inline_extent(buf: Seq<u8>, fields: Seq<FieldSpecifier>)
    ensures
        spec_inline_extent(buf, spec_layout(fields).0, spec_layout(fields).1) == spec_record_extent(buf, fields),
{
    lemma_layout_walk(buf, fields);
    lemma_walks_bounded(buf, fields, spec_layout(fields).0);
}

/// The items that iterating the records of `rem` yields, in order, before
/// the first `None`, for a template whose minimum record size is positive:
/// the bytes of each record, up to an error, which ends the iteration.
pub open spec fn spec_record_items(rem: Seq<u8>, fields: Seq<FieldSpecifier>) -> Seq<Result<Seq<u8>>>
    decreases rem.len(),
{
    if spec_min_record_size(fields) <= 0 || rem.len() < spec_min_record_size(fields) {
        Seq::empty()
    } else {
        match spec_record_extent(rem, fields) {
            Ok(n) => if 0 < n <= rem.len() {
                seq![Ok::<Seq<u8>, Error>(rem.take(n))] + spec_record_items(rem.skip(n), fields)
            } else {
                seq![Ok::<Seq<u8>, Error>(rem.take(n))]
            },
            Err(e) => seq![Err::<Seq<u8>, Error>(e)],
        }
    }
}

// ---------------------------------------------------------------------------
// Record extents
// ---------------------------------------------------------------------------

/// Compute the byte extent of one record at the front of `buf` by walking
/// every field of the template.
fn record_extent(buf: &[u8], fields: &[FieldSpecifier]) -> (r: Result<usize>)
    ensures
        match spec_record_extent(buf@, fields@) {
            Ok(n) => r matches Ok(m) && m == n,
            Err(e) => r matches Err(f) && f == e,
        },
{
    let mut offset: usize = 0;
    let n = fields.len();
    let mut i: usize = 0;
    while i < n
        invariant
            n == fields@.len(),
            i <= n,
            spec_extent_walk(buf@, fields@.take(i as int)) == Ok::<int, Error>(offset as int),
        decreases n - i,
    {
        let spec = fields[i];
        proof {
            assert(fields@.take(i + 1).drop_last() =~= fields@.take(i as int));
        }
        let next = if spec.field_length == VARIABLE_LENGTH {
            varlen_extent(buf, offset)
        } else {
            match offset.checked_add(spec.field_length as usize) {
                Some(o) => Ok(o),
                None => Err(Error::InvalidLength),
            }
        };
        match next {
            Ok(o) => {
                offset = o;
            }
            Err(e) => {
                proof {
                    lemma_extent_walk_err(buf@, fields@, i + 1);
                }
                return Err(e);
            }
        }
        i = i + 1;
    }
    proof {
        assert(fields@.take(n as int) =~= fields@);
    }
    if offset > buf.len() {
        return Err(Error::UnexpectedEof);
    }
    Ok(offset)
}

/// The offset just past the variable-length field whose prefix is at
/// `offset`.
fn varlen_extent(buf: &[u8], offset: usize) -> (r: Result<usize>)
    ensures
        match spec_varlen_extent(buf@, offset as int) {
            Ok(n) => r matches Ok(m) && m == n,
            Err(e) => r matches Err(f) && f == e,
        },
{
    if offset >= buf.len() {
        return Err(Error::UnexpectedEof);
    }
    let first = buf[offset];
    if first < 255 {
        match offset.checked_add(1 + first as usize) {
            Some(o) => Ok(o),
            None => Err(Error::InvalidLength),
        }
    } else {
        if buf.len() - offset < 3 {
            return Err(Error::UnexpectedEof);
        }
        let len = read_u16(&buf[offset + 1..offset + 3])?;
        proof {
            assert(buf@.subrange(offset + 1, offset + 3) =~= buf@.skip(offset + 1).take(2));
        }
        match offset.checked_add(3 + len as usize) {
            Some(o) => Ok(o),
            None => Err(Error::InvalidLength),
        }
    }
}

/// The number of variable-length fields tracked by the fast extent walk.
const MAX_INLINE_VARLENS: usize = 4;

/// Fast-path record extent for a template with at most four
/// variable-length fields: skip the precomputed runs of fixed bytes and read
/// only the length prefixes.
fn record_extent_inline(buf: &[u8], skips: [u16; 4], count: u8, trailing: u16) -> (r: Result<usize>)
    requires
        count <= 4,
    ensures
        match spec_inline_extent(buf@, skips@.take(count as int).map_values(|x: u16| x as int), trailing as int) {
            Ok(n) => r matches Ok(m) && m == n,
            Err(e) => r matches Err(f) && f == e,
        },
{
    let ghost sk = skips@.take(count as int).map_values(|x: u16| x as int);
    let mut offset: usize = 0;
    let n = count as usize;
    let mut i: usize = 0;
    while i < n
        invariant
            n == count,
            count <= 4,
            i <= n,
            sk == skips@.take(count as int).map_values(|x: u16| x as int),
            spec_skip_walk(buf@, sk.take(i as int)) == Ok::<int, Error>(offset as int),
        decreases n - i,
    {
        proof {
            assert(sk.take(i + 1).drop_last() =~= sk.take(i as int));
        }
        let skip = skips[i];
        let step = match offset.checked_add(skip as usize) {
            Some(o) => varlen_extent(buf, o),
            None => Err(Error::InvalidLength),
        };
        match step {
            Ok(o) => {
                offset = o;
            }
            Err(e) => {
                proof {
                    lemma_skip_walk_err(buf@, sk, i + 1);
                }
                return Err(e);
            }
        }
        i = i + 1;
    }
    proof {
        assert(sk.take(n as int) =~= sk);
    }
    offset = match offset.checked_add(trailing as usize) {
        Some(o) => o,
        None => {
            return Err(Error::InvalidLength);
        }
    };
    if offset > buf.len() {
        return Err(Error::UnexpectedEof);
    }
    Ok(offset)
}

/// The extent computed from a compressed layout.
pub open spec fn spec_inline_extent(buf: Seq<u8>, skips: Seq<int>, trailing: int) -> Result<int> {
    match spec_skip_walk(buf, skips) {
        Ok(o) => match add_checked(o, trailing) {
            Ok(e) => if e > buf.len() {
                Err(Error::UnexpectedEof)
            } else {
                Ok(e)
            },
            Err(e) => Err(e),
        },
        Err(e) => Err(e),
    }
}

/// Precomputed record-extent strategy for a template.
#[derive(Debug, Clone, Copy)]
enum VarlenLayout {
    /// All fields are fixed-length: the record extent is the minimum size.
    AllFixed,
    /// At most four variable-length fields; `skips[i]` fixed bytes precede
    /// variable-length field `i` (since the previous one) and `trailing`
    /// fixed bytes follow the last.
    Inline { skips: [u16; 4], count: u8, trailing: u16 },
    /// Walk every field of the template.
    Fallback,
}

/// `layout` is a correct extent strategy for `fields`.
spec fn layout_matches(layout: VarlenLayout, fields: Seq<FieldSpecifier>) -> bool {
    match layout {
        VarlenLayout::AllFixed => spec_layout(fields).0.len() == 0,
        VarlenLayout::Inline { skips, count, trailing } => count <= 4
            && skips@.take(count as int).map_values(|x: u16| x as int) == spec_layout(fields).0
            && trailing == spec_layout(fields).1,
        VarlenLayout::Fallback => true,
    }
}

/// An iterator over the data records within a Data Set.
///
/// Fewer remaining bytes than the smallest possible record are alignment
/// padding: iteration then ends without an error.
#[derive(Debug, Clone)]
#[non_exhaustive]
pub struct DataRecordIter<'a> {
    buf: &'a [u8],
    template: TemplateRef<'a>,
    min_record_size: usize,
    layout: VarlenLayout,
}

impl<'a> DataRecordIter<'a> {
    /// The precomputed size and strategy agree with the template.
    pub closed spec fn wf(&self) -> bool {
        &&& self.min_record_size == spec_min_record_size(self.template.fields@)
        &&& layout_matches(self.layout, self.template.fields@)
    }

    /// The bytes not yet decoded.
    pub closed spec fn remaining(&self) -> Seq<u8> {
        self.buf@
    }

    /// The field specifiers of the template.
    pub closed spec fn template_fields(&self) -> Seq<FieldSpecifier> {
        self.template.fields@
    }

    /// What the iterator yields from here on, before its first `None`.
    pub open spec fn items(&self) -> Seq<Result<Seq<u8>>> {
        spec_record_items(self.remaining(), self.template_fields())
    }

    /// Create a new iterator over the records in `buf` (the `records` of a
    /// Data Set) under `template`.
    ///
    /// The template's minimum record size must fit in a `usize`.
    pub fn new(buf: &'a [u8], template: TemplateRef<'a>) -> (r: Self)
        requires
            spec_min_record_size(template.fields@) <= usize::MAX,
        ensures
            r.wf(),
            r.remaining() == buf@,
            r.template_fields() == template.fields@,
    {
        let fields = template.fields;
        let n = fields.len();
        let mut min_record_size: usize = 0;
        let mut skips: [u16; 4] = [0u16; 4];
        let mut count: u8 = 0;
        let mut overflow = false;
        let mut last_end: usize = 0;
        let mut i: usize = 0;
        while i < n
            invariant
                n == fields@.len(),
                i <= n,
                spec_min_record_size(fields@) <= usize::MAX,
                min_record_size == spec_min_record_size(fields@.take(i as int)),
                last_end <= min_record_size,
                min_record_size - last_end == spec_layout(fields@.take(i as int)).1,
                count <= 4,
                !overflow ==> skips@.take(count as int).map_values(|x: u16| x as int) == spec_layout(fields@.take(i as int)).0,
                (count == 0 && !overflow) ==> spec_layout(fields@.take(i as int)).0.len() == 0,
            decreases n - i,
        {
            proof {
                assert(fields@.take(i + 1).drop_last() =~= fields@.take(i as int));
                lemma_min_record_size_prefix(fields@, i + 1);
            }
            let f = fields[i];
            let ghost old_skips = skips@;
            let ghost old_count = count;
            if f.field_length == VARIABLE_LENGTH {
                let idx = count as usize;
                if idx < MAX_INLINE_VARLENS {
                    let skip = min_record_size - last_end;
                    if skip <= 0xFFFF {
                        skips[idx] = skip as u16;
                        count = count + 1;
                        proof {
                            if !overflow {
                                assert(skips@.take(count as int).map_values(|x: u16| x as int)
                                    =~= old_skips.take(old_count as int).map_values(|x: u16| x as int).push(skip as int));
                            }
                        }
                    } else {
                        overflow = true;
                    }
                } else {
                    overflow = true;
                }
                min_record_size = min_record_size + 1;
                last_end = min_record_size;
            } else {
                min_record_size = min_record_size + f.field_length as usize;
            }
            i = i + 1;
        }
        proof {
            assert(fields@.take(n as int) =~= fields@);
            lemma_layout_size(fields@);
        }
        let layout = if count == 0 && !overflow {
            VarlenLayout::AllFixed
        } else if overflow {
            VarlenLayout::Fallback
        } else if min_record_size - last_end <= 0xFFFF {
            VarlenLayout::Inline { skips, count, trailing: (min_record_size - last_end) as u16 }
        } else {
            VarlenLayout::Fallback
        };
        DataRecordIter { buf, template, min_record_size, layout }
    }

    /// Decode the next record.
    ///
    /// Returns `None` once fewer bytes than the smallest possible record
    /// remain. After an error the remaining bytes are discarded. Over a whole
    /// iteration (for a template whose minimum record size is positive) the
    /// iterator yields exactly `items()` and then `None` on every call.
    pub fn next(&mut self) -> (r: Option<Result<DataRecord<'a>>>)
        requires
            old(self).wf(),
        ensures
            final(self).wf(),
            final(self).template_fields() == old(self).template_fields(),
            old(self).remaining().len() < spec_min_record_size(old(self).template_fields())
                ==> r is None && final(self).remaining().len() == 0,
            old(self).remaining().len() >= spec_min_record_size(old(self).template_fields())
                ==> match spec_record_extent(old(self).remaining(), old(self).template_fields()) {
                    Ok(n) => r matches Some(Ok(rec)) && rec.raw_bytes() == old(self).remaining().take(n)
                        && rec.template_fields() == old(self).template_fields()
                        && final(self).remaining() == old(self).remaining().skip(n),
                    Err(e) => r matches Some(Err(f)) && f == e && final(self).remaining().len() == 0,
                },
            spec_min_record_size(old(self).template_fields()) > 0 ==> match r {
                None => old(self).items().len() == 0 && final(self).items().len() == 0,
                Some(Ok(rec)) => old(self).items() == seq![Ok::<Seq<u8>, Error>(rec.raw_bytes())] + final(self).items(),
                Some(Err(e)) => old(self).items() == seq![Err::<Seq<u8>, Error>(e)] && final(self).items().len() == 0,
            },
    {
        proof {
            lemma_extent_min(self.buf@, self.template.fields@);
            lemma_layout_walk(self.buf@, self.template.fields@);
            lemma_layout_size(self.template.fields@);
        }
        if self.buf.len() < self.min_record_size {
            self.buf = &[];
            return None;
        }
        let extent_result = match self.layout {
            VarlenLayout::AllFixed => Ok(self.min_record_size),
            VarlenLayout::Inline { skips, count, trailing } => record_extent_inline(self.buf, skips, count, trailing),
            VarlenLayout::Fallback => record_extent(self.buf, self.template.fields),
        };
        let extent = match extent_result {
            Ok(len) => len,
            Err(e) => {
                self.buf = &[];
                return Some(Err(e));
            }
        };
        let (record_bytes, rest) = self.buf.split_at(extent);
        self.buf = rest;
        Some(Ok(DataRecord { raw: record_bytes, template: self.template }))
    }
}

} // verus!
