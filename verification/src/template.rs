//! Template and Options Template record decoding (RFC 7011 3.4.1, 3.4.2).

use vstd::prelude::*;
use crate::error::{Error, Result};
use crate::util::{be_u16, be_u32, read_u16, read_u32, split};

verus! {

/// A Template ID. Valid data-set template IDs are in the range 256 to 65535.
pub type TemplateId = u16;

/// Field length value indicating a variable-length IE (RFC 7011 7).
pub const VARIABLE_LENGTH: u16 = 0xFFFF;

/// A single field specifier within a template record.
#[derive(Debug, Clone, Copy, PartialEq, Eq, Structural)]
pub struct FieldSpecifier {
    /// The Information Element identifier (low 15 bits of the IE ID word).
    pub information_element_id: u16,
    /// Enterprise Number, present when the enterprise bit (bit 15) is set.
    pub enterprise_number: Option<u32>,
    /// Declared length in bytes, or `VARIABLE_LENGTH` for variable-length IEs.
    pub field_length: u16,
}

/// The field specifier at the start of `s` and the number of bytes it
/// occupies, or `None` when `s` is too short to hold it.
pub open spec fn spec_field_specifier(s: Seq<u8>) -> Option<(FieldSpecifier, int)> {
    if s.len() < 4 {
        None
    } else {
        let word = be_u16(s);
        let field_length = be_u16(s.skip(2)) as u16;
        if word >= 0x8000 {
            if s.len() < 8 {
                None
            } else {
                Some((FieldSpecifier {
                    information_element_id: (word - 0x8000) as u16,
                    enterprise_number: Some(be_u32(s.skip(4)) as u32),
                    field_length,
                }, 8))
            }
        } else {
            Some((FieldSpecifier {
                information_element_id: word as u16,
                enterprise_number: None,
                field_length,
            }, 4))
        }
    }
}

/// The first `n` field specifiers laid out back to back in `s`, with the
/// number of bytes they occupy; `None` when `s` ends before the `n`th.
pub open spec fn spec_field_specifiers(s: Seq<u8>, n: nat) -> Option<(Seq<FieldSpecifier>, int)>
    decreases n,
{
    if n == 0 {
        Some((Seq::empty(), 0))
    } else {
        match spec_field_specifiers(s, (n - 1) as nat) {
            Some((fs, used)) => match spec_field_specifier(s.skip(used)) {
                Some((f, k)) => Some((fs.push(f), used + k)),
                None => None,
            },
            None => None,
        }
    }
}

impl FieldSpecifier {
    /// An all-zero field specifier, a placeholder for initializing the
    /// scratch buffer of a [`TemplateSetIter`]; its entries are overwritten
    /// before they are read.
    pub fn empty() -> (r: FieldSpecifier)
        ensures
            r == (FieldSpecifier { information_element_id: 0, enterprise_number: None, field_length: 0 }),
    {
        FieldSpecifier { information_element_id: 0, enterprise_number: None, field_length: 0 }
    }

    /// Construct a field specifier from its components.
    pub fn new(information_element_id: u16, enterprise_number: Option<u32>, field_length: u16) -> (r: Self)
        ensures
            r == (FieldSpecifier { information_element_id, enterprise_number, field_length }),
    {
        FieldSpecifier { information_element_id, enterprise_number, field_length }
    }

    /// Returns `true` if this field is variable-length (RFC 7011 7).
    pub fn is_variable_length(&self) -> (r: bool)
        ensures
            r == (self.field_length == VARIABLE_LENGTH),
    {
        self.field_length == VARIABLE_LENGTH
    }

    /// Returns `true` if this is an enterprise-specific IE.
    pub fn is_enterprise(&self) -> (r: bool)
        ensures
            r == self.enterprise_number is Some,
    {
        self.enterprise_number.is_some()
    }

    /// Decode one field specifier from the start of `buf`.
    pub fn decode(buf: &[u8]) -> (r: Result<(Self, &[u8])>)
        ensures
            match spec_field_specifier(buf@) {
                Some((f, k)) => r matches Ok((g, rest)) && g == f && rest@ == buf@.skip(k),
                None => r == Err::<(FieldSpecifier, &[u8]), Error>(Error::UnexpectedEof),
            },
    {
        let (word, rest) = split(buf, 4)?;
        let ie_word = read_u16(word)?;
        let field_length = read_u16(&word[2..4])?;
        proof {
            assert(word@.subrange(2, 4) =~= buf@.skip(2).take(2));
        }
        if ie_word >= 0x8000 {
            let (en_bytes, rest2) = split(rest, 4)?;
            let enterprise_number = read_u32(en_bytes)?;
            proof {
                assert(rest2@ =~= buf@.skip(8));
            }
            Ok((FieldSpecifier {
                information_element_id: ie_word - 0x8000,
                enterprise_number: Some(enterprise_number),
                field_length,
            }, rest2))
        } else {
            Ok((FieldSpecifier { information_element_id: ie_word, enterprise_number: None, field_length }, rest))
        }
    }
}

/// Outcome of decoding one template record from the bytes `s`: the
/// template ID, the scope field count, the field specifiers and the number of
/// bytes the record occupies. `options` selects the Options Template layout;
/// `capacity` is the number of field specifiers the caller can hold.
pub open spec fn spec_template_record(s: Seq<u8>, options: bool, capacity: nat) -> Result<(TemplateId, u16, Seq<FieldSpecifier>, int)> {
    let hdr_len: int = if options { 6 } else { 4 };
    if s.len() < hdr_len {
        Err(Error::UnexpectedEof)
    } else {
        let id = be_u16(s) as u16;
        let field_count = be_u16(s.skip(2));
        let scope: u16 = if options { be_u16(s.skip(4)) as u16 } else { 0 };
        if id < 256 {
            Err(Error::InvalidTemplateId)
        } else if field_count == 0 {
            Err(Error::InvalidLength)
        } else if options && scope == 0 {
            Err(Error::InvalidLength)
        } else if options && scope > field_count {
            Err(Error::InvalidLength)
        } else if field_count > capacity {
            Err(Error::FieldBufferTooSmall)
        } else {
            match spec_field_specifiers(s.skip(hdr_len), field_count as nat) {
                Some((fields, used)) => Ok((id, scope, fields, hdr_len + used)),
                None => Err(Error::UnexpectedEof),
            }
        }
    }
}

/// How many leading slots of the caller's field buffer decoding the
/// template record in `s` may write: the declared field count once the
/// header has been accepted, else none.
pub open spec fn spec_template_written(s: Seq<u8>, options: bool, capacity: nat) -> int {
    let hdr_len: int = if options { 6 } else { 4 };
    if s.len() < hdr_len {
        0
    } else {
        let field_count = be_u16(s.skip(2));
        let scope = if options { be_u16(s.skip(4)) } else { 0 };
        if be_u16(s) < 256 || field_count == 0 || (options && (scope == 0 || scope > field_count))
            || field_count > capacity {
            0
        } else {
            field_count
        }
    }
}

/// How one field specifier is laid out, read straight from the bytes: a
/// 16-bit word whose top bit is the enterprise bit and whose other 15 bits
/// are the IE ID, a 16-bit field length, then, when the enterprise bit is
/// set, a 32-bit enterprise number; all big-endian.
pub proof fn lemma_field_specifier_bytes(s: Seq<u8>)
    ensures
        s.len() < 4 ==> spec_field_specifier(s) is None,
        s.len() >= 4 && s[0] < 128 ==> spec_field_specifier(s) == Some((FieldSpecifier {
            information_element_id: (s[0] * 256 + s[1]) as u16,
            enterprise_number: None,
            field_length: (s[2] * 256 + s[3]) as u16,
        }, 4int)),
        s.len() >= 4 && s[0] >= 128 && s.len() < 8 ==> spec_field_specifier(s) is None,
        s.len() >= 8 && s[0] >= 128 ==> spec_field_specifier(s) == Some((FieldSpecifier {
            information_element_id: ((s[0] - 128) * 256 + s[1]) as u16,
            enterprise_number: Some((s[4] * 0x100_0000 + s[5] * 0x1_0000 + s[6] * 0x100 + s[7]) as u32),
            field_length: (s[2] * 256 + s[3]) as u16,
        }, 8int)),
{
    if s.len() >= 4 {
        assert(s.skip(2)[0] == s[2] && s.skip(2)[1] == s[3]);
    }
    if s.len() >= 8 {
        assert(s.skip(4)[0] == s[4] && s.skip(4)[1] == s[5] && s.skip(4)[2] == s[6] && s.skip(4)[3] == s[7]);
    }
}

/// How a template record is laid out, read straight from the bytes: the
/// template ID (256 or more) in bytes 0..2, the field count in bytes 2..4,
/// for an Options Template the scope field count (between 1 and the field
/// count) in bytes 4..6, then the field specifiers, starting at byte 4 of a
/// regular Template record and at byte 6 of an Options Template record.
pub proof fn lemma_template_record_bytes(s: Seq<u8>, options: bool, capacity: nat)
    ensures
        !options ==> (spec_template_record(s, false, capacity) matches Ok((id, scope, fields, used)) ==> {
            &&& s.len() >= 4
            &&& id == s[0] * 256 + s[1]
            &&& id >= 256
            &&& scope == 0
            &&& fields.len() == s[2] * 256 + s[3]
            &&& 1 <= fields.len() <= capacity
            &&& spec_field_specifiers(s.skip(4), fields.len()) == Some((fields, used - 4))
            &&& used <= s.len()
        }),
        options ==> (spec_template_record(s, true, capacity) matches Ok((id, scope, fields, used)) ==> {
            &&& s.len() >= 6
            &&& id == s[0] * 256 + s[1]
            &&& id >= 256
            &&& scope == s[4] * 256 + s[5]
            &&& fields.len() == s[2] * 256 + s[3]
            &&& 1 <= scope <= fields.len() <= capacity
            &&& spec_field_specifiers(s.skip(6), fields.len()) == Some((fields, used - 6))
            &&& used <= s.len()
        }),
{
    if s.len() >= 6 {
        assert(s.skip(2)[0] == s[2] && s.skip(2)[1] == s[3]);
        assert(s.skip(4)[0] == s[4] && s.skip(4)[1] == s[5]);
    } else if s.len() >= 4 {
        assert(s.skip(2)[0] == s[2] && s.skip(2)[1] == s[3]);
    }
    if s.len() >= 4 {
        lemma_field_specifiers_bounds(s.skip(4), (s[2] * 256 + s[3]) as nat);
    }
    if s.len() >= 6 {
        lemma_field_specifiers_bounds(s.skip(6), (s[2] * 256 + s[3]) as nat);
    }
}

/// Decode `field_count` consecutive field specifiers from `buf` into the
/// front of `fields_buf`, returning the bytes that follow them.
fn decode_fields<'c>(buf: &'c [u8], fields_buf: &mut [FieldSpecifier], field_count: usize) -> (r: Result<&'c [u8]>)
    requires
        field_count <= old(fields_buf)@.len(),
    ensures
        final(fields_buf)@.len() == old(fields_buf)@.len(),
        final(fields_buf)@.skip(field_count as int) == old(fields_buf)@.skip(field_count as int),
        match spec_field_specifiers(buf@, field_count as nat) {
            Some((fields, used)) => r matches Ok(rest) && rest@ == buf@.skip(used)
                && final(fields_buf)@.take(field_count as int) == fields,
            None => r == Err::<&[u8], Error>(Error::UnexpectedEof),
        },
{
    let mut rest = buf;
    let mut i: usize = 0;
    let ghost mut used: int = 0;
    while i < field_count
        invariant
            field_count <= fields_buf@.len(),
            i <= field_count,
            fields_buf@.len() == old(fields_buf)@.len(),
            fields_buf@.skip(field_count as int) == old(fields_buf)@.skip(field_count as int),
            spec_field_specifiers(buf@, i as nat) == Some((fields_buf@.take(i as int), used)),
            0 <= used <= buf@.len(),
            rest@ == buf@.skip(used),
        decreases field_count - i,
    {
        let ghost before = fields_buf@;
        match FieldSpecifier::decode(rest) {
            Ok((spec, after)) => {
                fields_buf[i] = spec;
                proof {
                    assert(fields_buf@.skip(field_count as int) =~= before.skip(field_count as int));
                    let (f, k) = spec_field_specifier(buf@.skip(used)).unwrap();
                    assert(fields_buf@.take(i + 1) =~= before.take(i as int).push(spec));
                    assert(after@ =~= buf@.skip(used + k));
                    used = used + k;
                }
                rest = after;
                i = i + 1;
            }
            Err(e) => {
                proof {
                    lemma_field_specifiers_fail(buf@, i as nat, field_count as nat);
                }
                return Err(e);
            }
        }
    }
    Ok(rest)
}

/// A run of `n` field specifiers holds `n` entries and lies within `s`.
pub proof fn lemma_field_specifiers_bounds(s: Seq<u8>, n: nat)
    ensures
        spec_field_specifiers(s, n) matches Some((fs, used)) ==> fs.len() == n && 0 <= used <= s.len(),
    decreases n,
{
    if n > 0 {
        lemma_field_specifiers_bounds(s, (n - 1) as nat);
    }
}

/// Once the `n`th field specifier cannot be read, no longer run of field
/// specifiers can be read either.
proof fn lemma_field_specifiers_fail(s: Seq<u8>, n: nat, m: nat)
    requires
        n < m,
        spec_field_specifiers(s, n) matches Some((_, used)) && spec_field_specifier(s.skip(used)) is None,
    ensures
        spec_field_specifiers(s, m) is None,
    decreases m - n,
{
    if m == n + 1 {
    } else {
        lemma_field_specifiers_fail(s, n, (m - 1) as nat);
    }
}

/// A decoded template record (Template Set or Options Template Set).
#[derive(Debug, Clone, Copy)]
pub struct TemplateRecord<'a> {
    /// The template ID.
    pub id: TemplateId,
    /// Number of scope fields (Options Templates only; 0 for regular templates).
    pub scope_field_count: u16,
    /// The field specifiers in declaration order.
    pub fields: &'a [FieldSpecifier],
}

/// The contract shared by both template record decoders: on success the
/// record and the remaining bytes are those of `spec_template_record`, and the
/// field specifiers also stand at the front of the caller's buffer.
pub open spec fn template_decoded<'b, 'c>(
    buf: Seq<u8>,
    options: bool,
    old_fields: Seq<FieldSpecifier>,
    new_fields: Seq<FieldSpecifier>,
    r: Result<(TemplateRecord<'b>, &'c [u8])>,
) -> bool {
    &&& new_fields.len() == old_fields.len()
    &&& (r matches Ok((rec, _)) ==> rec.id >= 256)
    &&& new_fields.skip(spec_template_written(buf, options, old_fields.len()))
        == old_fields.skip(spec_template_written(buf, options, old_fields.len()))
    &&& match spec_template_record(buf, options, old_fields.len()) {
        Ok((id, scope, fields, used)) => r matches Ok((rec, rest)) && rec.id == id
            && rec.scope_field_count == scope && rec.fields@ == fields
            && rest@ == buf.skip(used) && new_fields.take(fields.len() as int) == fields,
        Err(e) => r matches Err(f) && f == e,
    }
}

impl<'a> TemplateRecord<'a> {
    /// Construct a template record from its components.
    pub fn new(id: TemplateId, scope_field_count: u16, fields: &'a [FieldSpecifier]) -> (r: Self)
        ensures
            r.id == id,
            r.scope_field_count == scope_field_count,
            r.fields@ == fields@,
    {
        TemplateRecord { id, scope_field_count, fields }
    }

    /// Decode a regular Template record from `buf`, writing its field
    /// specifiers into `fields_buf`.
    ///
    /// On error the front of `fields_buf` may have been overwritten.
    pub fn decode_into<'b, 'c>(buf: &'c [u8], fields_buf: &'b mut [FieldSpecifier]) -> (r: Result<(TemplateRecord<'b>, &'c [u8])>)
        ensures
            template_decoded(buf@, false, old(fields_buf)@, final(fields_buf)@, r),
    {
        let (hdr, rest) = split(buf, 4)?;
        let id = read_u16(hdr)?;
        let field_count = read_u16(&hdr[2..4])? as usize;
        proof {
            assert(hdr@.subrange(2, 4) =~= buf@.skip(2).take(2));
        }
        if id < 256 {
            return Err(Error::InvalidTemplateId);
        }
        if field_count == 0 {
            return Err(Error::InvalidLength);
        }
        if field_count > fields_buf.len() {
            return Err(Error::FieldBufferTooSmall);
        }
        let rest = decode_fields(rest, fields_buf, field_count)?;
        let fb: &'b [FieldSpecifier] = fields_buf;
        let fields = &fb[0..field_count];
        proof {
            assert(fields@ =~= fb@.take(field_count as int));
            lemma_field_specifiers_bounds(buf@.skip(4), field_count as nat);
            let used = spec_field_specifiers(buf@.skip(4), field_count as nat).unwrap().1;
            assert(buf@.skip(4).skip(used) =~= buf@.skip(4 + used));
        }
        Ok((TemplateRecord { id, scope_field_count: 0, fields }, rest))
    }

    /// Decode an Options Template record from `buf`, writing its field
    /// specifiers into `fields_buf`.
    ///
    /// On error the front of `fields_buf` may have been overwritten.
    pub fn decode_options_into<'b, 'c>(buf: &'c [u8], fields_buf: &'b mut [FieldSpecifier]) -> (r: Result<(TemplateRecord<'b>, &'c [u8])>)
        ensures
            template_decoded(buf@, true, old(fields_buf)@, final(fields_buf)@, r),
    {
        let (hdr, rest) = split(buf, 6)?;
        let id = read_u16(hdr)?;
        let field_count = read_u16(&hdr[2..4])? as usize;
        let scope_field_count = read_u16(&hdr[4..6])?;
        proof {
            assert(hdr@.subrange(2, 4) =~= buf@.skip(2).take(2));
            assert(hdr@.subrange(4, 6) =~= buf@.skip(4).take(2));
        }
        if id < 256 {
            return Err(Error::InvalidTemplateId);
        }
        if field_count == 0 {
            return Err(Error::InvalidLength);
        }
        if scope_field_count == 0 {
            return Err(Error::InvalidLength);
        }
        if (scope_field_count as usize) > field_count {
            return Err(Error::InvalidLength);
        }
        if field_count > fields_buf.len() {
            return Err(Error::FieldBufferTooSmall);
        }
        let rest = decode_fields(rest, fields_buf, field_count)?;
        let fb: &'b [FieldSpecifier] = fields_buf;
        let fields = &fb[0..field_count];
        proof {
            assert(fields@ =~= fb@.take(field_count as int));
            lemma_field_specifiers_bounds(buf@.skip(6), field_count as nat);
            let used = spec_field_specifiers(buf@.skip(6), field_count as nat).unwrap().1;
            assert(buf@.skip(6).skip(used) =~= buf@.skip(6 + used));
        }
        Ok((TemplateRecord { id, scope_field_count, fields }, rest))
    }
}

/// Whether a `TemplateSetIter` decodes regular Template records or Options
/// Template records.
#[derive(Debug, Clone, Copy, PartialEq, Eq, Structural)]
#[non_exhaustive]
pub enum TemplateSetKind {
    /// Regular Template Set (Set ID 2).
    Template,
    /// Options Template Set (Set ID 3).
    OptionsTemplate,
}

/// The shortest template record header for `kind`: shorter trailing bytes
/// are alignment padding.
pub open spec fn min_template_header(kind: TemplateSetKind) -> nat {
    match kind {
        TemplateSetKind::Template => 4,
        TemplateSetKind::OptionsTemplate => 6,
    }
}

/// A lending iterator over the template records within a Template Set or
/// Options Template Set.
///
/// Each record yielded borrows the front of the caller's scratch buffer,
/// which the next call overwrites.
#[derive(Debug)]
#[non_exhaustive]
pub struct TemplateSetIter<'r, 'f> {
    buf: &'r [u8],
    fields_buf: &'f mut [FieldSpecifier],
    kind: TemplateSetKind,
    done: bool,
}

impl<'r, 'f> TemplateSetIter<'r, 'f> {
    /// The bytes not yet decoded.
    pub closed spec fn remaining(&self) -> Seq<u8> {
        self.buf@
    }

    /// The scratch buffer of field specifiers.
    pub closed spec fn scratch(&self) -> Seq<FieldSpecifier> {
        self.fields_buf@
    }

    /// The kind of records this iterator decodes.
    pub closed spec fn set_kind(&self) -> TemplateSetKind {
        self.kind
    }

    /// Whether an error has been yielded, after which the iterator is spent.
    pub closed spec fn is_done(&self) -> bool {
        self.done
    }

    /// Create a new iterator over `buf`, using `fields_buf` as scratch
    /// storage for the field specifiers of each yielded template.
    pub fn new(buf: &'r [u8], fields_buf: &'f mut [FieldSpecifier], kind: TemplateSetKind) -> (r: Self)
        ensures
            r.remaining() == buf@,
            r.scratch() == old(fields_buf)@,
            r.set_kind() == kind,
            !r.is_done(),
    {
        TemplateSetIter { buf, fields_buf, kind, done: false }
    }

    /// Decode the next template record.
    ///
    /// Returns `None` when fewer bytes than a record header remain (they are
    /// padding), or once an error has been yielded.
    pub fn next(&mut self) -> (r: Option<Result<TemplateRecord<'_>>>)
        ensures
            final(self).set_kind() == old(self).set_kind(),
            final(self).scratch().len() == old(self).scratch().len(),
            old(self).is_done() ==> r is None && final(self).is_done()
                && final(self).remaining() == old(self).remaining() && final(self).scratch() == old(self).scratch(),
            !old(self).is_done() && old(self).remaining().len() < min_template_header(old(self).set_kind())
                ==> r is None && !final(self).is_done() && final(self).remaining() == old(self).remaining()
                && final(self).scratch() == old(self).scratch(),
            final(self).scratch().skip(spec_template_written(old(self).remaining(), old(self).set_kind() == TemplateSetKind::OptionsTemplate, old(self).scratch().len()))
                == old(self).scratch().skip(spec_template_written(old(self).remaining(), old(self).set_kind() == TemplateSetKind::OptionsTemplate, old(self).scratch().len())),
            !old(self).is_done() && old(self).remaining().len() >= min_template_header(old(self).set_kind())
                ==> match spec_template_record(old(self).remaining(), old(self).set_kind() == TemplateSetKind::OptionsTemplate, old(self).scratch().len()) {
                    Ok((id, scope, fields, used)) => r matches Some(Ok(rec)) && rec.id == id
                        && rec.scope_field_count == scope && rec.fields@ == fields
                        && final(self).scratch().take(fields.len() as int) == fields
                        && !final(self).is_done() && final(self).remaining() == old(self).remaining().skip(used),
                    Err(e) => r matches Some(Err(f)) && f == e && final(self).is_done()
                        && final(self).remaining().len() == 0,
                },
    {
        if self.done {
            return None;
        }
        let min_header: usize = match self.kind {
            TemplateSetKind::Template => 4,
            TemplateSetKind::OptionsTemplate => 6,
        };
        if self.buf.len() < min_header {
            return None;
        }
        let result = match self.kind {
            TemplateSetKind::Template => TemplateRecord::decode_into(self.buf, &mut *self.fields_buf),
            TemplateSetKind::OptionsTemplate => TemplateRecord::decode_options_into(self.buf, &mut *self.fields_buf),
        };
        match result {
            Ok((record, rest)) => {
                self.buf = rest;
                Some(Ok(record))
            }
            Err(e) => {
                self.done = true;
                self.buf = &[];
                Some(Err(e))
            }
        }
    }
}

} // verus!
