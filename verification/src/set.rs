//! IPFIX Set header and set iterator (RFC 7011 3.3).
//!
//! Set ID values: 2 is a Template Set, 3 an Options Template Set, 256 and
//! above a Data Set (the ID is its template ID); 0, 1 and 4 to 255 are
//! reserved.

use vstd::prelude::*;
use crate::error::{Error, Result};
use crate::util::{be_u16, read_u16};

verus! {

/// Wire size of a Set header in bytes.
pub const SET_HEADER_LEN: usize = 4;

/// Set ID for a Template Set.
pub const SET_ID_TEMPLATE: u16 = 2;

/// Set ID for an Options Template Set.
pub const SET_ID_OPTIONS_TEMPLATE: u16 = 3;

/// The first Set ID that is valid for Data Sets.
pub const SET_ID_DATA_MIN: u16 = 256;

/// Whether `id` is in the reserved range: 0, 1, or 4 to 255.
pub open spec fn spec_is_reserved_set_id(id: u16) -> bool {
    id < 256 && id != 2 && id != 3
}

/// Returns `true` if `id` is in the reserved range: 0, 1, or 4 to 255.
pub fn is_reserved_set_id(id: u16) -> (r: bool)
    ensures
        r == spec_is_reserved_set_id(id),
{
    id < SET_ID_DATA_MIN && id != SET_ID_TEMPLATE && id != SET_ID_OPTIONS_TEMPLATE
}

/// The kind of records contained in a [`IpfixSet`].
#[derive(Debug, Clone, Copy, PartialEq, Eq, Structural)]
#[non_exhaustive]
pub enum SetKind {
    /// Template records (Set ID 2).
    Template,
    /// Options Template records (Set ID 3).
    OptionsTemplate,
    /// Data records using the given template ID (Set ID 256 or above).
    Data(u16),
}

/// The kind of a set with the non-reserved ID `id`.
pub open spec fn spec_set_kind(id: u16) -> SetKind {
    if id == 2 {
        SetKind::Template
    } else if id == 3 {
        SetKind::OptionsTemplate
    } else {
        SetKind::Data(id)
    }
}

/// A decoded IPFIX Set; `records` borrows from the input buffer.
#[derive(Debug, Clone, Copy)]
#[non_exhaustive]
pub struct IpfixSet<'a> {
    /// The set ID as it appears on the wire.
    pub set_id: u16,
    /// The kind of set.
    pub kind: SetKind,
    /// The raw record bytes inside this set (excluding the set header).
    pub records: &'a [u8],
}

/// Outcome of decoding one set from the front of `s`: its ID and total
/// length (header included).
pub open spec fn spec_set(s: Seq<u8>) -> Result<(u16, int)> {
    if s.len() < 4 {
        Err(Error::UnexpectedEof)
    } else if be_u16(s.skip(2)) < 4 || be_u16(s.skip(2)) > s.len() {
        Err(Error::InvalidLength)
    } else if spec_is_reserved_set_id(be_u16(s) as u16) {
        Err(Error::ReservedSetId)
    } else {
        Ok((be_u16(s) as u16, be_u16(s.skip(2))))
    }
}

/// How a set is laid out and classified, read straight from the bytes: the
/// set ID in bytes 0..2 and the set length (at least 4, at most the buffer)
/// in bytes 2..4, big-endian. IDs 0, 1 and 4 to 255 are reserved; 2 is a
/// Template Set, 3 an Options Template Set, and every ID of 256 or more a
/// Data Set of that template.
pub proof fn lemma_set_bytes(s: Seq<u8>)
    ensures
        s.len() < 4 ==> spec_set(s) == Err::<(u16, int), Error>(Error::UnexpectedEof),
        s.len() >= 4 && (s[2] * 256 + s[3] < 4 || s[2] * 256 + s[3] > s.len())
            ==> spec_set(s) == Err::<(u16, int), Error>(Error::InvalidLength),
        s.len() >= 4 && 4 <= s[2] * 256 + s[3] <= s.len() && s[0] * 256 + s[1] < 256
            && s[0] * 256 + s[1] != 2 && s[0] * 256 + s[1] != 3
            ==> spec_set(s) == Err::<(u16, int), Error>(Error::ReservedSetId),
        s.len() >= 4 && 4 <= s[2] * 256 + s[3] <= s.len() && (s[0] * 256 + s[1] >= 256
            || s[0] * 256 + s[1] == 2 || s[0] * 256 + s[1] == 3)
            ==> spec_set(s) == Ok::<(u16, int), Error>(((s[0] * 256 + s[1]) as u16, s[2] * 256 + s[3])),
        forall|id: u16| id >= 256 ==> #[trigger] spec_set_kind(id) == SetKind::Data(id),
        spec_set_kind(2) == SetKind::Template,
        spec_set_kind(3) == SetKind::OptionsTemplate,
{
    if s.len() >= 4 {
        assert(s.skip(2)[0] == s[2] && s.skip(2)[1] == s[3]);
    }
}

/// `set` and `rest` are what decoding the front of `s` gives.
pub open spec fn set_decoded<'a, 'b>(s: Seq<u8>, r: Result<(IpfixSet<'a>, &'b [u8])>) -> bool {
    match spec_set(s) {
        Ok((id, len)) => r matches Ok((set, rest)) && set.set_id == id && set.kind == spec_set_kind(id)
            && set.records@ == s.subrange(4, len) && rest@ == s.skip(len),
        Err(e) => r matches Err(f) && f == e,
    }
}

impl<'a> IpfixSet<'a> {
    /// Decode one set from the start of `buf`, returning it and the bytes
    /// after it.
    pub fn decode(buf: &'a [u8]) -> (r: Result<(Self, &'a [u8])>)
        ensures
            set_decoded(buf@, r),
    {
        if buf.len() < SET_HEADER_LEN {
            return Err(Error::UnexpectedEof);
        }
        let set_id = read_u16(buf)?;
        let length = read_u16(&buf[2..4])? as usize;
        proof {
            assert(buf@.subrange(2, 4) =~= buf@.skip(2).take(2));
        }
        if length < SET_HEADER_LEN || length > buf.len() {
            return Err(Error::InvalidLength);
        }
        if is_reserved_set_id(set_id) {
            return Err(Error::ReservedSetId);
        }
        let kind = if set_id == SET_ID_TEMPLATE {
            SetKind::Template
        } else if set_id == SET_ID_OPTIONS_TEMPLATE {
            SetKind::OptionsTemplate
        } else {
            SetKind::Data(set_id)
        };
        let records = &buf[SET_HEADER_LEN..length];
        let after = &buf[length..buf.len()];
        Ok((IpfixSet { set_id, kind, records }, after))
    }
}

/// An iterator over the [`IpfixSet`]s within an IPFIX message payload.
///
/// Yields `Result<IpfixSet>`; after an error it yields nothing more.
#[derive(Debug, Clone)]
#[non_exhaustive]
pub struct SetIter<'a> {
    buf: &'a [u8],
}

impl<'a> SetIter<'a> {
    /// The bytes not yet decoded.
    pub closed spec fn remaining(&self) -> Seq<u8> {
        self.buf@
    }

    /// Create a new iterator over the sets in `buf` (the bytes after the
    /// message header).
    pub fn new(buf: &'a [u8]) -> (r: Self)
        ensures
            r.remaining() == buf@,
    {
        SetIter { buf }
    }

    /// Returns `true` if there are no more bytes to decode.
    pub fn is_empty(&self) -> (r: bool)
        ensures
            r == (self.remaining().len() == 0),
    {
        self.buf.len() == 0
    }

    /// Decode the next set.
    ///
    /// Fewer than four remaining bytes are alignment padding: iteration ends
    /// without an error. After an error the remaining bytes are discarded.
    pub fn next(&mut self) -> (r: Option<Result<IpfixSet<'a>>>)
        ensures
            old(self).remaining().len() < 4 ==> r is None && final(self).remaining().len() == 0,
            old(self).remaining().len() >= 4 ==> match spec_set(old(self).remaining()) {
                Ok((id, len)) => r matches Some(Ok(set)) && set.set_id == id && set.kind == spec_set_kind(id)
                    && set.records@ == old(self).remaining().subrange(4, len)
                    && final(self).remaining() == old(self).remaining().skip(len),
                Err(e) => r matches Some(Err(f)) && f == e && final(self).remaining().len() == 0,
            },
    {
        if self.buf.len() < SET_HEADER_LEN {
            self.buf = &[];
            return None;
        }
        match IpfixSet::decode(self.buf) {
            Ok((set, rest)) => {
                self.buf = rest;
                Some(Ok(set))
            }
            Err(e) => {
                self.buf = &[];
                Some(Err(e))
            }
        }
    }
}

} // verus!
