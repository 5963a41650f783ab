//! IPFIX message header (RFC 7011 3.1).
//!
//! ```text
//! |       Version Number          |            Length             |
//! |                         Export Time                           |
//! |                       Sequence Number                         |
//! |                    Observation Domain ID                      |
//! ```

use vstd::prelude::*;
use crate::error::{Error, Result};
use crate::util::{be_u16, be_u32, read_u16, read_u32};

verus! {

/// The wire size of the IPFIX message header in bytes.
pub const HEADER_LEN: usize = 16;

/// The IPFIX version number as it appears on the wire (0x000a = 10).
pub const VERSION: u16 = 0x000a;

/// A decoded IPFIX message header; all fields are copied from the wire.
#[derive(Debug, Clone, Copy, PartialEq, Eq, Structural)]
#[non_exhaustive]
pub struct MessageHeader {
    /// IPFIX version. Always 10 for valid messages.
    pub version: u16,
    /// Total length of the message in bytes, including this header.
    pub length: u16,
    /// Unix timestamp (seconds) at which the message was exported.
    pub export_time: u32,
    /// Incremental sequence counter modulo 2^32.
    pub sequence_number: u32,
    /// Observation Domain ID scoping the contained records.
    pub observation_domain_id: u32,
}

/// Outcome of decoding a message header from `s`: the header and the range
/// of `s` that holds the message's sets.
pub open spec fn spec_message_header(s: Seq<u8>) -> Result<(MessageHeader, int, int)> {
    if s.len() < 16 {
        Err(Error::UnexpectedEof)
    } else if be_u16(s) != 10 {
        Err(Error::InvalidVersion)
    } else if be_u16(s.skip(2)) < 16 || be_u16(s.skip(2)) > s.len() {
        Err(Error::InvalidLength)
    } else {
        Ok((MessageHeader {
            version: 10,
            length: be_u16(s.skip(2)) as u16,
            export_time: be_u32(s.skip(4)) as u32,
            sequence_number: be_u32(s.skip(8)) as u32,
            observation_domain_id: be_u32(s.skip(12)) as u32,
        }, 16, be_u16(s.skip(2))))
    }
}

/// How the message header is laid out, read straight from the bytes:
/// version 10 in bytes 0..2, the message length (at least 16, at most the
/// buffer) in bytes 2..4, then the export time, sequence number and
/// Observation Domain ID as big-endian 32-bit words in bytes 4..8, 8..12 and
/// 12..16; the sets are the bytes from 16 up to the message length.
pub proof fn lemma_header_bytes(s: Seq<u8>)
    ensures
        s.len() < 16 ==> spec_message_header(s) == Err::<(MessageHeader, int, int), Error>(Error::UnexpectedEof),
        s.len() >= 16 && !(s[0] == 0 && s[1] == 10)
            ==> spec_message_header(s) == Err::<(MessageHeader, int, int), Error>(Error::InvalidVersion),
        s.len() >= 16 && s[0] == 0 && s[1] == 10 && (s[2] * 256 + s[3] < 16 || s[2] * 256 + s[3] > s.len())
            ==> spec_message_header(s) == Err::<(MessageHeader, int, int), Error>(Error::InvalidLength),
        spec_message_header(s) matches Ok((h, start, end)) ==> {
            &&& s.len() >= 16
            &&& h.version == 10
            &&& h.length == s[2] * 256 + s[3]
            &&& h.export_time == s[4] * 0x100_0000 + s[5] * 0x1_0000 + s[6] * 0x100 + s[7]
            &&& h.sequence_number == s[8] * 0x100_0000 + s[9] * 0x1_0000 + s[10] * 0x100 + s[11]
            &&& h.observation_domain_id == s[12] * 0x100_0000 + s[13] * 0x1_0000 + s[14] * 0x100 + s[15]
            &&& start == 16
            &&& end == h.length
            &&& 16 <= end <= s.len()
        },
{
    if s.len() >= 16 {
        assert(s.skip(2)[0] == s[2] && s.skip(2)[1] == s[3]);
        assert(s.skip(4)[0] == s[4] && s.skip(4)[1] == s[5] && s.skip(4)[2] == s[6] && s.skip(4)[3] == s[7]);
        assert(s.skip(8)[0] == s[8] && s.skip(8)[1] == s[9] && s.skip(8)[2] == s[10] && s.skip(8)[3] == s[11]);
        assert(s.skip(12)[0] == s[12] && s.skip(12)[1] == s[13] && s.skip(12)[2] == s[14] && s.skip(12)[3] == s[15]);
    }
}

impl MessageHeader {
    /// Decode a message header from the start of `buf`.
    ///
    /// Returns the header and the set payload: the bytes after the header
    /// up to the message length declared in the header (bytes beyond it are
    /// not part of the message).
    pub fn decode(buf: &[u8]) -> (r: Result<(Self, &[u8])>)
        ensures
            match spec_message_header(buf@) {
                Ok((h, start, end)) => r matches Ok((g, sets)) && g == h && sets@ == buf@.subrange(start, end),
                Err(e) => r matches Err(f) && f == e,
            },
    {
        if buf.len() < HEADER_LEN {
            return Err(Error::UnexpectedEof);
        }
        let version = read_u16(buf)?;
        if version != VERSION {
            return Err(Error::InvalidVersion);
        }
        let length = read_u16(&buf[2..4])?;
        let msg_len = length as usize;
        proof {
            assert(buf@.subrange(2, 4) =~= buf@.skip(2).take(2));
            assert(buf@.subrange(4, 8) =~= buf@.skip(4).take(4));
            assert(buf@.subrange(8, 12) =~= buf@.skip(8).take(4));
            assert(buf@.subrange(12, 16) =~= buf@.skip(12).take(4));
        }
        if msg_len < HEADER_LEN || msg_len > buf.len() {
            return Err(Error::InvalidLength);
        }
        let export_time = read_u32(&buf[4..8])?;
        let sequence_number = read_u32(&buf[8..12])?;
        let observation_domain_id = read_u32(&buf[12..16])?;
        Ok((
            MessageHeader { version, length, export_time, sequence_number, observation_domain_id },
            &buf[HEADER_LEN..msg_len],
        ))
    }
}

} // verus!
